//! The shared metrics store: one independently locked slot per domain.
//! Each slot starts uninitialized; the first read or the initializer fills
//! it, and every write replaces the whole record under the slot's lock.

use vstd::prelude::*;
use vstd::rwlock::{RwLock, RwLockPredicate};
use crate::aggregate::{CpuSummary, DiskSummary, MemorySummary};
use crate::history::{push_window, Sample};
use crate::record::{CpuRecord, DiskRecord, MemoryRecord, OsRecord, Record, DISK_HISTORY_CAP, HISTORY_CAP};

verus! {

/// One domain's state: no record yet, or the current record.
#[derive(Debug)]
pub enum Slot<R> {
    Uninitialized,
    Ready(R),
}

impl<R: Record> Slot<R> {
    pub open spec fn wf(&self) -> bool {
        match self {
            Slot::Uninitialized => true,
            Slot::Ready(r) => r.wf(),
        }
    }

    pub fn new() -> (s: Self)
        ensures
            s is Uninitialized,
    {
        Slot::Uninitialized
    }

    /// A copy of the current record. An uninitialized slot first becomes
    /// ready with the zero record, so a read never fails and reading twice
    /// gives the same record.
    pub fn read(&mut self) -> (r: R)
        requires
            old(self).wf(),
        ensures
            final(self).wf(),
            *final(self) is Ready,
            r.same(&(*final(self))->Ready_0),
            r.wf(),
            match *old(self) {
                Slot::Uninitialized => r.is_zero() && (*final(self))->Ready_0.is_zero(),
                Slot::Ready(_) => *final(self) == *old(self),
            },
    {
        if let Slot::Ready(x) = &*self {
            return x.snapshot();
        }
        let z = R::zero();
        let r = z.snapshot();
        *self = Slot::Ready(z);
        r
    }

    /// Installs `rec` unless the slot already holds a record, which then
    /// stays as it is.
    pub fn initialize(&mut self, rec: R)
        ensures
            match *old(self) {
                Slot::Uninitialized => *final(self) == Slot::Ready(rec),
                Slot::Ready(_) => *final(self) == *old(self),
            },
    {
        if let Slot::Uninitialized = self {
            *self = Slot::Ready(rec);
        }
    }

    /// The record held, or the zero record for an uninitialized slot.
    pub fn into_current(self) -> (r: R)
        requires
            self.wf(),
        ensures
            r.wf(),
            match self {
                Slot::Uninitialized => r.is_zero(),
                Slot::Ready(x) => r == x,
            },
    {
        match self {
            Slot::Ready(x) => x,
            Slot::Uninitialized => R::zero(),
        }
    }
}

/// The history a slot's record has before an update: none for an
/// uninitialized slot.
pub open spec fn prior_history(h: Option<Seq<Sample<u64>>>) -> Seq<Sample<u64>> {
    match h {
        Some(x) => x,
        None => Seq::empty(),
    }
}

impl Slot<CpuRecord> {
    /// Folds a CPU summary into the current record (the zero record for an
    /// uninitialized slot); the slot then holds the result.
    pub fn update_cpu(&mut self, s: &CpuSummary, now: i64)
        requires
            old(self).wf(),
        ensures
            final(self).wf(),
            *final(self) is Ready,
            ({
                let r = (*final(self))->Ready_0;
                let prior = match *old(self) {
                    Slot::Ready(x) => Some(x.history@),
                    Slot::Uninitialized => None,
                };
                &&& r.frequency_mhz == s.frequency_mhz
                &&& r.core_count == s.core_count
                &&& r.usage_tenths == s.usage_tenths
                &&& r.history@ == push_window(
                    prior_history(prior),
                    Sample { timestamp: now, value: s.usage_tenths },
                    HISTORY_CAP as nat,
                )
                &&& s.name is Some ==> r.name@ == s.name->Some_0@
                &&& (s.name is None && *old(self) is Ready) ==> r.name@ == (*old(self))->Ready_0.name@
            }),
    {
        let mut cur = Slot::Uninitialized;
        std::mem::swap(self, &mut cur);
        let mut rec = cur.into_current();
        rec.apply(s, now);
        *self = Slot::Ready(rec);
    }
}

impl Slot<MemoryRecord> {
    /// Folds a memory summary into the current record (the zero record for
    /// an uninitialized slot); the slot then holds the result.
    pub fn update_memory(&mut self, s: &MemorySummary, now: i64)
        requires
            old(self).wf(),
        ensures
            final(self).wf(),
            *final(self) is Ready,
            ({
                let r = (*final(self))->Ready_0;
                let prior = match *old(self) {
                    Slot::Ready(x) => Some(x.history@),
                    Slot::Uninitialized => None,
                };
                &&& r.ram_total_gb == s.ram_total_gb
                &&& r.ram_used_tenths == s.ram_used_tenths
                &&& r.swap_total_gb == s.swap_total_gb
                &&& r.swap_used_tenths == s.swap_used_tenths
                &&& r.history@ == push_window(
                    prior_history(prior),
                    Sample { timestamp: now, value: s.ram_used_tenths },
                    HISTORY_CAP as nat,
                )
            }),
    {
        let mut cur = Slot::Uninitialized;
        std::mem::swap(self, &mut cur);
        let mut rec = cur.into_current();
        rec.apply(s, now);
        *self = Slot::Ready(rec);
    }
}

impl Slot<DiskRecord> {
    /// Folds a disk summary into the current record (the zero record for an
    /// uninitialized slot); the slot then holds the result.
    pub fn update_disk(&mut self, s: &DiskSummary, now: i64)
        requires
            old(self).wf(),
            s.used_gb <= s.total_gb,
        ensures
            final(self).wf(),
            *final(self) is Ready,
            ({
                let r = (*final(self))->Ready_0;
                let (reads, writes) = match *old(self) {
                    Slot::Ready(x) => (Some(x.read_history@), Some(x.write_history@)),
                    Slot::Uninitialized => (None, None),
                };
                &&& r.total_size_gb == s.total_gb
                &&& r.used_gb == s.used_gb
                &&& r.read_history@ == push_window(
                    prior_history(reads),
                    Sample { timestamp: now, value: s.read_mb },
                    DISK_HISTORY_CAP as nat,
                )
                &&& r.write_history@ == push_window(
                    prior_history(writes),
                    Sample { timestamp: now, value: s.written_mb },
                    DISK_HISTORY_CAP as nat,
                )
            }),
    {
        let mut cur = Slot::Uninitialized;
        std::mem::swap(self, &mut cur);
        let mut rec = cur.into_current();
        rec.apply(s, now);
        *self = Slot::Ready(rec);
    }
}

/// What every slot in the store keeps: it is well formed.
pub struct SlotInv;

impl<R: Record> RwLockPredicate<Slot<R>> for SlotInv {
    open spec fn inv(self, v: Slot<R>) -> bool {
        v.wf()
    }
}

fn read_locked<R: Record>(lock: &RwLock<Slot<R>, SlotInv>) -> (r: R)
    ensures
        r.wf(),
{
    let (mut slot, handle) = lock.acquire_write();
    let r = slot.read();
    handle.release_write(slot);
    r
}

fn initialize_locked<R: Record>(lock: &RwLock<Slot<R>, SlotInv>, rec: R)
    requires
        rec.wf(),
{
    let (mut slot, handle) = lock.acquire_write();
    slot.initialize(rec);
    handle.release_write(slot);
}

/// The four domains' slots, each behind its own lock, so that work on one
/// domain never waits on another.
pub struct MetricsStore {
    cpu: RwLock<Slot<CpuRecord>, SlotInv>,
    memory: RwLock<Slot<MemoryRecord>, SlotInv>,
    disk: RwLock<Slot<DiskRecord>, SlotInv>,
    os: RwLock<Slot<OsRecord>, SlotInv>,
}

impl MetricsStore {
    /// A store whose four slots are all uninitialized.
    pub fn new() -> Self {
        MetricsStore {
            cpu: RwLock::new(Slot::Uninitialized, Ghost(SlotInv)),
            memory: RwLock::new(Slot::Uninitialized, Ghost(SlotInv)),
            disk: RwLock::new(Slot::Uninitialized, Ghost(SlotInv)),
            os: RwLock::new(Slot::Uninitialized, Ghost(SlotInv)),
        }
    }

    /// A copy of the current CPU record, the zero record before any other.
    pub fn read_cpu(&self) -> (r: CpuRecord)
        ensures
            r.wf(),
    {
        read_locked(&self.cpu)
    }

    /// A copy of the current memory record, the zero record before any other.
    pub fn read_memory(&self) -> (r: MemoryRecord)
        ensures
            r.wf(),
    {
        read_locked(&self.memory)
    }

    /// A copy of the current disk record, the zero record before any other.
    pub fn read_disk(&self) -> (r: DiskRecord)
        ensures
            r.wf(),
    {
        read_locked(&self.disk)
    }

    /// A copy of the current OS record, the zero record before any other.
    pub fn read_os(&self) -> (r: OsRecord)
        ensures
            r.wf(),
    {
        read_locked(&self.os)
    }

    /// Installs the first CPU record unless the slot already holds one.
    pub fn initialize_cpu(&self, rec: CpuRecord)
        requires
            rec.wf(),
    {
        initialize_locked(&self.cpu, rec)
    }

    /// Installs the first memory record unless the slot already holds one.
    pub fn initialize_memory(&self, rec: MemoryRecord)
        requires
            rec.wf(),
    {
        initialize_locked(&self.memory, rec)
    }

    /// Installs the first disk record unless the slot already holds one.
    pub fn initialize_disk(&self, rec: DiskRecord)
        requires
            rec.wf(),
    {
        initialize_locked(&self.disk, rec)
    }

    /// Installs the OS record unless the slot already holds one.
    pub fn initialize_os(&self, rec: OsRecord) {
        initialize_locked(&self.os, rec)
    }

    /// Folds a CPU summary into the CPU record (the zero record if there was
    /// none), replacing the record in one step under its lock.
    pub fn update_cpu(&self, s: &CpuSummary, now: i64) {
        let (mut slot, handle) = self.cpu.acquire_write();
        slot.update_cpu(s, now);
        handle.release_write(slot);
    }

    /// Folds a memory summary into the memory record, as `update_cpu` does.
    pub fn update_memory(&self, s: &MemorySummary, now: i64) {
        let (mut slot, handle) = self.memory.acquire_write();
        slot.update_memory(s, now);
        handle.release_write(slot);
    }

    /// Folds a disk summary into the disk record, as `update_cpu` does.
    pub fn update_disk(&self, s: &DiskSummary, now: i64)
        requires
            s.used_gb <= s.total_gb,
    {
        let (mut slot, handle) = self.disk.acquire_write();
        slot.update_disk(s, now);
        handle.release_write(slot);
    }
}

/// Reads and updates exchange whole records under a slot's lock, and every
/// record a read returns is well formed. A torn CPU record, carrying the
/// load of one version and the history of another whose loads differ, is
/// not well formed, so no read can return one.
pub proof fn lemma_torn_cpu_record_excluded(before: CpuRecord, after: CpuRecord, mixed: CpuRecord)
    requires
        before.wf(),
        after.wf(),
        before.history@.len() > 0,
        after.history@.len() > 0,
        before.usage_tenths != after.usage_tenths,
        (mixed.usage_tenths == after.usage_tenths && mixed.history@ == before.history@) || (
        mixed.usage_tenths == before.usage_tenths && mixed.history@ == after.history@),
    ensures
        !mixed.wf(),
{
}

/// The same for memory records: the RAM share of one version with the
/// history of another is not well formed when the two shares differ.
pub proof fn lemma_torn_memory_record_excluded(
    before: MemoryRecord,
    after: MemoryRecord,
    mixed: MemoryRecord,
)
    requires
        before.wf(),
        after.wf(),
        before.history@.len() > 0,
        after.history@.len() > 0,
        before.ram_used_tenths != after.ram_used_tenths,
        (mixed.ram_used_tenths == after.ram_used_tenths && mixed.history@ == before.history@) || (
        mixed.ram_used_tenths == before.ram_used_tenths && mixed.history@ == after.history@),
    ensures
        !mixed.wf(),
{
}

} // verus!
