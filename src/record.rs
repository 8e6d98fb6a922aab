//! The four per-domain records: the latest aggregate figures of a domain
//! and, for CPU, memory and disk, a capped history of recent samples.

use vstd::prelude::*;
use crate::aggregate::{CpuSummary, DiskSummary, MemorySummary};
use crate::history::{push_capped, push_window, Sample};

verus! {

/// Most CPU and memory samples kept.
pub const HISTORY_CAP: usize = 10;

/// Most disk read and write samples kept.
pub const DISK_HISTORY_CAP: usize = 11;

pub const SECONDS_PER_DAY: u64 = 86400;

/// What every record type offers the store: a well-formedness predicate, a
/// zero value to stand in before the first real reading, and a copy.
pub trait Record: Sized {
    spec fn wf(&self) -> bool;

    /// Whether this is the zero value of its type.
    spec fn is_zero(&self) -> bool;

    /// Whether the two records hold the same figures and histories.
    spec fn same(&self, other: &Self) -> bool;

    fn zero() -> (r: Self)
        ensures
            r.wf(),
            r.is_zero(),
    ;

    fn snapshot(&self) -> (r: Self)
        ensures
            r.same(self),
            self.wf() ==> r.wf(),
            self.is_zero() ==> r.is_zero(),
    ;
}

/// Copies a history element by element.
fn copy_history(h: &Vec<Sample<u64>>) -> (r: Vec<Sample<u64>>)
    ensures
        r@ == h@,
{
    let mut r: Vec<Sample<u64>> = Vec::new();
    let mut i: usize = 0;
    while i < h.len()
        invariant
            i <= h@.len(),
            r@ == h@.subrange(0, i as int),
        decreases h@.len() - i,
    {
        r.push(h[i]);
        i = i + 1;
        assert(r@ =~= h@.subrange(0, i as int));
    }
    assert(h@.subrange(0, h@.len() as int) =~= h@);
    r
}

/// The CPU domain: brand name, mean frequency, core count, mean load in
/// tenths of a percent, and the recent loads.
#[derive(Debug)]
pub struct CpuRecord {
    pub name: String,
    pub frequency_mhz: u64,
    pub core_count: u64,
    pub usage_tenths: u64,
    pub history: Vec<Sample<u64>>,
}

impl Record for CpuRecord {
    /// At most `HISTORY_CAP` samples, the newest of which carries the
    /// current load.
    open spec fn wf(&self) -> bool {
        &&& self.history@.len() <= HISTORY_CAP
        &&& self.history@.len() > 0 ==> self.history@.last().value == self.usage_tenths
    }

    open spec fn is_zero(&self) -> bool {
        &&& self.frequency_mhz == 0
        &&& self.core_count == 0
        &&& self.usage_tenths == 0
        &&& self.history@.len() == 0
    }

    open spec fn same(&self, other: &Self) -> bool {
        &&& self.name@ == other.name@
        &&& self.frequency_mhz == other.frequency_mhz
        &&& self.core_count == other.core_count
        &&& self.usage_tenths == other.usage_tenths
        &&& self.history@ == other.history@
    }

    fn zero() -> (r: Self) {
        CpuRecord {
            name: String::from_str("Undefined CPU"),
            frequency_mhz: 0,
            core_count: 0,
            usage_tenths: 0,
            history: Vec::new(),
        }
    }

    fn snapshot(&self) -> (r: Self) {
        CpuRecord {
            name: self.name.clone(),
            frequency_mhz: self.frequency_mhz,
            core_count: self.core_count,
            usage_tenths: self.usage_tenths,
            history: copy_history(&self.history),
        }
    }
}

impl CpuRecord {
    /// The record as first populated: the summary's figures, the brand of
    /// the first core or "Unknown CPU" when no core reported, and a history
    /// of the one current sample.
    pub fn seeded(s: &CpuSummary, now: i64) -> (r: Self)
        ensures
            r.wf(),
            r.name@ == (match s.name {
                Some(n) => n@,
                None => "Unknown CPU"@,
            }),
            r.frequency_mhz == s.frequency_mhz,
            r.core_count == s.core_count,
            r.usage_tenths == s.usage_tenths,
            r.history@ == seq![Sample { timestamp: now, value: s.usage_tenths }],
    {
        let name = match &s.name {
            Some(n) => n.clone(),
            None => String::from_str("Unknown CPU"),
        };
        let mut history: Vec<Sample<u64>> = Vec::new();
        history.push(Sample { timestamp: now, value: s.usage_tenths });
        CpuRecord {
            name,
            frequency_mhz: s.frequency_mhz,
            core_count: s.core_count,
            usage_tenths: s.usage_tenths,
            history,
        }
    }

    /// Folds in a new summary: the figures are replaced, the name only when
    /// some core reported, and the load is appended to the capped history.
    pub fn apply(&mut self, s: &CpuSummary, now: i64)
        requires
            old(self).wf(),
        ensures
            final(self).wf(),
            final(self).name@ == (match s.name {
                Some(n) => n@,
                None => old(self).name@,
            }),
            final(self).frequency_mhz == s.frequency_mhz,
            final(self).core_count == s.core_count,
            final(self).usage_tenths == s.usage_tenths,
            final(self).history@ == push_window(
                old(self).history@,
                Sample { timestamp: now, value: s.usage_tenths },
                HISTORY_CAP as nat,
            ),
    {
        self.frequency_mhz = s.frequency_mhz;
        self.core_count = s.core_count;
        self.usage_tenths = s.usage_tenths;
        match &s.name {
            Some(n) => {
                self.name = n.clone();
            },
            None => {},
        }
        push_capped(&mut self.history, Sample { timestamp: now, value: s.usage_tenths }, HISTORY_CAP);
    }
}

/// The memory domain: totals in whole gigabytes, used shares in tenths of a
/// percent, and the recent RAM shares.
#[derive(Debug)]
pub struct MemoryRecord {
    pub ram_total_gb: u64,
    pub ram_used_tenths: u64,
    pub swap_total_gb: u64,
    pub swap_used_tenths: u64,
    pub history: Vec<Sample<u64>>,
}

impl Record for MemoryRecord {
    /// At most `HISTORY_CAP` samples, the newest of which carries the
    /// current RAM share.
    open spec fn wf(&self) -> bool {
        &&& self.history@.len() <= HISTORY_CAP
        &&& self.history@.len() > 0 ==> self.history@.last().value == self.ram_used_tenths
    }

    open spec fn is_zero(&self) -> bool {
        &&& self.ram_total_gb == 0
        &&& self.ram_used_tenths == 0
        &&& self.swap_total_gb == 0
        &&& self.swap_used_tenths == 0
        &&& self.history@.len() == 0
    }

    open spec fn same(&self, other: &Self) -> bool {
        &&& self.ram_total_gb == other.ram_total_gb
        &&& self.ram_used_tenths == other.ram_used_tenths
        &&& self.swap_total_gb == other.swap_total_gb
        &&& self.swap_used_tenths == other.swap_used_tenths
        &&& self.history@ == other.history@
    }

    fn zero() -> (r: Self) {
        MemoryRecord {
            ram_total_gb: 0,
            ram_used_tenths: 0,
            swap_total_gb: 0,
            swap_used_tenths: 0,
            history: Vec::new(),
        }
    }

    fn snapshot(&self) -> (r: Self) {
        MemoryRecord {
            ram_total_gb: self.ram_total_gb,
            ram_used_tenths: self.ram_used_tenths,
            swap_total_gb: self.swap_total_gb,
            swap_used_tenths: self.swap_used_tenths,
            history: copy_history(&self.history),
        }
    }
}

impl MemoryRecord {
    /// The record as first populated: the summary's figures and a history of
    /// the one current RAM share.
    pub fn seeded(s: &MemorySummary, now: i64) -> (r: Self)
        ensures
            r.wf(),
            r.ram_total_gb == s.ram_total_gb,
            r.ram_used_tenths == s.ram_used_tenths,
            r.swap_total_gb == s.swap_total_gb,
            r.swap_used_tenths == s.swap_used_tenths,
            r.history@ == seq![Sample { timestamp: now, value: s.ram_used_tenths }],
    {
        let mut history: Vec<Sample<u64>> = Vec::new();
        history.push(Sample { timestamp: now, value: s.ram_used_tenths });
        MemoryRecord {
            ram_total_gb: s.ram_total_gb,
            ram_used_tenths: s.ram_used_tenths,
            swap_total_gb: s.swap_total_gb,
            swap_used_tenths: s.swap_used_tenths,
            history,
        }
    }

    /// Folds in a new summary: the figures are replaced and the RAM share is
    /// appended to the capped history.
    pub fn apply(&mut self, s: &MemorySummary, now: i64)
        requires
            old(self).wf(),
        ensures
            final(self).wf(),
            final(self).ram_total_gb == s.ram_total_gb,
            final(self).ram_used_tenths == s.ram_used_tenths,
            final(self).swap_total_gb == s.swap_total_gb,
            final(self).swap_used_tenths == s.swap_used_tenths,
            final(self).history@ == push_window(
                old(self).history@,
                Sample { timestamp: now, value: s.ram_used_tenths },
                HISTORY_CAP as nat,
            ),
    {
        self.ram_total_gb = s.ram_total_gb;
        self.ram_used_tenths = s.ram_used_tenths;
        self.swap_total_gb = s.swap_total_gb;
        self.swap_used_tenths = s.swap_used_tenths;
        push_capped(&mut self.history, Sample { timestamp: now, value: s.ram_used_tenths }, HISTORY_CAP);
    }
}

/// The disk domain: the summed size and the used part of it in whole
/// gigabytes (the used share is `used_gb / total_size_gb`, zero when the
/// size is zero), and the recent cumulative read and written megabytes.
#[derive(Debug)]
pub struct DiskRecord {
    pub total_size_gb: u64,
    pub used_gb: u64,
    pub read_history: Vec<Sample<u64>>,
    pub write_history: Vec<Sample<u64>>,
}

impl Record for DiskRecord {
    /// The used part within the size; two histories of equal length, at
    /// most `DISK_HISTORY_CAP`, whose samples were taken in pairs.
    open spec fn wf(&self) -> bool {
        &&& self.used_gb <= self.total_size_gb
        &&& self.read_history@.len() <= DISK_HISTORY_CAP
        &&& self.write_history@.len() == self.read_history@.len()
        &&& forall|i: int|
            0 <= i < self.read_history@.len() ==> #[trigger] self.read_history@[i].timestamp
                == self.write_history@[i].timestamp
    }

    open spec fn is_zero(&self) -> bool {
        &&& self.total_size_gb == 0
        &&& self.used_gb == 0
        &&& self.read_history@.len() == 0
        &&& self.write_history@.len() == 0
    }

    open spec fn same(&self, other: &Self) -> bool {
        &&& self.total_size_gb == other.total_size_gb
        &&& self.used_gb == other.used_gb
        &&& self.read_history@ == other.read_history@
        &&& self.write_history@ == other.write_history@
    }

    fn zero() -> (r: Self) {
        DiskRecord { total_size_gb: 0, used_gb: 0, read_history: Vec::new(), write_history: Vec::new() }
    }

    fn snapshot(&self) -> (r: Self) {
        DiskRecord {
            total_size_gb: self.total_size_gb,
            used_gb: self.used_gb,
            read_history: copy_history(&self.read_history),
            write_history: copy_history(&self.write_history),
        }
    }
}

impl DiskRecord {
    /// The record as first populated: the summary's size and used part, and
    /// histories of the one current pair of transfer counters.
    pub fn seeded(s: &DiskSummary, now: i64) -> (r: Self)
        requires
            s.used_gb <= s.total_gb,
        ensures
            r.wf(),
            r.total_size_gb == s.total_gb,
            r.used_gb == s.used_gb,
            r.read_history@ == seq![Sample { timestamp: now, value: s.read_mb }],
            r.write_history@ == seq![Sample { timestamp: now, value: s.written_mb }],
    {
        let mut read_history: Vec<Sample<u64>> = Vec::new();
        read_history.push(Sample { timestamp: now, value: s.read_mb });
        let mut write_history: Vec<Sample<u64>> = Vec::new();
        write_history.push(Sample { timestamp: now, value: s.written_mb });
        DiskRecord { total_size_gb: s.total_gb, used_gb: s.used_gb, read_history, write_history }
    }

    /// Folds in a new summary: size and used part are replaced, and one
    /// sample is appended to each capped history.
    pub fn apply(&mut self, s: &DiskSummary, now: i64)
        requires
            old(self).wf(),
            s.used_gb <= s.total_gb,
        ensures
            final(self).wf(),
            final(self).total_size_gb == s.total_gb,
            final(self).used_gb == s.used_gb,
            final(self).read_history@ == push_window(
                old(self).read_history@,
                Sample { timestamp: now, value: s.read_mb },
                DISK_HISTORY_CAP as nat,
            ),
            final(self).write_history@ == push_window(
                old(self).write_history@,
                Sample { timestamp: now, value: s.written_mb },
                DISK_HISTORY_CAP as nat,
            ),
    {
        self.total_size_gb = s.total_gb;
        self.used_gb = s.used_gb;
        push_capped(&mut self.read_history, Sample { timestamp: now, value: s.read_mb }, DISK_HISTORY_CAP);
        push_capped(&mut self.write_history, Sample { timestamp: now, value: s.written_mb }, DISK_HISTORY_CAP);
        proof {
            let r = self.read_history@;
            let w = self.write_history@;
            assert forall|i: int| 0 <= i < r.len() implies #[trigger] r[i].timestamp == w[i].timestamp by {
                if old(self).read_history@.len() + 1 > DISK_HISTORY_CAP {
                    if i + 1 < old(self).read_history@.len() {
                        assert(r[i] == old(self).read_history@[i + 1]);
                        assert(w[i] == old(self).write_history@[i + 1]);
                    }
                } else if i < old(self).read_history@.len() {
                    assert(r[i] == old(self).read_history@[i]);
                    assert(w[i] == old(self).write_history@[i]);
                }
            }
        }
    }
}

/// The operating-system domain: product name, kernel version and whole days
/// of uptime.
#[derive(Debug)]
pub struct OsRecord {
    pub name: String,
    pub kernel_version: String,
    pub uptime_days: u64,
}

impl Record for OsRecord {
    open spec fn wf(&self) -> bool {
        true
    }

    open spec fn is_zero(&self) -> bool {
        &&& self.name@.len() == 0
        &&& self.kernel_version@.len() == 0
        &&& self.uptime_days == 0
    }

    open spec fn same(&self, other: &Self) -> bool {
        &&& self.name@ == other.name@
        &&& self.kernel_version@ == other.kernel_version@
        &&& self.uptime_days == other.uptime_days
    }

    fn zero() -> (r: Self) {
        OsRecord { name: String::new(), kernel_version: String::new(), uptime_days: 0 }
    }

    fn snapshot(&self) -> (r: Self) {
        OsRecord {
            name: self.name.clone(),
            kernel_version: self.kernel_version.clone(),
            uptime_days: self.uptime_days,
        }
    }
}

impl OsRecord {
    /// The record from the resolved product name, the kernel version and the
    /// uptime in seconds, counted in whole days.
    pub fn from_readings(name: String, kernel_version: String, uptime_seconds: u64) -> (r: Self)
        ensures
            r.name@ == name@,
            r.kernel_version@ == kernel_version@,
            r.uptime_days == uptime_seconds / SECONDS_PER_DAY,
    {
        OsRecord { name, kernel_version, uptime_days: uptime_seconds / SECONDS_PER_DAY }
    }
}

} // verus!
