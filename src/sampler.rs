//! One-time initialization and the periodic sampling step: raw readings are
//! aggregated first, and only then is each domain's lock taken to fold the
//! result in.

use vstd::prelude::*;
use crate::aggregate::{
    summarize_cpu, summarize_disks, summarize_memory, CoreReading, DiskReading, MemoryReading,
};
use crate::record::{CpuRecord, DiskRecord, MemoryRecord, OsRecord};
use crate::store::MetricsStore;

verus! {

/// Seconds between two sampling steps.
pub const SAMPLE_INTERVAL_SECS: u64 = 10;

/// Everything read from the machine for one sampling step.
#[derive(Debug)]
pub struct SystemReadings {
    pub cores: Vec<CoreReading>,
    pub memory: MemoryReading,
    pub disks: Vec<DiskReading>,
}

/// Relies on chrono's `Local::now` and `DateTime::timestamp`: the current
/// time as whole seconds since the Unix epoch. The value depends on the
/// clock, so nothing is promised of it.
#[verifier::external_body]
fn unix_now() -> (r: i64) {
    chrono::Local::now().timestamp()
}

impl MetricsStore {
    /// Seeds every domain that holds no record yet: each CPU, memory and
    /// disk history starts with exactly one sample taken at `now`, and the
    /// OS record is installed as given.
    pub fn initialize(&self, readings: &SystemReadings, os: OsRecord, now: i64) {
        let disk = summarize_disks(&readings.disks);
        let cpu = summarize_cpu(&readings.cores);
        let memory = summarize_memory(readings.memory);
        self.initialize_cpu(CpuRecord::seeded(&cpu, now));
        self.initialize_memory(MemoryRecord::seeded(&memory, now));
        self.initialize_disk(DiskRecord::seeded(&disk, now));
        self.initialize_os(os);
    }

    /// `initialize` at the current time.
    pub fn initialize_now(&self, readings: &SystemReadings, os: OsRecord) {
        let now = unix_now();
        self.initialize(readings, os, now);
    }

    /// One sampling step at time `now`: the CPU, memory and disk figures are
    /// recomputed from `readings` and each record gets one new sample (two
    /// for disk), the oldest leaving once a history is full.
    pub fn sample(&self, readings: &SystemReadings, now: i64) {
        let cpu = summarize_cpu(&readings.cores);
        let memory = summarize_memory(readings.memory);
        let disk = summarize_disks(&readings.disks);
        self.update_cpu(&cpu, now);
        self.update_memory(&memory, now);
        self.update_disk(&disk, now);
    }

    /// `sample` at the current time.
    pub fn sample_now(&self, readings: &SystemReadings) {
        let now = unix_now();
        self.sample(readings, now);
    }
}

} // verus!
