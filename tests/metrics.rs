use rust_server_info::aggregate::{
    percent_tenths, summarize_cpu, summarize_disks, summarize_memory, CoreReading, DiskReading,
    MemoryReading, BYTES_PER_GB, BYTES_PER_MB,
};
use rust_server_info::history::{push_capped, Sample};
use rust_server_info::record::{
    CpuRecord, MemoryRecord, OsRecord, Record, DISK_HISTORY_CAP, HISTORY_CAP,
};
use rust_server_info::sampler::SystemReadings;
use rust_server_info::store::{MetricsStore, Slot};

fn core_reading(usage_percent: u64, freq: u64, brand: &str) -> CoreReading {
    CoreReading {
        usage_millipercent: usage_percent * 1000,
        frequency_mhz: freq,
        brand: brand.to_string(),
    }
}

fn disk_gb(total: u64, available: u64) -> DiskReading {
    DiskReading {
        total_bytes: total * BYTES_PER_GB,
        available_bytes: available * BYTES_PER_GB,
        read_bytes: 0,
        written_bytes: 0,
    }
}

fn readings(usage_percent: u64, read_mb: u64) -> SystemReadings {
    SystemReadings {
        cores: vec![core_reading(usage_percent, 2000, "Test CPU")],
        memory: MemoryReading {
            total_bytes: 8 * BYTES_PER_GB,
            used_bytes: 6 * BYTES_PER_GB,
            swap_total_bytes: 0,
            swap_used_bytes: 0,
        },
        disks: vec![DiskReading {
            total_bytes: 100 * BYTES_PER_GB,
            available_bytes: 40 * BYTES_PER_GB,
            read_bytes: read_mb * BYTES_PER_MB,
            written_bytes: 2 * read_mb * BYTES_PER_MB,
        }],
    }
}

#[test]
fn memory_share_six_of_eight_is_seventy_five() {
    assert_eq!(percent_tenths(6 * BYTES_PER_GB, 8 * BYTES_PER_GB), 750);
    let s = summarize_memory(MemoryReading {
        total_bytes: 8 * BYTES_PER_GB,
        used_bytes: 6 * BYTES_PER_GB,
        swap_total_bytes: 4 * BYTES_PER_GB,
        swap_used_bytes: BYTES_PER_GB,
    });
    assert_eq!(s.ram_total_gb, 8);
    assert_eq!(s.ram_used_tenths, 750);
    assert_eq!(s.swap_total_gb, 4);
    assert_eq!(s.swap_used_tenths, 250);
    assert_eq!(s.ram_used_tenths as f64 / 10.0, 75.0);
}

#[test]
fn share_rounds_to_nearest_tenth() {
    assert_eq!(percent_tenths(1, 3), 333);
    assert_eq!(percent_tenths(2, 3), 667);
    assert_eq!(percent_tenths(1, 8), 125);
    assert_eq!(percent_tenths(1, 16), 63);
    assert_eq!(percent_tenths(0, 16), 0);
    assert_eq!(percent_tenths(16, 16), 1000);
}

#[test]
fn share_never_passes_one_hundred() {
    assert_eq!(percent_tenths(9, 8), 1000);
    assert_eq!(percent_tenths(u64::MAX, 1), 1000);
}

#[test]
fn zero_totals_give_zero_shares() {
    assert_eq!(percent_tenths(0, 0), 0);
    assert_eq!(percent_tenths(12345, 0), 0);
    let s = summarize_memory(MemoryReading {
        total_bytes: 0,
        used_bytes: 5,
        swap_total_bytes: 0,
        swap_used_bytes: 7,
    });
    assert_eq!(s.ram_used_tenths, 0);
    assert_eq!(s.swap_used_tenths, 0);
    let d = summarize_disks(&vec![]);
    assert_eq!(d.total_gb, 0);
    assert_eq!(d.used_gb, 0);
    let d = summarize_disks(&vec![disk_gb(0, 0)]);
    assert_eq!(d.total_gb, 0);
    assert_eq!(d.used_gb, 0);
}

#[test]
fn three_disks_aggregate() {
    let disks = vec![disk_gb(100, 50), disk_gb(200, 100), disk_gb(50, 10)];
    let d = summarize_disks(&disks);
    assert_eq!(d.total_gb, 350);
    assert_eq!(d.available_gb, 160);
    assert_eq!(d.used_gb, 190);
    let percent = d.used_gb as f64 / d.total_gb as f64 * 100.0;
    assert!((percent - 54.285714).abs() < 1e-4);
}

#[test]
fn disk_sizes_round_down_to_whole_units() {
    let disks = vec![
        DiskReading {
            total_bytes: 3 * BYTES_PER_GB - 1,
            available_bytes: BYTES_PER_GB + 5,
            read_bytes: 5 * BYTES_PER_MB - 1,
            written_bytes: 7 * BYTES_PER_MB,
        },
        DiskReading {
            total_bytes: BYTES_PER_GB,
            available_bytes: 0,
            read_bytes: BYTES_PER_MB,
            written_bytes: BYTES_PER_MB - 1,
        },
    ];
    let d = summarize_disks(&disks);
    assert_eq!(d.total_gb, 3);
    assert_eq!(d.available_gb, 1);
    assert_eq!(d.used_gb, 2);
    assert_eq!(d.read_mb, 5);
    assert_eq!(d.written_mb, 7);
}

#[test]
fn disk_sums_saturate_instead_of_wrapping() {
    let one = DiskReading {
        total_bytes: 0,
        available_bytes: 0,
        read_bytes: u64::MAX,
        written_bytes: BYTES_PER_MB,
    };
    let n: usize = (1 << 20) + 1;
    let disks = vec![one; n];
    let d = summarize_disks(&disks);
    assert_eq!(d.read_mb, u64::MAX);
    assert_eq!(d.written_mb, n as u64);
}

#[test]
fn cpu_means_of_four_cores() {
    let cores = vec![
        core_reading(10, 2000, "Brand A"),
        core_reading(20, 2400, "Brand B"),
        core_reading(30, 2600, "Brand C"),
        core_reading(40, 3000, "Brand D"),
    ];
    let s = summarize_cpu(&cores);
    assert_eq!(s.usage_tenths, 250);
    assert_eq!(s.frequency_mhz, 2500);
    assert_eq!(s.core_count, 4);
    assert_eq!(s.name, Some("Brand A".to_string()));
}

#[test]
fn cpu_mean_usage_rounds_and_frequency_floors() {
    let cores = vec![
        CoreReading { usage_millipercent: 12345, frequency_mhz: 1000, brand: String::new() },
        CoreReading { usage_millipercent: 12345, frequency_mhz: 1001, brand: String::new() },
    ];
    let s = summarize_cpu(&cores);
    assert_eq!(s.usage_tenths, 123);
    assert_eq!(s.frequency_mhz, 1000);
    let cores = vec![CoreReading { usage_millipercent: 12350, frequency_mhz: 7, brand: String::new() }];
    assert_eq!(summarize_cpu(&cores).usage_tenths, 124);
}

#[test]
fn no_cores_give_zero_figures_and_no_name() {
    let s = summarize_cpu(&vec![]);
    assert_eq!(s.core_count, 0);
    assert_eq!(s.frequency_mhz, 0);
    assert_eq!(s.usage_tenths, 0);
    assert_eq!(s.name, None);
    let seeded = CpuRecord::seeded(&s, 5);
    assert_eq!(seeded.name, "Unknown CPU");
    let mut rec = CpuRecord::seeded(&summarize_cpu(&vec![core_reading(50, 3000, "Named")]), 1);
    rec.apply(&s, 2);
    assert_eq!(rec.name, "Named");
    assert_eq!(rec.usage_tenths, 0);
    assert_eq!(rec.history.len(), 2);
}

#[test]
fn push_capped_drops_oldest() {
    let mut h: Vec<Sample<u64>> = Vec::new();
    for t in 0..12i64 {
        push_capped(&mut h, Sample { timestamp: t, value: t as u64 }, 10);
    }
    assert_eq!(h.len(), 10);
    assert_eq!(h[0].timestamp, 2);
    assert_eq!(h[9].timestamp, 11);
}

#[test]
fn fresh_store_reads_zero_records() {
    let store = MetricsStore::new();
    let cpu = store.read_cpu();
    assert_eq!(cpu.name, "Undefined CPU");
    assert_eq!(cpu.frequency_mhz, 0);
    assert_eq!(cpu.core_count, 0);
    assert_eq!(cpu.usage_tenths, 0);
    assert!(cpu.history.is_empty());
    let mem = store.read_memory();
    assert_eq!(mem.ram_total_gb, 0);
    assert_eq!(mem.ram_used_tenths, 0);
    assert!(mem.history.is_empty());
    let disk = store.read_disk();
    assert_eq!(disk.total_size_gb, 0);
    assert_eq!(disk.used_gb, 0);
    assert!(disk.read_history.is_empty());
    assert!(disk.write_history.is_empty());
    let os = store.read_os();
    assert_eq!(os.name, "");
    assert_eq!(os.uptime_days, 0);
}

#[test]
fn initialize_seeds_one_sample_each() {
    let store = MetricsStore::new();
    let os = OsRecord::from_readings("Test OS".to_string(), "6.1".to_string(), 3 * 86400 + 5);
    store.initialize(&readings(40, 100), os, 1000);
    let cpu = store.read_cpu();
    assert_eq!(cpu.name, "Test CPU");
    assert_eq!(cpu.usage_tenths, 400);
    assert_eq!(cpu.history, vec![Sample { timestamp: 1000, value: 400 }]);
    let mem = store.read_memory();
    assert_eq!(mem.ram_used_tenths, 750);
    assert_eq!(mem.history, vec![Sample { timestamp: 1000, value: 750 }]);
    let disk = store.read_disk();
    assert_eq!(disk.total_size_gb, 100);
    assert_eq!(disk.used_gb, 60);
    assert_eq!(disk.read_history, vec![Sample { timestamp: 1000, value: 100 }]);
    assert_eq!(disk.write_history, vec![Sample { timestamp: 1000, value: 200 }]);
    let os = store.read_os();
    assert_eq!(os.name, "Test OS");
    assert_eq!(os.kernel_version, "6.1");
    assert_eq!(os.uptime_days, 3);
}

#[test]
fn initialize_keeps_record_materialized_by_earlier_read() {
    let store = MetricsStore::new();
    let before = store.read_cpu();
    store.initialize(&readings(40, 100), OsRecord::zero(), 1000);
    let after = store.read_cpu();
    assert_eq!(after.name, before.name);
    assert_eq!(after.usage_tenths, 0);
    assert!(after.history.is_empty());
    assert_eq!(store.read_memory().ram_used_tenths, 750);
}

#[test]
fn fifteen_samples_keep_most_recent() {
    let store = MetricsStore::new();
    for t in 1..=15i64 {
        store.sample(&readings(t as u64, t as u64), t);
    }
    let cpu = store.read_cpu();
    assert_eq!(cpu.history.len(), HISTORY_CAP);
    let times: Vec<i64> = cpu.history.iter().map(|s| s.timestamp).collect();
    assert_eq!(times, (6..=15).collect::<Vec<i64>>());
    let values: Vec<u64> = cpu.history.iter().map(|s| s.value).collect();
    assert_eq!(values, (6..=15).map(|v| v * 10).collect::<Vec<u64>>());
    assert_eq!(cpu.usage_tenths, 150);
    let mem = store.read_memory();
    assert_eq!(mem.history.len(), HISTORY_CAP);
    assert_eq!(mem.history[0].timestamp, 6);
    let disk = store.read_disk();
    assert_eq!(disk.read_history.len(), DISK_HISTORY_CAP);
    assert_eq!(disk.write_history.len(), DISK_HISTORY_CAP);
    let reads: Vec<u64> = disk.read_history.iter().map(|s| s.value).collect();
    assert_eq!(reads, (5..=15).collect::<Vec<u64>>());
    let writes: Vec<u64> = disk.write_history.iter().map(|s| s.value).collect();
    assert_eq!(writes, (5..=15).map(|v| 2 * v).collect::<Vec<u64>>());
    assert_eq!(disk.read_history[0].timestamp, 5);
}

#[test]
fn history_never_exceeds_caps() {
    let store = MetricsStore::new();
    store.initialize(&readings(1, 1), OsRecord::zero(), 0);
    for t in 1..40i64 {
        store.sample(&readings(2, 2), t);
        assert!(store.read_cpu().history.len() <= HISTORY_CAP);
        assert!(store.read_memory().history.len() <= HISTORY_CAP);
        assert!(store.read_disk().read_history.len() <= DISK_HISTORY_CAP);
    }
}

#[test]
fn slot_read_materializes_zero_once() {
    let mut slot: Slot<MemoryRecord> = Slot::new();
    let first = slot.read();
    assert!(first.history.is_empty());
    assert!(matches!(slot, Slot::Ready(_)));
    slot.initialize(MemoryRecord::seeded(
        &summarize_memory(readings(1, 1).memory),
        3,
    ));
    let second = slot.read();
    assert_eq!(second.ram_used_tenths, 0);
    assert!(second.history.is_empty());
}

#[test]
fn concurrent_reads_see_whole_records() {
    let store = std::sync::Arc::new(MetricsStore::new());
    store.initialize(&readings(1, 1), OsRecord::zero(), 0);
    let runtime = tokio::runtime::Builder::new_multi_thread().worker_threads(2).build().unwrap();
    let writer = {
        let store = store.clone();
        runtime.spawn(async move {
            for t in 1..200i64 {
                store.sample(&readings((t % 100) as u64, t as u64), t);
            }
        })
    };
    for _ in 0..200 {
        let cpu = store.read_cpu();
        assert_eq!(cpu.history.last().unwrap().value, cpu.usage_tenths);
        let disk = store.read_disk();
        assert_eq!(disk.read_history.len(), disk.write_history.len());
        for (r, w) in disk.read_history.iter().zip(disk.write_history.iter()) {
            assert_eq!(r.timestamp, w.timestamp);
            assert_eq!(w.value, 2 * r.value);
        }
    }
    runtime.block_on(writer).unwrap();
}

#[test]
fn slot_update_starts_from_zero_then_folds() {
    let mut slot: Slot<CpuRecord> = Slot::new();
    slot.update_cpu(&summarize_cpu(&vec![core_reading(30, 1500, "Chip")]), 7);
    slot.update_cpu(&summarize_cpu(&vec![]), 8);
    match slot {
        Slot::Ready(r) => {
            assert_eq!(r.name, "Chip");
            assert_eq!(r.usage_tenths, 0);
            assert_eq!(r.core_count, 0);
            assert_eq!(
                r.history,
                vec![Sample { timestamp: 7, value: 300 }, Sample { timestamp: 8, value: 0 }]
            );
        },
        Slot::Uninitialized => panic!("slot left uninitialized"),
    }
}
