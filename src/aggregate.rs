//! Turning raw per-core, memory and per-disk counters into the aggregate
//! figures that the records hold. Percentages are kept in tenths of a
//! percent (75.0 % is 750), so that every figure is an exact integer.

use vstd::prelude::*;
use vstd::arithmetic::div_mod::{
    lemma_div_is_ordered,
    lemma_div_multiples_vanish,
    lemma_fundamental_div_mod,
    lemma_fundamental_div_mod_converse,
};

verus! {

pub const BYTES_PER_GB: u64 = 1073741824;

pub const BYTES_PER_MB: u64 = 1048576;

/// What one core reported: its load in thousandths of a percent, its clock
/// frequency, and its brand string (already trimmed).
#[derive(Debug)]
pub struct CoreReading {
    pub usage_millipercent: u64,
    pub frequency_mhz: u64,
    pub brand: String,
}

/// What one disk reported, in bytes.
#[derive(Clone, Copy, Debug, PartialEq, Eq)]
pub struct DiskReading {
    pub total_bytes: u64,
    pub available_bytes: u64,
    pub read_bytes: u64,
    pub written_bytes: u64,
}

/// Memory and swap counters, in bytes.
#[derive(Clone, Copy, Debug, PartialEq, Eq)]
pub struct MemoryReading {
    pub total_bytes: u64,
    pub used_bytes: u64,
    pub swap_total_bytes: u64,
    pub swap_used_bytes: u64,
}

/// `a / b` rounded to the nearest integer, halves rounded up.
pub open spec fn round_div(a: nat, b: nat) -> nat {
    ((2 * a + b) / (2 * b)) as nat
}

pub open spec fn min_nat(a: nat, b: nat) -> nat {
    if a <= b {
        a
    } else {
        b
    }
}

/// `used` as a share of `total`, in tenths of a percent, rounded to the
/// nearest tenth; `used` counts at most up to `total`, and a zero `total`
/// gives zero.
pub open spec fn tenths_of_percent(used: nat, total: nat) -> nat {
    if total == 0 {
        0
    } else {
        round_div(1000 * min_nat(used, total), total)
    }
}

/// The largest value of a `u64`, where a sum that would pass it stops.
pub open spec fn saturate(x: nat) -> nat {
    if x > u64::MAX {
        u64::MAX as nat
    } else {
        x
    }
}

fn round_div_u128(a: u128, b: u128) -> (r: u128)
    requires
        b > 0,
    ensures
        r == round_div(a as nat, b as nat),
        r <= a / b + 1,
{
    let q = a / b;
    let rem = a % b;
    proof {
        lemma_fundamental_div_mod(a as int, b as int);
    }
    if rem >= b - rem {
        proof {
            assert(b >= 2);
            assert(q * b <= a);
            assert(q * 2 <= q * b) by (nonlinear_arith)
                requires
                    b >= 2,
                    q >= 0,
            ;
            assert(2 * a + b == (q + 1) * (2 * b) + (2 * rem + b - 2 * b)) by (nonlinear_arith)
                requires
                    a == b * q + rem,
            ;
            lemma_fundamental_div_mod_converse(
                2 * a + b,
                2 * b,
                q + 1,
                2 * rem + b - 2 * b,
            );
        }
        q + 1
    } else {
        proof {
            assert(2 * a + b == q * (2 * b) + (2 * rem + b)) by (nonlinear_arith)
                requires
                    a == b * q + rem,
            ;
            lemma_fundamental_div_mod_converse(2 * a + b, 2 * b, q as int, 2 * rem + b);
        }
        q
    }
}

/// The used share of a memory or swap total, in tenths of a percent.
/// A zero total gives zero; a used count above the total counts as the
/// total, so the share never passes 100 %.
pub fn percent_tenths(used: u64, total: u64) -> (r: u64)
    ensures
        r == tenths_of_percent(used as nat, total as nat),
        r <= 1000,
{
    if total == 0 {
        return 0;
    }
    let u: u64 = if used <= total {
        used
    } else {
        total
    };
    let a: u128 = 1000 * (u as u128);
    let t: u128 = total as u128;
    let r = round_div_u128(a, t);
    proof {
        lemma_div_is_ordered(2 * a + t, 2 * (1000 * t) + t, 2 * t);
        lemma_fundamental_div_mod_converse(2 * (1000 * t) + t, 2 * t, 1000, t as int);
    }
    r as u64
}

/// The figures drawn from all cores: the first core's brand (none when no
/// core reported), the number of cores, the mean frequency rounded down, and
/// the mean load in tenths of a percent, rounded to the nearest tenth.
#[derive(Debug)]
pub struct CpuSummary {
    pub name: Option<String>,
    pub core_count: u64,
    pub frequency_mhz: u64,
    pub usage_tenths: u64,
}

/// The figures drawn from all disks: sizes in whole gigabytes and transfer
/// counters in whole megabytes, each summed with saturating addition, and
/// the used size, which is the total less the available size (never below
/// zero).
#[derive(Clone, Copy, Debug, PartialEq, Eq)]
pub struct DiskSummary {
    pub total_gb: u64,
    pub available_gb: u64,
    pub used_gb: u64,
    pub read_mb: u64,
    pub written_mb: u64,
}

/// The figures drawn from the memory and swap counters.
#[derive(Clone, Copy, Debug, PartialEq, Eq)]
pub struct MemorySummary {
    pub ram_total_gb: u64,
    pub ram_used_tenths: u64,
    pub swap_total_gb: u64,
    pub swap_used_tenths: u64,
}

pub open spec fn usage_sum(cores: Seq<CoreReading>) -> nat
    decreases cores.len(),
{
    if cores.len() == 0 {
        0
    } else {
        (usage_sum(cores.drop_last()) + cores.last().usage_millipercent) as nat
    }
}

pub open spec fn frequency_sum(cores: Seq<CoreReading>) -> nat
    decreases cores.len(),
{
    if cores.len() == 0 {
        0
    } else {
        (frequency_sum(cores.drop_last()) + cores.last().frequency_mhz) as nat
    }
}

/// Mean load over the cores in tenths of a percent, rounded to the nearest
/// tenth; zero when there is no core.
pub open spec fn mean_usage_tenths(cores: Seq<CoreReading>) -> nat {
    if cores.len() == 0 {
        0
    } else {
        round_div(usage_sum(cores), 100 * cores.len())
    }
}

/// Mean frequency over the cores, rounded down; zero when there is no core.
pub open spec fn mean_frequency(cores: Seq<CoreReading>) -> nat {
    if cores.len() == 0 {
        0
    } else {
        frequency_sum(cores) / cores.len()
    }
}

/// The brand of the first core, if any core reported.
pub open spec fn first_brand(cores: Seq<CoreReading>) -> Option<String> {
    if cores.len() == 0 {
        None
    } else {
        Some(cores[0].brand)
    }
}

/// Aggregates the per-core readings.
pub fn summarize_cpu(cores: &Vec<CoreReading>) -> (r: CpuSummary)
    ensures
        r.name == first_brand(cores@),
        r.core_count == cores@.len(),
        r.frequency_mhz == mean_frequency(cores@),
        r.usage_tenths == mean_usage_tenths(cores@),
{
    let mut usage: u128 = 0;
    let mut freq: u128 = 0;
    let mut i: usize = 0;
    while i < cores.len()
        invariant
            i <= cores@.len(),
            usage == usage_sum(cores@.subrange(0, i as int)),
            freq == frequency_sum(cores@.subrange(0, i as int)),
            usage <= i * (u64::MAX as nat),
            freq <= i * (u64::MAX as nat),
        decreases cores@.len() - i,
    {
        proof {
            assert(cores@.subrange(0, i + 1).drop_last() =~= cores@.subrange(0, i as int));
            assert((i + 1) * (u64::MAX as nat) <= u128::MAX) by (nonlinear_arith)
                requires
                    i + 1 <= u64::MAX,
            ;
        }
        usage = usage + cores[i].usage_millipercent as u128;
        freq = freq + cores[i].frequency_mhz as u128;
        i = i + 1;
    }
    assert(cores@.subrange(0, cores@.len() as int) =~= cores@);
    let n = cores.len();
    if n == 0 {
        return CpuSummary { name: None, core_count: 0, frequency_mhz: 0, usage_tenths: 0 };
    }
    let n128: u128 = n as u128;
    proof {
        lemma_div_is_ordered(freq as int, n128 * (u64::MAX as int), n128 as int);
        lemma_div_multiples_vanish(u64::MAX as int, n128 as int);
    }
    let mean_freq: u128 = freq / n128;
    let d: u128 = 100 * n128;
    let mean_usage: u128 = round_div_u128(usage, d);
    proof {
        let q = usage / d;
        lemma_fundamental_div_mod(usage as int, d as int);
        assert(100 * q <= u64::MAX) by (nonlinear_arith)
            requires
                usage == d * q + usage % d,
                usage % d >= 0,
                usage <= n128 * (u64::MAX as nat),
                d == 100 * n128,
                n128 > 0,
        ;
    }
    CpuSummary {
        name: Some(cores[0].brand.clone()),
        core_count: n as u64,
        frequency_mhz: mean_freq as u64,
        usage_tenths: mean_usage as u64,
    }
}

/// The memory and swap figures: totals in whole gigabytes (rounded down) and
/// used shares in tenths of a percent.
pub fn summarize_memory(m: MemoryReading) -> (r: MemorySummary)
    ensures
        r.ram_total_gb == m.total_bytes / BYTES_PER_GB,
        r.ram_used_tenths == tenths_of_percent(m.used_bytes as nat, m.total_bytes as nat),
        r.swap_total_gb == m.swap_total_bytes / BYTES_PER_GB,
        r.swap_used_tenths == tenths_of_percent(m.swap_used_bytes as nat, m.swap_total_bytes as nat),
{
    MemorySummary {
        ram_total_gb: m.total_bytes / BYTES_PER_GB,
        ram_used_tenths: percent_tenths(m.used_bytes, m.total_bytes),
        swap_total_gb: m.swap_total_bytes / BYTES_PER_GB,
        swap_used_tenths: percent_tenths(m.swap_used_bytes, m.swap_total_bytes),
    }
}

/// A per-disk quantity that the disk summary adds up.
pub enum DiskCounter {
    TotalGb,
    AvailableGb,
    ReadMb,
    WrittenMb,
}

/// One disk's contribution to a counter: sizes in whole gigabytes and
/// transfers in whole megabytes, each rounded down.
pub open spec fn disk_amount(d: DiskReading, c: DiskCounter) -> nat {
    match c {
        DiskCounter::TotalGb => (d.total_bytes / BYTES_PER_GB) as nat,
        DiskCounter::AvailableGb => (d.available_bytes / BYTES_PER_GB) as nat,
        DiskCounter::ReadMb => (d.read_bytes / BYTES_PER_MB) as nat,
        DiskCounter::WrittenMb => (d.written_bytes / BYTES_PER_MB) as nat,
    }
}

/// The exact sum of a counter over the disks.
pub open spec fn disk_sum(disks: Seq<DiskReading>, c: DiskCounter) -> nat
    decreases disks.len(),
{
    if disks.len() == 0 {
        0
    } else {
        disk_sum(disks.drop_last(), c) + disk_amount(disks.last(), c)
    }
}

/// The sum of a counter as saturating addition computes it: the exact sum,
/// or the largest `u64` where the exact sum passes it.
pub open spec fn disk_total(disks: Seq<DiskReading>, c: DiskCounter) -> nat {
    saturate(disk_sum(disks, c))
}

proof fn lemma_saturating_step(acc: u64, sum: nat, x: nat)
    requires
        acc == saturate(sum),
        x <= u64::MAX,
    ensures
        (if acc + x > u64::MAX { u64::MAX as nat } else { (acc + x) as nat }) == saturate(sum + x),
{
}

/// Aggregates the per-disk readings.
pub fn summarize_disks(disks: &Vec<DiskReading>) -> (r: DiskSummary)
    ensures
        r.total_gb == disk_total(disks@, DiskCounter::TotalGb),
        r.available_gb == disk_total(disks@, DiskCounter::AvailableGb),
        r.used_gb == (if r.available_gb <= r.total_gb { r.total_gb - r.available_gb } else { 0 }),
        r.read_mb == disk_total(disks@, DiskCounter::ReadMb),
        r.written_mb == disk_total(disks@, DiskCounter::WrittenMb),
{
    let mut total: u64 = 0;
    let mut available: u64 = 0;
    let mut read: u64 = 0;
    let mut written: u64 = 0;
    let mut i: usize = 0;
    while i < disks.len()
        invariant
            i <= disks@.len(),
            total == disk_total(disks@.subrange(0, i as int), DiskCounter::TotalGb),
            available == disk_total(disks@.subrange(0, i as int), DiskCounter::AvailableGb),
            read == disk_total(disks@.subrange(0, i as int), DiskCounter::ReadMb),
            written == disk_total(disks@.subrange(0, i as int), DiskCounter::WrittenMb),
        decreases disks@.len() - i,
    {
        let d = disks[i];
        proof {
            let pre = disks@.subrange(0, i as int);
            assert(disks@.subrange(0, i + 1).drop_last() =~= pre);
            lemma_saturating_step(total, disk_sum(pre, DiskCounter::TotalGb), disk_amount(d, DiskCounter::TotalGb));
            lemma_saturating_step(available, disk_sum(pre, DiskCounter::AvailableGb), disk_amount(d, DiskCounter::AvailableGb));
            lemma_saturating_step(read, disk_sum(pre, DiskCounter::ReadMb), disk_amount(d, DiskCounter::ReadMb));
            lemma_saturating_step(written, disk_sum(pre, DiskCounter::WrittenMb), disk_amount(d, DiskCounter::WrittenMb));
        }
        total = total.saturating_add(d.total_bytes / BYTES_PER_GB);
        available = available.saturating_add(d.available_bytes / BYTES_PER_GB);
        read = read.saturating_add(d.read_bytes / BYTES_PER_MB);
        written = written.saturating_add(d.written_bytes / BYTES_PER_MB);
        i = i + 1;
    }
    assert(disks@.subrange(0, disks@.len() as int) =~= disks@);
    DiskSummary {
        total_gb: total,
        available_gb: available,
        used_gb: total.saturating_sub(available),
        read_mb: read,
        written_mb: written,
    }
}

/// A zero total gives a share of exactly zero, whatever the used count: for
/// memory and swap through `tenths_of_percent`, and for disks because the
/// used size never exceeds the (zero) total.
pub proof fn lemma_zero_total_zero_share(used: nat, disks: Seq<DiskReading>)
    ensures
        tenths_of_percent(used, 0) == 0,
        disk_total(disks, DiskCounter::TotalGb) == 0 ==> ({
            let total = disk_total(disks, DiskCounter::TotalGb);
            let available = disk_total(disks, DiskCounter::AvailableGb);
            (if available <= total { total - available } else { 0 }) == 0
        }),
{
}

/// Saturating sums never wrap: each disk total is the exact sum while that
/// fits a `u64`, and the largest `u64` once the exact sum would pass it.
pub proof fn lemma_disk_total_saturates(disks: Seq<DiskReading>, c: DiskCounter)
    ensures
        disk_total(disks, c) <= u64::MAX,
        disk_sum(disks, c) <= u64::MAX ==> disk_total(disks, c) == disk_sum(disks, c),
        disk_sum(disks, c) > u64::MAX ==> disk_total(disks, c) == u64::MAX,
        disk_total(disks, c) >= min_nat(disk_sum(disks, c), u64::MAX as nat),
{
}

} // verus!
