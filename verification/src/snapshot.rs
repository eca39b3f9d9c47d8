//! The system-metrics snapshot: one immutable capture per tick, held as
//! plain integer values.  Loads and temperatures are carried in tenths (one
//! decimal place of the rendered figure); memory is in the platform's memory
//! units; disk sizes are in bytes.  Reading the counters happens outside the
//! library; the renderer consumes this value deterministically.

use vstd::prelude::*;
use vstd::arithmetic::div_mod::{lemma_div_is_ordered, lemma_div_multiples_vanish};
use vstd::arithmetic::mul::lemma_mul_inequality;

verus! {

/// One mounted disk's usage figures.
pub struct DiskEntry {
    /// Device or volume name.
    pub name: String,
    /// Mount path.
    pub mount: String,
    /// Bytes in use.
    pub used_bytes: u64,
    /// Total capacity in bytes; a zero-capacity entry is skipped when
    /// rendering, never divided by.
    pub total_bytes: u64,
}

/// One point-in-time capture of system resource metrics.
pub struct SystemSnapshot {
    /// Average CPU load over all cores, in tenths of a percent.
    pub cpu_avg_tenths: u64,
    /// Per-core CPU loads, in tenths of a percent, in core order.
    pub core_tenths: Vec<u64>,
    /// Memory in use, in platform memory units.
    pub ram_used: u64,
    /// Total memory, in platform memory units.
    pub ram_total: u64,
    /// Per-disk usage entries.
    pub disks: Vec<DiskEntry>,
    /// CPU temperature in tenths of a degree, where a sensor reports one.
    pub cpu_temp_tenths: Option<u64>,
    /// Seconds since the operating system booted.
    pub uptime_secs: u64,
    /// Capture time, already formatted for display.
    pub timestamp: String,
}

/// Text that stays on one line of the rendered block.
pub open spec fn line_clean(s: Seq<char>) -> bool {
    forall|i: int| 0 <= i < s.len() ==> #[trigger] s[i] != '\n'
}

impl DiskEntry {
    /// A disk entry never claims more use than capacity, and its names keep
    /// to one line.
    pub open spec fn wf(self) -> bool {
        &&& self.used_bytes <= self.total_bytes
        &&& line_clean(self.name@)
        &&& line_clean(self.mount@)
    }
}

impl SystemSnapshot {
    /// A valid capture: memory figures are consistent and nonzero, every
    /// disk entry is well-formed, and the timestamp keeps to one line.
    pub open spec fn wf(self) -> bool {
        &&& 0 < self.ram_total
        &&& self.ram_used <= self.ram_total
        &&& line_clean(self.timestamp@)
        &&& forall|i: int| 0 <= i < self.disks@.len() ==> (#[trigger] self.disks@[i]).wf()
    }
}

/// `used / total` as a percentage in tenths.
pub open spec fn percent_tenths(used: nat, total: nat) -> nat
    recommends
        0 < total,
{
    used * 1000 / total
}

/// Bytes as decimal gigabytes in tenths, rounded half up.
pub open spec fn gb_tenths(bytes: nat) -> nat {
    (bytes + 50_000_000) / 100_000_000
}

/// Computes a usage percentage in tenths.
pub fn calc_percent_tenths(used: u64, total: u64) -> (r: u64)
    requires
        0 < total,
        used <= total,
    ensures
        r == percent_tenths(used as nat, total as nat),
        r <= 1000,
{
    proof {
        lemma_mul_inequality(used as int, total as int, 1000);
        lemma_div_is_ordered(used as int * 1000, total as int * 1000, total as int);
        lemma_div_multiples_vanish(1000, total as int);
    }
    ((used as u128) * 1000 / (total as u128)) as u64
}

/// Converts a byte count to decimal gigabytes in tenths.
pub fn calc_gb_tenths(bytes: u64) -> (r: u64)
    ensures
        r == gb_tenths(bytes as nat),
{
    proof {
        lemma_div_is_ordered(
            bytes as int + 50_000_000,
            u64::MAX as int + 50_000_000,
            100_000_000,
        );
    }
    (((bytes as u128) + 50_000_000) / 100_000_000) as u64
}

} // verus!
