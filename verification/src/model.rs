//! The request-scoped value objects that the collectors produce and the
//! aggregator folds into one envelope.

use vstd::prelude::*;

verus! {

/// An exact ratio in `[0, 1]`: `numer / denom` with a positive denominator.
///
/// Usage fractions are carried as ratios of the underlying byte counts, so
/// that the contracts can speak of them exactly; the boundary that renders
/// JSON divides the two fields out.
#[derive(Clone, Copy, Debug, PartialEq, Eq, Structural)]
pub struct Ratio {
    pub numer: u64,
    pub denom: u64,
}

impl Ratio {
    pub open spec fn wf(self) -> bool {
        0 < self.denom && self.numer <= self.denom
    }

    /// The ratio `part / total`, defined as zero when `total` is zero so that
    /// a usage fraction is never undefined.
    pub open spec fn spec_of(part: u64, total: u64) -> Ratio {
        if total > 0 {
            Ratio { numer: part, denom: total }
        } else {
            Ratio { numer: 0u64, denom: 1u64 }
        }
    }

    pub fn of(part: u64, total: u64) -> (r: Ratio)
        requires
            part <= total,
        ensures
            r == Self::spec_of(part, total),
            r.wf(),
    {
        if total > 0 {
            Ratio { numer: part, denom: total }
        } else {
            Ratio { numer: 0, denom: 1 }
        }
    }
}

/// One point-in-time reading of the processor: core counts, the rated base
/// frequency, and the live frequency where the performance-counter read
/// succeeded.  The temperature is never available in this design.
#[derive(Clone, Copy, Debug, PartialEq, Eq)]
pub struct CPUData {
    pub physical_core: usize,
    pub logical_core: usize,
    pub frequency: u64,
    pub current_frequency: Option<u64>,
    pub temperature_c: Option<i64>,
}

/// One point-in-time reading of physical memory, in bytes.
#[derive(Clone, Copy, Debug, PartialEq, Eq, Structural)]
pub struct MemoryData {
    pub total_bytes: u64,
    pub available_bytes: u64,
    pub used_bytes: u64,
    pub usage: Ratio,
}

/// One queried volume.  All optional fields are present together; a failed
/// volume query yields no `DiskData` at all.
#[derive(Debug, PartialEq, Eq)]
pub struct DiskData {
    pub device: String,
    pub total_bytes: Option<u64>,
    pub free_bytes: Option<u64>,
    pub used_bytes: Option<u64>,
    pub usage: Option<Ratio>,
}

/// Host identity as the platform reports it, each field defaulting to
/// `"unknown"`, plus the derived `platform` string.
#[derive(Debug, PartialEq, Eq)]
pub struct HostData {
    pub os: String,
    pub platform: String,
    pub kernel_version: String,
    pub pretty_name: String,
}

/// One named network interface with its traffic counters.  No live network
/// integration exists, so every counter is zero.
#[derive(Debug, PartialEq, Eq)]
pub struct NetData {
    pub name: String,
    pub bytes_sent: u64,
    pub bytes_recv: u64,
    pub packets_sent: u64,
    pub packets_recv: u64,
    pub err_in: u64,
    pub err_out: u64,
    pub drop_in: u64,
    pub drop_out: u64,
    pub fifo_in: u64,
    pub fifo_out: u64,
}

/// The static version/mode tag that every aggregated response carries.
#[derive(Debug, PartialEq, Eq)]
pub struct CaptureMeta {
    pub version: String,
    pub mode: String,
}

/// One recoverable per-metric failure: an identifier path such as
/// `cpu.temperature`, and a human-readable message.
#[derive(Debug, PartialEq, Eq)]
pub struct MetricError {
    pub metric: Vec<String>,
    pub err: String,
}

/// All snapshots of one aggregated request.
#[derive(Debug, PartialEq, Eq)]
pub struct AllData {
    pub cpu: CPUData,
    pub memory: MemoryData,
    pub disk: Vec<DiskData>,
    pub host: HostData,
    pub net: Vec<NetData>,
}

/// The top-level aggregated response: the data, the capture tag, and the
/// per-metric errors in collection order.
#[derive(Debug, PartialEq, Eq)]
pub struct AllMetrics {
    pub data: AllData,
    pub capture: CaptureMeta,
    pub errors: Vec<MetricError>,
}

/// Holds of an error entry whose identifier path is the single segment `id`
/// and whose message is `msg`.
pub open spec fn is_metric_error(e: MetricError, id: Seq<char>, msg: Seq<char>) -> bool {
    &&& e.metric@.len() == 1
    &&& e.metric@[0]@ == id
    &&& e.err@ == msg
}

} // verus!
