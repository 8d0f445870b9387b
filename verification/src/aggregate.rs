//! The aggregator and the route bodies: one envelope per aggregated
//! request, the single-metric responses, and the catch-all body.

use crate::cpu::{cpu_data_of, cpu_error_count, gather_cpu, CpuReadings};
use crate::disk::{disk_data_wf, gather_disk, spec_gather_disk, DiskSpace};
use crate::host::{gather_host, reported_or_unknown, spec_platform};
use crate::memory::{gather_memory, spec_gather_memory};
use crate::model::{
    is_metric_error, AllData, AllMetrics, CPUData, CaptureMeta, MemoryData, MetricError,
};
use crate::net::{gather_net, spec_gather_net};
use vstd::prelude::*;

verus! {

/// Everything one aggregated request reads from the operating system before
/// the collectors run.
#[derive(Debug)]
pub struct SystemReadings {
    pub cpu: CpuReadings,
    pub memory_total: u64,
    pub memory_available: u64,
    pub disk: Option<DiskSpace>,
    pub host_name: Option<String>,
    pub host_pretty: Option<String>,
    pub host_kernel: Option<String>,
}

/// Holds when the readings can be aggregated on this machine: the raw
/// memory values still fit in bytes after scaling.
pub open spec fn readings_fit(r: SystemReadings) -> bool {
    &&& r.memory_total <= u64::MAX / 1024
    &&& r.memory_available <= u64::MAX / 1024
}

/// Builds the full envelope for one aggregated request.  Every snapshot is
/// present whatever the collector outcomes were; the only reportable
/// failures are the CPU collector's, and they arrive in collection order,
/// the temperature entry last.  The capture tag is the static pair
/// `1.2.0` / `debug`.
pub fn all_metrics(readings: SystemReadings) -> (r: AllMetrics)
    requires
        readings_fit(readings),
    ensures
        r.data.cpu == cpu_data_of(readings.cpu),
        r.data.memory == spec_gather_memory(readings.memory_total, readings.memory_available),
        spec_gather_disk(r.data.disk@, readings.disk),
        forall|i: int| 0 <= i < r.data.disk@.len() ==> disk_data_wf(#[trigger] r.data.disk@[i]),
        reported_or_unknown(r.data.host.os@, readings.host_name),
        reported_or_unknown(r.data.host.pretty_name@, readings.host_pretty),
        reported_or_unknown(r.data.host.kernel_version@, readings.host_kernel),
        r.data.host.platform@ == spec_platform(r.data.host.pretty_name@),
        spec_gather_net(r.data.net@),
        r.capture.version@ == "1.2.0"@,
        r.capture.mode@ == "debug"@,
        r.errors@.len() == cpu_error_count(readings.cpu.current_frequency),
        is_metric_error(r.errors@.last(), "cpu.temperature"@, "unable to read CPU temperature"@),
        (readings.cpu.current_frequency matches Err(e) ==> is_metric_error(
            r.errors@[0],
            "cpu.current_frequency"@,
            e@,
        )),
{
    let SystemReadings {
        cpu,
        memory_total,
        memory_available,
        disk,
        host_name,
        host_pretty,
        host_kernel,
    } = readings;
    let mut errors: Vec<MetricError> = Vec::new();
    let cpu_data = gather_cpu(cpu, &mut errors);
    AllMetrics {
        data: AllData {
            cpu: cpu_data,
            memory: gather_memory(memory_total, memory_available),
            disk: gather_disk(disk),
            host: gather_host(host_name, host_pretty, host_kernel),
            net: gather_net(),
        },
        capture: CaptureMeta {
            version: String::from_str("1.2.0"),
            mode: String::from_str("debug"),
        },
        errors,
    }
}

/// The CPU-only response: the same snapshot the aggregated envelope holds,
/// with the collector's error entries discarded rather than surfaced.
pub fn cpu_metrics(readings: CpuReadings) -> (r: CPUData)
    ensures
        r == cpu_data_of(readings),
{
    let mut discarded: Vec<MetricError> = Vec::new();
    gather_cpu(readings, &mut discarded)
}

/// The memory-only response.
pub fn memory_metrics(total: u64, available: u64) -> (r: MemoryData)
    requires
        total <= u64::MAX / 1024,
        available <= u64::MAX / 1024,
    ensures
        r == spec_gather_memory(total, available),
{
    gather_memory(total, available)
}

/// The body served for every undefined path, whatever the method: an empty
/// success, not a missing-resource error.
pub fn null_response() -> (r: String)
    ensures
        r@ == "{\"data\": null}"@,
{
    String::from_str("{\"data\": null}")
}

/// The number of error entries in an aggregated response depends only on
/// which sub-collector reads failed: two runs whose live-frequency reads
/// agree on success carry the same number of entries, and a run whose
/// live-frequency read succeeded carries exactly the one temperature entry.
pub proof fn lemma_error_count_depends_only_on_outcome(
    a: Result<u64, String>,
    b: Result<u64, String>,
)
    requires
        a is Ok <==> b is Ok,
    ensures
        cpu_error_count(a) == cpu_error_count(b),
        a is Ok ==> cpu_error_count(a) == 1,
{
}

} // verus!
