use sysmetrics::aggregate::{all_metrics, cpu_metrics, memory_metrics, null_response, SystemReadings};
use sysmetrics::cpu::CpuReadings;
use sysmetrics::disk::DiskSpace;
use sysmetrics::model::Ratio;

fn readings(current_frequency: Result<u64, String>) -> SystemReadings {
    SystemReadings {
        cpu: CpuReadings {
            physical_core: Some(8),
            frequencies: vec![2400, 3600],
            current_frequency,
        },
        memory_total: 16_000_000,
        memory_available: 4_000_000,
        disk: Some(DiskSpace {
            total: 500_000,
            free: 100_000,
        }),
        host_name: Some("Windows".to_string()),
        host_pretty: Some("Windows 11 Pro".to_string()),
        host_kernel: Some("10.0.22631".to_string()),
    }
}

#[test]
fn envelope_holds_every_snapshot_and_static_capture_tag() {
    let r = all_metrics(readings(Ok(4100)));
    assert_eq!(r.capture.version, "1.2.0");
    assert_eq!(r.capture.mode, "debug");
    assert_eq!(r.data.cpu.physical_core, 8);
    assert_eq!(r.data.cpu.logical_core, 2);
    assert_eq!(r.data.cpu.frequency, 3600);
    assert_eq!(r.data.cpu.current_frequency, Some(4100));
    assert_eq!(r.data.memory.total_bytes, 16_384_000_000);
    assert_eq!(r.data.memory.used_bytes, 12_288_000_000);
    assert_eq!(r.data.disk.len(), 1);
    assert_eq!(r.data.disk[0].used_bytes, Some(400_000));
    assert_eq!(r.data.host.platform, "11 Pro");
    assert_eq!(r.data.net.len(), 2);
}

#[test]
fn successful_run_still_reports_exactly_one_temperature_error() {
    let r = all_metrics(readings(Ok(4100)));
    assert_eq!(r.errors.len(), 1);
    assert_eq!(r.errors[0].metric, vec!["cpu.temperature".to_string()]);
    assert_eq!(r.errors[0].err, "unable to read CPU temperature");
}

#[test]
fn failed_frequency_read_adds_second_error_in_collection_order() {
    let r = all_metrics(readings(Err("PdhOpenQueryW failed: 1".to_string())));
    assert_eq!(r.errors.len(), 2);
    assert_eq!(r.errors[0].metric, vec!["cpu.current_frequency".to_string()]);
    assert_eq!(r.errors[0].err, "PdhOpenQueryW failed: 1");
    assert_eq!(r.errors[1].metric, vec!["cpu.temperature".to_string()]);
    assert_eq!(r.data.cpu.current_frequency, None);
}

#[test]
fn cpu_endpoint_returns_same_snapshot_without_error_entries() {
    let envelope = all_metrics(readings(Err("PdhAddCounterW failed: 3".to_string())));
    let alone = cpu_metrics(CpuReadings {
        physical_core: Some(8),
        frequencies: vec![2400, 3600],
        current_frequency: Err("PdhAddCounterW failed: 3".to_string()),
    });
    assert_eq!(alone, envelope.data.cpu);
    assert_eq!(envelope.errors.len(), 2);
}

#[test]
fn memory_endpoint_returns_plain_snapshot() {
    let m = memory_metrics(1000, 400);
    assert_eq!(m.total_bytes, 1_024_000);
    assert_eq!(m.available_bytes, 409_600);
    assert_eq!(m.used_bytes, 614_400);
    assert_eq!(
        m.usage,
        Ratio {
            numer: 614_400,
            denom: 1_024_000
        }
    );
}

#[test]
fn undefined_path_body_is_empty_success() {
    assert_eq!(null_response(), "{\"data\": null}");
}
