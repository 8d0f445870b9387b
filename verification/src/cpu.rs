//! The CPU collector: core counts, the rated base frequency, and the
//! outcome of the live-frequency counter read, with its recoverable errors
//! reported through the caller's error list.

use crate::model::{is_metric_error, CPUData, MetricError};
use crate::text::dec_rep;
use vstd::prelude::*;

verus! {

/// The raw processor readings that one sampling pass produces: the physical
/// core count where the platform reports one, the rated frequency of each
/// logical core in MHz, and the outcome of the live-frequency counter read.
#[derive(Debug)]
pub struct CpuReadings {
    pub physical_core: Option<usize>,
    pub frequencies: Vec<u64>,
    pub current_frequency: Result<u64, String>,
}

/// The maximum of a sequence of frequencies; zero for the empty sequence.
pub open spec fn seq_max_u64(s: Seq<u64>) -> u64
    decreases s.len(),
{
    if s.len() == 0 {
        0u64
    } else {
        let rest = seq_max_u64(s.drop_last());
        if s.last() > rest {
            s.last()
        } else {
            rest
        }
    }
}

/// The maximum rated per-core frequency, or zero when no core was reported.
pub fn max_frequency(freqs: &Vec<u64>) -> (m: u64)
    ensures
        m == seq_max_u64(freqs@),
{
    let mut m: u64 = 0;
    let mut i: usize = 0;
    while i < freqs.len()
        invariant
            i <= freqs@.len(),
            m == seq_max_u64(freqs@.take(i as int)),
        decreases freqs@.len() - i,
    {
        let f = freqs[i];
        proof {
            assert(freqs@.take(i + 1).drop_last() =~= freqs@.take(i as int));
            assert(freqs@.take(i + 1).last() == freqs@[i as int]);
        }
        if f > m {
            m = f;
        }
        i = i + 1;
    }
    proof {
        assert(freqs@.take(freqs@.len() as int) =~= freqs@);
    }
    m
}

/// The snapshot that the CPU collector returns for readings `r`: the
/// physical core count defaulting to zero, one logical core per reported
/// frequency, the maximum rated frequency, the live frequency only where
/// its read succeeded, and never a temperature.
pub open spec fn cpu_data_of(r: CpuReadings) -> CPUData {
    CPUData {
        physical_core: (match r.physical_core {
            Option::Some(n) => n,
            Option::None => 0usize,
        }),
        logical_core: r.frequencies@.len() as usize,
        frequency: seq_max_u64(r.frequencies@),
        current_frequency: (match r.current_frequency {
            Result::Ok(v) => Some(v),
            Result::Err(_) => None,
        }),
        temperature_c: None,
    }
}

/// How many error entries one CPU collection appends: the temperature entry
/// always, and a live-frequency entry exactly when that read failed.
pub open spec fn cpu_error_count(current: Result<u64, String>) -> int {
    match current {
        Result::Ok(_) => 1,
        Result::Err(_) => 2,
    }
}

fn metric_id(id: &str) -> (v: Vec<String>)
    ensures
        v@.len() == 1,
        v@[0]@ == id@,
{
    let mut v: Vec<String> = Vec::new();
    v.push(String::from_str(id));
    v
}

/// Builds the CPU snapshot from the raw readings.  A failed live-frequency
/// read degrades only that field and appends a `cpu.current_frequency`
/// error; a `cpu.temperature` error is appended unconditionally.  No
/// failure ever propagates to the caller.
pub fn gather_cpu(r: CpuReadings, errors: &mut Vec<MetricError>) -> (data: CPUData)
    ensures
        data == cpu_data_of(r),
        final(errors)@.len() == old(errors)@.len() + cpu_error_count(r.current_frequency),
        forall|i: int| 0 <= i < old(errors)@.len() ==> final(errors)@[i] == old(errors)@[i],
        is_metric_error(
            final(errors)@.last(),
            "cpu.temperature"@,
            "unable to read CPU temperature"@,
        ),
        (r.current_frequency matches Err(e) ==> is_metric_error(
            final(errors)@[old(errors)@.len() as int],
            "cpu.current_frequency"@,
            e@,
        )),
{
    let CpuReadings { physical_core, frequencies, current_frequency } = r;
    let frequency = max_frequency(&frequencies);
    let logical_core = frequencies.len();
    let current = match current_frequency {
        Result::Ok(v) => Some(v),
        Result::Err(e) => {
            errors.push(MetricError { metric: metric_id("cpu.current_frequency"), err: e });
            None
        },
    };
    errors.push(
        MetricError {
            metric: metric_id("cpu.temperature"),
            err: String::from_str("unable to read CPU temperature"),
        },
    );
    CPUData {
        physical_core: (match physical_core {
            Option::Some(n) => n,
            Option::None => 0,
        }),
        logical_core,
        frequency,
        current_frequency: current,
        temperature_c: None,
    }
}

/// The message recorded when one step of the live-frequency counter query
/// fails with a platform status code.
pub open spec fn spec_counter_failure(step: Seq<char>, status: u32) -> Seq<char> {
    step + " failed: "@ + dec_rep(status as nat)
}

/// Renders the failure message for a counter-query step, e.g.
/// `open failed: 5`.
pub fn counter_failure_message(step: &str, status: u32) -> (r: String)
    ensures
        r@ == spec_counter_failure(step@, status),
{
    let mut out = String::from_str(step);
    out.append(" failed: ");
    let code = crate::text::u64_to_string(status as u64);
    out.append(code.as_str());
    proof {
        assert(out@ =~= spec_counter_failure(step@, status));
    }
    out
}

} // verus!
