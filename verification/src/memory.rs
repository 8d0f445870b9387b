//! The memory collector: turns the platform's raw total/available readings
//! into a `MemoryData` snapshot.

use crate::model::{MemoryData, Ratio};
use vstd::prelude::*;

verus! {

/// What the memory collector returns for raw readings `total` and
/// `available`, both in the platform's native unit of 1024 bytes: every
/// field is scaled to bytes, `used` is the saturating difference, and the
/// usage ratio is `used_bytes / total_bytes` (zero when the total is zero).
pub open spec fn spec_gather_memory(total: u64, available: u64) -> MemoryData {
    let used = if available <= total {
        (total - available) as u64
    } else {
        0u64
    };
    MemoryData {
        total_bytes: (total * 1024) as u64,
        available_bytes: (available * 1024) as u64,
        used_bytes: (used * 1024) as u64,
        usage: Ratio::spec_of((used * 1024) as u64, (total * 1024) as u64),
    }
}

/// Every memory snapshot relates its own fields the same way: used bytes are
/// the saturating difference of total and available bytes, and the usage
/// ratio is used over total — defined, not NaN, even when the total is zero.
///
/// The bounds on the raw readings are the machine limit that the byte data
/// model forces: a reading beyond `u64::MAX / 1024` has no byte count that
/// fits the snapshot's fields, so no snapshot exists for it at all.
pub proof fn lemma_memory_usage_invariant(total: u64, available: u64)
    requires
        total <= u64::MAX / 1024,
        available <= u64::MAX / 1024,
    ensures
        ({
            let m = spec_gather_memory(total, available);
            &&& m.used_bytes == if m.available_bytes <= m.total_bytes {
                (m.total_bytes - m.available_bytes) as u64
            } else {
                0u64
            }
            &&& m.usage == Ratio::spec_of(m.used_bytes, m.total_bytes)
            &&& m.total_bytes > 0 ==> m.usage == (Ratio {
                numer: m.used_bytes,
                denom: m.total_bytes,
            })
            &&& m.total_bytes == 0 ==> m.usage == (Ratio { numer: 0u64, denom: 1u64 })
            &&& m.usage.wf()
        }),
{
}

/// Builds the memory snapshot from the raw readings.  There is no failure
/// path: every pair of readings yields a complete snapshot, and the usage
/// ratio is well formed even when the total is zero.
pub fn gather_memory(total: u64, available: u64) -> (r: MemoryData)
    requires
        total <= u64::MAX / 1024,
        available <= u64::MAX / 1024,
    ensures
        r == spec_gather_memory(total, available),
        r.usage.wf(),
{
    let used: u64 = if available <= total {
        total - available
    } else {
        0
    };
    let total_bytes: u64 = total * 1024;
    let available_bytes: u64 = available * 1024;
    let used_bytes: u64 = used * 1024;
    MemoryData {
        total_bytes,
        available_bytes,
        used_bytes,
        usage: Ratio::of(used_bytes, total_bytes),
    }
}

} // verus!
