//! The disk collector: turns the result of one volume-capacity query into a
//! list of `DiskData` snapshots.

use crate::model::{DiskData, Ratio};
use vstd::prelude::*;

verus! {

/// The raw outcome of a successful capacity query for one volume, in bytes.
#[derive(Clone, Copy, Debug, PartialEq, Eq, Structural)]
pub struct DiskSpace {
    pub total: u64,
    pub free: u64,
}

/// Used bytes: the saturating difference `total - free`.
pub open spec fn disk_used(s: DiskSpace) -> u64 {
    if s.free <= s.total {
        (s.total - s.free) as u64
    } else {
        0u64
    }
}

/// A disk snapshot is well formed when its optional fields are present
/// together and agree: used is the saturating difference of total and free,
/// and the usage ratio is `used / total`.
pub open spec fn disk_data_wf(d: DiskData) -> bool {
    match (d.total_bytes, d.free_bytes, d.used_bytes, d.usage) {
        (Some(total), Some(free), Some(used), Some(usage)) => {
            &&& used == disk_used(DiskSpace { total, free })
            &&& usage == Ratio::spec_of(used, total)
            &&& usage.wf()
        },
        (None, None, None, None) => true,
        _ => false,
    }
}

/// What the disk collector returns for query outcome `q`: a failed query or
/// a reported total of zero yields the empty list (the volume is silently
/// dropped, with no error entry); otherwise one complete snapshot for the
/// single configured volume root.
pub open spec fn spec_gather_disk(r: Seq<DiskData>, q: Option<DiskSpace>) -> bool {
    match q {
        Option::None => r.len() == 0,
        Option::Some(s) => {
            if s.total == 0 {
                r.len() == 0
            } else {
                &&& r.len() == 1
                &&& r[0].device@ == "C:\\"@
                &&& r[0].total_bytes == Some(s.total)
                &&& r[0].free_bytes == Some(s.free)
                &&& r[0].used_bytes == Some(disk_used(s))
                &&& r[0].usage == Some(Ratio::spec_of(disk_used(s), s.total))
            }
        },
    }
}

/// Builds the disk snapshot list from the raw query outcome (`None` when the
/// platform call failed).
pub fn gather_disk(q: Option<DiskSpace>) -> (r: Vec<DiskData>)
    ensures
        spec_gather_disk(r@, q),
        forall|i: int| 0 <= i < r@.len() ==> disk_data_wf(#[trigger] r@[i]),
{
    let mut r: Vec<DiskData> = Vec::new();
    match q {
        Option::None => r,
        Option::Some(s) => {
            if s.total == 0 {
                return r;
            }
            let used: u64 = if s.free <= s.total {
                s.total - s.free
            } else {
                0
            };
            r.push(DiskData {
                device: String::from_str("C:\\"),
                total_bytes: Some(s.total),
                free_bytes: Some(s.free),
                used_bytes: Some(used),
                usage: Some(Ratio::of(used, s.total)),
            });
            r
        },
    }
}

} // verus!
