//! The network collector: a fixed list of two named interfaces with every
//! counter zeroed.  No live counter integration exists.

use crate::model::NetData;
use vstd::prelude::*;

verus! {

/// Holds of an interface entry whose counters are all zero.
pub open spec fn zero_counters(n: NetData) -> bool {
    &&& n.bytes_sent == 0
    &&& n.bytes_recv == 0
    &&& n.packets_sent == 0
    &&& n.packets_recv == 0
    &&& n.err_in == 0
    &&& n.err_out == 0
    &&& n.drop_in == 0
    &&& n.drop_out == 0
    &&& n.fifo_in == 0
    &&& n.fifo_out == 0
}

/// What the network collector returns: exactly the interfaces `lo` and
/// `eth0`, in that order, with zeroed counters.
pub open spec fn spec_gather_net(r: Seq<NetData>) -> bool {
    &&& r.len() == 2
    &&& r[0].name@ == "lo"@
    &&& r[1].name@ == "eth0"@
    &&& zero_counters(r[0])
    &&& zero_counters(r[1])
}

fn zeroed_interface(name: &str) -> (n: NetData)
    ensures
        n.name@ == name@,
        zero_counters(n),
{
    NetData {
        name: String::from_str(name),
        bytes_sent: 0,
        bytes_recv: 0,
        packets_sent: 0,
        packets_recv: 0,
        err_in: 0,
        err_out: 0,
        drop_in: 0,
        drop_out: 0,
        fifo_in: 0,
        fifo_out: 0,
    }
}

/// Returns the fixed two-interface list.
pub fn gather_net() -> (r: Vec<NetData>)
    ensures
        spec_gather_net(r@),
{
    let mut r: Vec<NetData> = Vec::new();
    r.push(zeroed_interface("lo"));
    r.push(zeroed_interface("eth0"));
    r
}

} // verus!
