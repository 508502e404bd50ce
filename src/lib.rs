//! A user-space network stack core: address resolution with revision-gated
//! transmit constructors, listener registries for demultiplexing, a UDP
//! socket facade, and ICMP / UDP frame construction.
use vstd::prelude::*;

pub mod arp;
pub mod demux;
pub mod icmp;
pub mod laws;
pub mod udp;

verus! {

} // verus!
