use vstd::prelude::*;

use crate::arp::{lookup_in, prepared, waiters_of, ArpTable, TxConstructor, TxError};
use crate::demux::{handlers_of, ListenerRegistry};
use crate::icmp::{icmp_handlers, IcmpIpv4Listener};
use crate::udp::{accepted_port, udp_handlers, UdpRx};

verus! {

/// After a reply for `ip`, a lookup of `ip` gives exactly the replied link
/// address, and every other address keeps its mapping.
pub proof fn lemma_lookup_after_reply(before: ArpTable, after: ArpTable, ip: u32, mac: u64, other: u32)
    requires
        after.table_view() == before.table_view().insert(ip, mac),
    ensures
        lookup_in(after.table_view(), ip) == Some(mac),
        other != ip ==> lookup_in(after.table_view(), other) == lookup_in(before.table_view(), other),
{
}

/// A reply never lowers the revision; it raises it by one exactly when the
/// mapping is new or changed, and leaves it when the mapping is reconfirmed.
pub proof fn lemma_revision_monotone(before: ArpTable, after: ArpTable, ip: u32, mac: u64)
    requires
        after.revision_view() == before.revision_view() + if lookup_in(before.table_view(), ip)
            == Some(mac) {
            0int
        } else {
            1int
        },
    ensures
        after.revision_view() >= before.revision_view(),
        lookup_in(before.table_view(), ip) == Some(mac) ==> after.revision_view()
            == before.revision_view(),
        lookup_in(before.table_view(), ip) != Some(mac) ==> after.revision_view()
            == before.revision_view() + 1,
{
}

/// A reply for `ip` releases every waiter queued under `ip`, and no waiter
/// of another address.
pub proof fn lemma_waiters_released(
    before: ArpTable,
    after: ArpTable,
    ip: u32,
    released: Seq<u64>,
    other: u32,
)
    requires
        after.pending_view() == before.pending_view().remove(ip),
        released == waiters_of(before.pending_view(), ip),
    ensures
        forall|w: u64| waiters_of(before.pending_view(), ip).contains(w) ==> released.contains(w),
        released.len() == waiters_of(before.pending_view(), ip).len(),
        waiters_of(after.pending_view(), ip).len() == 0,
        other != ip ==> waiters_of(after.pending_view(), other) == waiters_of(
            before.pending_view(),
            other,
        ),
{
}

/// A constructor built before a revision increment is refused as outdated
/// afterwards, also when the table still maps its destination to the same
/// link address.
pub proof fn lemma_stale_constructor(table: ArpTable, later: ArpTable, t: TxConstructor)
    requires
        t.revision == table.revision_view(),
        later.revision_view() > table.revision_view(),
    ensures
        prepared(t, later.revision_view()) == Err::<u64, TxError>(TxError::OutdatedConstructor),
{
}

/// Dispatch on a discriminant with no handler yields no handler.
pub proof fn lemma_dispatch_unregistered(r: ListenerRegistry, d: u16)
    requires
        !r.view_map().contains_key(d),
    ensures
        handlers_of(r.view_map(), d).len() == 0,
{
}

/// A UDP datagram for a port with no listener, or a malformed one, reaches
/// no handler; one for a bound port reaches exactly that port's handlers.
pub proof fn lemma_udp_unmatched_port(rx: UdpRx, payload: Seq<u8>, port: u16)
    requires
        accepted_port(payload) == Some(port),
    ensures
        !rx.listeners.view_map().contains_key(port) ==> udp_handlers(rx.listeners.view_map(), payload).len() == 0,
        rx.listeners.view_map().contains_key(port) ==> udp_handlers(rx.listeners.view_map(), payload)
            == rx.listeners.view_map()[port],
{
}

/// A malformed UDP datagram reaches no handler.
pub proof fn lemma_udp_malformed_dropped(rx: UdpRx, payload: Seq<u8>)
    requires
        accepted_port(payload) is None,
    ensures
        udp_handlers(rx.listeners.view_map(), payload).len() == 0,
{
}

/// An ICMP message whose type has no listener reaches no handler.
pub proof fn lemma_icmp_unregistered_type(l: IcmpIpv4Listener, payload: Seq<u8>)
    requires
        payload.len() >= 4 ==> !l.listeners.view_map().contains_key(payload[0] as u16),
    ensures
        icmp_handlers(l.listeners.view_map(), payload).len() == 0,
{
}

} // verus!
