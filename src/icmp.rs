use vstd::prelude::*;

use crate::arp::TxError;
use crate::demux::{handlers_of, ListenerRegistry};

verus! {

/// Size of an echo request's header: type, code, checksum, identifier and
/// sequence number.
pub const ECHO_HEADER_LEN: usize = 8;

/// ICMP type of an echo request.
pub const ECHO_REQUEST: u8 = 8;

/// The Internet checksum of an ICMP message, its checksum word skipped.
pub uninterp spec fn icmp_checksum_of(data: Seq<u8>) -> u16;

/// Relies on pnet::packet::util::checksum with skip word 1, the checksum
/// ICMP uses: one's-complement sum of the big-endian words but the second.
/// Its 32-bit sum cannot overflow on up to 65535 bytes; empty input gives 0.
#[verifier::external_body]
fn icmp_checksum(data: &Vec<u8>) -> (r: u16)
    requires
        data@.len() <= 65535,
    ensures
        r == icmp_checksum_of(data@),
        data@.len() == 0 ==> r == 0,
{
    pnet::packet::util::checksum(data.as_slice(), 1)
}

/// An echo request with a zero checksum field, identifier and sequence number
/// zero, then the payload.
pub open spec fn echo_body(payload: Seq<u8>) -> Seq<u8> {
    seq![ECHO_REQUEST, 0u8, 0u8, 0u8, 0u8, 0u8, 0u8, 0u8] + payload
}

/// `frame` with its checksum field set to `ck`, big-endian.
pub open spec fn with_checksum(frame: Seq<u8>, ck: u16) -> Seq<u8> {
    frame.update(2, (ck / 256) as u8).update(3, (ck % 256) as u8)
}

/// The checksum field of an ICMP message.
pub open spec fn checksum_field(frame: Seq<u8>) -> int {
    frame[2] as int * 256 + frame[3] as int
}

/// Writes `ck` into the checksum field of an ICMP message.
pub fn set_checksum(frame: &mut Vec<u8>, ck: u16)
    requires
        old(frame)@.len() >= 4,
    ensures
        final(frame)@ == with_checksum(old(frame)@, ck),
{
    frame.set(2, (ck / 256) as u8);
    frame.set(3, (ck % 256) as u8);
}

/// The unchecksummed echo request carrying `payload`.
pub fn echo_request_body(payload: &Vec<u8>) -> (r: Vec<u8>)
    ensures
        r@ == echo_body(payload@),
{
    let mut r: Vec<u8> = vec![ECHO_REQUEST, 0, 0, 0, 0, 0, 0, 0];
    let mut i: usize = 0;
    while i < payload.len()
        invariant
            0 <= i <= payload@.len(),
            r@ == echo_body(payload@.subrange(0, i as int)),
        decreases payload@.len() - i,
    {
        r.push(payload[i]);
        i = i + 1;
        assert(payload@.subrange(0, i as int) =~= payload@.subrange(0, i - 1 as int).push(payload@[i - 1]));
        assert(r@ =~= echo_body(payload@.subrange(0, i as int)));
    }
    assert(payload@.subrange(0, i as int) =~= payload@);
    r
}

/// The complete echo request for `payload`, checksum written after the
/// message is filled; `TooLargePayload` when the message would not fit a
/// 16-bit length.
pub fn build_echo_request(payload: &Vec<u8>) -> (r: Result<Vec<u8>, TxError>)
    ensures
        payload@.len() + 8 > 65535 ==> r == Err::<Vec<u8>, TxError>(TxError::TooLargePayload),
        payload@.len() + 8 <= 65535 ==> r.is_ok() && r.unwrap()@ == with_checksum(
            echo_body(payload@),
            icmp_checksum_of(echo_body(payload@)),
        ),
{
    if payload.len() > 65535 - ECHO_HEADER_LEN {
        return Err(TxError::TooLargePayload);
    }
    let mut frame = echo_request_body(payload);
    let ck = icmp_checksum(&frame);
    set_checksum(&mut frame, ck);
    Ok(frame)
}

/// Reading back the checksum field of a message whose checksum was written
/// gives the value written, and the other bytes are those of the message.
pub proof fn lemma_checksum_round_trip(frame: Seq<u8>, ck: u16)
    requires
        frame.len() >= 4,
    ensures
        checksum_field(with_checksum(frame, ck)) == ck as int,
        with_checksum(frame, ck).len() == frame.len(),
        forall|k: int| 0 <= k < frame.len() && k != 2 && k != 3 ==> with_checksum(frame, ck)[k] == frame[k],
{
}

/// IPv4 protocol number of ICMP.
pub const IPV4_PROTO_ICMP: u8 = 1;

/// An IPv4 payload ready for the IPv4 layer: protocol number, destination
/// and bytes.
pub struct Ipv4Outbound {
    pub protocol: u8,
    pub dst: u32,
    pub payload: Vec<u8>,
}

/// An ICMP message of `icmp_type` and `code` with a zero checksum field,
/// followed by `rest`.
pub open spec fn icmp_body(icmp_type: u8, code: u8, rest: Seq<u8>) -> Seq<u8> {
    seq![icmp_type, code, 0u8, 0u8] + rest
}

/// The ICMP message of `icmp_type` and `code` carrying `rest`, its checksum
/// written after the message is filled, addressed to `dst_ip`;
/// `TooLargePayload` when it would not fit a 16-bit length.
pub fn build_icmp(dst_ip: u32, icmp_type: u8, code: u8, rest: &Vec<u8>) -> (r: Result<Ipv4Outbound, TxError>)
    ensures
        rest@.len() + 4 > 65535 ==> r is Err && r->Err_0 == TxError::TooLargePayload,
        rest@.len() + 4 <= 65535 ==> r is Ok && r->Ok_0.protocol == IPV4_PROTO_ICMP
            && r->Ok_0.dst == dst_ip && r->Ok_0.payload@ == with_checksum(
            icmp_body(icmp_type, code, rest@),
            icmp_checksum_of(icmp_body(icmp_type, code, rest@)),
        ),
{
    if rest.len() > 65535 - 4 {
        return Err(TxError::TooLargePayload);
    }
    let mut frame: Vec<u8> = vec![icmp_type, code, 0, 0];
    let mut i: usize = 0;
    while i < rest.len()
        invariant
            0 <= i <= rest@.len(),
            frame@ == icmp_body(icmp_type, code, rest@.subrange(0, i as int)),
        decreases rest@.len() - i,
    {
        frame.push(rest[i]);
        i = i + 1;
        assert(rest@.subrange(0, i as int) =~= rest@.subrange(0, i - 1 as int).push(rest@[i - 1]));
        assert(frame@ =~= icmp_body(icmp_type, code, rest@.subrange(0, i as int)));
    }
    assert(rest@.subrange(0, i as int) =~= rest@);
    let ck = icmp_checksum(&frame);
    set_checksum(&mut frame, ck);
    Ok(Ipv4Outbound { protocol: IPV4_PROTO_ICMP, dst: dst_ip, payload: frame })
}

/// The echo request carrying `payload`, addressed to `dst_ip` as ICMP.
pub fn send_echo(dst_ip: u32, payload: &Vec<u8>) -> (r: Result<Ipv4Outbound, TxError>)
    ensures
        payload@.len() + 8 > 65535 ==> r is Err && r->Err_0 == TxError::TooLargePayload,
        payload@.len() + 8 <= 65535 ==> r is Ok && r->Ok_0.protocol == IPV4_PROTO_ICMP
            && r->Ok_0.dst == dst_ip && r->Ok_0.payload@ == with_checksum(
            echo_body(payload@),
            icmp_checksum_of(echo_body(payload@)),
        ),
{
    match build_echo_request(payload) {
        Ok(frame) => Ok(Ipv4Outbound { protocol: IPV4_PROTO_ICMP, dst: dst_ip, payload: frame }),
        Err(e) => Err(e),
    }
}

/// The handlers an ICMP message is dispatched to: those of its type, none
/// when it is shorter than the 4-byte ICMP header.
pub open spec fn icmp_handlers(listeners: Map<u16, Seq<u64>>, payload: Seq<u8>) -> Seq<u64> {
    if payload.len() < 4 {
        Seq::empty()
    } else {
        handlers_of(listeners, payload[0] as u16)
    }
}

/// Receive side of ICMP: the type registry that messages are dispatched on.
pub struct IcmpIpv4Listener {
    pub listeners: ListenerRegistry,
}

impl IcmpIpv4Listener {
    pub fn new(listeners: ListenerRegistry) -> (r: IcmpIpv4Listener)
        ensures
            r.listeners.view_map() == listeners.view_map(),
    {
        IcmpIpv4Listener { listeners }
    }

    /// The handlers, in registration order, to hand the ICMP message
    /// `payload` (an IPv4 payload) to; empty when it is too short or its type
    /// has no listener.
    pub fn recv(&self, payload: &Vec<u8>) -> (r: Vec<u64>)
        ensures
            r@ == icmp_handlers(self.listeners.view_map(), payload@),
    {
        if payload.len() < 4 {
            return Vec::new();
        }
        self.listeners.dispatch(payload[0] as u16)
    }
}

} // verus!
