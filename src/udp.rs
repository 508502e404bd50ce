use vstd::prelude::*;

use vstd::hash_map::HashMapWithView;

use crate::arp::{lookup_in, ArpTable, TxConstructor, TxError};
use crate::demux::{handlers_of, ListenerRegistry};

verus! {

broadcast use vstd::std_specs::hash::group_hash_axioms;

/// Smallest UDP datagram: the 8-byte header.
pub const UDP_HEADER_LEN: usize = 8;

/// A big-endian 16-bit field.
pub open spec fn be16(hi: u8, lo: u8) -> int {
    hi as int * 256 + lo as int
}

/// The destination port of a UDP datagram that passes the length checks:
/// at least a header, and a declared length between the header size and the
/// bytes present.
pub open spec fn accepted_port(p: Seq<u8>) -> Option<u16> {
    if p.len() < 8 {
        None
    } else if be16(p[4], p[5]) > p.len() || be16(p[4], p[5]) < 8 {
        None
    } else {
        Some(be16(p[2], p[3]) as u16)
    }
}

fn read_be16(hi: u8, lo: u8) -> (r: u16)
    ensures
        r as int == be16(hi, lo),
{
    (hi as u16) * 256 + (lo as u16)
}

/// Receive-side validation of a UDP datagram: the port to dispatch on, or
/// `None` when the datagram is to be dropped.
pub fn udp_port_to_dispatch(payload: &Vec<u8>) -> (r: Option<u16>)
    ensures
        r == accepted_port(payload@),
{
    if payload.len() < UDP_HEADER_LEN {
        return None;
    }
    let length = read_be16(payload[4], payload[5]) as usize;
    if length > payload.len() || length < UDP_HEADER_LEN {
        return None;
    }
    Some(read_be16(payload[2], payload[3]))
}

/// The UDP checksum of a datagram from `src` to `dst` (IPv4 addresses as
/// integers), over the pseudo-header and the datagram, checksum word skipped.
pub uninterp spec fn udp_checksum_of(data: Seq<u8>, src: u32, dst: u32) -> u16;

/// Relies on pnet::packet::udp::ipv4_checksum: the checksum UDP carries over
/// IPv4. `UdpPacket::new` accepts any slice of at least 8 bytes; the 32-bit
/// sum cannot overflow on up to 65535 bytes.
#[verifier::external_body]
fn udp_checksum(data: &Vec<u8>, src: u32, dst: u32) -> (r: u16)
    requires
        8 <= data@.len() <= 65535,
    ensures
        r == udp_checksum_of(data@, src, dst),
{
    let pkg = pnet::packet::udp::UdpPacket::new(data.as_slice()).unwrap();
    pnet::packet::udp::ipv4_checksum(&pkg, &src.into(), &dst.into())
}

/// A UDP header with a zero checksum, then the payload.
pub open spec fn udp_body(src_port: u16, dst_port: u16, payload: Seq<u8>) -> Seq<u8> {
    let len = payload.len() + 8;
    seq![
        (src_port / 256) as u8,
        (src_port % 256) as u8,
        (dst_port / 256) as u8,
        (dst_port % 256) as u8,
        (len / 256) as u8,
        (len % 256) as u8,
        0u8,
        0u8,
    ] + payload
}

/// `frame` with the UDP checksum field set to `ck`, big-endian.
pub open spec fn with_udp_checksum(frame: Seq<u8>, ck: u16) -> Seq<u8> {
    frame.update(6, (ck / 256) as u8).update(7, (ck % 256) as u8)
}

/// The UDP datagram from `src_port` to `dst_port` carrying `payload`, its
/// checksum written over the finished datagram; `TooLargePayload` when its
/// length does not fit 16 bits.
pub fn build_udp_datagram(src_ip: u32, dst_ip: u32, src_port: u16, dst_port: u16, payload: &Vec<u8>) -> (r: Result<Vec<u8>, TxError>)
    ensures
        payload@.len() + 8 > 65535 ==> r == Err::<Vec<u8>, TxError>(TxError::TooLargePayload),
        payload@.len() + 8 <= 65535 ==> r.is_ok() && r.unwrap()@ == with_udp_checksum(
            udp_body(src_port, dst_port, payload@),
            udp_checksum_of(udp_body(src_port, dst_port, payload@), src_ip, dst_ip),
        ),
{
    if payload.len() > 65535 - UDP_HEADER_LEN {
        return Err(TxError::TooLargePayload);
    }
    let len: u16 = (payload.len() + UDP_HEADER_LEN) as u16;
    let mut frame: Vec<u8> = vec![
        (src_port / 256) as u8,
        (src_port % 256) as u8,
        (dst_port / 256) as u8,
        (dst_port % 256) as u8,
        (len / 256) as u8,
        (len % 256) as u8,
        0,
        0,
    ];
    let mut i: usize = 0;
    while i < payload.len()
        invariant
            0 <= i <= payload@.len(),
            payload@.len() + 8 <= 65535,
            len as int == payload@.len() + 8,
            frame@ == udp_body(src_port, dst_port, payload@).subrange(0, i + 8),
        decreases payload@.len() - i,
    {
        frame.push(payload[i]);
        i = i + 1;
        assert(frame@ =~= udp_body(src_port, dst_port, payload@).subrange(0, i + 8));
    }
    assert(frame@ =~= udp_body(src_port, dst_port, payload@));
    let ck = udp_checksum(&frame, src_ip, dst_ip);
    frame.set(6, (ck / 256) as u8);
    frame.set(7, (ck % 256) as u8);
    Ok(frame)
}

/// The handlers a UDP payload is dispatched to: those of its destination
/// port when it passes the length checks, none otherwise.
pub open spec fn udp_handlers(listeners: Map<u16, Seq<u64>>, payload: Seq<u8>) -> Seq<u64> {
    match accepted_port(payload) {
        Some(p) => handlers_of(listeners, p),
        None => Seq::empty(),
    }
}

/// Receive side of UDP: the port registry that datagrams are dispatched on.
pub struct UdpRx {
    pub listeners: ListenerRegistry,
}

impl UdpRx {
    pub fn new(listeners: ListenerRegistry) -> (r: UdpRx)
        ensures
            r.listeners.view_map() == listeners.view_map(),
    {
        UdpRx { listeners }
    }

    /// The handlers to hand the datagram `payload` (an IPv4 payload) to;
    /// empty when it is malformed or its port has no listener.
    pub fn recv(&self, payload: &Vec<u8>) -> (r: Vec<u64>)
        ensures
            r@ == udp_handlers(self.listeners.view_map(), payload@),
    {
        match udp_port_to_dispatch(payload) {
            Some(p) => self.listeners.dispatch(p),
            None => Vec::new(),
        }
    }
}

/// A received datagram: sender address, sender port, payload.
#[derive(Debug, Clone)]
pub struct Datagram {
    pub src_ip: u32,
    pub src_port: u16,
    pub payload: Vec<u8>,
}

/// Why `recv_from` failed.
#[derive(Debug, PartialEq, Eq, Structural)]
pub enum RecvError {
    /// No datagram is queued.
    Empty,
    /// The datagram is longer than the buffer; it has been consumed.
    BufferTooSmall,
}

/// The handle that feeds a socket's queue; handed out once. A listener
/// delivers to the reader that carries the same token.
#[derive(Debug, PartialEq, Eq, Structural)]
pub struct UdpSocketListener {
    pub token: u64,
}

/// A socket's receive queue, first in, first out.
pub struct UdpSocketReader {
    queue: Vec<Datagram>,
    chan: Option<UdpSocketListener>,
    token: u64,
}

/// Postcondition of a receive: what happens to the queue, the buffer and
/// the result.
pub open spec fn received(
    q0: Seq<(u32, u16, Seq<u8>)>,
    q1: Seq<(u32, u16, Seq<u8>)>,
    b0: Seq<u8>,
    b1: Seq<u8>,
    r: Result<(usize, u32, u16), RecvError>,
) -> bool {
    if q0.len() == 0 {
        r == Err::<(usize, u32, u16), RecvError>(RecvError::Empty) && q1 == q0 && b1 == b0
    } else {
        let (ip, port, data) = q0[0];
        &&& q1 == q0.drop_first()
        &&& data.len() > b0.len() ==> r == Err::<(usize, u32, u16), RecvError>(
            RecvError::BufferTooSmall,
        ) && b1 == b0
        &&& data.len() <= b0.len() ==> r == Ok::<(usize, u32, u16), RecvError>(
            (data.len() as usize, ip, port),
        ) && b1 == data + b0.subrange(data.len() as int, b0.len() as int)
    }
}

impl UdpSocketReader {
    /// Payloads, senders and ports of the queued datagrams, oldest first.
    pub closed spec fn queue_view(&self) -> Seq<(u32, u16, Seq<u8>)> {
        self.queue@.map_values(|d: Datagram| (d.src_ip, d.src_port, d.payload@))
    }

    pub closed spec fn listener_view(&self) -> Option<UdpSocketListener> {
        self.chan
    }

    pub closed spec fn token_view(&self) -> u64 {
        self.token
    }

    /// An empty reader whose listener carries token 0.
    pub fn new() -> (r: UdpSocketReader)
        ensures
            r.queue_view() == Seq::<(u32, u16, Seq<u8>)>::empty(),
            r.token_view() == 0,
            r.listener_view() == Some(UdpSocketListener { token: r.token_view() }),
    {
        UdpSocketReader::paired(0)
    }

    /// An empty reader whose listener carries `token`.
    pub fn paired(token: u64) -> (r: UdpSocketReader)
        ensures
            r.queue_view() == Seq::<(u32, u16, Seq<u8>)>::empty(),
            r.token_view() == token,
            r.listener_view() == Some(UdpSocketListener { token }),
    {
        let r = UdpSocketReader { queue: Vec::new(), chan: Some(UdpSocketListener { token }), token };
        assert(r.queue_view() =~= Seq::<(u32, u16, Seq<u8>)>::empty());
        r
    }

    /// Takes the feeding handle; a second call yields `None`.
    pub fn listener(&mut self) -> (r: Option<UdpSocketListener>)
        ensures
            r == old(self).listener_view(),
            final(self).listener_view().is_none(),
            final(self).queue_view() == old(self).queue_view(),
            final(self).token_view() == old(self).token_view(),
    {
        self.chan.take()
    }

    /// Queues one datagram at the back.
    pub fn deliver(&mut self, d: Datagram)
        ensures
            final(self).queue_view() == old(self).queue_view().push(
                (d.src_ip, d.src_port, d.payload@),
            ),
            final(self).listener_view() == old(self).listener_view(),
            final(self).token_view() == old(self).token_view(),
    {
        let ghost e = (d.src_ip, d.src_port, d.payload@);
        self.queue.push(d);
        assert(final(self).queue_view() =~= old(self).queue_view().push(e));
    }

    /// Consumes the oldest datagram and copies its payload to the front of
    /// `buf`, giving its length and sender; fails, still consuming it, when
    /// `buf` is too short.
    pub fn recv_from(&mut self, buf: &mut Vec<u8>) -> (r: Result<(usize, u32, u16), RecvError>)
        ensures
            received(old(self).queue_view(), final(self).queue_view(), old(buf)@, final(buf)@, r),
            final(self).listener_view() == old(self).listener_view(),
            final(self).token_view() == old(self).token_view(),
    {
        if self.queue.len() == 0 {
            return Err(RecvError::Empty);
        }
        let d = self.queue.remove(0);
        proof {
            assert(final(self).queue_view() =~= old(self).queue_view().drop_first());
        }
        let n = d.payload.len();
        if n > buf.len() {
            return Err(RecvError::BufferTooSmall);
        }
        let mut i: usize = 0;
        while i < n
            invariant
                n == d.payload@.len(),
                n <= buf@.len(),
                buf@.len() == old(buf)@.len(),
                0 <= i <= n,
                forall|k: int| 0 <= k < i ==> buf@[k] == d.payload@[k],
                forall|k: int| n <= k < buf@.len() ==> buf@[k] == old(buf)@[k],
            decreases n - i,
        {
            buf.set(i, d.payload[i]);
            i = i + 1;
        }
        assert(buf@ =~= d.payload@ + old(buf)@.subrange(n as int, old(buf)@.len() as int));
        Ok((n, d.src_ip, d.src_port))
    }
}

impl UdpSocketListener {
    /// Hands a datagram to `reader`: it is queued, and `true` returned, when
    /// the reader is the one this listener was made with.
    pub fn recv(&self, reader: &mut UdpSocketReader, d: Datagram) -> (delivered: bool)
        ensures
            delivered == (self.token == old(reader).token_view()),
            delivered ==> final(reader).queue_view() == old(reader).queue_view().push(
                (d.src_ip, d.src_port, d.payload@),
            ),
            !delivered ==> final(reader).queue_view() == old(reader).queue_view(),
            final(reader).token_view() == old(reader).token_view(),
            final(reader).listener_view() == old(reader).listener_view(),
    {
        if self.token == reader.token {
            reader.deliver(d);
            true
        } else {
            false
        }
    }
}

/// Cache key of a peer: address and port in one integer.
pub open spec fn peer_key(ip: u32, port: u16) -> u64 {
    (ip as int * 65536 + port as int) as u64
}

fn make_peer_key(ip: u32, port: u16) -> (r: u64)
    ensures
        r == peer_key(ip, port),
{
    (ip as u64) * 65536 + (port as u64)
}

/// IPv4 protocol number of UDP.
pub const IPV4_PROTO_UDP: u8 = 17;

/// The datagram bytes that a socket on `src_port` at `src_ip` sends to
/// `(dst_ip, dst_port)` for `payload`.
pub open spec fn udp_bytes(src_ip: u32, dst_ip: u32, src_port: u16, dst_port: u16, payload: Seq<u8>) -> Seq<u8> {
    with_udp_checksum(
        udp_body(src_port, dst_port, payload),
        udp_checksum_of(udp_body(src_port, dst_port, payload), src_ip, dst_ip),
    )
}

/// Whether the cache holds a constructor for `k` built at revision `rev`.
pub open spec fn cached_valid(c: Map<u64, TxConstructor>, k: u64, rev: u64) -> bool {
    c.contains_key(k) && c[k].revision == rev
}

/// What a send asks of the caller.
pub enum SendStep {
    /// Emit `datagram` as an IPv4 payload of `protocol` to `dst`, framed for
    /// link address `mac`.
    Emit { mac: u64, protocol: u8, dst: u32, datagram: Vec<u8> },
    /// The destination is unresolved: resolve it, then send again with
    /// `retried` set.
    Resolve,
    /// The send failed.
    Failed(TxError),
}

/// `r` emits `bytes` as UDP to `dst` over link address `mac`.
pub open spec fn emits(r: SendStep, mac: u64, dst: u32, bytes: Seq<u8>) -> bool {
    match r {
        SendStep::Emit { mac: m, protocol, dst: d, datagram } => m == mac && protocol == IPV4_PROTO_UDP
            && d == dst && datagram@ == bytes,
        _ => false,
    }
}

/// A bound UDP socket: its port, its receive queue and its transmit
/// constructors cached per peer.
pub struct UdpSocket {
    src_port: u16,
    tx_cache: HashMapWithView<u64, TxConstructor>,
    rx: UdpSocketReader,
    feed: Option<UdpSocketListener>,
}

impl UdpSocket {
    pub closed spec fn port_view(&self) -> u16 {
        self.src_port
    }

    pub closed spec fn cache_view(&self) -> Map<u64, TxConstructor> {
        self.tx_cache@
    }

    pub closed spec fn queue_view(&self) -> Seq<(u32, u16, Seq<u8>)> {
        self.rx.queue_view()
    }

    /// The handle under which the socket's listener is registered.
    pub closed spec fn handle_view(&self) -> u64 {
        self.rx.token_view()
    }

    /// The listener the socket feeds its queue through, while it holds one.
    pub closed spec fn feed_view(&self) -> Option<UdpSocketListener> {
        self.feed
    }

    /// Binds a socket on `port` with an empty queue and an empty cache, and
    /// registers its listener `handle` as the one handler of that port,
    /// replacing an earlier one.
    pub fn bind(registry: &mut ListenerRegistry, port: u16, handle: u64) -> (r: UdpSocket)
        ensures
            r.port_view() == port,
            r.handle_view() == handle,
            r.feed_view() == Some(UdpSocketListener { token: handle }),
            r.cache_view() == Map::<u64, TxConstructor>::empty(),
            r.queue_view() == Seq::<(u32, u16, Seq<u8>)>::empty(),
            final(registry).view_map() == old(registry).view_map().insert(port, seq![handle]),
    {
        let mut rx = UdpSocketReader::paired(handle);
        let feed = rx.listener();
        registry.register_exclusive(port, handle);
        UdpSocket { src_port: port, tx_cache: HashMapWithView::new(), rx, feed }
    }

    pub fn local_port(&self) -> (r: u16)
        ensures
            r == self.port_view(),
    {
        self.src_port
    }

    /// Hands a datagram that the demultiplexer dispatched to `handle` to the
    /// socket's listener; it is queued, and `true` returned, when `handle` is
    /// that listener's and the listener feeds this socket.
    pub fn deliver(&mut self, handle: u64, d: Datagram) -> (delivered: bool)
        ensures
            delivered == (old(self).feed_view() == Some(UdpSocketListener { token: handle })
                && handle == old(self).handle_view()),
            delivered ==> final(self).queue_view() == old(self).queue_view().push(
                (d.src_ip, d.src_port, d.payload@),
            ),
            !delivered ==> final(self).queue_view() == old(self).queue_view(),
            final(self).handle_view() == old(self).handle_view(),
            final(self).feed_view() == old(self).feed_view(),
            final(self).port_view() == old(self).port_view(),
            final(self).cache_view() == old(self).cache_view(),
    {
        match &self.feed {
            Some(l) => {
                if l.token == handle {
                    l.recv(&mut self.rx, d)
                } else {
                    false
                }
            },
            None => false,
        }
    }

    pub fn recv_from(&mut self, buf: &mut Vec<u8>) -> (r: Result<(usize, u32, u16), RecvError>)
        ensures
            received(old(self).queue_view(), final(self).queue_view(), old(buf)@, final(buf)@, r),
            final(self).handle_view() == old(self).handle_view(),
            final(self).feed_view() == old(self).feed_view(),
            final(self).port_view() == old(self).port_view(),
            final(self).cache_view() == old(self).cache_view(),
    {
        self.rx.recv_from(buf)
    }

    /// Stores a freshly built constructor for the peer `(ip, port)`.
    pub fn cache_tx(&mut self, ip: u32, port: u16, tx: TxConstructor)
        ensures
            final(self).cache_view() == old(self).cache_view().insert(peer_key(ip, port), tx),
            final(self).port_view() == old(self).port_view(),
            final(self).queue_view() == old(self).queue_view(),
            final(self).handle_view() == old(self).handle_view(),
            final(self).feed_view() == old(self).feed_view(),
    {
        let k = make_peer_key(ip, port);
        self.tx_cache.insert(k, tx);
    }

    /// Sends `payload` to `(ip, port)` with the cached constructor, checked
    /// against the table's live revision: the link address and the datagram.
    /// A missing constructor counts as an outdated one.
    pub fn send_on_cached_tx(&self, table: &ArpTable, src_ip: u32, payload: &Vec<u8>, ip: u32, port: u16) -> (r: Result<(u64, Vec<u8>), TxError>)
        ensures
            payload@.len() + 8 > 65535 ==> r == Err::<(u64, Vec<u8>), TxError>(TxError::TooLargePayload),
            payload@.len() + 8 <= 65535 && !cached_valid(self.cache_view(), peer_key(ip, port), table.revision_view())
                ==> r == Err::<(u64, Vec<u8>), TxError>(TxError::OutdatedConstructor),
            payload@.len() + 8 <= 65535 && cached_valid(self.cache_view(), peer_key(ip, port), table.revision_view())
                ==> r.is_ok() && r.unwrap().0 == self.cache_view()[peer_key(ip, port)].mac
                && r.unwrap().1@ == udp_bytes(src_ip, ip, self.port_view(), port, payload@),
    {
        if payload.len() > 65535 - UDP_HEADER_LEN {
            return Err(TxError::TooLargePayload);
        }
        let k = make_peer_key(ip, port);
        let mac = match self.tx_cache.get(&k) {
            Some(tx) => match tx.prepare(table.revision()) {
                Ok(m) => m,
                Err(e) => return Err(e),
            },
            None => return Err(TxError::OutdatedConstructor),
        };
        match build_udp_datagram(src_ip, ip, self.src_port, port, payload) {
            Ok(d) => Ok((mac, d)),
            Err(e) => Err(e),
        }
    }

    /// One step of a send: use the cached constructor; when it is missing or
    /// outdated and this is not already a retry, build a fresh one from the
    /// table, cache it and use it; when the table has no mapping, ask the
    /// caller to resolve. An outdated constructor on the retry fails.
    pub fn send_to_step(&mut self, table: &ArpTable, src_ip: u32, payload: &Vec<u8>, ip: u32, port: u16, retried: bool) -> (r: SendStep)
        ensures
            final(self).port_view() == old(self).port_view(),
            final(self).queue_view() == old(self).queue_view(),
            final(self).handle_view() == old(self).handle_view(),
            final(self).feed_view() == old(self).feed_view(),
            payload@.len() + 8 > 65535 ==> r == SendStep::Failed(TxError::TooLargePayload)
                && final(self).cache_view() == old(self).cache_view(),
            payload@.len() + 8 <= 65535 && cached_valid(old(self).cache_view(), peer_key(ip, port), table.revision_view())
                ==> emits(r, old(self).cache_view()[peer_key(ip, port)].mac, ip,
                    udp_bytes(src_ip, ip, old(self).port_view(), port, payload@))
                && final(self).cache_view() == old(self).cache_view(),
            payload@.len() + 8 <= 65535 && !cached_valid(old(self).cache_view(), peer_key(ip, port), table.revision_view())
                && retried ==> r == SendStep::Failed(TxError::OutdatedConstructor)
                && final(self).cache_view() == old(self).cache_view(),
            payload@.len() + 8 <= 65535 && !cached_valid(old(self).cache_view(), peer_key(ip, port), table.revision_view())
                && !retried ==> match lookup_in(table.table_view(), ip) {
                    Some(m) => final(self).cache_view() == old(self).cache_view().insert(
                        peer_key(ip, port),
                        TxConstructor { dst: ip, mac: m, revision: table.revision_view() },
                    ) && emits(r, m, ip, udp_bytes(src_ip, ip, old(self).port_view(), port, payload@)),
                    None => r == SendStep::Resolve && final(self).cache_view() == old(self).cache_view(),
                },
    {
        match self.send_on_cached_tx(table, src_ip, payload, ip, port) {
            Ok((mac, d)) => SendStep::Emit { mac, protocol: IPV4_PROTO_UDP, dst: ip, datagram: d },
            Err(TxError::TooLargePayload) => SendStep::Failed(TxError::TooLargePayload),
            Err(TxError::OutdatedConstructor) => {
                if retried {
                    return SendStep::Failed(TxError::OutdatedConstructor);
                }
                match table.tx_for(ip) {
                    Some(tx) => {
                        self.cache_tx(ip, port, tx);
                        match self.send_on_cached_tx(table, src_ip, payload, ip, port) {
                            Ok((mac, d)) => SendStep::Emit { mac, protocol: IPV4_PROTO_UDP, dst: ip, datagram: d },
                            Err(e) => SendStep::Failed(e),
                        }
                    },
                    None => SendStep::Resolve,
                }
            },
        }
    }
}

} // verus!
