use vstd::prelude::*;
use vstd::hash_map::HashMapWithView;

verus! {

broadcast use vstd::std_specs::hash::group_hash_axioms;

/// Why a transmit constructor refused to emit a frame.
#[derive(Debug, PartialEq, Eq, Structural)]
pub enum TxError {
    /// The revision counter moved since the constructor was built.
    OutdatedConstructor,
    /// The payload does not fit the protocol's 16-bit size field.
    TooLargePayload,
}

/// Address resolution table: IPv4 address to link address, the callers
/// waiting for a resolution, and the revision counter bumped on change.
pub struct ArpTable {
    table: HashMapWithView<u32, u64>,
    pending: HashMapWithView<u32, Vec<u64>>,
    revision: u64,
}

/// A transmit constructor: destination, link address used, and the revision
/// at which it was built.
#[derive(Debug, Clone, Copy, PartialEq, Eq, Structural)]
pub struct TxConstructor {
    pub dst: u32,
    pub mac: u64,
    pub revision: u64,
}

impl ArpTable {
    pub closed spec fn table_view(&self) -> Map<u32, u64> {
        self.table@
    }

    /// Waiter handles queued per address, in order of arrival.
    pub closed spec fn pending_view(&self) -> Map<u32, Seq<u64>> {
        Map::new(|ip: u32| self.pending@.contains_key(ip), |ip: u32| self.pending@[ip]@)
    }

    pub closed spec fn revision_view(&self) -> u64 {
        self.revision
    }

    pub fn new() -> (r: ArpTable)
        ensures
            r.table_view() == Map::<u32, u64>::empty(),
            r.pending_view() == Map::<u32, Seq<u64>>::empty(),
            r.revision_view() == 0,
    {
        let r = ArpTable { table: HashMapWithView::new(), pending: HashMapWithView::new(), revision: 0 };
        assert(r.pending_view() =~= Map::<u32, Seq<u64>>::empty());
        r
    }

    pub fn revision(&self) -> (r: u64)
        ensures
            r == self.revision_view(),
    {
        self.revision
    }

    /// The cached link address of `ip`, if any; never blocks.
    pub fn lookup(&self, ip: u32) -> (r: Option<u64>)
        ensures
            r == lookup_in(self.table_view(), ip),
    {
        match self.table.get(&ip) {
            Some(m) => Some(*m),
            None => None,
        }
    }

    /// Answers at once on a hit; otherwise queues `waiter` under `ip`.
    pub fn resolve_or_wait(&mut self, ip: u32, waiter: u64) -> (r: Option<u64>)
        ensures
            r == lookup_in(old(self).table_view(), ip),
            final(self).table_view() == old(self).table_view(),
            final(self).revision_view() == old(self).revision_view(),
            r.is_some() ==> final(self).pending_view() == old(self).pending_view(),
            r.is_none() ==> final(self).pending_view() == old(self).pending_view().insert(
                ip,
                waiters_of(old(self).pending_view(), ip).push(waiter),
            ),
    {
        let hit = self.lookup(ip);
        if hit.is_some() {
            return hit;
        }
        let mut q: Vec<u64> = match self.pending.remove(&ip) {
            Some(v) => v,
            None => Vec::new(),
        };
        q.push(waiter);
        self.pending.insert(ip, q);
        proof {
            assert(final(self).pending_view() =~= old(self).pending_view().insert(
                ip,
                waiters_of(old(self).pending_view(), ip).push(waiter),
            ));
        }
        None
    }

    /// Applies a resolution reply: stores the mapping, bumps the revision when
    /// the mapping is new or changed, and hands back every waiter of `ip`.
    pub fn on_reply(&mut self, ip: u32, mac: u64) -> (released: Vec<u64>)
        requires
            old(self).revision_view() < u64::MAX,
        ensures
            final(self).table_view() == old(self).table_view().insert(ip, mac),
            final(self).revision_view() == old(self).revision_view() + if lookup_in(
                old(self).table_view(),
                ip,
            ) == Some(mac) {
                0int
            } else {
                1int
            },
            final(self).pending_view() == old(self).pending_view().remove(ip),
            released@ == waiters_of(old(self).pending_view(), ip),
    {
        let before = self.lookup(ip);
        self.table.insert(ip, mac);
        if before != Some(mac) {
            self.revision = self.revision + 1;
        }
        let released = match self.pending.remove(&ip) {
            Some(v) => v,
            None => Vec::new(),
        };
        proof {
            assert(final(self).pending_view() =~= old(self).pending_view().remove(ip));
        }
        released
    }

    /// Observes a resolution request for `target_ip`: whether a local caller
    /// waits on that address, in which case a reply is due.
    pub fn on_request(&self, target_ip: u32) -> (r: bool)
        ensures
            r == self.pending_view().contains_key(target_ip),
    {
        self.pending.contains_key(&target_ip)
    }

    /// Builds a transmit constructor for `dst` from the cached mapping,
    /// snapshotting the current revision.
    pub fn tx_for(&self, dst: u32) -> (r: Option<TxConstructor>)
        ensures
            r == (match lookup_in(self.table_view(), dst) {
                Some(m) => Some(TxConstructor { dst, mac: m, revision: self.revision_view() }),
                None => None,
            }),
    {
        match self.lookup(dst) {
            Some(m) => Some(TxConstructor { dst, mac: m, revision: self.revision }),
            None => None,
        }
    }
}

pub open spec fn lookup_in(m: Map<u32, u64>, ip: u32) -> Option<u64> {
    if m.contains_key(ip) {
        Some(m[ip])
    } else {
        None
    }
}

pub open spec fn waiters_of(p: Map<u32, Seq<u64>>, ip: u32) -> Seq<u64> {
    if p.contains_key(ip) {
        p[ip]
    } else {
        Seq::empty()
    }
}

/// What a constructor yields against the live revision `current`: its
/// link address when its snapshot matches, else the outdated condition.
pub open spec fn prepared(t: TxConstructor, current: u64) -> Result<u64, TxError> {
    if t.revision == current {
        Ok(t.mac)
    } else {
        Err(TxError::OutdatedConstructor)
    }
}

impl TxConstructor {
    /// The link address to emit with, or `OutdatedConstructor` when the
    /// live revision differs from the snapshot.
    pub fn prepare(&self, current: u64) -> (r: Result<u64, TxError>)
        ensures
            r == prepared(*self, current),
    {
        if self.revision == current {
            Ok(self.mac)
        } else {
            Err(TxError::OutdatedConstructor)
        }
    }
}

} // verus!
