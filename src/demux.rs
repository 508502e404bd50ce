use vstd::prelude::*;
use vstd::hash_map::HashMapWithView;

verus! {

broadcast use vstd::std_specs::hash::group_hash_axioms;

/// Maps a discriminant (ethertype, protocol number, ICMP type or port) to
/// the handles of its handlers, in registration order.
pub struct ListenerRegistry {
    handlers: HashMapWithView<u16, Vec<u64>>,
}

pub open spec fn handlers_of(m: Map<u16, Seq<u64>>, d: u16) -> Seq<u64> {
    if m.contains_key(d) {
        m[d]
    } else {
        Seq::empty()
    }
}

impl ListenerRegistry {
    pub closed spec fn view_map(&self) -> Map<u16, Seq<u64>> {
        Map::new(|d: u16| self.handlers@.contains_key(d), |d: u16| self.handlers@[d]@)
    }

    pub fn new() -> (r: ListenerRegistry)
        ensures
            r.view_map() == Map::<u16, Seq<u64>>::empty(),
    {
        let r = ListenerRegistry { handlers: HashMapWithView::new() };
        assert(r.view_map() =~= Map::<u16, Seq<u64>>::empty());
        r
    }

    /// Appends `handler` to the handlers of `d`.
    pub fn register(&mut self, d: u16, handler: u64)
        ensures
            final(self).view_map() == old(self).view_map().insert(
                d,
                handlers_of(old(self).view_map(), d).push(handler),
            ),
    {
        let mut q: Vec<u64> = match self.handlers.remove(&d) {
            Some(v) => v,
            None => Vec::new(),
        };
        q.push(handler);
        self.handlers.insert(d, q);
        proof {
            assert(final(self).view_map() =~= old(self).view_map().insert(
                d,
                handlers_of(old(self).view_map(), d).push(handler),
            ));
        }
    }

    /// Makes `handler` the one handler of `d`, replacing any earlier one.
    pub fn register_exclusive(&mut self, d: u16, handler: u64)
        ensures
            final(self).view_map() == old(self).view_map().insert(d, seq![handler]),
    {
        let mut q: Vec<u64> = Vec::new();
        q.push(handler);
        self.handlers.insert(d, q);
        proof {
            assert(q@ =~= seq![handler]);
            assert(final(self).view_map() =~= old(self).view_map().insert(d, seq![handler]));
        }
    }

    /// Removes every handler of `d`.
    pub fn unregister(&mut self, d: u16)
        ensures
            final(self).view_map() == old(self).view_map().remove(d),
    {
        let _ = self.handlers.remove(&d);
        assert(final(self).view_map() =~= old(self).view_map().remove(d));
    }

    /// The handlers to invoke for `d`, in registration order; empty when
    /// none is registered, in which case the frame is dropped.
    pub fn dispatch(&self, d: u16) -> (r: Vec<u64>)
        ensures
            r@ == handlers_of(self.view_map(), d),
    {
        match self.handlers.get(&d) {
            Some(v) => v.clone(),
            None => Vec::new(),
        }
    }
}

} // verus!
