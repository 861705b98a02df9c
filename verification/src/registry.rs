//! The registry: the insertion-ordered set of live connections. Entries are
//! only appended or removed, never reordered; removal of the entries whose
//! operation failed walks the indices in descending order so the earlier
//! indices stay valid during the pass. The underlying sockets live with the
//! transport layer, keyed by each entry's id; the invariant that no socket
//! is registered twice becomes: ids are strictly increasing.

use vstd::prelude::*;

verus! {

/// One registered connection as the core sees it: the identity of its
/// underlying socket and the display name fixed at handshake time.
pub struct Entry {
    /// Identity of the underlying socket; unique within one registry.
    pub id: u64,
    /// The display name the peer sent in its handshake.
    pub name: String,
}

/// The subsequence of `s` at the positions whose flag is false, in order.
pub open spec fn keep_spec<T>(s: Seq<T>, dropped: Seq<bool>) -> Seq<T>
    recommends
        s.len() == dropped.len(),
    decreases s.len(),
{
    if s.len() == 0 {
        Seq::empty()
    } else {
        let rest = keep_spec(s.drop_first(), dropped.drop_first());
        if dropped[0] {
            rest
        } else {
            seq![s.first()] + rest
        }
    }
}

/// Socket ids occur in strictly increasing order, so none occurs twice.
pub open spec fn ids_increasing(s: Seq<Entry>) -> bool {
    forall|i: int, j: int| 0 <= i < j < s.len() ==> s[i].id < s[j].id
}

/// Every socket id lies below the bound.
pub open spec fn ids_below(s: Seq<Entry>, bound: int) -> bool {
    forall|i: int| 0 <= i < s.len() ==> s[i].id < bound
}

/// Every socket id lies at or above the bound.
pub open spec fn ids_at_least(s: Seq<Entry>, lo: int) -> bool {
    forall|i: int| 0 <= i < s.len() ==> s[i].id >= lo
}

/// Keeping a subsequence preserves the id invariants: order, upper bound
/// and lower bound survive dropping entries.
pub proof fn lemma_keep_spec_ids(s: Seq<Entry>, dropped: Seq<bool>, lo: int, bound: int)
    requires
        s.len() == dropped.len(),
        ids_increasing(s),
        ids_below(s, bound),
        ids_at_least(s, lo),
    ensures
        ids_increasing(keep_spec(s, dropped)),
        ids_below(keep_spec(s, dropped), bound),
        ids_at_least(keep_spec(s, dropped), lo),
    decreases s.len(),
{
    if s.len() > 0 {
        let tail = s.drop_first();
        assert(ids_increasing(tail)) by {
            assert forall|i: int, j: int| 0 <= i < j < tail.len() implies tail[i].id
                < tail[j].id by {
                assert(tail[i] == s[i + 1]);
                assert(tail[j] == s[j + 1]);
            }
        }
        assert(ids_at_least(tail, s[0].id + 1)) by {
            assert forall|i: int| 0 <= i < tail.len() implies tail[i].id >= s[0].id + 1 by {
                assert(tail[i] == s[i + 1]);
            }
        }
        lemma_keep_spec_ids(tail, dropped.drop_first(), s[0].id + 1, bound);
        let rest = keep_spec(tail, dropped.drop_first());
        if !dropped[0] {
            let r = seq![s.first()] + rest;
            assert forall|i: int, j: int| 0 <= i < j < r.len() implies r[i].id < r[j].id by {
                if i == 0 {
                    assert(r[j] == rest[j - 1]);
                } else {
                    assert(r[i] == rest[i - 1]);
                    assert(r[j] == rest[j - 1]);
                }
            }
            assert(ids_at_least(r, lo)) by {
                assert forall|i: int| 0 <= i < r.len() implies r[i].id >= lo by {
                    if i > 0 {
                        assert(r[i] == rest[i - 1]);
                    }
                }
            }
            assert(ids_below(r, bound)) by {
                assert forall|i: int| 0 <= i < r.len() implies r[i].id < bound by {
                    if i > 0 {
                        assert(r[i] == rest[i - 1]);
                    }
                }
            }
        } else {
            assert(ids_at_least(rest, lo)) by {
                assert forall|i: int| 0 <= i < rest.len() implies rest[i].id >= lo by {}
            }
        }
    }
}

/// The set of currently known connections, in arrival order.
pub struct Registry {
    entries: Vec<Entry>,
    next_id: u64,
}

impl View for Registry {
    type V = Seq<Entry>;

    closed spec fn view(&self) -> Seq<Entry> {
        self.entries@
    }
}

impl Registry {
    /// The registry's invariant: ids strictly increase with arrival order
    /// and stay below the next id to be handed out, so no underlying
    /// socket is registered twice.
    pub closed spec fn wf(self) -> bool {
        &&& ids_increasing(self.entries@)
        &&& ids_below(self.entries@, self.next_id as int)
    }

    /// Whether another connection can still get a fresh id; false only
    /// once the id space is exhausted.
    pub closed spec fn can_register(self) -> bool {
        self.next_id < u64::MAX
    }

    /// The invariant in caller-visible terms: socket ids strictly increase
    /// with arrival order, so no id occurs twice.
    pub proof fn lemma_wf_ids(self)
        requires
            self.wf(),
        ensures
            ids_increasing(self@),
    {
    }

    /// An empty registry.
    pub fn new() -> (r: Registry)
        ensures
            r.wf(),
            r@ == Seq::<Entry>::empty(),
            r.can_register(),
    {
        Registry { entries: Vec::new(), next_id: 0 }
    }

    /// How many connections are registered.
    pub fn len(&self) -> (n: usize)
        ensures
            n == self@.len(),
    {
        self.entries.len()
    }

    /// Whether a fresh id is still available; practically always true.
    pub fn has_capacity(&self) -> (r: bool)
        ensures
            r == self.can_register(),
    {
        self.next_id < u64::MAX
    }

    /// Appends a connection that completed its handshake, under a fresh
    /// socket id, and returns that id.
    pub fn register(&mut self, name: String) -> (id: u64)
        requires
            old(self).wf(),
            old(self).can_register(),
        ensures
            final(self).wf(),
            final(self)@ == old(self)@.push((Entry { id, name })),
            forall|i: int| 0 <= i < old(self)@.len() ==> old(self)@[i].id != id,
    {
        let id = self.next_id;
        self.next_id = self.next_id + 1;
        self.entries.push(Entry { id, name });
        id
    }

    /// The display name of the connection at an index.
    pub fn name_at(&self, i: usize) -> (r: &String)
        requires
            i < self@.len(),
        ensures
            *r == self@[i as int].name,
    {
        &self.entries[i].name
    }

    /// The socket id of the connection at an index.
    pub fn id_at(&self, i: usize) -> (r: u64)
        requires
            i < self@.len(),
        ensures
            r == self@[i as int].id,
    {
        self.entries[i].id
    }

    /// Whether two indices name two distinct existing entries, as a battle
    /// requires; a violation is a usage error that touches no connection.
    pub fn valid_pair(&self, bot1: usize, bot2: usize) -> (r: bool)
        ensures
            r == (bot1 < self@.len() && bot2 < self@.len() && bot1 != bot2),
    {
        bot1 < self.entries.len() && bot2 < self.entries.len() && bot1 != bot2
    }

    /// Removes every entry whose maintenance operation failed, walking the
    /// indices in descending order; the survivors keep their relative
    /// order, so an index before a removed one is unchanged and an index
    /// after it shifts down.
    pub fn evict_failed(&mut self, failed: &Vec<bool>)
        requires
            old(self).wf(),
            failed@.len() == old(self)@.len(),
        ensures
            final(self).wf(),
            final(self)@ == keep_spec(old(self)@, failed@),
    {
        let ghost orig = self.entries@;
        let mut i: usize = self.entries.len();
        while i > 0
            invariant
                i <= orig.len(),
                failed@.len() == orig.len(),
                self.entries@ =~= orig.subrange(0, i as int) + keep_spec(
                    orig.skip(i as int),
                    failed@.skip(i as int),
                ),
                self.next_id == old(self).next_id,
            decreases i,
        {
            i = i - 1;
            proof {
                assert(orig.skip(i as int).drop_first() =~= orig.skip(i as int + 1));
                assert(failed@.skip(i as int).drop_first() =~= failed@.skip(i as int + 1));
                assert(orig.skip(i as int).first() == orig[i as int]);
                assert(orig.skip(i as int).len() == orig.len() - i);
            }
            if failed[i] {
                self.entries.remove(i);
            }
            proof {
                assert(self.entries@ =~= orig.subrange(0, i as int) + keep_spec(
                    orig.skip(i as int),
                    failed@.skip(i as int),
                ));
            }
        }
        proof {
            assert(orig.skip(0) =~= orig);
            assert(failed@.skip(0) =~= failed@);
            assert(self.entries@ =~= keep_spec(orig, failed@));
            lemma_keep_spec_ids(orig, failed@, 0, old(self).next_id as int);
        }
    }
}

} // verus!
