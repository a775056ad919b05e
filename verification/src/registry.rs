//! The subscription registry: the single source of truth used to route
//! inbound data frames to the right typed channel.
//!
//! Ids are pairwise distinct; `insert` replaces an existing entry with the
//! same id, so the invariant is maintained whatever the id generator does.

use vstd::prelude::*;

use crate::models::{Subscription, SubscriptionV};
use crate::strutil::str_eq;

verus! {

/// First registered subscription carrying `id`.
pub open spec fn spec_reg_lookup(s: Seq<SubscriptionV>, id: Seq<char>) -> Option<SubscriptionV>
    decreases s.len(),
{
    if s.len() == 0 {
        None
    } else if s[0].id == id {
        Some(s[0])
    } else {
        spec_reg_lookup(s.drop_first(), id)
    }
}

/// Ids are pairwise distinct.
pub open spec fn spec_unique_ids(s: Seq<SubscriptionV>) -> bool {
    forall|i: int, j: int| 0 <= i < j < s.len() ==> s[i].id != s[j].id
}

/// Where no element carries `id`, the lookup is empty.
proof fn lemma_lookup_none(s: Seq<SubscriptionV>, id: Seq<char>)
    requires
        forall|k: int| 0 <= k < s.len() ==> s[k].id != id,
    ensures
        spec_reg_lookup(s, id) is None,
    decreases s.len(),
{
    if s.len() > 0 {
        assert(forall|k: int|
            0 <= k < s.drop_first().len() ==> #[trigger] s.drop_first()[k] == s[k + 1]);
        lemma_lookup_none(s.drop_first(), id);
    }
}

/// The first element carrying `id` is the lookup result.
proof fn lemma_lookup_first(s: Seq<SubscriptionV>, id: Seq<char>, i: int)
    requires
        0 <= i < s.len(),
        s[i].id == id,
        forall|k: int| 0 <= k < i ==> s[k].id != id,
    ensures
        spec_reg_lookup(s, id) == Some(s[i]),
    decreases i,
{
    if i > 0 {
        assert(forall|k: int|
            0 <= k < s.drop_first().len() ==> #[trigger] s.drop_first()[k] == s[k + 1]);
        lemma_lookup_first(s.drop_first(), id, i - 1);
    }
}

/// Two sequences that agree except on elements foreign to `x` look up alike.
proof fn lemma_lookup_agrees(s: Seq<SubscriptionV>, t: Seq<SubscriptionV>, x: Seq<char>)
    requires
        s.len() == t.len(),
        forall|k: int|
            0 <= k < s.len() ==> (#[trigger] s[k] == t[k] || (s[k].id != x && t[k].id != x)),
    ensures
        spec_reg_lookup(s, x) == spec_reg_lookup(t, x),
    decreases s.len(),
{
    if s.len() > 0 {
        assert(forall|k: int|
            0 <= k < s.drop_first().len() ==> #[trigger] s.drop_first()[k] == s[k + 1]);
        assert(forall|k: int|
            0 <= k < t.drop_first().len() ==> #[trigger] t.drop_first()[k] == t[k + 1]);
        lemma_lookup_agrees(s.drop_first(), t.drop_first(), x);
    }
}

/// Appending an element only changes the lookup of its own id, and only
/// where that id was absent.
proof fn lemma_lookup_push(s: Seq<SubscriptionV>, v: SubscriptionV, x: Seq<char>)
    ensures
        spec_reg_lookup(s, x) is Some ==> spec_reg_lookup(s.push(v), x) == spec_reg_lookup(s, x),
        spec_reg_lookup(s, x) is None && v.id == x ==> spec_reg_lookup(s.push(v), x) == Some(v),
        spec_reg_lookup(s, x) is None && v.id != x ==> spec_reg_lookup(s.push(v), x) is None,
    decreases s.len(),
{
    if s.len() == 0 {
        assert(s.push(v).drop_first() =~= s);
    } else {
        assert(s.push(v)[0] == s[0]);
        assert(s.push(v).drop_first() =~= s.drop_first().push(v));
        lemma_lookup_push(s.drop_first(), v, x);
    }
}

/// Removing an element foreign to `x` leaves the lookup of `x` unchanged.
proof fn lemma_lookup_remove(s: Seq<SubscriptionV>, i: int, x: Seq<char>)
    requires
        0 <= i < s.len(),
        s[i].id != x,
    ensures
        spec_reg_lookup(s.remove(i), x) == spec_reg_lookup(s, x),
    decreases i,
{
    if i == 0 {
        assert(s.remove(0) =~= s.drop_first());
    } else {
        assert(s.remove(i)[0] == s[0]);
        if s[0].id == x {
        } else {
            assert(s.remove(i).drop_first() =~= s.drop_first().remove(i - 1));
            assert(forall|k: int|
                0 <= k < s.drop_first().len() ==> #[trigger] s.drop_first()[k] == s[k + 1]);
            lemma_lookup_remove(s.drop_first(), i - 1, x);
        }
    }
}

/// The registry. All access is serialized by the connection manager.
#[derive(Debug)]
pub struct SubscriptionRegistry {
    pub items: Vec<Subscription>,
}

impl View for SubscriptionRegistry {
    type V = Seq<SubscriptionV>;

    open spec fn view(&self) -> Seq<SubscriptionV> {
        self.items@.map_values(|s: Subscription| s@)
    }
}

impl SubscriptionRegistry {
    /// The empty registry.
    pub fn new() -> (r: SubscriptionRegistry)
        ensures
            r@ == Seq::<SubscriptionV>::empty(),
            spec_unique_ids(r@),
    {
        let r = SubscriptionRegistry { items: Vec::new() };
        proof {
            assert(r@ =~= Seq::<SubscriptionV>::empty());
        }
        r
    }

    /// Number of live subscriptions.
    pub fn len(&self) -> (r: usize)
        ensures
            r == self@.len(),
    {
        self.items.len()
    }

    /// Index of the subscription carrying `id`, if registered.
    fn find_index(&self, id: &str) -> (r: Option<usize>)
        ensures
            r is None ==> spec_reg_lookup(self@, id@) is None,
            r matches Some(i) ==> i < self@.len() && self@[i as int].id == id@
                && spec_reg_lookup(self@, id@) == Some(self@[i as int]),
    {
        let n = self.items.len();
        let mut i: usize = 0;
        while i < n
            invariant
                n == self@.len(),
                n == self.items@.len(),
                i <= n,
                forall|k: int| 0 <= k < i ==> self@[k].id != id@,
            decreases n - i,
        {
            if str_eq(self.items[i].id.as_str(), id) {
                proof {
                    lemma_lookup_first(self@, id@, i as int);
                }
                return Some(i);
            }
            i += 1;
        }
        proof {
            lemma_lookup_none(self@, id@);
        }
        None
    }

    /// Whether the registered ids are pairwise distinct. True for every
    /// registry built through `new`, `insert` and `remove`; unverified
    /// callers can test it instead of assuming it.
    pub fn ids_unique(&self) -> (r: bool)
        ensures
            r == spec_unique_ids(self@),
    {
        let n = self.items.len();
        let mut i: usize = 0;
        while i < n
            invariant
                n == self@.len(),
                n == self.items@.len(),
                i <= n,
                forall|a: int, b: int| 0 <= a < b < n && a < i ==> self@[a].id != self@[b].id,
            decreases n - i,
        {
            let mut j: usize = i + 1;
            while j < n
                invariant
                    n == self@.len(),
                    n == self.items@.len(),
                    i < j <= n || (i + 1 == j && j > n),
                    i < n,
                    forall|b: int| i < b < j ==> self@[i as int].id != self@[b].id,
                decreases n - j,
            {
                if str_eq(self.items[i].id.as_str(), self.items[j].id.as_str()) {
                    proof {
                        assert(self@[i as int].id == self.items@[i as int].id@);
                        assert(self@[j as int].id == self.items@[j as int].id@);
                        assert(0 <= i < j < self@.len() && self@[i as int].id == self@[
                            j as int
                        ].id);
                    }
                    return false;
                }
                j += 1;
            }
            i += 1;
        }
        true
    }

    /// Whether `id` is registered.
    pub fn contains(&self, id: &str) -> (r: bool)
        ensures
            r == (spec_reg_lookup(self@, id@) is Some),
    {
        self.find_index(id).is_some()
    }

    /// A copy of the subscription carrying `id`, if registered.
    pub fn lookup(&self, id: &str) -> (r: Option<Subscription>)
        ensures
            (r is None) == (spec_reg_lookup(self@, id@) is None),
            r matches Some(sub) ==> spec_reg_lookup(self@, id@) == Some(sub@),
    {
        match self.find_index(id) {
            None => None,
            Some(i) => {
                let s = &self.items[i];
                Some(
                    Subscription {
                        id: s.id.clone(),
                        subscription_type: s.subscription_type,
                        item: s.item.clone(),
                    },
                )
            },
        }
    }

    /// Registers a subscription; an entry with the same id is replaced.
    pub fn insert(&mut self, sub: Subscription)
        requires
            spec_unique_ids(old(self)@),
        ensures
            spec_unique_ids(final(self)@),
            spec_reg_lookup(final(self)@, sub@.id) == Some(sub@),
            forall|x: Seq<char>|
                x != sub@.id ==> #[trigger] spec_reg_lookup(final(self)@, x) == spec_reg_lookup(
                    old(self)@,
                    x,
                ),
    {
        let ghost before = self@;
        let ghost subv = sub@;
        match self.find_index(sub.id.as_str()) {
            Some(i) => {
                self.items.set(i, sub);
                proof {
                    assert(self@ =~= before.update(i as int, subv));
                    assert forall|k: int| 0 <= k < i implies self@[k].id != subv.id by {
                        assert(before[k].id != before[i as int].id);
                    }
                    lemma_lookup_first(self@, subv.id, i as int);
                    assert forall|x: Seq<char>| x != subv.id implies #[trigger] spec_reg_lookup(
                        self@,
                        x,
                    ) == spec_reg_lookup(before, x) by {
                        lemma_lookup_agrees(self@, before, x);
                    }
                    assert(spec_unique_ids(self@));
                }
            },
            None => {
                self.items.push(sub);
                proof {
                    assert(self@ =~= before.push(subv));
                    lemma_lookup_push(before, subv, subv.id);
                    assert forall|x: Seq<char>| x != subv.id implies #[trigger] spec_reg_lookup(
                        self@,
                        x,
                    ) == spec_reg_lookup(before, x) by {
                        lemma_lookup_push(before, subv, x);
                    }
                    assert forall|k: int| 0 <= k < before.len() implies before[k].id
                        != subv.id by {
                        if before[k].id == subv.id {
                            lemma_lookup_first(before, subv.id, k);
                        }
                    }
                    assert(spec_unique_ids(self@));
                }
            },
        }
    }

    /// Removes and returns the subscription carrying `id`; an absent id
    /// changes nothing.
    pub fn remove(&mut self, id: &str) -> (r: Option<Subscription>)
        requires
            spec_unique_ids(old(self)@),
        ensures
            spec_unique_ids(final(self)@),
            (r is None) == (spec_reg_lookup(old(self)@, id@) is None),
            r is None ==> *final(self) == *old(self),
            r matches Some(sub) ==> spec_reg_lookup(old(self)@, id@) == Some(sub@)
                && spec_reg_lookup(final(self)@, id@) is None && forall|x: Seq<char>|
                x != id@ ==> #[trigger] spec_reg_lookup(final(self)@, x) == spec_reg_lookup(
                    old(self)@,
                    x,
                ),
    {
        let ghost before = self@;
        match self.find_index(id) {
            None => None,
            Some(i) => {
                let sub = self.items.remove(i);
                proof {
                    assert(self@ =~= before.remove(i as int));
                    assert(sub@ == before[i as int]);
                    assert forall|k: int| 0 <= k < self@.len() implies #[trigger] self@[k].id
                        != id@ by {
                        if k < i {
                            assert(self@[k] == before[k]);
                            assert(before[k].id != before[i as int].id);
                        } else {
                            assert(self@[k] == before[k + 1]);
                            assert(before[k + 1].id != before[i as int].id);
                        }
                    }
                    lemma_lookup_none(self@, id@);
                    assert forall|x: Seq<char>| x != id@ implies #[trigger] spec_reg_lookup(
                        self@,
                        x,
                    ) == spec_reg_lookup(before, x) by {
                        lemma_lookup_remove(before, i as int, x);
                    }
                    assert(spec_unique_ids(self@));
                }
                Some(sub)
            },
        }
    }
}

} // verus!
