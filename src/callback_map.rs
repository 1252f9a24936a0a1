//! The registry from callback keys to actions.
use vstd::prelude::*;

use crate::assoc::{
    has_key, keys_distinct, lemma_distinct_push, lemma_lookup_entry, lemma_put_distinct, lookup, put,
    without,
};
use crate::callback_key::{CallbackKey, KeyView};

verus! {

/// The entries of `s` whose key has an id other than `id`, in their order.
pub open spec fn without_id<A>(s: Seq<(KeyView, A)>, id: Seq<char>) -> Seq<(KeyView, A)>
    decreases s.len(),
{
    if s.len() == 0 {
        s
    } else if s.last().0.0 == id {
        without_id(s.drop_last(), id)
    } else {
        without_id(s.drop_last(), id).push(s.last())
    }
}

/// No entry is left for the id.
pub proof fn lemma_without_id<A>(s: Seq<(KeyView, A)>, id: Seq<char>, t: Seq<char>)
    ensures
        lookup(without_id(s, id), (id, t)) is None,
    decreases s.len(),
{
    if s.len() > 0 {
        lemma_without_id(s.drop_last(), id, t);
        if s.last().0.0 != id {
            assert(without_id(s, id).drop_last() =~= without_id(s.drop_last(), id));
        }
    }
}

/// Dropping an id keeps only keys that were there, and keeps them distinct.
pub proof fn lemma_without_id_keys<A>(s: Seq<(KeyView, A)>, id: Seq<char>)
    ensures
        forall|k2: KeyView| has_key(without_id(s, id), k2) ==> has_key(s, k2),
        keys_distinct(s) ==> keys_distinct(without_id(s, id)),
    decreases s.len(),
{
    if s.len() > 0 {
        let d = s.drop_last();
        lemma_without_id_keys(d, id);
        assert forall|k2: KeyView| has_key(d, k2) implies has_key(s, k2) by {
            let i = choose|i: int| 0 <= i < d.len() && #[trigger] d[i].0 == k2;
            assert(s[i].0 == k2);
        }
        if keys_distinct(s) {
            assert forall|i: int, j: int| 0 <= i < j < d.len() implies d[i].0 != d[j].0 by {
                assert(s[i].0 != s[j].0);
            }
        }
        if s.last().0.0 != id {
            let w = without_id(d, id);
            assert forall|k2: KeyView| has_key(w.push(s.last()), k2) implies has_key(s, k2) by {
                let i = choose|i: int| 0 <= i < w.push(s.last()).len() && #[trigger] w.push(
                    s.last(),
                )[i].0 == k2;
                if i == w.len() {
                    assert(s[s.len() - 1].0 == k2);
                } else {
                    assert(w[i].0 == k2);
                }
            }
            if keys_distinct(s) {
                assert(!has_key(d, s.last().0)) by {
                    if has_key(d, s.last().0) {
                        let i = choose|i: int| 0 <= i < d.len() && #[trigger] d[i].0 == s.last().0;
                        assert(s[i].0 != s[s.len() - 1].0);
                    }
                }
                lemma_distinct_push(w, s.last());
            }
        }
    }
}

/// Abstract entries of a vector of keyed actions.
pub open spec fn key_views<A>(s: Seq<(CallbackKey, A)>) -> Seq<(KeyView, A)> {
    s.map_values(|e: (CallbackKey, A)| (e.0@, e.1))
}

/// Actions keyed by callback key, in order of registration; a key appears at
/// most once, as registering it again replaces its action.
pub struct CallbackMap<A> {
    entries: Vec<(CallbackKey, A)>,
}

impl<A> CallbackMap<A> {
    #[verifier::type_invariant]
    spec fn inv(&self) -> bool {
        keys_distinct(key_views(self.entries@))
    }
}

impl<A> View for CallbackMap<A> {
    type V = Seq<(KeyView, A)>;

    closed spec fn view(&self) -> Seq<(KeyView, A)> {
        key_views(self.entries@)
    }
}

impl<A> CallbackMap<A> {
    pub fn new() -> (r: Self)
        ensures
            r@ == Seq::<(KeyView, A)>::empty(),
            keys_distinct(r@),
    {
        let r = CallbackMap { entries: Vec::new() };
        assert(r@ =~= Seq::<(KeyView, A)>::empty());
        r
    }

    /// The action registered under `key`.
    pub fn get(&self, key: &CallbackKey) -> (r: Option<&A>)
        ensures
            match r {
                Some(a) => lookup(self@, key@) == Some(*a),
                None => lookup(self@, key@) is None,
            },
            keys_distinct(self@),
            forall|i: int|
                0 <= i < self@.len() && self@[i].0 == key@ ==> (r matches Some(a) && *a
                    == self@[i].1),
    {
        proof {
            use_type_invariant(self);
            assert forall|i: int| 0 <= i < self@.len() && self@[i].0 == key@ implies lookup(
                self@,
                key@,
            ) == Some(self@[i].1) by {
                lemma_lookup_entry(self@, i);
            }
        }
        let mut i: usize = self.entries.len();
        assert(self.entries@.subrange(0, i as int) =~= self.entries@);
        while i > 0
            invariant
                i <= self.entries@.len(),
                lookup(self@, key@) == lookup(key_views(self.entries@.subrange(0, i as int)), key@),
                keys_distinct(self@),
                forall|k: int|
                    0 <= k < self@.len() && self@[k].0 == key@ ==> lookup(self@, key@) == Some(
                        self@[k].1,
                    ),
            decreases i,
        {
            let ghost s = self.entries@.subrange(0, i as int);
            assert(key_views(s).drop_last() =~= key_views(self.entries@.subrange(0, i - 1)));
            if self.entries[i - 1].0.same(key) {
                return Some(&self.entries[i - 1].1);
            }
            i = i - 1;
        }
        None
    }

    /// Registers `value` under `key`, replacing and handing back the action
    /// that was registered there.
    pub fn insert(&mut self, key: CallbackKey, value: A) -> (r: Option<A>)
        ensures
            final(self)@ == put(old(self)@, key@, value),
            r == lookup(old(self)@, key@),
            keys_distinct(final(self)@),
    {
        proof {
            use_type_invariant(&*self);
            lemma_put_distinct(self@, key@, value);
        }
        let mut rest: Vec<(CallbackKey, A)> = Vec::new();
        std::mem::swap(&mut self.entries, &mut rest);
        let ghost orig = rest@;
        let mut kept: Vec<(CallbackKey, A)> = Vec::new();
        let mut replaced: Option<A> = None;
        let ghost mut j: int = 0;
        assert(key_views(kept@) =~= without(key_views(orig.subrange(0, 0)), key@));
        assert(orig.subrange(0, orig.len() as int) =~= orig);
        while rest.len() > 0
            invariant
                0 <= j <= orig.len(),
                rest@ =~= orig.subrange(j, orig.len() as int),
                key_views(kept@) == without(key_views(orig.subrange(0, j)), key@),
                replaced == lookup(key_views(orig.subrange(0, j)), key@),
            decreases rest.len(),
        {
            let e = rest.remove(0);
            proof {
                assert(e == orig[j]);
                assert(key_views(orig.subrange(0, j + 1)).drop_last() =~= key_views(
                    orig.subrange(0, j),
                ));
            }
            if e.0.same(&key) {
                replaced = Some(e.1);
            } else {
                kept.push(e);
                proof {
                    assert(key_views(kept@) =~= without(
                        key_views(orig.subrange(0, j)),
                        key@,
                    ).push((orig[j].0@, orig[j].1)));
                }
            }
            proof {
                j = j + 1;
            }
        }
        assert(orig.subrange(0, j) =~= orig);
        kept.push((key, value));
        assert(key_views(kept@) =~= put(key_views(orig), key@, value));
        self.entries = kept;
        replaced
    }

    /// Removes every action registered for the notification `id`.
    pub fn remove_id(&mut self, id: &str)
        ensures
            final(self)@ == without_id(old(self)@, id@),
            keys_distinct(final(self)@),
    {
        proof {
            use_type_invariant(&*self);
            lemma_without_id_keys(self@, id@);
        }
        let mut rest: Vec<(CallbackKey, A)> = Vec::new();
        std::mem::swap(&mut self.entries, &mut rest);
        let ghost orig = rest@;
        let mut kept: Vec<(CallbackKey, A)> = Vec::new();
        let ghost mut j: int = 0;
        assert(key_views(kept@) =~= without_id(key_views(orig.subrange(0, 0)), id@));
        assert(orig.subrange(0, orig.len() as int) =~= orig);
        while rest.len() > 0
            invariant
                0 <= j <= orig.len(),
                rest@ =~= orig.subrange(j, orig.len() as int),
                key_views(kept@) == without_id(key_views(orig.subrange(0, j)), id@),
            decreases rest.len(),
        {
            let e = rest.remove(0);
            proof {
                assert(e == orig[j]);
                assert(key_views(orig.subrange(0, j + 1)).drop_last() =~= key_views(
                    orig.subrange(0, j),
                ));
            }
            if !crate::text::str_eq(e.0.id(), id) {
                kept.push(e);
                proof {
                    assert(key_views(kept@) =~= without_id(
                        key_views(orig.subrange(0, j)),
                        id@,
                    ).push((orig[j].0@, orig[j].1)));
                }
            }
            proof {
                j = j + 1;
            }
        }
        assert(orig.subrange(0, j) =~= orig);
        self.entries = kept;
    }
}

} // verus!
