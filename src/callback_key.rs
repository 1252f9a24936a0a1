//! Identity of a registered callback and its text form.
use vstd::prelude::*;

use crate::options::{flag_text, Flag};
use crate::text::str_eq;

verus! {

/// Abstract key: the notification id and the trigger flag.
pub type KeyView = (Seq<char>, Seq<char>);

/// Whether a trigger ends the notification's interactive life: a tap on the
/// notification, or its removal.
pub open spec fn is_finish(trigger: Seq<char>) -> bool {
    trigger == flag_text(Flag::Action) || trigger == flag_text(Flag::OnDelete)
}

/// Text form of a key: the id, `@`, then the trigger.
pub open spec fn encode(k: KeyView) -> Seq<char> {
    k.0 + seq!['@'] + k.1
}

/// Position of the last `@` in `s`, if any.
pub open spec fn last_at(s: Seq<char>) -> Option<int>
    decreases s.len(),
{
    if s.len() == 0 {
        None
    } else if s.last() == '@' {
        Some(s.len() - 1)
    } else {
        last_at(s.drop_last())
    }
}

/// Reads a key back from text, splitting on the last `@`.
pub open spec fn decode(s: Seq<char>) -> Option<KeyView> {
    match last_at(s) {
        Some(i) => Some((s.subrange(0, i), s.subrange(i + 1, s.len() as int))),
        None => None,
    }
}

/// The last `@` found is an `@`, and none stands after it.
pub proof fn lemma_last_at(s: Seq<char>)
    ensures
        match last_at(s) {
            Some(i) => 0 <= i < s.len() && s[i] == '@' && forall|j: int|
                i < j < s.len() ==> s[j] != '@',
            None => forall|j: int| 0 <= j < s.len() ==> s[j] != '@',
        },
    decreases s.len(),
{
    if s.len() > 0 && s.last() != '@' {
        lemma_last_at(s.drop_last());
        assert forall|j: int| 0 <= j < s.len() - 1 implies s.drop_last()[j] == s[j] by {}
    }
}

/// Text holds no `@` exactly when it does not decode.
pub proof fn lemma_decode_fails(s: Seq<char>)
    ensures
        decode(s) is None <==> !s.contains('@'),
{
    lemma_last_at(s);
}

proof fn lemma_last_at_suffix(p: Seq<char>, t: Seq<char>)
    requires
        !t.contains('@'),
    ensures
        last_at(p + t) == last_at(p),
    decreases t.len(),
{
    if t.len() > 0 {
        assert((p + t).last() == t.last());
        assert(t.contains(t.last()));
        assert((p + t).drop_last() =~= p + t.drop_last());
        assert forall|c: char| !t.drop_last().contains(c) || c != '@' by {
            if t.drop_last().contains(c) {
                let j = choose|j: int| 0 <= j < t.drop_last().len() && t.drop_last()[j] == c;
                assert(t[j] == c);
            }
        }
        lemma_last_at_suffix(p, t.drop_last());
    } else {
        assert(p + t =~= p);
    }
}

/// Decoding the text form of a key whose trigger holds no `@` gives the key
/// back; the id may hold any number of `@`.
pub proof fn lemma_round_trip(k: KeyView)
    requires
        !k.1.contains('@'),
    ensures
        decode(encode(k)) == Some(k),
{
    let p = k.0 + seq!['@'];
    assert(encode(k) =~= p + k.1);
    lemma_last_at_suffix(p, k.1);
    assert(p.drop_last() =~= k.0);
    assert(last_at(p) == Some(k.0.len() as int));
    assert(encode(k).subrange(0, k.0.len() as int) =~= k.0);
    assert(encode(k).subrange(k.0.len() as int + 1, encode(k).len() as int) =~= k.1);
}

/// A notification id together with the trigger flag that a callback answers.
#[derive(Debug, PartialEq, Eq)]
pub struct CallbackKey {
    id: String,
    trigger: String,
}

impl View for CallbackKey {
    type V = KeyView;

    closed spec fn view(&self) -> KeyView {
        (self.id@, self.trigger@)
    }
}

impl CallbackKey {
    pub fn new(id: String, trigger: String) -> (r: Self)
        ensures
            r@ == (id@, trigger@),
    {
        CallbackKey { id, trigger }
    }

    pub fn id(&self) -> (r: &str)
        ensures
            r@ == self@.0,
    {
        self.id.as_str()
    }

    pub fn trigger(&self) -> (r: &str)
        ensures
            r@ == self@.1,
    {
        self.trigger.as_str()
    }

    /// Whether the trigger is a tap on the notification or its removal.
    pub fn is_finish_trigger(&self) -> (r: bool)
        ensures
            r == is_finish(self@.1),
    {
        str_eq(self.trigger.as_str(), Flag::Action.name()) || str_eq(
            self.trigger.as_str(),
            Flag::OnDelete.name(),
        )
    }

    /// Whether both keys name the same id and trigger.
    pub fn same(&self, other: &CallbackKey) -> (r: bool)
        ensures
            r == (self@ == other@),
    {
        self.id == other.id && self.trigger == other.trigger
    }

    /// The text form `<id>@<trigger>`.
    pub fn to_string(&self) -> (r: String)
        ensures
            r@ == encode(self@),
    {
        let mut s = self.id.clone();
        let at = "@";
        proof {
            reveal_strlit("@");
        }
        s.append(at);
        s.append(self.trigger.as_str());
        proof {
            assert(s@ =~= encode(self@));
        }
        s
    }

    /// Reads the text form, splitting on the last `@`; text without `@` is
    /// handed back as the error.
    pub fn from_str(s: &str) -> (r: Result<CallbackKey, String>)
        ensures
            decode(s@) is None <==> !s@.contains('@'),
            match r {
                Ok(k) => decode(s@) == Some(k@),
                Err(e) => decode(s@) is None && e@ == s@,
            },
    {
        proof {
            lemma_decode_fails(s@);
        }
        let n = s.unicode_len();
        let mut i: usize = n;
        assert(s@.subrange(0, n as int) =~= s@);
        while i > 0
            invariant
                i <= n == s@.len(),
                last_at(s@) == last_at(s@.subrange(0, i as int)),
            decreases i,
        {
            let c = s.get_char(i - 1);
            assert(s@.subrange(0, i as int).drop_last() =~= s@.subrange(0, i - 1));
            if c == '@' {
                let id = s.substring_char(0, i - 1).to_owned();
                let trigger = s.substring_char(i, n).to_owned();
                return Ok(CallbackKey { id, trigger });
            }
            i = i - 1;
        }
        Err(s.to_owned())
    }
}

} // verus!
