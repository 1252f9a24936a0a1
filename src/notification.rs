//! The notification builder: a set of options for the show command.
use vstd::prelude::*;

use crate::assoc::{keys_distinct, lemma_put_distinct, lemma_without_keys, lookup, put, without};
use crate::command::{arg_views, ensure_success, output_text, CommandLine, CommandOutcome};
use crate::options::{flag_text, Flag};
use crate::remove_handle::RemoveHandle;

verus! {

/// An option's value as characters; `None` marks a flag given alone.
pub open spec fn value_view(v: Option<String>) -> Option<Seq<char>> {
    match v {
        Some(s) => Some(s@),
        None => None,
    }
}

/// Abstract option entries of a vector of options.
pub open spec fn option_views(s: Seq<(Flag, Option<String>)>) -> Seq<(Flag, Option<Seq<char>>)> {
    s.map_values(|e: (Flag, Option<String>)| (e.0, value_view(e.1)))
}

/// The id set among the options, if any.
pub open spec fn id_of(s: Seq<(Flag, Option<Seq<char>>)>) -> Option<Seq<char>> {
    match lookup(s, Flag::Id) {
        Some(Some(id)) => Some(id),
        _ => None,
    }
}

/// Sets or clears a flag given alone.
pub open spec fn set_flag(s: Seq<(Flag, Option<Seq<char>>)>, f: Flag, on: bool) -> Seq<
    (Flag, Option<Seq<char>>),
> {
    if on {
        put(s, f, None)
    } else {
        without(s, f)
    }
}

/// Arguments of the show command: each flag in order, followed by its value
/// where it has one.
pub open spec fn arg_list(s: Seq<(Flag, Option<Seq<char>>)>) -> Seq<Seq<char>>
    decreases s.len(),
{
    if s.len() == 0 {
        Seq::empty()
    } else {
        arg_list(s.drop_last()) + match s.last().1 {
            Some(v) => seq![flag_text(s.last().0), v],
            None => seq![flag_text(s.last().0)],
        }
    }
}

/// Name of the program that shows a notification.
pub open spec fn show_program() -> Seq<char> {
    "termux-notification"@
}

/// Setting a flag given alone leaves it present with no value; clearing it
/// after that leaves it absent.
pub proof fn lemma_flag_toggle(s: Seq<(Flag, Option<Seq<char>>)>, f: Flag)
    ensures
        lookup(set_flag(s, f, true), f) == Some(None::<Seq<char>>),
        lookup(set_flag(set_flag(s, f, true), f, false), f) is None,
{
    crate::assoc::lemma_lookup_put(s, f, None, f);
    crate::assoc::lemma_lookup_without(set_flag(s, f, true), f, f);
}

/// Builder for the `termux-notification` command: each option at most once,
/// with a value or given alone.
#[derive(Debug, PartialEq, Eq)]
pub struct TermuxNotification {
    args: Vec<(Flag, Option<String>)>,
}

impl TermuxNotification {
    #[verifier::type_invariant]
    spec fn inv(&self) -> bool {
        keys_distinct(option_views(self.args@))
    }
}

impl View for TermuxNotification {
    type V = Seq<(Flag, Option<Seq<char>>)>;

    closed spec fn view(&self) -> Seq<(Flag, Option<Seq<char>>)> {
        option_views(self.args@)
    }
}

impl Clone for TermuxNotification {
    fn clone(&self) -> (r: Self)
        ensures
            r@ == self@,
    {
        proof {
            use_type_invariant(self);
        }
        let mut args: Vec<(Flag, Option<String>)> = Vec::new();
        let mut i: usize = 0;
        while i < self.args.len()
            invariant
                i <= self.args@.len(),
                keys_distinct(self@),
                option_views(args@) == option_views(self.args@.subrange(0, i as int)),
            decreases self.args@.len() - i,
        {
            let v = match &self.args[i].1 {
                Some(s) => Some(s.clone()),
                None => None,
            };
            assert(value_view(v) == value_view(self.args@[i as int].1));
            args.push((self.args[i].0, v));
            assert(option_views(self.args@.subrange(0, i + 1)) =~= option_views(
                self.args@.subrange(0, i as int),
            ).push((self.args@[i as int].0, value_view(self.args@[i as int].1))));
            assert(option_views(args@) =~= option_views(self.args@.subrange(0, i + 1)));
            i = i + 1;
        }
        assert(self.args@.subrange(0, i as int) =~= self.args@);
        TermuxNotification { args }
    }
}

impl Default for TermuxNotification {
    fn default() -> (r: Self)
        ensures
            r@ == Seq::<(Flag, Option<Seq<char>>)>::empty(),
    {
        TermuxNotification::new()
    }
}

impl TermuxNotification {
    pub fn new() -> (r: Self)
        ensures
            r@ == Seq::<(Flag, Option<Seq<char>>)>::empty(),
            keys_distinct(r@),
    {
        let r = TermuxNotification { args: Vec::new() };
        assert(r@ =~= Seq::<(Flag, Option<Seq<char>>)>::empty());
        r
    }

    fn unset(&mut self, k: Flag)
        ensures
            final(self)@ == without(old(self)@, k),
    {
        proof {
            use_type_invariant(&*self);
            lemma_without_keys(self@, k);
        }
        let mut rest: Vec<(Flag, Option<String>)> = Vec::new();
        std::mem::swap(&mut self.args, &mut rest);
        let ghost orig = rest@;
        let mut kept: Vec<(Flag, Option<String>)> = Vec::new();
        let ghost mut j: int = 0;
        assert(option_views(kept@) =~= without(option_views(orig.subrange(0, 0)), k));
        assert(orig.subrange(0, orig.len() as int) =~= orig);
        while rest.len() > 0
            invariant
                0 <= j <= orig.len(),
                rest@ =~= orig.subrange(j, orig.len() as int),
                option_views(kept@) == without(option_views(orig.subrange(0, j)), k),
            decreases rest.len(),
        {
            let e = rest.remove(0);
            proof {
                assert(e == orig[j]);
                assert(option_views(orig.subrange(0, j + 1)).drop_last() =~= option_views(
                    orig.subrange(0, j),
                ));
            }
            if e.0 != k {
                kept.push(e);
                proof {
                    assert(option_views(kept@) =~= without(
                        option_views(orig.subrange(0, j)),
                        k,
                    ).push((orig[j].0, value_view(orig[j].1))));
                }
            }
            proof {
                j = j + 1;
            }
        }
        assert(orig.subrange(0, j) =~= orig);
        self.args = kept;
    }

    fn set(&mut self, k: Flag, v: Option<String>)
        ensures
            final(self)@ == put(old(self)@, k, value_view(v)),
    {
        proof {
            use_type_invariant(&*self);
            lemma_put_distinct(self@, k, value_view(v));
        }
        self.unset(k);
        let mut args: Vec<(Flag, Option<String>)> = Vec::new();
        std::mem::swap(&mut self.args, &mut args);
        args.push((k, v));
        assert(option_views(args@) =~= put(old(self)@, k, value_view(v)));
        self.args = args;
    }

    /// Notification id (will overwrite any previous notification with the same id)
    pub fn id(&mut self, id: &str) -> (r: &mut Self)
        ensures
            (*r)@ == put(old(self)@, Flag::Id, Some(id@)),
            *final(self) == *final(r),
    {
        self.set(Flag::Id, Some(id.to_owned()));
        self
    }

    /// Notification title to show
    pub fn title(&mut self, title: &str) -> (r: &mut Self)
        ensures
            (*r)@ == put(old(self)@, Flag::Title, Some(title@)),
            *final(self) == *final(r),
    {
        self.set(Flag::Title, Some(title.to_owned()));
        self
    }

    /// Content to show in the notification
    pub fn content(&mut self, content: &str) -> (r: &mut Self)
        ensures
            (*r)@ == put(old(self)@, Flag::Content, Some(content@)),
            *final(self) == *final(r),
    {
        self.set(Flag::Content, Some(content.to_owned()));
        self
    }

    /// Icon that shows up in the status bar (default: `event_note`); see
    /// `https://material.io/resources/icons/` for the names
    pub fn icon(&mut self, icon: &str) -> (r: &mut Self)
        ensures
            (*r)@ == put(old(self)@, Flag::Icon, Some(icon@)),
            *final(self) == *final(r),
    {
        self.set(Flag::Icon, Some(icon.to_owned()));
        self
    }

    /// Do not alert when the notification is edited
    pub fn alert_once(&mut self, alert_once: bool) -> (r: &mut Self)
        ensures
            (*r)@ == set_flag(old(self)@, Flag::AlertOnce, alert_once),
            *final(self) == *final(r),
    {
        if alert_once {
            self.set(Flag::AlertOnce, None);
        } else {
            self.unset(Flag::AlertOnce);
        }
        self
    }

    /// Pin the notification
    pub fn ongoing(&mut self, ongoing: bool) -> (r: &mut Self)
        ensures
            (*r)@ == set_flag(old(self)@, Flag::Ongoing, ongoing),
            *final(self) == *final(r),
    {
        if ongoing {
            self.set(Flag::Ongoing, None);
        } else {
            self.unset(Flag::Ongoing);
        }
        self
    }

    /// Action to execute when pressing the notification
    pub fn action(&mut self, action: &str) -> (r: &mut Self)
        ensures
            (*r)@ == put(old(self)@, Flag::Action, Some(action@)),
            *final(self) == *final(r),
    {
        self.set(Flag::Action, Some(action.to_owned()));
        self
    }

    /// Action to execute when the notification is cleared
    pub fn on_delete(&mut self, on_delete: &str) -> (r: &mut Self)
        ensures
            (*r)@ == put(old(self)@, Flag::OnDelete, Some(on_delete@)),
            *final(self) == *final(r),
    {
        self.set(Flag::OnDelete, Some(on_delete.to_owned()));
        self
    }

    /// Text and action for the first notification button
    pub fn button1(&mut self, label: &str, action: &str) -> (r: &mut Self)
        ensures
            (*r)@ == put(
                put(old(self)@, Flag::Button1, Some(label@)),
                Flag::Button1Action,
                Some(action@),
            ),
            *final(self) == *final(r),
    {
        self.set(Flag::Button1, Some(label.to_owned()));
        self.set(Flag::Button1Action, Some(action.to_owned()));
        self
    }

    /// Text and action for the second notification button
    pub fn button2(&mut self, label: &str, action: &str) -> (r: &mut Self)
        ensures
            (*r)@ == put(
                put(old(self)@, Flag::Button2, Some(label@)),
                Flag::Button2Action,
                Some(action@),
            ),
            *final(self) == *final(r),
    {
        self.set(Flag::Button2, Some(label.to_owned()));
        self.set(Flag::Button2Action, Some(action.to_owned()));
        self
    }

    /// Text and action for the third notification button
    pub fn button3(&mut self, label: &str, action: &str) -> (r: &mut Self)
        ensures
            (*r)@ == put(
                put(old(self)@, Flag::Button3, Some(label@)),
                Flag::Button3Action,
                Some(action@),
            ),
            *final(self) == *final(r),
    {
        self.set(Flag::Button3, Some(label.to_owned()));
        self.set(Flag::Button3Action, Some(action.to_owned()));
        self
    }

    /// The id that was set, if any.
    pub fn id_value(&self) -> (r: Option<String>)
        ensures
            value_view(r) == id_of(self@),
            keys_distinct(self@),
    {
        proof {
            use_type_invariant(self);
        }
        let mut i: usize = self.args.len();
        assert(self.args@.subrange(0, i as int) =~= self.args@);
        while i > 0
            invariant
                i <= self.args@.len(),
                keys_distinct(self@),
                lookup(self@, Flag::Id) == lookup(
                    option_views(self.args@.subrange(0, i as int)),
                    Flag::Id,
                ),
            decreases i,
        {
            assert(option_views(self.args@.subrange(0, i as int)).drop_last() =~= option_views(
                self.args@.subrange(0, i - 1),
            ));
            if self.args[i - 1].0 == Flag::Id {
                return match &self.args[i - 1].1 {
                    Some(id) => Some(id.clone()),
                    None => None,
                };
            }
            i = i - 1;
        }
        None
    }

    /// The id, which must have been set.
    pub(crate) fn get_id_unchecked(&self) -> (r: String)
        requires
            id_of(self@) is Some,
        ensures
            Some(r@) == id_of(self@),
    {
        self.id_value().unwrap()
    }

    /// The `termux-notification` command with one flag per option, each
    /// followed by its value where it has one.
    pub fn to_command(&self) -> (r: CommandLine)
        ensures
            r.program@ == show_program(),
            arg_views(r.args@) == arg_list(self@),
            keys_distinct(self@),
    {
        proof {
            use_type_invariant(self);
        }
        let mut args: Vec<String> = Vec::new();
        let mut i: usize = 0;
        while i < self.args.len()
            invariant
                i <= self.args@.len(),
                arg_views(args@) == arg_list(option_views(self.args@.subrange(0, i as int))),
            decreases self.args@.len() - i,
        {
            let ghost before = args@;
            assert(option_views(self.args@.subrange(0, i + 1)).drop_last() =~= option_views(
                self.args@.subrange(0, i as int),
            ));
            args.push(self.args[i].0.name().to_owned());
            match &self.args[i].1 {
                Some(v) => {
                    args.push(v.clone());
                },
                None => {},
            }
            assert(arg_views(args@) =~= arg_list(
                option_views(self.args@.subrange(0, i + 1)),
            ));
            i = i + 1;
        }
        assert(self.args@.subrange(0, i as int) =~= self.args@);
        CommandLine { program: "termux-notification".to_owned(), args }
    }

    /// Settles a show request from the outcome of running `to_command`: on
    /// success a handle that removes the notification by its id; otherwise
    /// the command's combined output as the error.
    pub fn show(&self, outcome: &CommandOutcome) -> (r: Result<RemoveHandle, String>)
        ensures
            outcome.success ==> (r matches Ok(h) && h.id_view() == id_of(self@)),
            !outcome.success ==> (r matches Err(e) && e@ == output_text(
                outcome.stdout@,
                outcome.stderr@,
            )),
    {
        match ensure_success(outcome) {
            Ok(()) => Ok(RemoveHandle::new(self.id_value())),
            Err(e) => Err(e),
        }
    }
}

} // verus!
