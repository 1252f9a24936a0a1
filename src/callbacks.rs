//! Callbacks for notifications, delivered as text signals over a local socket.
//!
//! Registering a callback stores the action in a registry under the
//! notification's id and a trigger, and gives the notification a shell command
//! that writes `<id>@<trigger>` to the socket. A listener hands each message it
//! reads to `Callbacks::dispatch`, which runs the matching action; a tap on the
//! notification or its removal then drops every callback of that notification.
use vstd::prelude::*;

use crate::assoc::{keys_distinct, lookup, put};
use crate::callback_key::{decode, encode, is_finish, CallbackKey, KeyView};
use crate::callback_map::{without_id, CallbackMap};
use crate::notification::{id_of, TermuxNotification};
use crate::options::{flag_text, Flag};

verus! {

/// The shell command that sends `msg` to the socket at `socket`.
pub open spec fn shell_command(msg: Seq<char>, socket: Seq<char>) -> Seq<char> {
    "echo \""@ + msg + "\" | nc -UN "@ + socket
}

/// The action that a signal runs: the one registered under the key that the
/// message decodes to.
pub open spec fn fired<A>(s: Seq<(KeyView, A)>, msg: Seq<char>) -> Option<A> {
    match decode(msg) {
        Some(k) => lookup(s, k),
        None => None,
    }
}

/// The registry after a signal: a finish trigger that ran an action drops
/// every entry of its notification id; anything else leaves it as it was.
pub open spec fn after_signal<A>(s: Seq<(KeyView, A)>, msg: Seq<char>) -> Seq<(KeyView, A)> {
    match decode(msg) {
        Some(k) => if lookup(s, k) is Some && is_finish(k.1) {
            without_id(s, k.0)
        } else {
            s
        },
        None => s,
    }
}

/// The registry of callback actions, with the path of the socket that
/// signals for them arrive on.
pub struct Callbacks<A> {
    socket: String,
    map: CallbackMap<A>,
}

impl<A> Callbacks<A> {
    /// The socket path.
    pub closed spec fn socket_view(&self) -> Seq<char> {
        self.socket@
    }

    /// The registered actions, in order of registration.
    pub closed spec fn entries(&self) -> Seq<(KeyView, A)> {
        self.map@
    }

    /// An empty registry for signals that arrive at `socket`.
    pub fn new(socket: String) -> (r: Self)
        ensures
            r.socket_view() == socket@,
            r.entries() == Seq::<(KeyView, A)>::empty(),
            keys_distinct(r.entries()),
    {
        Callbacks { socket, map: CallbackMap::new() }
    }

    pub fn socket(&self) -> (r: &str)
        ensures
            r@ == self.socket_view(),
    {
        self.socket.as_str()
    }

    /// Registers `f` under `key`, replacing what was registered there, and
    /// returns the shell command that signals `key`.
    pub fn register(&mut self, key: CallbackKey, f: A) -> (r: String)
        ensures
            final(self).socket_view() == old(self).socket_view(),
            final(self).entries() == put(old(self).entries(), key@, f),
            keys_distinct(final(self).entries()),
            r@ == shell_command(encode(key@), old(self).socket_view()),
    {
        let mut cmd = "echo \"".to_owned();
        let msg = key.to_string();
        cmd.append(msg.as_str());
        cmd.append("\" | nc -UN ");
        cmd.append(self.socket.as_str());
        self.map.insert(key, f);
        cmd
    }

    /// Handles one signal: decodes `msg`, runs the action registered under
    /// its key by handing it to `run`, and after a finish trigger removes
    /// every callback of that notification. Text that does not decode, and a
    /// key with nothing registered, are ignored. Returns whether an action ran.
    /// The caller vouches for `run`'s precondition only on the action that the
    /// message names, so that is the only action `run` can be given.
    pub fn dispatch<F: Fn(&A)>(&mut self, msg: &str, run: F) -> (r: bool)
        requires
            fired(old(self).entries(), msg@) matches Some(a) ==> run.requires((&a,)),
        ensures
            r == fired(old(self).entries(), msg@) is Some,
            fired(old(self).entries(), msg@) matches Some(a) ==> run.ensures((&a,), ()),
            final(self).entries() == after_signal(old(self).entries(), msg@),
            final(self).socket_view() == old(self).socket_view(),
    {
        let key = match CallbackKey::from_str(msg) {
            Ok(key) => key,
            Err(_) => return false,
        };
        match self.map.get(&key) {
            Some(f) => run(f),
            None => return false,
        }
        if key.is_finish_trigger() {
            self.map.remove_id(key.id());
        }
        true
    }
}

/// The option value that signals trigger `t` of notification `id`.
pub open spec fn signal_command(id: Seq<char>, t: Flag, socket: Seq<char>) -> Seq<char> {
    shell_command(encode((id, flag_text(t))), socket)
}

impl TermuxNotification {
    /// Registers `f` for trigger `t` of this notification, whose id must be
    /// set, and returns the command that signals it.
    fn on<A>(&self, callbacks: &mut Callbacks<A>, t: Flag, f: A) -> (r: String)
        requires
            id_of(self@) is Some,
        ensures
            final(callbacks).socket_view() == old(callbacks).socket_view(),
            final(callbacks).entries() == put(
                old(callbacks).entries(),
                (id_of(self@)->0, flag_text(t)),
                f,
            ),
            r@ == signal_command(id_of(self@)->0, t, old(callbacks).socket_view()),
    {
        let id = self.get_id_unchecked();
        let key = CallbackKey::new(id, t.name().to_owned());
        callbacks.register(key, f)
    }

    /// Action to run when the notification is pressed; the notification's id must be set.
    pub fn action_fn<A>(&mut self, callbacks: &mut Callbacks<A>, f: A) -> (r: &mut Self)
        requires
            id_of(old(self)@) is Some,
        ensures
            final(callbacks).socket_view() == old(callbacks).socket_view(),
            final(callbacks).entries() == put(
                old(callbacks).entries(),
                (id_of(old(self)@)->0, flag_text(Flag::Action)),
                f,
            ),
            (*r)@ == put(
                old(self)@,
                Flag::Action,
                Some(signal_command(id_of(old(self)@)->0, Flag::Action, old(callbacks).socket_view())),
            ),
            *final(self) == *final(r),
    {
        let cmd = self.on(callbacks, Flag::Action, f);
        self.action(cmd.as_str())
    }

    /// Action to run when the notification is cleared; the notification's id must be set.
    pub fn on_delete_fn<A>(&mut self, callbacks: &mut Callbacks<A>, f: A) -> (r: &mut Self)
        requires
            id_of(old(self)@) is Some,
        ensures
            final(callbacks).socket_view() == old(callbacks).socket_view(),
            final(callbacks).entries() == put(
                old(callbacks).entries(),
                (id_of(old(self)@)->0, flag_text(Flag::OnDelete)),
                f,
            ),
            (*r)@ == put(
                old(self)@,
                Flag::OnDelete,
                Some(signal_command(id_of(old(self)@)->0, Flag::OnDelete, old(callbacks).socket_view())),
            ),
            *final(self) == *final(r),
    {
        let cmd = self.on(callbacks, Flag::OnDelete, f);
        self.on_delete(cmd.as_str())
    }

    /// Text and action for the first notification button; the
    /// notification's id must be set.
    pub fn button1_fn<A>(&mut self, callbacks: &mut Callbacks<A>, label: &str, f: A) -> (r:
        &mut Self)
        requires
            id_of(old(self)@) is Some,
        ensures
            final(callbacks).socket_view() == old(callbacks).socket_view(),
            final(callbacks).entries() == put(
                old(callbacks).entries(),
                (id_of(old(self)@)->0, flag_text(Flag::Button1)),
                f,
            ),
            (*r)@ == put(
                put(old(self)@, Flag::Button1, Some(label@)),
                Flag::Button1Action,
                Some(signal_command(id_of(old(self)@)->0, Flag::Button1, old(callbacks).socket_view())),
            ),
            *final(self) == *final(r),
    {
        let cmd = self.on(callbacks, Flag::Button1, f);
        self.button1(label, cmd.as_str())
    }

    /// Text and action for the second notification button; the
    /// notification's id must be set.
    pub fn button2_fn<A>(&mut self, callbacks: &mut Callbacks<A>, label: &str, f: A) -> (r:
        &mut Self)
        requires
            id_of(old(self)@) is Some,
        ensures
            final(callbacks).socket_view() == old(callbacks).socket_view(),
            final(callbacks).entries() == put(
                old(callbacks).entries(),
                (id_of(old(self)@)->0, flag_text(Flag::Button2)),
                f,
            ),
            (*r)@ == put(
                put(old(self)@, Flag::Button2, Some(label@)),
                Flag::Button2Action,
                Some(signal_command(id_of(old(self)@)->0, Flag::Button2, old(callbacks).socket_view())),
            ),
            *final(self) == *final(r),
    {
        let cmd = self.on(callbacks, Flag::Button2, f);
        self.button2(label, cmd.as_str())
    }

    /// Text and action for the third notification button; the
    /// notification's id must be set.
    pub fn button3_fn<A>(&mut self, callbacks: &mut Callbacks<A>, label: &str, f: A) -> (r:
        &mut Self)
        requires
            id_of(old(self)@) is Some,
        ensures
            final(callbacks).socket_view() == old(callbacks).socket_view(),
            final(callbacks).entries() == put(
                old(callbacks).entries(),
                (id_of(old(self)@)->0, flag_text(Flag::Button3)),
                f,
            ),
            (*r)@ == put(
                put(old(self)@, Flag::Button3, Some(label@)),
                Flag::Button3Action,
                Some(signal_command(id_of(old(self)@)->0, Flag::Button3, old(callbacks).socket_view())),
            ),
            *final(self) == *final(r),
    {
        let cmd = self.on(callbacks, Flag::Button3, f);
        self.button3(label, cmd.as_str())
    }
}

/// Registering again under a key that holds an action replaces it: the
/// registry keeps its size, a signal for the key runs the new action, no
/// entry for the key holds another, and every other key keeps its action.
pub proof fn lemma_reregister<A>(s: Seq<(KeyView, A)>, k: KeyView, f: A)
    requires
        keys_distinct(s),
        lookup(s, k) is Some,
        !k.1.contains('@'),
    ensures
        put(s, k, f).len() == s.len(),
        fired(put(s, k, f), encode(k)) == Some(f),
        forall|i: int| 0 <= i < put(s, k, f).len() && #[trigger] put(s, k, f)[i].0 == k ==> put(
            s,
            k,
            f,
        )[i].1 == f,
        forall|k2: KeyView| k2 != k ==> lookup(#[trigger] put(s, k, f), k2) == lookup(s, k2),
{
    crate::callback_key::lemma_round_trip(k);
    crate::assoc::lemma_put_replaces(s, k, f);
}

/// Registering twice under one key keeps the second action only: a signal
/// for the key runs it.
pub proof fn lemma_replace<A>(s: Seq<(KeyView, A)>, k: KeyView, a: A, b: A)
    requires
        !k.1.contains('@'),
    ensures
        fired(put(put(s, k, a), k, b), encode(k)) == Some(b),
{
    crate::callback_key::lemma_round_trip(k);
    crate::assoc::lemma_put_put(s, k, a, b);
}

/// After a finish trigger ran for a notification, no signal for that
/// notification runs anything, whatever its trigger.
pub proof fn lemma_finish_cleans_up<A>(
    s: Seq<(KeyView, A)>,
    id: Seq<char>,
    finish: Seq<char>,
    other: Seq<char>,
)
    requires
        is_finish(finish),
        !finish.contains('@'),
        !other.contains('@'),
        lookup(s, (id, finish)) is Some,
    ensures
        after_signal(s, encode((id, finish))) == without_id(s, id),
        fired(after_signal(s, encode((id, finish))), encode((id, other))) is None,
{
    crate::callback_key::lemma_round_trip((id, finish));
    crate::callback_key::lemma_round_trip((id, other));
    crate::callback_map::lemma_without_id(s, id, other);
}

/// A trigger that does not finish the notification leaves the registry as
/// it was.
pub proof fn lemma_other_trigger_keeps<A>(s: Seq<(KeyView, A)>, k: KeyView)
    requires
        !is_finish(k.1),
        !k.1.contains('@'),
    ensures
        after_signal(s, encode(k)) == s,
{
    crate::callback_key::lemma_round_trip(k);
}

} // verus!
