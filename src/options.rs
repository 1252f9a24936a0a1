//! Command-line options of `termux-notification` that this library sets.
use vstd::prelude::*;

verus! {

/// An option of the show command; each one is written as a `--name` flag.
#[derive(Debug, Clone, Copy, PartialEq, Eq, Structural, Hash)]
pub enum Flag {
    /// Notification id (will overwrite any previous notification with the same id)
    Id,
    /// Notification title to show
    Title,
    /// Content to show in the notification
    Content,
    /// Icon that shows up in the status bar
    Icon,
    /// Do not alert when the notification is edited
    AlertOnce,
    /// Pin the notification
    Ongoing,
    /// Action to execute when pressing the notification
    Action,
    /// Action to execute when the notification is cleared
    OnDelete,
    /// Text to show on the first notification button
    Button1,
    /// Action to execute on the first notification button
    Button1Action,
    /// Text to show on the second notification button
    Button2,
    /// Action to execute on the second notification button
    Button2Action,
    /// Text to show on the third notification button
    Button3,
    /// Action to execute on the third notification button
    Button3Action,
}

/// The command-line spelling of a flag.
pub open spec fn flag_text(f: Flag) -> Seq<char> {
    match f {
        Flag::Id => "--id"@,
        Flag::Title => "--title"@,
        Flag::Content => "--content"@,
        Flag::Icon => "--icon"@,
        Flag::AlertOnce => "--alert-once"@,
        Flag::Ongoing => "--ongoing"@,
        Flag::Action => "--action"@,
        Flag::OnDelete => "--on-delete"@,
        Flag::Button1 => "--button1"@,
        Flag::Button1Action => "--button1-action"@,
        Flag::Button2 => "--button2"@,
        Flag::Button2Action => "--button2-action"@,
        Flag::Button3 => "--button3"@,
        Flag::Button3Action => "--button3-action"@,
    }
}

impl Flag {
    /// The command-line spelling of this flag, such as `--title`.
    pub fn name(&self) -> (r: &'static str)
        ensures
            r@ == flag_text(*self),
    {
        match self {
            Flag::Id => "--id",
            Flag::Title => "--title",
            Flag::Content => "--content",
            Flag::Icon => "--icon",
            Flag::AlertOnce => "--alert-once",
            Flag::Ongoing => "--ongoing",
            Flag::Action => "--action",
            Flag::OnDelete => "--on-delete",
            Flag::Button1 => "--button1",
            Flag::Button1Action => "--button1-action",
            Flag::Button2 => "--button2",
            Flag::Button2Action => "--button2-action",
            Flag::Button3 => "--button3",
            Flag::Button3Action => "--button3-action",
        }
    }
}

} // verus!
