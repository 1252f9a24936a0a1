//! Removal of a notification that was shown.
use vstd::prelude::*;

use crate::command::{arg_views, ensure_success, output_text, CommandLine, CommandOutcome};

verus! {

/// Name of the program that removes a notification.
pub open spec fn remove_program() -> Seq<char> {
    "termux-notification-remove"@
}

/// Removes a notification previously shown with an id.
#[derive(Debug, Clone, PartialEq, Eq)]
pub struct RemoveHandle {
    id: Option<String>,
}

impl RemoveHandle {
    /// The id, as characters.
    pub closed spec fn id_view(&self) -> Option<Seq<char>> {
        match self.id {
            Some(s) => Some(s@),
            None => None,
        }
    }

    pub fn new(id: Option<String>) -> (r: Self)
        ensures
            r.id_view() == match id {
                Some(s) => Some(s@),
                None => None::<Seq<char>>,
            },
    {
        RemoveHandle { id }
    }

    pub fn id(&self) -> (r: Option<&String>)
        ensures
            match r {
                Some(s) => self.id_view() == Some(s@),
                None => self.id_view() is None,
            },
    {
        self.id.as_ref()
    }

    /// The `termux-notification-remove <id>` command; none without an id, as
    /// there is nothing to remove then.
    pub fn to_command(&self) -> (r: Option<CommandLine>)
        ensures
            match self.id_view() {
                Some(id) => (r matches Some(c) && c.program@ == remove_program() && arg_views(c.args@)
                    == seq![id]),
                None => r is None,
            },
    {
        match &self.id {
            Some(id) => {
                let mut args: Vec<String> = Vec::new();
                args.push(id.clone());
                assert(arg_views(args@) =~= seq![id@]);
                Some(CommandLine { program: "termux-notification-remove".to_owned(), args })
            },
            None => None,
        }
    }

    /// Settles a removal. Without an id nothing was run and the removal
    /// succeeds whatever `outcome` says; with one, `outcome` is how the run of
    /// `to_command` ended, and a status other than success fails with the
    /// command's combined output.
    pub fn remove(&self, outcome: &CommandOutcome) -> (r: Result<(), String>)
        ensures
            self.id_view() is None ==> r is Ok,
            self.id_view() is Some ==> (outcome.success <==> r is Ok),
            self.id_view() is Some && !outcome.success ==> (r matches Err(e) && e@ == output_text(
                outcome.stdout@,
                outcome.stderr@,
            )),
    {
        match &self.id {
            Some(_) => ensure_success(outcome),
            None => Ok(()),
        }
    }
}

} // verus!
