//! Descriptions of external commands and of how a run of one ended.
use vstd::prelude::*;

verus! {

/// A program and its arguments, ready to be run.
#[derive(Debug, PartialEq, Eq)]
pub struct CommandLine {
    pub program: String,
    pub args: Vec<String>,
}

/// The arguments of a command line, as character sequences.
pub open spec fn arg_views(args: Seq<String>) -> Seq<Seq<char>> {
    args.map_values(|a: String| a@)
}

/// How a run of a command ended: whether its status was success, and what it
/// wrote to standard output and standard error.
#[derive(Debug, PartialEq, Eq)]
pub struct CommandOutcome {
    pub success: bool,
    pub stdout: String,
    pub stderr: String,
}

/// The non-empty ones of `out` and `err`, joined by a line break.
pub open spec fn output_text(out: Seq<char>, err: Seq<char>) -> Seq<char> {
    if out.len() == 0 {
        err
    } else if err.len() == 0 {
        out
    } else {
        out + "\n"@ + err
    }
}

/// The error text of a failed run: its standard output and standard error,
/// the non-empty ones only, joined by a line break.
pub fn combined_output(outcome: &CommandOutcome) -> (r: String)
    ensures
        r@ == output_text(outcome.stdout@, outcome.stderr@),
{
    if outcome.stdout.as_str().is_empty() {
        outcome.stderr.clone()
    } else if outcome.stderr.as_str().is_empty() {
        outcome.stdout.clone()
    } else {
        let mut s = outcome.stdout.clone();
        s.append("\n");
        s.append(outcome.stderr.as_str());
        s
    }
}

/// Succeeds when the run's status was success; otherwise fails with its
/// combined output.
pub fn ensure_success(outcome: &CommandOutcome) -> (r: Result<(), String>)
    ensures
        outcome.success ==> r is Ok,
        !outcome.success ==> (r matches Err(e) && e@ == output_text(outcome.stdout@, outcome.stderr@)),
{
    if outcome.success {
        Ok(())
    } else {
        Err(combined_output(outcome))
    }
}

} // verus!
