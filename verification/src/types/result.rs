use vstd::prelude::*;

verus! {

#[derive(Debug)]
/// Where a command asks the runner to jump.
pub enum GoToValue {
    /// A label of the script.
    Label(String),
    /// A line number of the script.
    Line(usize),
}

#[derive(Debug)]
/// What running a command tells the script runner.
pub enum CommandResult {
    /// The command's output; the runner goes on with the next instruction.
    Continue(Option<String>),
    /// The command's output; the runner jumps to the target.
    GoTo(Option<String>, GoToValue),
    /// An error message.
    Error(String),
    /// A critical error message.
    Crash(String),
    /// The command's output; the runner stops the script.
    Exit(Option<String>),
}

/// Whether `r` is an error whose message is `m`.
pub open spec fn is_error_with(r: CommandResult, m: Seq<char>) -> bool {
    r matches CommandResult::Error(e) && e@ == m
}

/// Whether `r` is a crash whose message is `m`.
pub open spec fn is_crash_with(r: CommandResult, m: Seq<char>) -> bool {
    r matches CommandResult::Crash(e) && e@ == m
}

/// Whether `r` goes on with the output `out`.
pub open spec fn continues_with(r: CommandResult, out: Option<Seq<char>>) -> bool {
    match r {
        CommandResult::Continue(o) => match (o, out) {
            (Some(a), Some(b)) => a@ == b,
            (None, None) => true,
            _ => false,
        },
        _ => false,
    }
}

} // verus!
