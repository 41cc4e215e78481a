use crate::types::result::{continues_with, is_error_with, CommandResult};
use crate::utils::pckg::{concat, qualified};
use vstd::prelude::*;

verus! {

/// Calls `uname::uname` and gives the `sysname` field of what it read from the
/// system, or the text of its I/O error; nothing is stated of either.
#[verifier::external_body]
fn system_name() -> (value: Result<String, String>) {
    match uname::uname() {
        Ok(info) => Ok(info.sysname),
        Err(error) => Err(error.to_string()),
    }
}

/// The command that gives the name of the operating system.
pub struct CommandImpl {
    pub package: String,
}

/// The command in `package`.
pub fn create(package: &str) -> (command: CommandImpl)
    ensures
        command.package@ == package@,
{
    CommandImpl { package: String::from_str(package) }
}

/// What the command answers for the system name, or the error met reading it.
pub fn os_name_result(value: Result<String, String>) -> (result: CommandResult)
    ensures
        match value {
            Ok(v) => continues_with(result, Some(v@)),
            Err(e) => is_error_with(result, e@),
        },
{
    match value {
        Ok(v) => CommandResult::Continue(Some(v)),
        Err(e) => CommandResult::Error(e),
    }
}

impl CommandImpl {
    pub fn name(&self) -> (name: String)
        ensures
            name@ == qualified(self.package@, "GetOSName"@),
    {
        concat(self.package.as_str(), "GetOSName")
    }

    pub fn aliases(&self) -> (aliases: Vec<String>)
        ensures
            aliases.len() == 1,
            aliases[0]@ == "os_name"@,
    {
        vec![String::from_str("os_name")]
    }

    /// Reads the system name; the arguments are not read.
    pub fn run(&self) -> (result: CommandResult)
        ensures
            (result matches CommandResult::Continue(Some(_))) || (result is Error),
    {
        os_name_result(system_name())
    }
}

} // verus!
