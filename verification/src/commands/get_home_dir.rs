use crate::types::result::{continues_with, is_error_with, CommandResult};
use crate::utils::pckg::{concat, qualified};
use fsio::path::from_path::FromPath;
use std::path::PathBuf;
use vstd::prelude::*;

verus! {

#[verifier::external_type_specification]
#[verifier::external_body]
pub struct ExPathBuf(std::path::PathBuf);

/// Calls `home::home_dir`, which reads the user's home directory from the
/// environment and the system; nothing is stated of what it finds.
#[verifier::external_body]
fn home_dir() -> (directory: Option<PathBuf>) {
    home::home_dir()
}

/// Calls `fsio::path::from_path::FromPath::from_path` for `String`, the
/// lossy text of the path; nothing is stated of it, as the path is opaque here.
#[verifier::external_body]
fn path_text(path: &PathBuf) -> (text: String) {
    <String as FromPath>::from_path(path)
}

/// The command that gives the user's home directory.
pub struct CommandImpl {
    pub package: String,
}

/// The command in `package`.
pub fn create(package: &str) -> (command: CommandImpl)
    ensures
        command.package@ == package@,
{
    CommandImpl { package: String::from_str(package) }
}

/// What the command answers for the home directory that was found, if any.
pub fn home_dir_result(directory: Option<String>) -> (result: CommandResult)
    ensures
        match directory {
            Some(d) => continues_with(result, Some(d@)),
            None => is_error_with(result, "Unable to find user home directory."@),
        },
{
    match directory {
        Some(d) => CommandResult::Continue(Some(d)),
        None => CommandResult::Error(String::from_str("Unable to find user home directory.")),
    }
}

impl CommandImpl {
    pub fn name(&self) -> (name: String)
        ensures
            name@ == qualified(self.package@, "GetHomeDirectory"@),
    {
        concat(self.package.as_str(), "GetHomeDirectory")
    }

    pub fn aliases(&self) -> (aliases: Vec<String>)
        ensures
            aliases.len() == 1,
            aliases[0]@ == "get_home_dir"@,
    {
        vec![String::from_str("get_home_dir")]
    }

    /// Looks up the home directory; the arguments are not read.
    pub fn run(&self) -> (result: CommandResult)
        ensures
            (result matches CommandResult::Continue(Some(_))) || is_error_with(
                result,
                "Unable to find user home directory."@,
            ),
    {
        match home_dir() {
            Some(directory) => home_dir_result(Some(path_text(&directory))),
            None => home_dir_result(None),
        }
    }
}

} // verus!
