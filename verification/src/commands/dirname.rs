use crate::types::result::{continues_with, is_error_with, CommandResult};
use crate::utils::pckg::{concat, qualified};
use vstd::prelude::*;

verus! {

/// Names what `fsio::path::get_parent_directory` returns for a path's text.
pub uninterp spec fn parent_directory(path: Seq<char>) -> Option<Seq<char>>;

/// Calls `fsio::path::get_parent_directory`, which takes the parent of the path
/// as `std::path::Path::parent` gives it and answers `None` where there is none
/// or where it is the empty string.
#[verifier::external_body]
fn get_parent_directory(path: &String) -> (parent: Option<String>)
    ensures
        match parent {
            Some(p) => parent_directory(path@) == Some(p@) && p@.len() > 0,
            None => parent_directory(path@) is None,
        },
{
    fsio::path::get_parent_directory(path)
}

/// The command that gives the parent directory of a path.
pub struct CommandImpl {
    pub package: String,
}

/// The command in `package`.
pub fn create(package: &str) -> (command: CommandImpl)
    ensures
        command.package@ == package@,
{
    CommandImpl { package: String::from_str(package) }
}

impl CommandImpl {
    pub fn name(&self) -> (name: String)
        ensures
            name@ == qualified(self.package@, "GetParentDirectory"@),
    {
        concat(self.package.as_str(), "GetParentDirectory")
    }

    pub fn aliases(&self) -> (aliases: Vec<String>)
        ensures
            aliases.len() == 1,
            aliases[0]@ == "dirname"@,
    {
        vec![String::from_str("dirname")]
    }

    /// Gives the parent directory of the path that is the first argument.
    pub fn run(&self, arguments: &Vec<String>) -> (result: CommandResult)
        ensures
            arguments.len() == 0 ==> is_error_with(result, "Path not provided."@),
            arguments.len() > 0 ==> continues_with(result, parent_directory(arguments[0]@)),
    {
        if arguments.len() == 0 {
            CommandResult::Error(String::from_str("Path not provided."))
        } else {
            let parent_path = get_parent_directory(&arguments[0]);
            CommandResult::Continue(parent_path)
        }
    }
}

} // verus!
