use crate::types::result::{continues_with, is_error_with, CommandResult};
use crate::utils::pckg::{concat, qualified};
use vstd::prelude::*;

verus! {

/// The command that downloads a file over FTP into a byte array held by handle.
pub struct CommandImpl {
    pub package: String,
}

/// The command in `package`.
pub fn create(package: &str) -> (command: CommandImpl)
    ensures
        command.package@ == package@,
{
    CommandImpl { package: String::from_str(package) }
}

impl CommandImpl {
    pub fn name(&self) -> (name: String)
        ensures
            name@ == qualified(self.package@, "GetInMemory"@),
    {
        concat(self.package.as_str(), "GetInMemory")
    }

    pub fn aliases(&self) -> (aliases: Vec<String>)
        ensures
            aliases.len() == 1,
            aliases[0]@ == "ftp_get_in_memory"@,
    {
        vec![String::from_str("ftp_get_in_memory")]
    }
}

/// The check made on the options before connecting: a remote file is needed.
pub fn validate_options(remote_file: &Option<String>) -> (checked: Result<(), String>)
    ensures
        remote_file is Some <==> checked is Ok,
        checked matches Err(m) ==> m@ == "Missing remote file name"@,
{
    if remote_file.is_none() {
        Err(String::from_str("Missing remote file name"))
    } else {
        Ok(())
    }
}

/// What the command answers once the download is over: the handle under which
/// the bytes are held, or the text of the FTP error.
pub fn retrieval_result(retrieved: Result<String, String>) -> (result: CommandResult)
    ensures
        match retrieved {
            Ok(handle) => continues_with(result, Some(handle@)),
            Err(e) => is_error_with(result, e@),
        },
{
    match retrieved {
        Ok(handle) => CommandResult::Continue(Some(handle)),
        Err(e) => CommandResult::Error(e),
    }
}

} // verus!
