use crate::types::result::{continues_with, is_error_with, CommandResult};
use crate::utils::pckg::{concat, qualified};
use crate::utils::text::{i32_value, parse_i32};
use vstd::prelude::*;

verus! {

/// The command that stops the script with an exit code.
pub struct CommandImpl {
    pub package: String,
}

/// The command in `package`.
pub fn create(package: &str) -> (command: CommandImpl)
    ensures
        command.package@ == package@,
{
    CommandImpl { package: String::from_str(package) }
}

impl CommandImpl {
    pub fn name(&self) -> (name: String)
        ensures
            name@ == qualified(self.package@, "Exit"@),
    {
        concat(self.package.as_str(), "Exit")
    }

    pub fn aliases(&self) -> (aliases: Vec<String>)
        ensures
            aliases.len() == 3,
            aliases[0]@ == "exit"@,
            aliases[1]@ == "quit"@,
            aliases[2]@ == "q"@,
    {
        vec![String::from_str("exit"), String::from_str("quit"), String::from_str("q")]
    }

    /// Exits with the code given as the first argument, `0` when there is none.
    pub fn run(&self, arguments: &Vec<String>) -> (result: CommandResult)
        ensures
            arguments.len() == 0 ==> (result matches CommandResult::Exit(Some(code)) && code@
                == "0"@),
            arguments.len() > 0 && i32_value(arguments[0]@) is Some ==> (result matches CommandResult::Exit(
                Some(code),
            ) && code@ == arguments[0]@),
            arguments.len() > 0 && i32_value(arguments[0]@) is None ==> is_error_with(
                result,
                "Invalid exit code: "@ + arguments[0]@,
            ),
    {
        if arguments.len() == 0 {
            CommandResult::Exit(Some(String::from_str("0")))
        } else {
            match parse_i32(arguments[0].as_str()) {
                Some(_) => CommandResult::Exit(Some(arguments[0].clone())),
                None => {
                    let mut message = String::from_str("Invalid exit code: ");
                    message.append(arguments[0].as_str());
                    CommandResult::Error(message)
                },
            }
        }
    }
}

} // verus!
