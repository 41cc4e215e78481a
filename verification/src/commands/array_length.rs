use crate::types::handles::{HandleStore, HandleValue};
use crate::types::result::{continues_with, is_error_with, CommandResult};
use crate::utils::pckg::{concat, qualified};
use crate::utils::text::{decimal, usize_to_string};
use vstd::prelude::*;

verus! {

/// The command that tells the length of a list held under a handle.
pub struct CommandImpl {
    pub package: String,
}

/// The command in `package`.
pub fn create(package: &str) -> (command: CommandImpl)
    ensures
        command.package@ == package@,
{
    CommandImpl { package: String::from_str(package) }
}

impl CommandImpl {
    pub fn name(&self) -> (name: String)
        ensures
            name@ == qualified(self.package@, "ArrayLength"@),
    {
        concat(self.package.as_str(), "ArrayLength")
    }

    pub fn aliases(&self) -> (aliases: Vec<String>)
        ensures
            aliases.len() == 3,
            aliases[0]@ == "array_length"@,
            aliases[1]@ == "arrlen"@,
            aliases[2]@ == "array_size"@,
    {
        vec![
            String::from_str("array_length"),
            String::from_str("arrlen"),
            String::from_str("array_size"),
        ]
    }

    /// Looks up the handle given as the first argument among `handles`.
    pub fn run(&self, arguments: &Vec<String>, handles: &HandleStore) -> (result: CommandResult)
        ensures
            arguments.len() == 0 ==> is_error_with(result, "Array handle not provided."@),
            arguments.len() > 0 ==> {
                let key = arguments[0]@;
                if !handles@.contains_key(key) {
                    is_error_with(result, "Array for handle: "@ + key + " not found."@)
                } else {
                    match handles@[key] {
                        HandleValue::List(length) => continues_with(
                            result,
                            Some(decimal(length as nat)),
                        ),
                        HandleValue::Other => is_error_with(result, "Invalid handle provided."@),
                    }
                }
            },
    {
        if arguments.len() == 0 {
            CommandResult::Error(String::from_str("Array handle not provided."))
        } else {
            let key = &arguments[0];
            match handles.get(key) {
                Some(HandleValue::List(length)) => CommandResult::Continue(
                    Some(usize_to_string(length)),
                ),
                Some(HandleValue::Other) => CommandResult::Error(
                    String::from_str("Invalid handle provided."),
                ),
                None => {
                    let mut message = String::from_str("Array for handle: ");
                    message.append(key.as_str());
                    message.append(" not found.");
                    CommandResult::Error(message)
                },
            }
        }
    }
}

} // verus!
