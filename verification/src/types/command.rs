use crate::types::result::{continues_with, is_crash_with, is_error_with, CommandResult};
use crate::utils::text::{decimal, lemma_decimal_value, lemma_decimal_injective, write_decimal};
use duckscript::types::error::ScriptError;
use duckscript::types::instruction::Instruction;
use vstd::prelude::*;

verus! {

#[verifier::external_type_specification]
#[verifier::external_body]
pub struct ExInstruction(duckscript::types::instruction::Instruction);

#[verifier::external_type_specification]
#[verifier::external_body]
pub struct ExScriptError(duckscript::types::error::ScriptError);

/// Names what `duckscript::parser::parse_text` gives for a text that holds no
/// preprocessor line: the instructions, or the error met.
pub uninterp spec fn parse_result(text: Seq<char>) -> Result<Seq<Instruction>, ScriptError>;

/// Whether `c` is white space as `char::is_whitespace` has it (the Unicode
/// White_Space property), which is what `str::trim` removes.
pub open spec fn is_white_space(c: char) -> bool {
    let u = c as u32;
    ||| 9 <= u <= 13
    ||| u == 32
    ||| u == 0x85
    ||| u == 0xA0
    ||| u == 0x1680
    ||| 0x2000 <= u <= 0x200A
    ||| u == 0x2028
    ||| u == 0x2029
    ||| u == 0x202F
    ||| u == 0x205F
    ||| u == 0x3000
}

/// Whether only white space stands between the start of the line of
/// position `i` and that position.
pub open spec fn blank_before(text: Seq<char>, i: int) -> bool
    decreases i,
{
    if i <= 0 {
        true
    } else if text[i - 1] == '\n' {
        true
    } else {
        is_white_space(text[i - 1]) && blank_before(text, i - 1)
    }
}

/// Whether `text` holds a preprocessor line: a line whose first character
/// that is not white space is `!`.
pub open spec fn holds_preprocessor_line(text: Seq<char>) -> bool {
    exists|i: int| 0 <= i < text.len() && #[trigger] text[i] == '!' && blank_before(text, i)
}

fn is_white_space_char(c: char) -> (white: bool)
    ensures
        white == is_white_space(c),
{
    let u = c as u32;
    (9 <= u && u <= 13) || u == 32 || u == 0x85 || u == 0xA0 || u == 0x1680 || (0x2000 <= u && u
        <= 0x200A) || u == 0x2028 || u == 0x2029 || u == 0x202F || u == 0x205F || u == 0x3000
}

/// Whether a script holds a preprocessor line, which the parser runs (reading
/// files, printing) while it parses.
pub fn has_preprocessor_line(text: &str) -> (found: bool)
    ensures
        found == holds_preprocessor_line(text@),
{
    let len = text.unicode_len();
    let mut blank = true;
    let mut i: usize = 0;
    while i < len
        invariant
            i <= len,
            len == text@.len(),
            blank == blank_before(text@, i as int),
            forall|k: int| 0 <= k < i ==> !(text@[k] == '!' && blank_before(text@, k)),
        decreases len - i,
    {
        let c = text.get_char(i);
        if c == '!' && blank {
            assert(text@[i as int] == '!' && blank_before(text@, i as int));
            return true;
        }
        if c == '\n' {
            blank = true;
        } else if !is_white_space_char(c) {
            blank = false;
        }
        i = i + 1;
    }
    assert forall|k: int| 0 <= k < text@.len() && #[trigger] text@[k] == '!' implies !blank_before(
        text@,
        k,
    ) by {}
    false
}

/// Calls `duckscript::parser::parse_text` on a script without preprocessor
/// lines, which it parses from its characters alone: what it gives is named
/// `parse_result`. Preprocessor lines are kept out, as the parser runs
/// them: `!include_files` reads files and recurses without end on a file that
/// includes itself, and `!print` panics where the standard output fails.
#[verifier::external_body]
fn parse_text(text: &String) -> (instructions: Result<Vec<Instruction>, ScriptError>)
    requires
        !holds_preprocessor_line(text@),
    ensures
        match instructions {
            Ok(v) => parse_result(text@) == Ok::<Seq<Instruction>, ScriptError>(v@),
            Err(e) => parse_result(text@) == Err::<Seq<Instruction>, ScriptError>(e),
        },
{
    duckscript::parser::parse_text(text)
}

/// Why a command could not be made.
pub enum CommandError {
    /// The script text did not parse.
    Script(ScriptError),
}

/// A command whose body is a script, run in a scope of its own.
pub struct AliasCommand {
    pub name: String,
    pub aliases: Vec<String>,
    pub help: String,
    /// The scope's name, `scope::` and the name it was given.
    pub scope_name: String,
    /// The script's text.
    pub raw_command: String,
    /// The least number of arguments that the command takes.
    pub arguments_amount: usize,
    /// The parsed script.
    pub instructions: Vec<Instruction>,
}

/// The scope in which a command named `scope_name` runs.
pub open spec fn scope_of(scope_name: Seq<char>) -> Seq<char> {
    "scope::"@ + scope_name
}

/// The variable that holds the argument numbered `index` (from 1).
pub open spec fn argument_key(scope: Seq<char>, index: nat) -> Seq<char> {
    scope + "::argument::"@ + decimal(index)
}

/// The variable that holds the handle of the list of all arguments.
pub open spec fn arguments_key(scope: Seq<char>) -> Seq<char> {
    scope + "::arguments"@
}

/// Whether `c` holds these parts, `raw_command` as its script; its parsed
/// instructions, of an opaque outside type, are not among them.
pub open spec fn made_alias(
    c: AliasCommand,
    name: String,
    aliases: Vec<String>,
    help: String,
    scope_name: Seq<char>,
    raw_command: String,
    arguments_amount: usize,
) -> bool {
    &&& c.name == name
    &&& c.aliases == aliases
    &&& c.help == help
    &&& c.scope_name@ == scope_of(scope_name)
    &&& c.raw_command == raw_command
    &&& c.arguments_amount == arguments_amount
}

/// What making an alias command of these parts gives: where the script parses,
/// a command holding the parts given and the parsed instructions; else the
/// parser's error.
pub open spec fn makes_alias(
    command: Result<AliasCommand, CommandError>,
    name: String,
    aliases: Vec<String>,
    help: String,
    scope_name: Seq<char>,
    raw_command: String,
    arguments_amount: usize,
) -> bool {
    match parse_result(raw_command@) {
        Ok(v) => command matches Ok(c) && made_alias(
            c,
            name,
            aliases,
            help,
            scope_name,
            raw_command,
            arguments_amount,
        ) && c.instructions@ == v,
        Err(e) => command matches Err(CommandError::Script(f)) && f == e,
    }
}

/// The documentation of an alias command: its help and its source.
pub open spec fn alias_help(help: Seq<char>, source: Seq<char>) -> Seq<char> {
    "\n"@ + help + "\n\n#### Source:\n<details>\n  <summary>Show Source</summary>\n\n```sh\n"@ + source
        + "\n```\n</details>\n\n"@
}

/// The message of a run that left `delta` more variables than it found.
pub open spec fn leak_message(delta: nat) -> Seq<char> {
    "Memory leak detected, delta variables count: "@ + decimal(delta)
}

/// Whether `result` is the answer of a run that found `start_count` variables
/// and left `end_count`: a crash where more are left than were found, else
/// what the script answered, else its output.
pub open spec fn finished_as(
    result: CommandResult,
    start_count: usize,
    end_count: usize,
    flow_result: Option<CommandResult>,
    flow_output: Option<String>,
) -> bool {
    &&& start_count < end_count ==> is_crash_with(
        result,
        leak_message((end_count - start_count) as nat),
    )
    &&& start_count >= end_count ==> match flow_result {
        Some(r) => result == r,
        None => continues_with(
            result,
            match flow_output {
                Some(o) => Some(o@),
                None => None,
            },
        ),
    }
}

/// Whether `bindings` sets the argument at position `i` under the key
/// numbered `i + 1` in `scope`.
pub open spec fn binds_arguments(
    scope: Seq<char>,
    arguments: Seq<String>,
    bindings: Seq<(String, String)>,
) -> bool {
    &&& bindings.len() == arguments.len()
    &&& forall|i: int|
        0 <= i < arguments.len() ==> {
            &&& (#[trigger] bindings[i]).0@ == argument_key(scope, (i + 1) as nat)
            &&& bindings[i].1 == arguments[i]
        }
}

/// Where a run of an alias command stands between two steps.
pub struct AliasRun {
    /// The number of variables when the run began.
    pub start_count: usize,
    /// The line context to restore at the end.
    pub line_context: String,
    /// The handle of the list of arguments, once it is held.
    pub handle: Option<String>,
    /// What the script answered, once it has run.
    pub flow_result: Option<CommandResult>,
    /// The script's output, once it has run.
    pub flow_output: Option<String>,
}

impl AliasRun {
    /// The state before the first step.
    pub fn new() -> (run: Self)
        ensures
            run.start_count == 0,
            run.line_context@.len() == 0,
            run.handle is None,
            run.flow_result is None,
            run.flow_output is None,
    {
        AliasRun {
            start_count: 0,
            line_context: String::new(),
            handle: None,
            flow_result: None,
            flow_output: None,
        }
    }
}

/// What happened in the last step of running an alias command.
pub enum AliasEvent {
    /// Nothing yet.
    Start,
    /// The variables were counted and the line context set to the scope; this
    /// is the line context it replaced.
    ScopeEntered { variables_count: usize, previous_line_context: String },
    /// The list of arguments is held under this handle.
    ArgumentsHeld { handle: String },
    /// The variable was set.
    VariableSet,
    /// The script ran, with this answer and output.
    Evaluated { flow_result: Option<CommandResult>, flow_output: Option<String> },
    /// The handle and what it held were removed.
    HandleRemoved,
    /// The scope's variables were removed.
    ScopeCleared,
    /// The line context was restored; this many variables are left.
    LineContextRestored { variables_count: usize },
}

/// What to do next while running an alias command.
pub enum AliasAction {
    /// Count the variables and make the scope the line context.
    EnterScope { scope_name: String },
    /// Set each variable of `bindings`, then hold `values` as a list of
    /// strings under a new handle.
    HoldArguments { bindings: Vec<(String, String)>, values: Vec<String> },
    /// Set the variable `key` to `value`.
    SetVariable { key: String, value: String },
    /// Run the script from its first line.
    Evaluate,
    /// Remove the handle and what it holds.
    RemoveHandle { handle: String },
    /// Remove the variables of the scope.
    ClearScope { scope_name: String },
    /// Make `name` the line context again.
    RestoreLineContext { name: String },
    /// The run is over with this answer.
    Done(CommandResult),
}

impl AliasCommand {
    /// The command for the given parse of `raw_command`.
    pub fn from_parsed(
        name: String,
        aliases: Vec<String>,
        help: String,
        scope_name: String,
        raw_command: String,
        arguments_amount: usize,
        parsed: Result<Vec<Instruction>, ScriptError>,
    ) -> (command: Result<AliasCommand, CommandError>)
        ensures
            command is Ok <==> parsed is Ok,
            command matches Ok(c) ==> {
                &&& c.name == name
                &&& c.aliases == aliases
                &&& c.help == help
                &&& c.scope_name@ == scope_of(scope_name@)
                &&& c.raw_command == raw_command
                &&& c.arguments_amount == arguments_amount
                &&& parsed matches Ok(instructions) && c.instructions == instructions
            },
            command matches Err(CommandError::Script(e)) ==> parsed == Err::<Vec<Instruction>, ScriptError>(e),
    {
        match parsed {
            Ok(instructions) => {
                let mut scope_name_with_prefix = String::from_str("scope::");
                scope_name_with_prefix.append(scope_name.as_str());
                Ok(
                    AliasCommand {
                        name,
                        aliases,
                        help,
                        scope_name: scope_name_with_prefix,
                        raw_command,
                        arguments_amount,
                        instructions,
                    },
                )
            },
            Err(error) => Err(CommandError::Script(error)),
        }
    }

    /// Parses `raw_command` and makes the command of it. A script with
    /// preprocessor lines is parsed by the caller and handed to `from_parsed`.
    pub fn new(
        name: String,
        aliases: Vec<String>,
        help: String,
        scope_name: String,
        raw_command: String,
        arguments_amount: usize,
    ) -> (command: Result<AliasCommand, CommandError>)
        requires
            !holds_preprocessor_line(raw_command@),
        ensures
            makes_alias(command, name, aliases, help, scope_name@, raw_command, arguments_amount),
    {
        let parsed = parse_text(&raw_command);
        Self::from_parsed(name, aliases, help, scope_name, raw_command, arguments_amount, parsed)
    }

    pub fn name(&self) -> (name: String)
        ensures
            name == self.name,
    {
        self.name.clone()
    }

    pub fn aliases(&self) -> (aliases: Vec<String>)
        ensures
            aliases@ == self.aliases@,
    {
        self.aliases.clone()
    }

    /// The help text, followed by the script's source.
    pub fn help(&self) -> (text: String)
        ensures
            text@ == alias_help(self.help@, self.raw_command@),
    {
        let mut text = String::from_str("\n");
        text.append(self.help.as_str());
        text.append("\n\n#### Source:\n<details>\n  <summary>Show Source</summary>\n\n```sh\n");
        text.append(self.raw_command.as_str());
        text.append("\n```\n</details>\n\n");
        text
    }

    /// The run is refused when fewer arguments are given than the command takes.
    pub fn check_arguments(&self, arguments: &Vec<String>) -> (checked: Result<(), CommandResult>)
        ensures
            checked is Ok <==> arguments.len() >= self.arguments_amount,
            checked matches Err(r) ==> is_error_with(r, "Invalid arguments provided."@),
    {
        if arguments.len() < self.arguments_amount {
            Err(CommandResult::Error(String::from_str("Invalid arguments provided.")))
        } else {
            Ok(())
        }
    }

    /// The variables that hold the arguments in the command's scope: the
    /// argument at position `i` under the key numbered `i + 1`.
    pub fn argument_bindings(&self, arguments: &Vec<String>) -> (bindings: Vec<(String, String)>)
        ensures
            bindings.len() == arguments.len(),
            forall|i: int|
                0 <= i < arguments.len() ==> {
                    &&& (#[trigger] bindings[i]).0@ == argument_key(self.scope_name@, (i + 1) as nat)
                    &&& bindings[i].1 == arguments[i]
                },
    {
        let mut bindings: Vec<(String, String)> = Vec::new();
        let mut index: usize = 0;
        while index < arguments.len()
            invariant
                index <= arguments.len(),
                bindings.len() == index,
                forall|i: int|
                    0 <= i < index ==> {
                        &&& (#[trigger] bindings[i]).0@ == argument_key(self.scope_name@, (i + 1) as nat)
                        &&& bindings[i].1 == arguments[i]
                    },
            decreases arguments.len() - index,
        {
            let mut key = self.scope_name.clone();
            key.append("::argument::");
            write_decimal(index + 1, &mut key);
            bindings.push((key, arguments[index].clone()));
            index = index + 1;
        }
        bindings
    }

    /// The variable that holds the handle of the list of all arguments.
    pub fn arguments_key(&self) -> (key: String)
        ensures
            key@ == arguments_key(self.scope_name@),
    {
        let mut key = self.scope_name.clone();
        key.append("::arguments");
        key
    }

    /// The next step of running the command with `arguments`, from where the
    /// run stands and what happened last; the run starts with `AliasRun::new()`
    /// and `AliasEvent::Start`. A run with too few arguments ends at once; any
    /// other enters the scope, binds the arguments and holds their list under
    /// a handle, runs the script, then removes the handle, clears the scope,
    /// restores the line context and answers as `finish_run` does.
    pub fn run(&self, arguments: &Vec<String>, state: AliasRun, event: AliasEvent) -> (step: (
        AliasRun,
        AliasAction,
    ))
        ensures
            event is Start ==> {
                &&& step.0 == state
                &&& if arguments.len() < self.arguments_amount {
                    step.1 matches AliasAction::Done(r) && is_error_with(
                        r,
                        "Invalid arguments provided."@,
                    )
                } else {
                    step.1 matches AliasAction::EnterScope { scope_name } && scope_name
                        == self.scope_name
                }
            },
            event matches AliasEvent::ScopeEntered { variables_count, previous_line_context }
                ==> {
                &&& step.0 == (AliasRun {
                    start_count: variables_count,
                    line_context: previous_line_context,
                    handle: state.handle,
                    flow_result: state.flow_result,
                    flow_output: state.flow_output,
                })
                &&& if arguments.len() > 0 {
                    step.1 matches AliasAction::HoldArguments { bindings, values } && binds_arguments(
                        self.scope_name@,
                        arguments@,
                        bindings@,
                    ) && values@ == arguments@
                } else {
                    step.1 is Evaluate
                }
            },
            event matches AliasEvent::ArgumentsHeld { handle } ==> {
                &&& step.0 == (AliasRun {
                    start_count: state.start_count,
                    line_context: state.line_context,
                    handle: Some(handle),
                    flow_result: state.flow_result,
                    flow_output: state.flow_output,
                })
                &&& step.1 matches AliasAction::SetVariable { key, value } && key@
                    == arguments_key(self.scope_name@) && value == handle
            },
            event is VariableSet ==> step.0 == state && step.1 is Evaluate,
            event matches AliasEvent::Evaluated { flow_result, flow_output } ==> {
                &&& step.0 == (AliasRun {
                    start_count: state.start_count,
                    line_context: state.line_context,
                    handle: state.handle,
                    flow_result: flow_result,
                    flow_output: flow_output,
                })
                &&& match state.handle {
                    Some(h) => step.1 matches AliasAction::RemoveHandle { handle } && handle == h,
                    None => step.1 matches AliasAction::ClearScope { scope_name } && scope_name
                        == self.scope_name,
                }
            },
            event is HandleRemoved ==> step.0 == state && (step.1 matches AliasAction::ClearScope {
                scope_name,
            } && scope_name == self.scope_name),
            event is ScopeCleared ==> step.0 == state && (step.1 matches AliasAction::RestoreLineContext {
                name,
            } && name == state.line_context),
            event matches AliasEvent::LineContextRestored { variables_count } ==> {
                &&& step.0.start_count == state.start_count
                &&& step.0.line_context == state.line_context
                &&& step.0.handle == state.handle
                &&& step.0.flow_result is None
                &&& step.0.flow_output is None
                &&& step.1 matches AliasAction::Done(r) && finished_as(
                    r,
                    state.start_count,
                    variables_count,
                    state.flow_result,
                    state.flow_output,
                )
            },
    {
        match event {
            AliasEvent::Start => {
                match self.check_arguments(arguments) {
                    Err(refused) => (state, AliasAction::Done(refused)),
                    Ok(()) => (state, AliasAction::EnterScope { scope_name: self.scope_name.clone() }),
                }
            },
            AliasEvent::ScopeEntered { variables_count, previous_line_context } => {
                let next = AliasRun {
                    start_count: variables_count,
                    line_context: previous_line_context,
                    handle: state.handle,
                    flow_result: state.flow_result,
                    flow_output: state.flow_output,
                };
                if arguments.len() > 0 {
                    let bindings = self.argument_bindings(arguments);
                    let values = arguments.clone();
                    (next, AliasAction::HoldArguments { bindings, values })
                } else {
                    (next, AliasAction::Evaluate)
                }
            },
            AliasEvent::ArgumentsHeld { handle } => {
                let key = self.arguments_key();
                let value = handle.clone();
                let next = AliasRun {
                    start_count: state.start_count,
                    line_context: state.line_context,
                    handle: Some(handle),
                    flow_result: state.flow_result,
                    flow_output: state.flow_output,
                };
                (next, AliasAction::SetVariable { key, value })
            },
            AliasEvent::VariableSet => (state, AliasAction::Evaluate),
            AliasEvent::Evaluated { flow_result, flow_output } => {
                let action = match &state.handle {
                    Some(h) => AliasAction::RemoveHandle { handle: h.clone() },
                    None => AliasAction::ClearScope { scope_name: self.scope_name.clone() },
                };
                let next = AliasRun {
                    start_count: state.start_count,
                    line_context: state.line_context,
                    handle: state.handle,
                    flow_result,
                    flow_output,
                };
                (next, action)
            },
            AliasEvent::HandleRemoved => {
                let action = AliasAction::ClearScope { scope_name: self.scope_name.clone() };
                (state, action)
            },
            AliasEvent::ScopeCleared => {
                let action = AliasAction::RestoreLineContext { name: state.line_context.clone() };
                (state, action)
            },
            AliasEvent::LineContextRestored { variables_count } => {
                let AliasRun { start_count, line_context, handle, flow_result, flow_output } = state;
                let result = Self::finish_run(start_count, variables_count, flow_result, flow_output);
                (
                    AliasRun {
                        start_count,
                        line_context,
                        handle,
                        flow_result: None,
                        flow_output: None,
                    },
                    AliasAction::Done(result),
                )
            },
        }
    }

    /// The answer of a run, once the script has run and its scope is cleared:
    /// a crash where more variables are left than were found, else what the
    /// script answered, else its output.
    pub fn finish_run(
        start_count: usize,
        end_count: usize,
        flow_result: Option<CommandResult>,
        flow_output: Option<String>,
    ) -> (result: CommandResult)
        ensures
            finished_as(result, start_count, end_count, flow_result, flow_output),
    {
        if start_count < end_count {
            let mut message = String::from_str("Memory leak detected, delta variables count: ");
            write_decimal(end_count - start_count, &mut message);
            CommandResult::Crash(message)
        } else {
            match flow_result {
                Some(result) => result,
                None => CommandResult::Continue(flow_output),
            }
        }
    }
}

/// A run that leaves no more variables than it found answers what the script
/// answered, whatever its output; only a script that answered nothing gives
/// its output, as `Continue`. A run that leaves more variables crashes with
/// the leak message, whatever the script did.
pub proof fn law_finish_run_answers(
    result: CommandResult,
    start_count: usize,
    end_count: usize,
    flow_result: Option<CommandResult>,
    flow_output: Option<String>,
)
    requires
        finished_as(result, start_count, end_count, flow_result, flow_output),
    ensures
        start_count >= end_count ==> match flow_result {
            Some(r) => result == r,
            None => match flow_output {
                Some(o) => result matches CommandResult::Continue(Some(p)) && p@ == o@,
                None => result matches CommandResult::Continue(None),
            },
        },
        start_count < end_count ==> (result matches CommandResult::Crash(m) && m@
            == "Memory leak detected, delta variables count: "@ + decimal(
            (end_count - start_count) as nat,
        )),
{
}

/// Different arguments are held under different variables, none of them the
/// one that holds the handle of the argument list.
pub proof fn lemma_argument_keys_distinct(scope: Seq<char>, i: nat, j: nat)
    requires
        i != j,
    ensures
        argument_key(scope, i) != argument_key(scope, j),
        argument_key(scope, i) != arguments_key(scope),
{
    let prefix = scope + "::argument::"@;
    lemma_decimal_value(i);
    if argument_key(scope, i) == argument_key(scope, j) {
        assert(argument_key(scope, i).skip(prefix.len() as int) =~= decimal(i));
        assert(argument_key(scope, j).skip(prefix.len() as int) =~= decimal(j));
        lemma_decimal_injective(i, j);
    }
    reveal_strlit("::argument::");
    reveal_strlit("::arguments");
    assert(argument_key(scope, i).len() > arguments_key(scope).len());
}

/// Making an alias command of the same parts gives one result: a command
/// equal in every field, or the same error. As `create_alias_command` and
/// `AliasCommand::new` both ensure `makes_alias` of the parts they are given,
/// `create_alias_command` gives what `new` gives with the script as source.
pub proof fn lemma_makes_alias_determined(
    first: Result<AliasCommand, CommandError>,
    second: Result<AliasCommand, CommandError>,
    name: String,
    aliases: Vec<String>,
    help: String,
    scope_name: Seq<char>,
    raw_command: String,
    arguments_amount: usize,
)
    requires
        makes_alias(first, name, aliases, help, scope_name, raw_command, arguments_amount),
        makes_alias(second, name, aliases, help, scope_name, raw_command, arguments_amount),
    ensures
        match (first, second) {
            (Ok(a), Ok(b)) => {
                &&& a.name == b.name
                &&& a.aliases == b.aliases
                &&& a.help == b.help
                &&& a.scope_name@ == b.scope_name@
                &&& a.raw_command == b.raw_command
                &&& a.arguments_amount == b.arguments_amount
                &&& a.instructions@ == b.instructions@
            },
            (Err(CommandError::Script(e)), Err(CommandError::Script(f))) => e == f,
            _ => false,
        },
{
}

/// Makes an alias command from its script, as `AliasCommand::new` does with
/// the script as its source.
pub fn create_alias_command(
    name: String,
    aliases: Vec<String>,
    help: String,
    scope_name: String,
    script: String,
    arguments_amount: usize,
) -> (command: Result<AliasCommand, CommandError>)
    requires
        !holds_preprocessor_line(script@),
    ensures
        makes_alias(command, name, aliases, help, scope_name@, script, arguments_amount),
{
    let raw_command = script.clone();
    AliasCommand::new(name, aliases, help, scope_name, raw_command, arguments_amount)
}

/// A command that only documents something and cannot run.
pub struct DocOnlyCommand {
    pub name: String,
    pub help: String,
}

impl DocOnlyCommand {
    pub fn name(&self) -> (name: String)
        ensures
            name == self.name,
    {
        self.name.clone()
    }

    pub fn help(&self) -> (help: String)
        ensures
            help == self.help,
    {
        self.help.clone()
    }

    pub fn run(&self) -> (result: CommandResult)
        ensures
            is_error_with(result, "Documentation only commands should not be executed."@),
    {
        CommandResult::Error(String::from_str("Documentation only commands should not be executed."))
    }
}

/// Makes a documentation-only command.
pub fn create_doc_only_command(name: &str, help: &str) -> (command: DocOnlyCommand)
    ensures
        command.name@ == name@,
        command.help@ == help@,
{
    DocOnlyCommand { name: String::from_str(name), help: String::from_str(help) }
}

} // verus!
