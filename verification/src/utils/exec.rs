use vstd::prelude::*;
use vstd::utf8::{decode_utf8, valid_utf8};

verus! {

/// Where a launched process reads its standard input from.
pub enum ExecInput {
    /// Nothing: the input is closed.
    Nothing,
    /// The input of this program.
    External,
    /// The given text, written to the process.
    Text(String),
}

/// How one standard stream of a launched process is connected.
#[derive(PartialEq, Eq, Structural, Clone, Copy, Debug)]
pub enum StdioMode {
    /// To nothing.
    Null,
    /// To the same stream of this program.
    Inherit,
    /// To a pipe that this program reads or writes.
    Piped,
}

/// A process to launch: its program, its arguments and its streams.
pub struct CommandPlan {
    pub program: String,
    pub args: Vec<String>,
    pub stdin: StdioMode,
    pub stdout: StdioMode,
    pub stderr: StdioMode,
}

/// How the standard input is connected for `input`.
pub open spec fn stdin_mode(input: ExecInput) -> StdioMode {
    match input {
        ExecInput::Nothing => StdioMode::Null,
        ExecInput::External => StdioMode::Inherit,
        ExecInput::Text(_) => StdioMode::Piped,
    }
}

/// How the standard output and error are connected: inherited when printed,
/// discarded when blocking on them, read back otherwise.
pub open spec fn output_mode(print_output: bool, output_blocking: bool) -> StdioMode {
    if print_output {
        StdioMode::Inherit
    } else if output_blocking {
        StdioMode::Null
    } else {
        StdioMode::Piped
    }
}

/// Whether `p` launches `arguments[start_index..]`: the first of them as the
/// program, the rest as its arguments, with the streams that `input` and the
/// output flags call for.
pub open spec fn plans_launch(
    p: CommandPlan,
    arguments: Seq<String>,
    start_index: int,
    input: ExecInput,
    print_output: bool,
    output_blocking: bool,
) -> bool {
    &&& p.program == arguments[start_index]
    &&& p.args@ == arguments.subrange(start_index + 1, arguments.len() as int)
    &&& p.stdin == stdin_mode(input)
    &&& p.stdout == output_mode(print_output, output_blocking)
    &&& p.stderr == output_mode(print_output, output_blocking)
}

/// The arguments before `start_index` never matter: with any prefix put in
/// front and the index moved past it, there is a command exactly when there
/// was one, and the same plans launch it.
pub proof fn lemma_launch_ignores_prefix(
    p: CommandPlan,
    prefix: Seq<String>,
    arguments: Seq<String>,
    start_index: int,
    input: ExecInput,
    print_output: bool,
    output_blocking: bool,
)
    requires
        0 <= start_index,
    ensures
        (start_index + prefix.len() < (prefix + arguments).len()) == (start_index
            < arguments.len()),
        start_index < arguments.len() ==> (plans_launch(
            p,
            prefix + arguments,
            start_index + prefix.len(),
            input,
            print_output,
            output_blocking,
        ) == plans_launch(p, arguments, start_index, input, print_output, output_blocking)),
{
    let whole = prefix + arguments;
    let k = prefix.len() as int;
    if start_index < arguments.len() {
        assert(whole[start_index + k] == arguments[start_index]);
        assert(whole.subrange(start_index + k + 1, whole.len() as int) =~= arguments.subrange(
            start_index + 1,
            arguments.len() as int,
        ));
    }
}

/// A process whose output is printed has its output and error output
/// inherited, whether or not it blocks on them; one that neither prints nor
/// blocks has them piped back; only one that blocks without printing has them
/// discarded. The input follows the input given: closed, inherited, or piped
/// for a text.
pub proof fn law_launch_streams(
    p: CommandPlan,
    arguments: Seq<String>,
    start_index: int,
    input: ExecInput,
    print_output: bool,
    output_blocking: bool,
)
    requires
        plans_launch(p, arguments, start_index, input, print_output, output_blocking),
    ensures
        print_output ==> p.stdout == StdioMode::Inherit && p.stderr == StdioMode::Inherit,
        !print_output && output_blocking ==> p.stdout == StdioMode::Null && p.stderr
            == StdioMode::Null,
        !print_output && !output_blocking ==> p.stdout == StdioMode::Piped && p.stderr
            == StdioMode::Piped,
        input is Nothing ==> p.stdin == StdioMode::Null,
        input is External ==> p.stdin == StdioMode::Inherit,
        input is Text ==> p.stdin == StdioMode::Piped,
{
}

/// The plan for `arguments[start_index..]`: the first of them is the program,
/// the rest its arguments. There is one exactly when `start_index` is in range.
pub fn create_command(
    arguments: &Vec<String>,
    print_output: bool,
    output_blocking: bool,
    input: &ExecInput,
    start_index: usize,
) -> (plan: Result<CommandPlan, String>)
    ensures
        plan is Ok <==> start_index < arguments.len(),
        plan matches Err(e) ==> e@ == "Command not provided."@,
        plan matches Ok(p) ==> plans_launch(
            p,
            arguments@,
            start_index as int,
            *input,
            print_output,
            output_blocking,
        ),
{
    if arguments.len() <= start_index {
        Err(String::from_str("Command not provided."))
    } else {
        let program = arguments[start_index].clone();
        let argument_index = start_index + 1;
        let mut args: Vec<String> = Vec::new();
        let mut i = argument_index;
        while i < arguments.len()
            invariant
                argument_index <= i <= arguments.len(),
                args@ == arguments@.subrange(argument_index as int, i as int),
            decreases arguments.len() - i,
        {
            args.push(arguments[i].clone());
            i = i + 1;
            assert(args@ =~= arguments@.subrange(argument_index as int, i as int));
        }
        let stdin = match input {
            ExecInput::Nothing => StdioMode::Null,
            ExecInput::External => StdioMode::Inherit,
            ExecInput::Text(_) => StdioMode::Piped,
        };
        let output = if print_output {
            StdioMode::Inherit
        } else if output_blocking {
            StdioMode::Null
        } else {
            StdioMode::Piped
        };
        Ok(CommandPlan { program, args, stdin, stdout: output, stderr: output })
    }
}

/// What happened in the last step of launching a process.
pub enum SpawnEvent {
    /// Nothing yet.
    Start,
    /// The process was launched; its input pipe is open or not.
    Spawned { stdin_open: bool },
    /// The process could not be launched, with the error's text.
    SpawnFailed(String),
    /// The input text was written to the process.
    InputWritten,
    /// Writing the input failed, with the error's text.
    InputFailed(String),
}

/// What to do next while launching a process.
pub enum SpawnAction {
    /// Launch this process.
    Launch(CommandPlan),
    /// Write this text to the process's input.
    WriteInput(String),
    /// The process runs and has its input.
    Ready,
    /// Launching failed with this message.
    Failed(String),
}

/// The input text to hand to the process, if any.
pub open spec fn input_text(input: ExecInput) -> Option<Seq<char>> {
    match input {
        ExecInput::Text(v) => Some(v@),
        _ => None,
    }
}

/// The next step of launching the process of `arguments[start_index..]`.
pub fn spawn(
    arguments: &Vec<String>,
    print_output: bool,
    output_blocking: bool,
    input: &ExecInput,
    start_index: usize,
    event: SpawnEvent,
) -> (action: SpawnAction)
    ensures
        event is Start ==> if start_index < arguments.len() {
            action matches SpawnAction::Launch(p) && plans_launch(
                p,
                arguments@,
                start_index as int,
                *input,
                print_output,
                output_blocking,
            )
        } else {
            action matches SpawnAction::Failed(m) && m@ == "Command not provided."@
        },
        event matches SpawnEvent::Spawned { stdin_open } ==> match input_text(*input) {
            Some(v) => if stdin_open {
                action matches SpawnAction::WriteInput(w) && w@ == v
            } else {
                action matches SpawnAction::Failed(m) && m@ == "Unable to write input to process"@
            },
            None => action is Ready,
        },
        event matches SpawnEvent::SpawnFailed(e) ==> (action matches SpawnAction::Failed(m) && m
            == e),
        event is InputWritten ==> action is Ready,
        event matches SpawnEvent::InputFailed(e) ==> (action matches SpawnAction::Failed(m) && m
            == e),
{
    match event {
        SpawnEvent::Start => {
            match create_command(arguments, print_output, output_blocking, input, start_index) {
                Ok(plan) => SpawnAction::Launch(plan),
                Err(message) => SpawnAction::Failed(message),
            }
        },
        SpawnEvent::Spawned { stdin_open } => match input {
            ExecInput::Text(value) => {
                if stdin_open {
                    SpawnAction::WriteInput(value.clone())
                } else {
                    SpawnAction::Failed(String::from_str("Unable to write input to process"))
                }
            },
            _ => SpawnAction::Ready,
        },
        SpawnEvent::SpawnFailed(error) => SpawnAction::Failed(error),
        SpawnEvent::InputWritten => SpawnAction::Ready,
        SpawnEvent::InputFailed(error) => SpawnAction::Failed(error),
    }
}

/// What a process left when it ended.
pub struct ProcessOutput {
    pub stdout: Vec<u8>,
    pub stderr: Vec<u8>,
    /// The exit code, absent when a signal ended the process.
    pub status: Option<i32>,
}

/// Names what `String::from_utf8_lossy` gives for some bytes.
pub uninterp spec fn utf8_lossy(bytes: Seq<u8>) -> Seq<char>;

/// Calls `String::from_utf8_lossy`, which decodes UTF-8 and puts U+FFFD in place
/// of each invalid sequence; its documentation says that valid UTF-8 is
/// decoded as it is.
#[verifier::external_body]
fn decode_lossy(bytes: &Vec<u8>) -> (text: String)
    ensures
        text@ == utf8_lossy(bytes@),
        valid_utf8(bytes@) ==> text@ == decode_utf8(bytes@),
{
    String::from_utf8_lossy(bytes).into_owned()
}

/// What happened in the last step of running a process.
pub enum ExecEvent {
    /// A step of launching it.
    Spawn(SpawnEvent),
    /// It ended, leaving this output.
    Exited(ProcessOutput),
    /// Waiting for it failed, with the error's text.
    WaitFailed(String),
}

/// What to do next while running a process.
pub enum ExecAction {
    /// Launch this process.
    Launch(CommandPlan),
    /// Write this text to the process's input.
    WriteInput(String),
    /// Wait for the process to end and collect its output.
    Wait,
    /// The run is over: the output, the error output and the exit code, or an error.
    Done(Result<(String, String, i32), String>),
}

/// The next step of running the process of `arguments[start_index..]` and
/// collecting its output; the run starts with `ExecEvent::Spawn(SpawnEvent::Start)`.
pub fn exec(
    arguments: &Vec<String>,
    print_output: bool,
    input: &ExecInput,
    start_index: usize,
    event: ExecEvent,
) -> (action: ExecAction)
    requires
        event matches ExecEvent::Exited(out) && out.status is None ==> arguments.len() > 0,
    ensures
        event matches ExecEvent::Spawn(SpawnEvent::Start) ==> if start_index < arguments.len() {
            action matches ExecAction::Launch(p) && plans_launch(
                p,
                arguments@,
                start_index as int,
                *input,
                print_output,
                false,
            )
        } else {
            action matches ExecAction::Done(Err(m)) && m@ == "Command not provided."@
        },
        event matches ExecEvent::Spawn(SpawnEvent::Spawned { stdin_open }) ==> match input_text(
            *input,
        ) {
            Some(v) => if stdin_open {
                action matches ExecAction::WriteInput(w) && w@ == v
            } else {
                action matches ExecAction::Done(Err(m)) && m@
                    == "Unable to write input to process"@
            },
            None => action is Wait,
        },
        event matches ExecEvent::Spawn(SpawnEvent::SpawnFailed(e)) ==> (action matches ExecAction::Done(
            Err(m),
        ) && m == e),
        event matches ExecEvent::Spawn(SpawnEvent::InputWritten) ==> action is Wait,
        event matches ExecEvent::Spawn(SpawnEvent::InputFailed(e)) ==> (action matches ExecAction::Done(
            Err(m),
        ) && m == e),
        event matches ExecEvent::WaitFailed(e) ==> (action matches ExecAction::Done(Err(m)) && m
            == e),
        event matches ExecEvent::Exited(out) ==> match out.status {
            Some(code) => action matches ExecAction::Done(Ok((o, e, c))) && {
                &&& o@ == utf8_lossy(out.stdout@)
                &&& e@ == utf8_lossy(out.stderr@)
                &&& valid_utf8(out.stdout@) ==> o@ == decode_utf8(out.stdout@)
                &&& valid_utf8(out.stderr@) ==> e@ == decode_utf8(out.stderr@)
                &&& c == code
            },
            None => action matches ExecAction::Done(Err(m)) && m@
                == "Unable to extract exit code for command: "@ + arguments@[0]@,
        },
{
    match event {
        ExecEvent::Spawn(step) => {
            match spawn(arguments, print_output, false, input, start_index, step) {
                SpawnAction::Launch(plan) => ExecAction::Launch(plan),
                SpawnAction::WriteInput(text) => ExecAction::WriteInput(text),
                SpawnAction::Ready => ExecAction::Wait,
                SpawnAction::Failed(message) => ExecAction::Done(Err(message)),
            }
        },
        ExecEvent::WaitFailed(error) => ExecAction::Done(Err(error)),
        ExecEvent::Exited(output) => {
            match output.status {
                Some(code) => {
                    let stdout = decode_lossy(&output.stdout);
                    let stderr = decode_lossy(&output.stderr);
                    ExecAction::Done(Ok((stdout, stderr, code)))
                },
                None => {
                    let mut message = String::from_str("Unable to extract exit code for command: ");
                    message.append(arguments[0].as_str());
                    ExecAction::Done(Err(message))
                },
            }
        },
    }
}

} // verus!
