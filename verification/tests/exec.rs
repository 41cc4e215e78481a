use duckscript_sdk::utils::exec::{
    create_command, exec, spawn, CommandPlan, ExecAction, ExecEvent, ExecInput, ProcessOutput,
    SpawnAction, SpawnEvent, StdioMode,
};

fn args(values: &[&str]) -> Vec<String> {
    values.iter().map(|v| v.to_string()).collect()
}

fn plan(result: Result<CommandPlan, String>) -> CommandPlan {
    match result {
        Ok(plan) => plan,
        Err(message) => panic!("{}", message),
    }
}

#[test]
fn create_command_takes_the_suffix() {
    let arguments = args(&["exec", "echo", "a", "b"]);
    let p = plan(create_command(&arguments, false, false, &ExecInput::Nothing, 1));
    assert_eq!(p.program, "echo");
    assert_eq!(p.args, args(&["a", "b"]));
    assert_eq!(p.stdin, StdioMode::Null);
    assert_eq!(p.stdout, StdioMode::Piped);
    assert_eq!(p.stderr, StdioMode::Piped);
}

#[test]
fn create_command_stream_modes() {
    let arguments = args(&["ls"]);
    let p = plan(create_command(&arguments, true, true, &ExecInput::External, 0));
    assert_eq!(p.stdin, StdioMode::Inherit);
    assert_eq!(p.stdout, StdioMode::Inherit);
    assert!(p.args.is_empty());
    let p = plan(create_command(&arguments, false, true, &ExecInput::Text("x".to_string()), 0));
    assert_eq!(p.stdin, StdioMode::Piped);
    assert_eq!(p.stdout, StdioMode::Null);
    assert_eq!(p.stderr, StdioMode::Null);
}

#[test]
fn create_command_without_command() {
    match create_command(&args(&["a"]), false, false, &ExecInput::Nothing, 1) {
        Err(message) => assert_eq!(message, "Command not provided."),
        Ok(_) => panic!("no command was given"),
    }
    assert!(create_command(&args(&[]), false, false, &ExecInput::Nothing, 0).is_err());
}

#[test]
fn spawn_steps() {
    let arguments = args(&["cat"]);
    let input = ExecInput::Text("data".to_string());
    match spawn(&arguments, false, true, &input, 0, SpawnEvent::Start) {
        SpawnAction::Launch(p) => assert_eq!(p.stdout, StdioMode::Null),
        _ => panic!("should launch"),
    }
    match spawn(&arguments, false, true, &input, 0, SpawnEvent::Spawned { stdin_open: true }) {
        SpawnAction::WriteInput(text) => assert_eq!(text, "data"),
        _ => panic!("should write"),
    }
    match spawn(&arguments, false, true, &input, 0, SpawnEvent::Spawned { stdin_open: false }) {
        SpawnAction::Failed(message) => assert_eq!(message, "Unable to write input to process"),
        _ => panic!("should fail"),
    }
    assert!(matches!(
        spawn(&arguments, false, true, &ExecInput::Nothing, 0, SpawnEvent::Spawned { stdin_open: false }),
        SpawnAction::Ready
    ));
    assert!(matches!(spawn(&arguments, false, true, &input, 0, SpawnEvent::InputWritten), SpawnAction::Ready));
    match spawn(&arguments, false, true, &input, 0, SpawnEvent::SpawnFailed("no such file".to_string())) {
        SpawnAction::Failed(message) => assert_eq!(message, "no such file"),
        _ => panic!("should fail"),
    }
    match spawn(&arguments, false, true, &input, 0, SpawnEvent::InputFailed("broken pipe".to_string())) {
        SpawnAction::Failed(message) => assert_eq!(message, "broken pipe"),
        _ => panic!("should fail"),
    }
}

#[test]
fn exec_steps() {
    let arguments = args(&["echo", "hi"]);
    match exec(&arguments, false, &ExecInput::Nothing, 0, ExecEvent::Spawn(SpawnEvent::Start)) {
        ExecAction::Launch(p) => {
            assert_eq!(p.program, "echo");
            assert_eq!(p.stdout, StdioMode::Piped);
        }
        _ => panic!("should launch"),
    }
    assert!(matches!(
        exec(&arguments, false, &ExecInput::Nothing, 0, ExecEvent::Spawn(SpawnEvent::Spawned { stdin_open: false })),
        ExecAction::Wait
    ));
    match exec(&arguments, false, &ExecInput::Nothing, 5, ExecEvent::Spawn(SpawnEvent::Start)) {
        ExecAction::Done(Err(message)) => assert_eq!(message, "Command not provided."),
        _ => panic!("should stop"),
    }
    match exec(&arguments, false, &ExecInput::Nothing, 0, ExecEvent::WaitFailed("lost".to_string())) {
        ExecAction::Done(Err(message)) => assert_eq!(message, "lost"),
        _ => panic!("should stop"),
    }
}

#[test]
fn exec_collects_output() {
    let arguments = args(&["echo", "hi"]);
    let output = ProcessOutput { stdout: b"hi\n".to_vec(), stderr: vec![0x66, 0xff, 0x6f], status: Some(3) };
    match exec(&arguments, false, &ExecInput::Nothing, 0, ExecEvent::Exited(output)) {
        ExecAction::Done(Ok((out, err, code))) => {
            assert_eq!(out, "hi\n");
            assert_eq!(err, "f\u{FFFD}o");
            assert_eq!(code, 3);
        }
        _ => panic!("should finish"),
    }
    let output = ProcessOutput { stdout: vec![], stderr: vec![], status: None };
    match exec(&arguments, false, &ExecInput::Nothing, 1, ExecEvent::Exited(output)) {
        ExecAction::Done(Err(message)) => {
            assert_eq!(message, "Unable to extract exit code for command: echo")
        }
        _ => panic!("should fail"),
    }
}
