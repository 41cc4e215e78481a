use duckscript_sdk::types::command::{
    create_alias_command, create_doc_only_command, has_preprocessor_line, AliasAction, AliasCommand, AliasEvent, AliasRun,
};
use duckscript_sdk::types::result::{CommandResult, GoToValue};

fn args(values: &[&str]) -> Vec<String> {
    values.iter().map(|v| v.to_string()).collect()
}

fn sample() -> AliasCommand {
    match create_alias_command(
        "greet".to_string(),
        args(&["hi"]),
        "Says hello.".to_string(),
        "greet".to_string(),
        "echo hello ${1}".to_string(),
        1,
    ) {
        Ok(command) => command,
        Err(_) => panic!("the script should parse"),
    }
}

#[test]
fn alias_command_fields() {
    let command = sample();
    assert_eq!(command.name(), "greet");
    assert_eq!(command.aliases(), args(&["hi"]));
    assert_eq!(command.scope_name, "scope::greet");
    assert_eq!(command.raw_command, "echo hello ${1}");
    assert_eq!(command.arguments_amount, 1);
    assert_eq!(command.instructions.len(), 1);
}

#[test]
fn alias_command_refuses_bad_script() {
    let made = AliasCommand::new(
        "bad".to_string(),
        vec![],
        String::new(),
        "bad".to_string(),
        "echo \"unterminated".to_string(),
        0,
    );
    assert!(made.is_err());
}

#[test]
fn alias_command_help_shows_source() {
    let command = sample();
    assert_eq!(
        command.help(),
        "\nSays hello.\n\n#### Source:\n<details>\n  <summary>Show Source</summary>\n\n```sh\necho hello ${1}\n```\n</details>\n\n"
    );
}

#[test]
fn alias_command_checks_argument_count() {
    let command = sample();
    match command.check_arguments(&args(&[])) {
        Err(CommandResult::Error(message)) => assert_eq!(message, "Invalid arguments provided."),
        _ => panic!("too few arguments should be refused"),
    }
    assert!(command.check_arguments(&args(&["a"])).is_ok());
    assert!(command.check_arguments(&args(&["a", "b"])).is_ok());
}

#[test]
fn alias_command_binds_arguments() {
    let command = sample();
    let bindings = command.argument_bindings(&args(&["x", "y", "z", "w", "v", "u", "t", "s", "r", "q", "p"]));
    assert_eq!(bindings.len(), 11);
    assert_eq!(bindings[0], ("scope::greet::argument::1".to_string(), "x".to_string()));
    assert_eq!(bindings[9], ("scope::greet::argument::10".to_string(), "q".to_string()));
    assert_eq!(bindings[10], ("scope::greet::argument::11".to_string(), "p".to_string()));
    assert!(command.argument_bindings(&args(&[])).is_empty());
    assert_eq!(command.arguments_key(), "scope::greet::arguments");
}

#[test]
fn alias_command_finish_reports_leaks() {
    match AliasCommand::finish_run(3, 5, None, Some("out".to_string())) {
        CommandResult::Crash(message) => {
            assert_eq!(message, "Memory leak detected, delta variables count: 2")
        }
        other => panic!("{:?}", other),
    }
    match AliasCommand::finish_run(5, 5, None, Some("out".to_string())) {
        CommandResult::Continue(Some(output)) => assert_eq!(output, "out"),
        other => panic!("{:?}", other),
    }
    match AliasCommand::finish_run(6, 5, Some(CommandResult::GoTo(None, GoToValue::Line(4))), None) {
        CommandResult::GoTo(None, GoToValue::Line(4)) => (),
        other => panic!("{:?}", other),
    }
}

#[test]
fn doc_only_command() {
    let command = create_doc_only_command("docs", "Some docs.");
    assert_eq!(command.name(), "docs");
    assert_eq!(command.help(), "Some docs.");
    match command.run() {
        CommandResult::Error(message) => {
            assert_eq!(message, "Documentation only commands should not be executed.")
        }
        other => panic!("{:?}", other),
    }
}

#[test]
fn alias_run_refuses_too_few_arguments() {
    let command = sample();
    let (_, action) = command.run(&args(&[]), AliasRun::new(), AliasEvent::Start);
    match action {
        AliasAction::Done(CommandResult::Error(message)) => {
            assert_eq!(message, "Invalid arguments provided.")
        }
        _ => panic!("too few arguments should end the run"),
    }
}

#[test]
fn alias_run_steps_in_order() {
    let command = sample();
    let arguments = args(&["a", "b"]);
    let (state, action) = command.run(&arguments, AliasRun::new(), AliasEvent::Start);
    match action {
        AliasAction::EnterScope { scope_name } => assert_eq!(scope_name, "scope::greet"),
        _ => panic!("should enter the scope"),
    }
    let (state, action) = command.run(
        &arguments,
        state,
        AliasEvent::ScopeEntered { variables_count: 4, previous_line_context: "main".to_string() },
    );
    match action {
        AliasAction::HoldArguments { bindings, values } => {
            assert_eq!(bindings[0], ("scope::greet::argument::1".to_string(), "a".to_string()));
            assert_eq!(bindings[1], ("scope::greet::argument::2".to_string(), "b".to_string()));
            assert_eq!(values, arguments);
        }
        _ => panic!("should hold the arguments"),
    }
    let (state, action) =
        command.run(&arguments, state, AliasEvent::ArgumentsHeld { handle: "h7".to_string() });
    match action {
        AliasAction::SetVariable { key, value } => {
            assert_eq!(key, "scope::greet::arguments");
            assert_eq!(value, "h7");
        }
        _ => panic!("should set the handle variable"),
    }
    let (state, action) = command.run(&arguments, state, AliasEvent::VariableSet);
    assert!(matches!(action, AliasAction::Evaluate));
    let (state, action) = command.run(
        &arguments,
        state,
        AliasEvent::Evaluated { flow_result: None, flow_output: Some("done".to_string()) },
    );
    match action {
        AliasAction::RemoveHandle { handle } => assert_eq!(handle, "h7"),
        _ => panic!("should remove the handle"),
    }
    let (state, action) = command.run(&arguments, state, AliasEvent::HandleRemoved);
    match action {
        AliasAction::ClearScope { scope_name } => assert_eq!(scope_name, "scope::greet"),
        _ => panic!("should clear the scope"),
    }
    let (state, action) = command.run(&arguments, state, AliasEvent::ScopeCleared);
    match action {
        AliasAction::RestoreLineContext { name } => assert_eq!(name, "main"),
        _ => panic!("should restore the line context"),
    }
    let (_, action) =
        command.run(&arguments, state, AliasEvent::LineContextRestored { variables_count: 4 });
    match action {
        AliasAction::Done(CommandResult::Continue(Some(output))) => assert_eq!(output, "done"),
        _ => panic!("should answer the output"),
    }
}

#[test]
fn alias_run_without_arguments_skips_the_handle() {
    let command = match AliasCommand::new(
        "plain".to_string(),
        vec![],
        String::new(),
        "plain".to_string(),
        "echo hi".to_string(),
        0,
    ) {
        Ok(command) => command,
        Err(_) => panic!("the script should parse"),
    };
    let arguments = args(&[]);
    let (state, action) = command.run(
        &arguments,
        AliasRun::new(),
        AliasEvent::ScopeEntered { variables_count: 1, previous_line_context: String::new() },
    );
    assert!(matches!(action, AliasAction::Evaluate));
    let (state, action) =
        command.run(&arguments, state, AliasEvent::Evaluated { flow_result: None, flow_output: None });
    match action {
        AliasAction::ClearScope { scope_name } => assert_eq!(scope_name, "scope::plain"),
        _ => panic!("should clear the scope"),
    }
    let (_, action) =
        command.run(&arguments, state, AliasEvent::LineContextRestored { variables_count: 3 });
    match action {
        AliasAction::Done(CommandResult::Crash(message)) => {
            assert_eq!(message, "Memory leak detected, delta variables count: 2")
        }
        _ => panic!("should report the leak"),
    }
}

#[test]
fn preprocessor_lines_are_found() {
    assert!(has_preprocessor_line("!print hello"));
    assert!(has_preprocessor_line("echo a\n   !include_files ./x.ds"));
    assert!(has_preprocessor_line("echo a\r\n\t!print b"));
    assert!(has_preprocessor_line("\u{3000}!print b"));
    assert!(!has_preprocessor_line("echo hi!"));
    assert!(!has_preprocessor_line("echo a\n x !print"));
    assert!(!has_preprocessor_line(""));
    assert!(!has_preprocessor_line("# !comment"));
}

#[test]
fn parsed_scripts_make_commands() {
    let parsed = duckscript::parser::parse_text("echo one\necho two");
    match AliasCommand::from_parsed(
        "two".to_string(),
        vec![],
        String::new(),
        "two".to_string(),
        "echo one\necho two".to_string(),
        0,
        parsed,
    ) {
        Ok(command) => {
            assert_eq!(command.instructions.len(), 2);
            assert_eq!(command.scope_name, "scope::two");
        }
        Err(_) => panic!("the script should parse"),
    }
}

#[test]
fn create_alias_command_matches_new() {
    let script = "echo one\necho two\necho three".to_string();
    let made = create_alias_command(
        "n".to_string(),
        args(&["m"]),
        "h".to_string(),
        "n".to_string(),
        script.clone(),
        2,
    );
    let direct = AliasCommand::new(
        "n".to_string(),
        args(&["m"]),
        "h".to_string(),
        "n".to_string(),
        script.clone(),
        2,
    );
    match (made, direct) {
        (Ok(a), Ok(b)) => {
            assert_eq!(a.instructions.len(), 3);
            assert_eq!(a.instructions.len(), b.instructions.len());
            assert_eq!(format!("{:?}", a.instructions), format!("{:?}", b.instructions));
            assert_eq!(a.raw_command, b.raw_command);
            assert_eq!(a.scope_name, b.scope_name);
        }
        _ => panic!("both should parse"),
    }
    let bad = "echo \"open".to_string();
    let made = create_alias_command(String::new(), vec![], String::new(), String::new(), bad.clone(), 0);
    let direct = AliasCommand::new(String::new(), vec![], String::new(), String::new(), bad, 0);
    match (made, direct) {
        (Err(_), Err(_)) => (),
        _ => panic!("both should fail"),
    }
}
