use ysos::shell::{is_exit_line, parse_command, run_outcome, RunOutcome, ShellCommand};

#[test]
fn parse_simple_commands() {
    assert!(matches!(parse_command(b"help"), ShellCommand::Help));
    assert!(matches!(parse_command(b"  list  "), ShellCommand::ListApps));
    assert!(matches!(parse_command(b"ls"), ShellCommand::ListApps));
    assert!(matches!(parse_command(b"ps"), ShellCommand::ListProcesses));
    assert!(matches!(parse_command(b"whoami"), ShellCommand::WhoAmI));
    assert!(matches!(parse_command(b"clear"), ShellCommand::Clear));
    assert!(matches!(parse_command(b"exit"), ShellCommand::Exit));
    assert!(matches!(parse_command(b"quit now"), ShellCommand::Exit));
    assert!(matches!(parse_command(b""), ShellCommand::Empty));
    assert!(matches!(parse_command(b"   \t "), ShellCommand::Empty));
}

#[test]
fn parse_run_command() {
    assert!(matches!(parse_command(b"run"), ShellCommand::RunUsage));
    assert!(matches!(parse_command(b"run   "), ShellCommand::RunUsage));
    match parse_command(b"  run   hello  extra") {
        ShellCommand::Run(name) => assert_eq!(name, b"hello".to_vec()),
        other => panic!("unexpected {:?}", other),
    }
}

#[test]
fn parse_unknown_command() {
    match parse_command(b"helps me") {
        ShellCommand::Unknown(word) => assert_eq!(word, b"helps".to_vec()),
        other => panic!("unexpected {:?}", other),
    }
    match parse_command(b"HELP") {
        ShellCommand::Unknown(word) => assert_eq!(word, b"HELP".to_vec()),
        other => panic!("unexpected {:?}", other),
    }
}

#[test]
fn exit_line_of_the_kernel_prompt() {
    assert!(is_exit_line(b"exit"));
    assert!(is_exit_line(b"  exit \t"));
    assert!(!is_exit_line(b"exit now"));
    assert!(!is_exit_line(b"exits"));
    assert!(!is_exit_line(b""));
}

#[test]
fn outcome_of_running_a_program() {
    assert_eq!(run_outcome(0, 0), RunOutcome::SpawnFailed);
    assert_eq!(run_outcome(3, usize::MAX as isize), RunOutcome::StillRunning);
    assert_eq!(run_outcome(3, 0), RunOutcome::Finished(0));
    assert_eq!(run_outcome(3, -7), RunOutcome::Finished(-7));
}
