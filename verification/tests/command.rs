use punto::ProcessStatus;
use punto::SingleCommand;
use punto::SingleCommandError;
use punto::command::classify_exit_status;

#[test]
fn test_failing_command_with_unexisting_program() -> Result<(), String> {
    // Build and run a failing command
    let command = SingleCommand::new("This command does not exist".to_string(), false, false)
        .expect("This command doesn't have sudo at the start");
    let result = command.run();

    // Check that the command failed to run because the program does not exist
    match result {
        Ok(value) => Err(format!("Expected error, obtained {:?}", value)),
        Err(SingleCommandError::SpawnFailure(_)) => Ok(()),
        Err(other) => Err(format!(
            "This command should fail because the program doesn't exist, got {:?}",
            other
        )),
    }
}

#[test]
fn test_basic_command_runs() -> Result<(), String> {
    let command = SingleCommand::new("ls -la".to_string(), false, false)
        .expect("This command doesn't have sudo at the start");

    let result = command.run();

    match result {
        Ok(_) => Ok(()),
        Err(err) => Err(format!("Command failed to run. Error code was: {:?}", err)),
    }
}

#[test]
fn test_sudo_in_command_fails() -> Result<(), String> {
    let command_result =
        SingleCommand::new("sudo ls -lah /dev/thisdirdoesnotexist".to_string(), false, false);

    match command_result {
        Ok(_) => Err("Command has sudo in the string command and thus should not build".to_string()),
        Err(_) => Ok(()),
    }
}

#[test]
fn test_sudo_rejected_regardless_of_flag() {
    for use_sudo in [false, true] {
        let result = SingleCommand::new("sudo ls".to_string(), false, use_sudo);
        assert!(
            matches!(result, Err(SingleCommandError::SudoEmbedded)),
            "an embedded sudo must be rejected whatever the elevation flag says"
        );
    }
    // Leading whitespace does not hide the embedded sudo.
    let result = SingleCommand::new("   sudo ls".to_string(), false, false);
    assert!(matches!(result, Err(SingleCommandError::SudoEmbedded)));
}

#[test]
fn test_successful_command_returns_ok() {
    let command = SingleCommand::new("true".to_string(), false, false).unwrap();
    assert!(command.run().is_ok());
}

#[test]
fn test_nonzero_exit_is_reported_with_its_code() {
    let command = SingleCommand::new("perl -e exit(7)".to_string(), false, false).unwrap();
    match command.run() {
        Err(SingleCommandError::NonZeroExit(code)) => assert_eq!(code, 7),
        other => panic!("expected a non-zero exit with code 7, got {:?}", other),
    }

    let command = SingleCommand::new("false".to_string(), false, false).unwrap();
    match command.run() {
        Err(SingleCommandError::NonZeroExit(code)) => assert_eq!(code, 1),
        other => panic!("expected a non-zero exit with code 1, got {:?}", other),
    }
}

#[test]
fn test_signal_termination_is_classified() {
    let command = SingleCommand::new("perl -e kill(9,$$)".to_string(), false, false).unwrap();
    match command.run() {
        Err(SingleCommandError::SignalTermination) => {}
        other => panic!("expected a signal termination, got {:?}", other),
    }
}

#[test]
fn test_quiet_command_runs() {
    let command = SingleCommand::new("ls -la".to_string(), true, false).unwrap();
    assert!(command.run().is_ok());
}

#[test]
fn test_argv_prepends_sudo_only_when_flagged() {
    let command = SingleCommand::new("ls -la".to_string(), false, true).unwrap();
    assert_eq!(command.argv(), vec!["sudo", "ls", "-la"]);

    let command = SingleCommand::new("ls -la".to_string(), false, false).unwrap();
    assert_eq!(command.argv(), vec!["ls", "-la"]);
}

#[test]
fn test_argv_trims_and_splits_on_single_spaces() {
    let command = SingleCommand::new("  ls  -la ".to_string(), false, false).unwrap();
    // Two adjacent spaces inside the command yield an empty argument, as
    // splitting on every single space does.
    assert_eq!(command.argv(), vec!["ls", "", "-la"]);
}

#[test]
fn test_classify_exit_status() {
    assert_eq!(classify_exit_status(&ProcessStatus::Exited(0)), Ok(()));
    assert_eq!(
        classify_exit_status(&ProcessStatus::Exited(7)),
        Err(SingleCommandError::NonZeroExit(7))
    );
    assert_eq!(
        classify_exit_status(&ProcessStatus::Signaled(9)),
        Err(SingleCommandError::SignalTermination)
    );
    assert_eq!(
        classify_exit_status(&ProcessStatus::Other(-1)),
        Err(SingleCommandError::SignalTermination)
    );
    assert_eq!(
        classify_exit_status(&ProcessStatus::Undetermined),
        Err(SingleCommandError::SignalTermination)
    );
}
