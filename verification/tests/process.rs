use pin_blog::process::{exited_successfully, process_result, ProcessOutcome, SyncError};

#[test]
fn exit_code_zero_is_success() {
    assert!(exited_successfully(Some(0)));
    assert!(!exited_successfully(Some(1)));
    assert!(!exited_successfully(Some(-1)));
    assert!(!exited_successfully(None));
    assert_eq!(process_result(ProcessOutcome::Exited(Some(0))), Ok(()));
}

#[test]
fn non_zero_exit_carries_the_code() {
    assert_eq!(process_result(ProcessOutcome::Exited(Some(128))), Err(SyncError::ExitCode(128)));
    assert_eq!(process_result(ProcessOutcome::Exited(Some(-7))), Err(SyncError::ExitCode(-7)));
}

#[test]
fn exit_without_code_is_termination() {
    assert_eq!(process_result(ProcessOutcome::Exited(None)), Err(SyncError::Terminated));
}

#[test]
fn launch_and_wait_failures_carry_their_cause() {
    assert_eq!(
        process_result(ProcessOutcome::LaunchFailed(String::from("No such file or directory"))),
        Err(SyncError::Launch(String::from("No such file or directory")))
    );
    assert_eq!(
        process_result(ProcessOutcome::WaitFailed(String::from("interrupted"))),
        Err(SyncError::Wait(String::from("interrupted")))
    );
}
