use singer::supervise::{
    after_terminate, error_line, launch_outcome, restart_sequence, restart_success_message,
    start_success_message, stop_success_message, terminate_outcome, validate_launch_paths,
    SupervisorStep,
};

#[test]
fn launch_paths_must_both_exist() {
    assert!(validate_launch_paths(true, true).is_ok());
    assert_eq!(
        validate_launch_paths(false, true).unwrap_err(),
        "Error: sing-box program path does not exist"
    );
    assert_eq!(
        validate_launch_paths(true, false).unwrap_err(),
        "Error: working directory does not exist"
    );
    assert_eq!(
        validate_launch_paths(false, false).unwrap_err(),
        "Error: sing-box program path does not exist"
    );
}

#[test]
fn launch_outcome_mirrors_the_creation_call() {
    assert!(launch_outcome(true, String::new()).is_ok());
    let e = launch_outcome(false, "access denied".to_string()).unwrap_err();
    assert_eq!(e.detail, "access denied");
}

#[test]
fn terminate_outcome_mirrors_the_facility_report() {
    assert!(terminate_outcome(true, String::new()).is_ok());
    let e = terminate_outcome(false, "no privilege".to_string()).unwrap_err();
    assert_eq!(e.detail, "no privilege");
}

#[test]
fn restart_is_terminate_then_launch() {
    let steps = restart_sequence();
    assert_eq!(
        steps,
        vec![SupervisorStep::TerminateExisting, SupervisorStep::LaunchProcess]
    );
}

#[test]
fn launch_is_attempted_whatever_termination_reported() {
    assert_eq!(after_terminate(true), SupervisorStep::LaunchProcess);
    assert_eq!(after_terminate(false), SupervisorStep::LaunchProcess);
}

#[test]
fn supervisor_messages() {
    assert_eq!(start_success_message(), "sing-box successfully started");
    assert_eq!(stop_success_message(), "sing-box successfully stopped");
    assert_eq!(restart_success_message(), "sing-box successfully restarted");
    assert_eq!(error_line("boom"), "Error: boom");
}
