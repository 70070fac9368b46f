//! Decisions of the process supervisor: validating the paths a launch
//! needs, judging the outcome of a launch or of a bulk termination, and
//! the restart policy — terminate first, then launch, whatever the
//! termination reported.

use vstd::prelude::*;

verus! {

/// A launch failed: the operating system refused to create the process.
pub struct LaunchError {
    pub detail: String,
}

/// A termination failed: the bulk-kill facility reported an error.
pub struct TerminateError {
    pub detail: String,
}

/// Checks the two paths a launch needs. The launch may proceed exactly
/// when both exist; otherwise the error carries the message for the
/// first missing one.
pub fn validate_launch_paths(program_exists: bool, dir_exists: bool) -> (r: Result<(), String>)
    ensures
        (r is Ok) <==> (program_exists && dir_exists),
        !program_exists ==> (r matches Err(m) && m@
            == "Error: sing-box program path does not exist"@),
        (program_exists && !dir_exists) ==> (r matches Err(m) && m@
            == "Error: working directory does not exist"@),
{
    if !program_exists {
        Err(String::from_str("Error: sing-box program path does not exist"))
    } else if !dir_exists {
        Err(String::from_str("Error: working directory does not exist"))
    } else {
        Ok(())
    }
}

/// Judges a process-creation attempt: success exactly when the creation
/// call succeeded; otherwise the error carries the operating system's
/// diagnostic text.
pub fn launch_outcome(created: bool, os_detail: String) -> (r: Result<(), LaunchError>)
    ensures
        (r is Ok) <==> created,
        !created ==> (r matches Err(e) && e.detail@ == os_detail@),
{
    if created {
        Ok(())
    } else {
        Err(LaunchError { detail: os_detail })
    }
}

/// Judges a bulk termination: success exactly when the facility reported
/// success — on some platforms that includes finding no matching process
/// — otherwise the error carries the facility's diagnostic text.
pub fn terminate_outcome(facility_ok: bool, diagnostic: String) -> (r: Result<(), TerminateError>)
    ensures
        (r is Ok) <==> facility_ok,
        !facility_ok ==> (r matches Err(e) && e.detail@ == diagnostic@),
{
    if facility_ok {
        Ok(())
    } else {
        Err(TerminateError { detail: diagnostic })
    }
}

/// What a restart does, in order.
#[derive(Clone, Copy, Debug, PartialEq, Eq, Structural)]
pub enum SupervisorStep {
    TerminateExisting,
    LaunchProcess,
}

/// The actions a restart performs, given how the termination went:
/// always the termination followed by the launch.
pub open spec fn restart_actions(terminate_ok: bool) -> Seq<SupervisorStep> {
    seq![SupervisorStep::TerminateExisting, SupervisorStep::LaunchProcess]
}

/// The two steps of a restart, in the order they are performed.
pub fn restart_sequence() -> (r: Vec<SupervisorStep>)
    ensures
        r@ == seq![SupervisorStep::TerminateExisting, SupervisorStep::LaunchProcess],
{
    let mut r: Vec<SupervisorStep> = Vec::new();
    r.push(SupervisorStep::TerminateExisting);
    r.push(SupervisorStep::LaunchProcess);
    proof {
        assert(r@ =~= seq![SupervisorStep::TerminateExisting, SupervisorStep::LaunchProcess]);
    }
    r
}

/// The step a restart takes once the termination has been reported:
/// the launch, whatever the termination's outcome was.
pub fn after_terminate(terminate_ok: bool) -> (r: SupervisorStep)
    ensures
        r == SupervisorStep::LaunchProcess,
{
    SupervisorStep::LaunchProcess
}

/// Law: a restart performs the termination and then attempts the launch;
/// the sequence does not depend on whether the termination succeeded, so
/// a failed termination never suppresses the launch.
pub proof fn lemma_restart_always_launches(first_outcome: bool, second_outcome: bool)
    ensures
        restart_actions(first_outcome) == restart_actions(second_outcome),
        restart_actions(first_outcome) == seq![
            SupervisorStep::TerminateExisting,
            SupervisorStep::LaunchProcess,
        ],
        restart_actions(first_outcome)[1] == SupervisorStep::LaunchProcess,
{
}

/// The report printed after a successful start.
pub fn start_success_message() -> (r: String)
    ensures
        r@ == "sing-box successfully started"@,
{
    String::from_str("sing-box successfully started")
}

/// The report printed after a successful stop.
pub fn stop_success_message() -> (r: String)
    ensures
        r@ == "sing-box successfully stopped"@,
{
    String::from_str("sing-box successfully stopped")
}

/// The report printed after a successful restart.
pub fn restart_success_message() -> (r: String)
    ensures
        r@ == "sing-box successfully restarted"@,
{
    String::from_str("sing-box successfully restarted")
}

/// An error report: the failure's detail behind the fixed prefix.
pub fn error_line(detail: &str) -> (r: String)
    ensures
        r@ == "Error: "@ + detail@,
{
    let mut r = String::new();
    r.append("Error: ");
    r.append(detail);
    proof {
        assert(r@ =~= "Error: "@ + detail@);
    }
    r
}

} // verus!
