use pid_supervisor::killer::KillOutcome;
use pid_supervisor::killer::Platform;
use pid_supervisor::killer::Severity;
use pid_supervisor::killer::build_kill_plan;
use pid_supervisor::killer::interpret_kill_outcome;
use pid_supervisor::killer::pid_to_decimal;

#[test]
fn decimal_of_zero() {
    assert_eq!(pid_to_decimal(0), "0");
}

#[test]
fn decimal_of_single_digit() {
    assert_eq!(pid_to_decimal(7), "7");
}

#[test]
fn decimal_of_forty_two() {
    assert_eq!(pid_to_decimal(42), "42");
}

#[test]
fn decimal_of_largest_pid() {
    assert_eq!(pid_to_decimal(u32::MAX), "4294967295");
}

#[test]
fn decimal_keeps_inner_zeros() {
    assert_eq!(pid_to_decimal(1002030), "1002030");
}

#[test]
fn hierarchical_plan_is_forceful_tree_kill() {
    let plan = build_kill_plan(Platform::HierarchicalKill, 4242);
    assert_eq!(plan.program, "taskkill");
    assert_eq!(plan.args, vec!["/F", "/T", "/PID", "4242"]);
}

#[test]
fn direct_signal_plan_targets_single_pid() {
    let plan = build_kill_plan(Platform::DirectSignal, 4242);
    assert_eq!(plan.program, "kill");
    assert_eq!(plan.args, vec!["-9", "4242"]);
}

#[test]
fn successful_kill_is_informational() {
    assert_eq!(interpret_kill_outcome(KillOutcome::Exited), Severity::Info);
}

#[test]
fn failed_kill_is_only_a_warning() {
    // A pid with no live process behind it makes the utility report
    // failure; best-effort cleanup turns that into a log entry, never
    // an error raised to the caller.
    assert_eq!(
        interpret_kill_outcome(KillOutcome::ExitedWithFailure),
        Severity::Warning
    );
}

#[test]
fn unspawnable_utility_is_logged_as_error() {
    assert_eq!(interpret_kill_outcome(KillOutcome::SpawnFailed), Severity::Error);
}
