use modem_bringup::deadline::{guard, time_waited, Completion, Timeout};
use modem_bringup::outcome::{DriverError, StageOutcome};

#[test]
fn operation_before_the_deadline_hands_its_output_through() {
    let op = Completion::After { elapsed_ms: 1999, output: "connected" };
    assert_eq!(guard(op, 2000), Ok("connected"));
    assert_eq!(time_waited(&op, 2000), 1999);
}

#[test]
fn operation_at_the_deadline_is_in_time() {
    let op = Completion::After { elapsed_ms: 2000, output: 7u8 };
    assert_eq!(guard(op, 2000), Ok(7));
    assert_eq!(time_waited(&op, 2000), 2000);
}

#[test]
fn operation_after_the_deadline_times_out() {
    let op = Completion::After { elapsed_ms: 2001, output: 7u8 };
    assert_eq!(guard(op, 2000), Err(Timeout));
    assert_eq!(time_waited(&op, 2000), 2000);
}

#[test]
fn operation_that_never_finishes_times_out() {
    let op: Completion<u8> = Completion::Never;
    assert_eq!(guard(op, 30000), Err(Timeout));
    assert_eq!(time_waited(&op, 30000), 30000);
}

#[test]
fn deadline_of_zero_admits_what_is_ready() {
    assert_eq!(guard(Completion::After { elapsed_ms: 0, output: 1u8 }, 0), Ok(1));
    assert_eq!(guard(Completion::After { elapsed_ms: 1, output: 1u8 }, 0), Err(Timeout));
    assert_eq!(guard(Completion::After { elapsed_ms: u64::MAX, output: 1u8 }, u64::MAX), Ok(1));
}

#[test]
fn error_of_the_operation_is_not_a_timeout() {
    let op: Completion<Result<u8, DriverError>> =
        Completion::After { elapsed_ms: 10, output: Err(DriverError) };
    assert_eq!(guard(op, 2000), Ok(Err(DriverError)));
}

#[test]
fn guarded_results_become_stage_outcomes() {
    let done: Result<Result<u8, DriverError>, Timeout> = Ok(Ok(3));
    let failed: Result<Result<u8, DriverError>, Timeout> = Ok(Err(DriverError));
    let late: Result<Result<u8, DriverError>, Timeout> = Err(Timeout);
    assert_eq!(StageOutcome::from_guarded(done), StageOutcome::Success(3));
    assert_eq!(StageOutcome::from_guarded(failed), StageOutcome::HardError);
    assert_eq!(StageOutcome::from_guarded(late), StageOutcome::Timeout);
}

#[test]
fn driver_results_become_stage_outcomes() {
    let done: Result<u8, DriverError> = Ok(3);
    let failed: Result<u8, DriverError> = Err(DriverError);
    assert_eq!(StageOutcome::from_driver(done), StageOutcome::Success(3));
    assert_eq!(StageOutcome::from_driver(failed), StageOutcome::HardError);
}
