use render_core::{
    check_error, clear_error, CheckAction, CheckEvent, CheckPhase, Validation, Validator,
};

fn run(validator: &mut Validator, events: &[CheckEvent]) -> Vec<CheckAction> {
    events.iter().map(|event| validator.step(*event)).collect()
}

#[test]
fn only_the_no_error_flag_ends_the_drain() {
    assert!(!clear_error(gl::NO_ERROR));
    assert!(clear_error(gl::INVALID_ENUM));
    assert!(clear_error(gl::INVALID_VALUE));
    assert!(clear_error(gl::INVALID_OPERATION));
    assert!(clear_error(gl::OUT_OF_MEMORY));
    assert!(clear_error(u32::MAX));
}

#[test]
fn only_the_no_error_flag_lets_a_call_pass() {
    assert!(check_error(gl::NO_ERROR));
    assert!(check_error(0));
    assert!(!check_error(gl::INVALID_ENUM));
    assert!(!check_error(gl::INVALID_OPERATION));
    assert!(!check_error(1));
}

#[test]
fn new_validator_is_idle() {
    assert_eq!(
        Validator::new(Validation::Checked),
        Validator { mode: Validation::Checked, phase: CheckPhase::Idle }
    );
    assert_eq!(
        Validator::new(Validation::Unchecked),
        Validator { mode: Validation::Unchecked, phase: CheckPhase::Idle }
    );
}

#[test]
fn unchecked_call_passes_through() {
    let mut validator = Validator::new(Validation::Unchecked);
    let actions = run(&mut validator, &[CheckEvent::Begin, CheckEvent::Performed]);
    assert_eq!(actions, vec![CheckAction::Perform, CheckAction::Finish]);
    assert_eq!(validator.phase, CheckPhase::Idle);
    let actions = run(&mut validator, &[CheckEvent::Begin, CheckEvent::Performed]);
    assert_eq!(actions, vec![CheckAction::Perform, CheckAction::Finish]);
}

#[test]
fn checked_clean_call_polls_before_and_after() {
    let mut validator = Validator::new(Validation::Checked);
    let actions = run(
        &mut validator,
        &[
            CheckEvent::Begin,
            CheckEvent::ErrorFlag(gl::NO_ERROR),
            CheckEvent::Performed,
            CheckEvent::ErrorFlag(gl::NO_ERROR),
        ],
    );
    assert_eq!(
        actions,
        vec![
            CheckAction::PollError,
            CheckAction::Perform,
            CheckAction::PollError,
            CheckAction::Finish,
        ]
    );
    assert_eq!(validator.phase, CheckPhase::Idle);
}

#[test]
fn stale_flags_are_drained_and_do_not_abort() {
    let mut validator = Validator::new(Validation::Checked);
    let actions = run(
        &mut validator,
        &[
            CheckEvent::Begin,
            CheckEvent::ErrorFlag(gl::INVALID_ENUM),
            CheckEvent::ErrorFlag(gl::INVALID_VALUE),
            CheckEvent::ErrorFlag(gl::INVALID_OPERATION),
            CheckEvent::ErrorFlag(gl::NO_ERROR),
        ],
    );
    assert_eq!(
        actions,
        vec![
            CheckAction::PollError,
            CheckAction::PollError,
            CheckAction::PollError,
            CheckAction::PollError,
            CheckAction::Perform,
        ]
    );
    assert_eq!(validator.phase, CheckPhase::Calling);
    assert_eq!(validator.step(CheckEvent::Performed), CheckAction::PollError);
    assert_eq!(validator.step(CheckEvent::ErrorFlag(0)), CheckAction::Finish);
}

#[test]
fn a_flag_after_the_call_aborts() {
    let mut validator = Validator::new(Validation::Checked);
    let actions = run(
        &mut validator,
        &[
            CheckEvent::Begin,
            CheckEvent::ErrorFlag(gl::NO_ERROR),
            CheckEvent::Performed,
            CheckEvent::ErrorFlag(gl::INVALID_VALUE),
        ],
    );
    assert_eq!(actions.last(), Some(&CheckAction::Abort));
    assert_eq!(validator.phase, CheckPhase::Aborted);
    assert_eq!(validator.step(CheckEvent::Begin), CheckAction::Abort);
    assert_eq!(validator.phase, CheckPhase::Aborted);
}

#[test]
fn an_event_out_of_turn_aborts() {
    for mode in [Validation::Checked, Validation::Unchecked] {
        let mut validator = Validator::new(mode);
        assert_eq!(validator.step(CheckEvent::Performed), CheckAction::Abort);
        let mut validator = Validator::new(mode);
        assert_eq!(validator.step(CheckEvent::ErrorFlag(0)), CheckAction::Abort);
        let mut validator = Validator::new(mode);
        validator.step(CheckEvent::Begin);
        assert_eq!(validator.step(CheckEvent::Begin), CheckAction::Abort);
    }
    let mut validator = Validator::new(Validation::Unchecked);
    validator.step(CheckEvent::Begin);
    assert_eq!(validator.step(CheckEvent::ErrorFlag(0)), CheckAction::Abort);
}
