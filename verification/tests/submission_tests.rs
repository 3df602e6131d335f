use mtmf::submission;
use mtmf::submission::{
    PollDecision, PollOutcome, SubmissionState, TransactionResult, TransactionStatus,
};
use mtmf::MtmfError;

fn answer(status: TransactionStatus) -> TransactionResult {
    TransactionResult { status, status_code: 0, error_message: String::new() }
}

fn pending_then(count: usize, last: TransactionResult) -> Vec<TransactionResult> {
    let mut answers = vec![answer(TransactionStatus::Pending); count];
    answers.push(last);
    answers
}

#[test]
fn test_sealed_on_the_nth_poll_and_not_earlier() {
    for n in 1u32..=6 {
        let answers = pending_then((n - 1) as usize, answer(TransactionStatus::Sealed));
        assert!(matches!(
            submission::wait_for_seal(&answers, n),
            PollOutcome::Sealed(at) if at == n
        ));
        assert!(matches!(
            submission::wait_for_seal(&answers, n + 5),
            PollOutcome::Sealed(at) if at == n
        ));
    }
}

#[test]
fn test_sealed_too_late_times_out() {
    let answers = pending_then(3, answer(TransactionStatus::Sealed));
    assert!(matches!(
        submission::wait_for_seal(&answers, 3),
        PollOutcome::Failed(3, MtmfError::FinalityTimeout(3))
    ));
}

#[test]
fn test_expired_on_first_poll_fails_at_once() {
    let answers = pending_then(0, answer(TransactionStatus::Expired));
    assert!(matches!(
        submission::wait_for_seal(&answers, 30),
        PollOutcome::Failed(1, MtmfError::TransactionExpired)
    ));
    let mut longer = answers.clone();
    longer.push(answer(TransactionStatus::Sealed));
    assert!(matches!(
        submission::wait_for_seal(&longer, 30),
        PollOutcome::Failed(1, MtmfError::TransactionExpired)
    ));
}

#[test]
fn test_pending_forever_times_out_after_three_polls() {
    let answers = vec![answer(TransactionStatus::Pending); 10];
    assert!(matches!(
        submission::wait_for_seal(&answers, 3),
        PollOutcome::Failed(3, MtmfError::FinalityTimeout(3))
    ));
}

#[test]
fn test_intermediate_states_keep_polling() {
    let answers = vec![
        answer(TransactionStatus::Unknown),
        answer(TransactionStatus::Pending),
        answer(TransactionStatus::Finalized),
        answer(TransactionStatus::Executed),
        answer(TransactionStatus::Sealed),
    ];
    assert!(matches!(submission::wait_for_seal(&answers, 5), PollOutcome::Sealed(5)));
    assert!(matches!(
        submission::wait_for_seal(&answers, 4),
        PollOutcome::Failed(4, MtmfError::FinalityTimeout(4))
    ));
}

#[test]
fn test_sealed_with_error_is_an_execution_failure() {
    let failed = TransactionResult {
        status: TransactionStatus::Sealed,
        status_code: 1,
        error_message: "boom".to_string(),
    };
    let answers = pending_then(1, failed);
    match submission::wait_for_seal(&answers, 5) {
        PollOutcome::Failed(2, MtmfError::ExecutionFailed(code, message)) => {
            assert_eq!(code, 1);
            assert_eq!(message, "boom");
        }
        _ => panic!("expected an execution failure on the second poll"),
    }

    let only_code = TransactionResult {
        status: TransactionStatus::Sealed,
        status_code: 7,
        error_message: String::new(),
    };
    assert!(matches!(
        submission::decide(1, 3, &only_code),
        PollDecision::Fail(MtmfError::ExecutionFailed(7, _))
    ));
    let only_message = TransactionResult {
        status: TransactionStatus::Sealed,
        status_code: 0,
        error_message: "x".to_string(),
    };
    assert!(matches!(
        submission::decide(1, 3, &only_message),
        PollDecision::Fail(MtmfError::ExecutionFailed(0, _))
    ));
}

#[test]
fn test_no_attempts_allowed_times_out_without_a_poll() {
    let answers = vec![answer(TransactionStatus::Sealed)];
    assert!(matches!(
        submission::wait_for_seal(&answers, 0),
        PollOutcome::Failed(0, MtmfError::FinalityTimeout(0))
    ));
}

#[test]
fn test_answers_running_out_leave_the_run_undecided() {
    let answers = vec![answer(TransactionStatus::Pending); 2];
    assert!(matches!(submission::wait_for_seal(&answers, 5), PollOutcome::Undecided(2)));
    assert!(matches!(submission::wait_for_seal(&[], 5), PollOutcome::Undecided(0)));
}

#[test]
fn test_decide_retries_until_the_last_attempt() {
    let pending = answer(TransactionStatus::Pending);
    assert!(matches!(submission::decide(1, 3, &pending), PollDecision::Retry(2)));
    assert!(matches!(submission::decide(2, 3, &pending), PollDecision::Retry(2)));
    assert!(matches!(
        submission::decide(3, 3, &pending),
        PollDecision::Fail(MtmfError::FinalityTimeout(3))
    ));
    assert!(matches!(
        submission::decide(3, 3, &answer(TransactionStatus::Sealed)),
        PollDecision::Sealed
    ));
    assert!(matches!(
        submission::decide(1, 3, &answer(TransactionStatus::Expired)),
        PollDecision::Fail(MtmfError::TransactionExpired)
    ));
    assert_eq!(submission::POLL_INTERVAL_SECONDS, 2);
}

#[test]
fn test_status_codes() {
    assert_eq!(TransactionStatus::from_code(0), TransactionStatus::Unknown);
    assert_eq!(TransactionStatus::from_code(1), TransactionStatus::Pending);
    assert_eq!(TransactionStatus::from_code(2), TransactionStatus::Finalized);
    assert_eq!(TransactionStatus::from_code(3), TransactionStatus::Executed);
    assert_eq!(TransactionStatus::from_code(4), TransactionStatus::Sealed);
    assert_eq!(TransactionStatus::from_code(5), TransactionStatus::Expired);
    assert_eq!(TransactionStatus::from_code(6), TransactionStatus::Unknown);
    assert_eq!(TransactionStatus::from_code(-1), TransactionStatus::Unknown);
    assert!(TransactionStatus::Sealed.is_terminal());
    assert!(TransactionStatus::Expired.is_terminal());
    assert!(!TransactionStatus::Executed.is_terminal());
}

#[test]
fn test_submission_states() {
    let state = SubmissionState::Unsubmitted;
    assert_eq!(state.observed(TransactionStatus::Sealed), SubmissionState::Unsubmitted);
    let state = state.submitted();
    assert_eq!(state, SubmissionState::Submitted);
    assert_eq!(state.submitted(), SubmissionState::Submitted);
    let state = state.observed(TransactionStatus::Pending);
    assert_eq!(state, SubmissionState::Pending);
    assert!(!state.is_terminal());
    let state = state.observed(TransactionStatus::Executed).observed(TransactionStatus::Sealed);
    assert_eq!(state, SubmissionState::Sealed);
    assert!(state.is_terminal());
    assert_eq!(state.observed(TransactionStatus::Pending), SubmissionState::Sealed);
    let expired = SubmissionState::Submitted.observed(TransactionStatus::Expired);
    assert!(expired.is_terminal());
    assert_eq!(expired.observed(TransactionStatus::Unknown), SubmissionState::Expired);
    assert_eq!(
        SubmissionState::Submitted.observed(TransactionStatus::Unknown),
        SubmissionState::Unknown
    );
}
