//! Following a submitted transaction until it is final.
//!
//! Nothing here talks to the network or sleeps. `decide` says what to do
//! with each answer of the access node, and the caller asks again after
//! `POLL_INTERVAL_SECONDS` when told to retry. `wait_for_seal` runs the same
//! decisions over answers that are already at hand.

use vstd::prelude::*;

use crate::errors::MtmfError;

verus! {

/// The seconds to wait between two polls.
pub const POLL_INTERVAL_SECONDS: u64 = 2;

/// How far the ledger has got with a transaction.
#[derive(Debug, Clone, Copy, PartialEq, Eq, Structural)]
pub enum TransactionStatus {
    Unknown,
    Pending,
    Finalized,
    Executed,
    Sealed,
    Expired,
}

impl TransactionStatus {
    /// The status that the access node's number stands for; any number out
    /// of range counts as unknown.
    pub open spec fn spec_from_code(code: i32) -> TransactionStatus {
        if code == 1 {
            TransactionStatus::Pending
        } else if code == 2 {
            TransactionStatus::Finalized
        } else if code == 3 {
            TransactionStatus::Executed
        } else if code == 4 {
            TransactionStatus::Sealed
        } else if code == 5 {
            TransactionStatus::Expired
        } else {
            TransactionStatus::Unknown
        }
    }

    /// The status that the access node's number stands for.
    pub fn from_code(code: i32) -> (status: TransactionStatus)
        ensures
            status == Self::spec_from_code(code),
    {
        if code == 1 {
            TransactionStatus::Pending
        } else if code == 2 {
            TransactionStatus::Finalized
        } else if code == 3 {
            TransactionStatus::Executed
        } else if code == 4 {
            TransactionStatus::Sealed
        } else if code == 5 {
            TransactionStatus::Expired
        } else {
            TransactionStatus::Unknown
        }
    }

    /// A status that will not change any more: sealed or expired.
    pub open spec fn spec_is_terminal(self) -> bool {
        self is Sealed || self is Expired
    }

    /// Whether the status will not change any more.
    pub fn is_terminal(&self) -> (terminal: bool)
        ensures
            terminal == self.spec_is_terminal(),
    {
        match self {
            TransactionStatus::Sealed => true,
            TransactionStatus::Expired => true,
            _ => false,
        }
    }
}

/// Where a transaction stands, from before it is handed over.
#[derive(Debug, Clone, Copy, PartialEq, Eq, Structural)]
pub enum SubmissionState {
    Unsubmitted,
    Submitted,
    Pending,
    Finalized,
    Executed,
    Sealed,
    Expired,
    Unknown,
}

impl SubmissionState {
    /// The state after the access node took the transaction. Only an
    /// unsubmitted transaction moves; any other state stays.
    pub fn submitted(self) -> (next: SubmissionState)
        ensures
            next == (if self is Unsubmitted {
                SubmissionState::Submitted
            } else {
                self
            }),
    {
        match self {
            SubmissionState::Unsubmitted => SubmissionState::Submitted,
            other => other,
        }
    }

    /// The state that a reported status puts a transaction in.
    pub open spec fn spec_of_status(status: TransactionStatus) -> SubmissionState {
        match status {
            TransactionStatus::Unknown => SubmissionState::Unknown,
            TransactionStatus::Pending => SubmissionState::Pending,
            TransactionStatus::Finalized => SubmissionState::Finalized,
            TransactionStatus::Executed => SubmissionState::Executed,
            TransactionStatus::Sealed => SubmissionState::Sealed,
            TransactionStatus::Expired => SubmissionState::Expired,
        }
    }

    /// The state after a poll. A transaction that was never submitted has
    /// no status, and one that is sealed or expired keeps its state.
    pub open spec fn spec_observed(self, status: TransactionStatus) -> SubmissionState {
        if self is Unsubmitted || self is Sealed || self is Expired {
            self
        } else {
            Self::spec_of_status(status)
        }
    }

    /// The state after a poll reported `status`.
    pub fn observed(self, status: TransactionStatus) -> (next: SubmissionState)
        ensures
            next == self.spec_observed(status),
    {
        match self {
            SubmissionState::Unsubmitted => self,
            SubmissionState::Sealed => self,
            SubmissionState::Expired => self,
            _ => match status {
                TransactionStatus::Unknown => SubmissionState::Unknown,
                TransactionStatus::Pending => SubmissionState::Pending,
                TransactionStatus::Finalized => SubmissionState::Finalized,
                TransactionStatus::Executed => SubmissionState::Executed,
                TransactionStatus::Sealed => SubmissionState::Sealed,
                TransactionStatus::Expired => SubmissionState::Expired,
            },
        }
    }

    /// Whether the state is final: sealed or expired.
    pub fn is_terminal(&self) -> (terminal: bool)
        ensures
            terminal == (self is Sealed || self is Expired),
    {
        match self {
            SubmissionState::Sealed => true,
            SubmissionState::Expired => true,
            _ => false,
        }
    }
}

/// What the access node reports about a transaction.
#[derive(Debug, Clone, PartialEq, Eq)]
pub struct TransactionResult {
    pub status: TransactionStatus,
    pub status_code: u32,
    pub error_message: String,
}

/// What a `TransactionResult` holds.
pub struct TransactionResultView {
    pub status: TransactionStatus,
    pub status_code: u32,
    pub error_message: Seq<char>,
}

impl View for TransactionResult {
    type V = TransactionResultView;

    open spec fn view(&self) -> TransactionResultView {
        TransactionResultView {
            status: self.status,
            status_code: self.status_code,
            error_message: self.error_message@,
        }
    }
}

impl TransactionResultView {
    /// The execution failed: the status code is not zero or there is an
    /// error message.
    pub open spec fn execution_failed(self) -> bool {
        self.status_code != 0 || self.error_message.len() > 0
    }
}

/// What to do after a poll.
pub enum PollDecision {
    /// The transaction is sealed and its execution succeeded.
    Sealed,
    /// Wait this many seconds, then ask again.
    Retry(u64),
    /// Give up with this error.
    Fail(MtmfError),
}

/// What a decision comes to, with the errors reduced to their kind.
pub enum Verdict {
    Sealed,
    Retry,
    ExecutionFailed,
    Expired,
    TimedOut,
}

/// The verdict on the answer to poll number `attempt` of `max_attempts`.
pub open spec fn spec_decide(
    attempt: nat,
    max_attempts: nat,
    result: TransactionResultView,
) -> Verdict {
    if result.status is Sealed {
        if result.execution_failed() {
            Verdict::ExecutionFailed
        } else {
            Verdict::Sealed
        }
    } else if result.status is Expired {
        Verdict::Expired
    } else if attempt < max_attempts {
        Verdict::Retry
    } else {
        Verdict::TimedOut
    }
}

/// Whether a decision is the one that a verdict stands for. The error of a
/// failed execution carries the reported status code and message, and that
/// of a timeout the number of attempts.
pub open spec fn decision_matches(
    decision: PollDecision,
    verdict: Verdict,
    max_attempts: u32,
    result: TransactionResultView,
) -> bool {
    match verdict {
        Verdict::Sealed => decision is Sealed,
        Verdict::Retry => decision == PollDecision::Retry(POLL_INTERVAL_SECONDS),
        Verdict::ExecutionFailed => {
            &&& decision matches PollDecision::Fail(MtmfError::ExecutionFailed(code, message))
            &&& code == result.status_code
            &&& message@ == result.error_message
        },
        Verdict::Expired => decision == PollDecision::Fail(MtmfError::TransactionExpired),
        Verdict::TimedOut => decision == PollDecision::Fail(
            MtmfError::FinalityTimeout(max_attempts),
        ),
    }
}

/// Decides what to do with the answer to poll number `attempt`, counted
/// from one, of at most `max_attempts`.
///
/// A sealed transaction ends the polling at once: with success, or with
/// `ExecutionFailed` when its status code is not zero or it carries an error
/// message. An expired one ends it with `TransactionExpired`. Any other
/// status asks for another poll, `POLL_INTERVAL_SECONDS` later, while
/// attempts are left, and for `FinalityTimeout` on the last.
pub fn decide(attempt: u32, max_attempts: u32, result: &TransactionResult) -> (decision:
    PollDecision)
    ensures
        decision_matches(
            decision,
            spec_decide(attempt as nat, max_attempts as nat, result@),
            max_attempts,
            result@,
        ),
{
    match result.status {
        TransactionStatus::Sealed => {
            if result.status_code != 0 || !result.error_message.as_str().is_empty() {
                PollDecision::Fail(
                    MtmfError::ExecutionFailed(result.status_code, result.error_message.clone()),
                )
            } else {
                PollDecision::Sealed
            }
        },
        TransactionStatus::Expired => PollDecision::Fail(MtmfError::TransactionExpired),
        _ => {
            if attempt < max_attempts {
                PollDecision::Retry(POLL_INTERVAL_SECONDS)
            } else {
                PollDecision::Fail(MtmfError::FinalityTimeout(max_attempts))
            }
        },
    }
}

/// How a run of polls ends.
pub enum PollOutcome {
    /// Sealed with success on the poll of this number.
    Sealed(u32),
    /// Given up with this error on the poll of this number; zero where no
    /// poll was made because no attempt was allowed.
    Failed(u32, MtmfError),
    /// The answers ran out after this many polls with attempts left.
    Undecided(u32),
}

/// The end of a run of polls, with the errors reduced to their kind.
pub enum Ending {
    Sealed(nat),
    ExecutionFailed(nat),
    Expired(nat),
    TimedOut(nat),
    Undecided(nat),
}

/// The end of the run that has made `done` polls and takes its further
/// answers from `results[done..]`.
pub open spec fn spec_run_from(
    results: Seq<TransactionResultView>,
    max_attempts: nat,
    done: nat,
) -> Ending
    decreases results.len() - done,
{
    if max_attempts == 0 {
        Ending::TimedOut(0)
    } else if done >= results.len() || done >= max_attempts {
        Ending::Undecided(done)
    } else {
        match spec_decide(done + 1, max_attempts, results[done as int]) {
            Verdict::Sealed => Ending::Sealed(done + 1),
            Verdict::ExecutionFailed => Ending::ExecutionFailed(done + 1),
            Verdict::Expired => Ending::Expired(done + 1),
            Verdict::TimedOut => Ending::TimedOut(done + 1),
            Verdict::Retry => spec_run_from(results, max_attempts, done + 1),
        }
    }
}

/// The end of the run that takes its answers from `results`, one for each
/// poll, and polls at most `max_attempts` times.
pub open spec fn spec_run(results: Seq<TransactionResultView>, max_attempts: nat) -> Ending {
    spec_run_from(results, max_attempts, 0)
}

/// The views of a slice of results.
pub open spec fn result_views(results: Seq<TransactionResult>) -> Seq<TransactionResultView> {
    Seq::new(results.len(), |i: int| results[i]@)
}

/// Whether an outcome is the one that an ending stands for.
pub open spec fn outcome_matches(
    outcome: PollOutcome,
    ending: Ending,
    max_attempts: u32,
    results: Seq<TransactionResultView>,
) -> bool {
    match ending {
        Ending::Sealed(poll) => outcome matches PollOutcome::Sealed(at) && at == poll,
        Ending::ExecutionFailed(poll) => {
            &&& outcome matches PollOutcome::Failed(at, MtmfError::ExecutionFailed(code, message))
            &&& at == poll
            &&& 1 <= poll <= results.len()
            &&& code == results[poll - 1].status_code
            &&& message@ == results[poll - 1].error_message
        },
        Ending::Expired(poll) => {
            &&& outcome matches PollOutcome::Failed(at, MtmfError::TransactionExpired)
            &&& at == poll
        },
        Ending::TimedOut(poll) => {
            &&& outcome matches PollOutcome::Failed(at, MtmfError::FinalityTimeout(attempts))
            &&& at == poll
            &&& attempts == max_attempts
        },
        Ending::Undecided(poll) => outcome matches PollOutcome::Undecided(at) && at == poll,
    }
}

/// Runs the polling over answers that are already at hand: `results[i]` is
/// taken as the answer to poll `i + 1`. No answer is looked at after the one
/// that ends the run, and none beyond `max_attempts`.
pub fn wait_for_seal(results: &[TransactionResult], max_attempts: u32) -> (outcome: PollOutcome)
    ensures
        outcome_matches(
            outcome,
            spec_run(result_views(results@), max_attempts as nat),
            max_attempts,
            result_views(results@),
        ),
{
    if max_attempts == 0 {
        return PollOutcome::Failed(0, MtmfError::FinalityTimeout(0));
    }
    let ghost views = result_views(results@);
    let mut done: u32 = 0;
    while done < max_attempts && (done as usize) < results.len()
        invariant
            max_attempts > 0,
            done <= max_attempts,
            done <= results@.len(),
            views == result_views(results@),
            spec_run(views, max_attempts as nat) == spec_run_from(
                views,
                max_attempts as nat,
                done as nat,
            ),
        decreases max_attempts - done,
    {
        let attempt: u32 = done + 1;
        match decide(attempt, max_attempts, &results[done as usize]) {
            PollDecision::Sealed => {
                return PollOutcome::Sealed(attempt);
            },
            PollDecision::Fail(error) => {
                return PollOutcome::Failed(attempt, error);
            },
            PollDecision::Retry(_) => {
                done = attempt;
            },
        }
    }
    PollOutcome::Undecided(done)
}

/// With answers that keep the transaction going for the first `n - 1`
/// polls and report it sealed, without an execution error, on poll `n`,
/// the run ends sealed on poll `n`: that poll and no earlier one.
pub proof fn lemma_sealed_on_nth_poll(
    results: Seq<TransactionResultView>,
    max_attempts: nat,
    n: nat,
)
    requires
        1 <= n <= max_attempts,
        n <= results.len(),
        forall|i: int| 0 <= i < n - 1 ==> !(#[trigger] results[i]).status.spec_is_terminal(),
        results[n - 1].status is Sealed,
        !results[n - 1].execution_failed(),
    ensures
        spec_run(results, max_attempts) == Ending::Sealed(n),
{
    lemma_run_skips_retries(results, max_attempts, n, 0);
}

/// With an answer that reports the transaction expired on the first poll,
/// the run fails at once, whatever attempts are left.
pub proof fn lemma_expired_on_first_poll(results: Seq<TransactionResultView>, max_attempts: nat)
    requires
        1 <= max_attempts,
        1 <= results.len(),
        results[0].status is Expired,
    ensures
        spec_run(results, max_attempts) == Ending::Expired(1),
{
}

/// With answers that never report the transaction sealed or expired, the
/// run times out on poll `max_attempts`: after exactly that many polls.
pub proof fn lemma_times_out_after_all_attempts(
    results: Seq<TransactionResultView>,
    max_attempts: nat,
)
    requires
        max_attempts <= results.len(),
        forall|i: int| 0 <= i < max_attempts ==> !(#[trigger] results[i]).status.spec_is_terminal(),
    ensures
        spec_run(results, max_attempts) == Ending::TimedOut(max_attempts),
{
    if max_attempts > 0 {
        lemma_run_skips_retries(results, max_attempts, max_attempts, 0);
    }
}

/// A run passes over the polls before poll `n` whose answers keep the
/// transaction going.
proof fn lemma_run_skips_retries(
    results: Seq<TransactionResultView>,
    max_attempts: nat,
    n: nat,
    done: nat,
)
    requires
        1 <= n <= max_attempts,
        n <= results.len(),
        done < n,
        forall|i: int| 0 <= i < n - 1 ==> !(#[trigger] results[i]).status.spec_is_terminal(),
    ensures
        spec_run_from(results, max_attempts, done) == spec_run_from(
            results,
            max_attempts,
            (n - 1) as nat,
        ),
    decreases n - done,
{
    if done < n - 1 {
        assert(!results[done as int].status.spec_is_terminal());
        lemma_run_skips_retries(results, max_attempts, n, done + 1);
    }
}

} // verus!
