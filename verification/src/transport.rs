use vstd::prelude::*;

verus! {

/// An HTTP status counts as success when it lies in the inclusive range
/// 200..=202 (success or accepted); anything else is a hard failure.
pub open spec fn status_success(s: u16) -> bool {
    200 <= s <= 202
}

/// Executable check of `status_success`.
pub fn is_success_status(s: u16) -> (r: bool)
    ensures
        r == status_success(s),
{
    200 <= s && s <= 202
}

/// What one attempt to deliver a request came back with: a response from the
/// server (of any status), or a transient transport fault worth retrying.
#[derive(Clone, Debug)]
pub enum AttemptResult {
    Response { status: u16, body: String },
    Transient { cause: String },
}

#[verifier::ext_equal]
pub ghost enum AttemptModel {
    Response { status: u16, body: Seq<char> },
    Transient { cause: Seq<char> },
}

impl View for AttemptResult {
    type V = AttemptModel;

    open spec fn view(&self) -> AttemptModel {
        match self {
            AttemptResult::Response { status, body } => AttemptModel::Response {
                status: *status,
                body: body@,
            },
            AttemptResult::Transient { cause } => AttemptModel::Transient { cause: cause@ },
        }
    }
}

/// The final outcome of a transport exchange, retries included: a delivered
/// response, or failure with the last transient cause once the retry budget
/// is spent.
#[derive(Clone, Debug)]
pub enum TransportOutcome {
    Delivered { status: u16, body: String },
    Failed { cause: String },
}

#[verifier::ext_equal]
pub ghost enum TransportOutcomeModel {
    Delivered { status: u16, body: Seq<char> },
    Failed { cause: Seq<char> },
}

impl View for TransportOutcome {
    type V = TransportOutcomeModel;

    open spec fn view(&self) -> TransportOutcomeModel {
        match self {
            TransportOutcome::Delivered { status, body } => TransportOutcomeModel::Delivered {
                status: *status,
                body: body@,
            },
            TransportOutcome::Failed { cause } => TransportOutcomeModel::Failed { cause: cause@ },
        }
    }
}

/// The outcome a run of attempts resolves to under a budget of `retries`
/// retries: the first response ends the run at once, whatever its status;
/// a transient fault is retried while budget remains, and the last one's
/// cause is surfaced when it runs out.
pub open spec fn resolve_model(attempts: Seq<AttemptModel>, retries: nat) -> TransportOutcomeModel
    recommends
        attempts.len() >= retries + 1,
    decreases retries,
{
    match attempts[0] {
        AttemptModel::Response { status, body } => TransportOutcomeModel::Delivered {
            status,
            body,
        },
        AttemptModel::Transient { cause } => if retries == 0 {
            TransportOutcomeModel::Failed { cause }
        } else {
            resolve_model(attempts.drop_first(), (retries - 1) as nat)
        },
    }
}

/// The view of a run of attempts.
pub open spec fn attempts_model(s: Seq<AttemptResult>) -> Seq<AttemptModel> {
    s.map_values(|a: AttemptResult| a@)
}

/// The backoff delay before retry number `attempt + 1`: half the configured
/// wait at first, doubling, capped at the full configured wait.
pub open spec fn backoff_delay_model(wait_sec: u64, attempt: nat) -> u64
    decreases attempt,
{
    if attempt == 0 {
        (wait_sec / 2) as u64
    } else {
        let p = backoff_delay_model(wait_sec, (attempt - 1) as nat);
        if 2 * p >= wait_sec {
            wait_sec
        } else {
            (2 * p) as u64
        }
    }
}

/// Every backoff delay lies between half the configured wait and the full
/// configured wait.
pub proof fn lemma_backoff_bounds(wait_sec: u64, attempt: nat)
    ensures
        wait_sec / 2 <= backoff_delay_model(wait_sec, attempt) <= wait_sec,
    decreases attempt,
{
    if attempt > 0 {
        lemma_backoff_bounds(wait_sec, (attempt - 1) as nat);
    }
}

/// Executable counterpart of `backoff_delay_model`.
pub fn backoff_delay_sec(wait_sec: u64, attempt: u32) -> (d: u64)
    ensures
        d == backoff_delay_model(wait_sec, attempt as nat),
{
    let mut d: u64 = wait_sec / 2;
    let mut k: u32 = 0;
    while k < attempt
        invariant
            k <= attempt,
            d == backoff_delay_model(wait_sec, k as nat),
            d <= wait_sec,
        decreases attempt - k,
    {
        if d >= wait_sec - d {
            d = wait_sec;
        } else {
            d = d + d;
        }
        k = k + 1;
    }
    d
}

/// What the retry layer does after one attempt: finish with an outcome, or
/// wait and try again.
#[derive(Clone, Debug)]
pub enum RetryStep {
    Finish(TransportOutcome),
    RetryAfterSec(u64),
}

#[verifier::ext_equal]
pub ghost enum RetryStepModel {
    Finish(TransportOutcomeModel),
    RetryAfterSec(u64),
}

impl View for RetryStep {
    type V = RetryStepModel;

    open spec fn view(&self) -> RetryStepModel {
        match self {
            RetryStep::Finish(o) => RetryStepModel::Finish(o@),
            RetryStep::RetryAfterSec(d) => RetryStepModel::RetryAfterSec(*d),
        }
    }
}

/// The retry decision after attempt number `attempts_done` (counted from 0):
/// a response of any status finishes at once; a transient fault is retried
/// after a backoff delay while `attempts_done < retry_count`, else finishes
/// as a transport failure carrying its cause.
pub open spec fn retry_step_model(
    retry_wait_sec: u64,
    retry_count: u32,
    attempts_done: u32,
    a: AttemptModel,
) -> RetryStepModel {
    match a {
        AttemptModel::Response { status, body } => RetryStepModel::Finish(
            TransportOutcomeModel::Delivered { status, body },
        ),
        AttemptModel::Transient { cause } => if attempts_done < retry_count {
            RetryStepModel::RetryAfterSec(backoff_delay_model(retry_wait_sec, attempts_done as nat))
        } else {
            RetryStepModel::Finish(TransportOutcomeModel::Failed { cause })
        },
    }
}

/// Executable counterpart of `retry_step_model`; the caller performs the
/// attempts and the waiting.
pub fn retry_decide(
    retry_wait_sec: u64,
    retry_count: u32,
    attempts_done: u32,
    a: AttemptResult,
) -> (r: RetryStep)
    ensures
        r@ == retry_step_model(retry_wait_sec, retry_count, attempts_done, a@),
{
    match a {
        AttemptResult::Response { status, body } => RetryStep::Finish(
            TransportOutcome::Delivered { status, body },
        ),
        AttemptResult::Transient { cause } => if attempts_done < retry_count {
            RetryStep::RetryAfterSec(backoff_delay_sec(retry_wait_sec, attempts_done))
        } else {
            RetryStep::Finish(TransportOutcome::Failed { cause })
        },
    }
}

/// Resolves a whole recorded run of attempts by iterating `retry_decide`,
/// and is thereby held to `resolve_model`.
pub fn resolve_attempts(retry_wait_sec: u64, retry_count: u32, attempts: &Vec<AttemptResult>) -> (r:
    TransportOutcome)
    requires
        attempts@.len() >= retry_count + 1,
    ensures
        r@ == resolve_model(attempts_model(attempts@), retry_count as nat),
{
    let mut done: u32 = 0;
    proof {
        assert(attempts_model(attempts@).skip(0) =~= attempts_model(attempts@));
    }
    loop
        invariant
            done <= retry_count,
            attempts@.len() >= retry_count + 1,
            resolve_model(
                attempts_model(attempts@).skip(done as int),
                (retry_count - done) as nat,
            ) == resolve_model(attempts_model(attempts@), retry_count as nat),
        decreases retry_count - done,
    {
        let cur = &attempts[done as usize];
        let a: AttemptResult = match cur {
            AttemptResult::Response { status, body } => AttemptResult::Response {
                status: *status,
                body: body.clone(),
            },
            AttemptResult::Transient { cause } => AttemptResult::Transient { cause: cause.clone() },
        };
        let ghost a0 = a@;
        let ghost rest = attempts_model(attempts@).skip(done as int);
        proof {
            assert(a0 =~= attempts@[done as int]@);
            assert(rest[0] == attempts_model(attempts@)[done as int]);
        }
        match retry_decide(retry_wait_sec, retry_count, done, a) {
            RetryStep::Finish(outcome) => {
                proof {
                    let k = (retry_count - done) as nat;
                    match a0 {
                        AttemptModel::Response { status, body } => {
                            assert(resolve_model(rest, k) == (TransportOutcomeModel::Delivered {
                                status,
                                body,
                            }));
                        },
                        AttemptModel::Transient { cause } => {
                            assert(k == 0);
                            assert(resolve_model(rest, k) == (TransportOutcomeModel::Failed {
                                cause,
                            }));
                        },
                    }
                }
                return outcome;
            },
            RetryStep::RetryAfterSec(_delay) => {
                proof {
                    assert(a0 is Transient);
                    assert(done < retry_count);
                    assert(attempts_model(attempts@).skip(done + 1 as int) =~= rest.drop_first());
                }
                done = done + 1;
            },
        }
    }
}

/// A transient fault that gives way to a response within the retry budget
/// resolves to that response, exactly as a run with no faults would: the
/// retries leave no trace on the outcome.
pub proof fn lemma_retry_success_within_budget(
    attempts: Seq<AttemptModel>,
    retries: nat,
    k: int,
    status: u16,
    body: Seq<char>,
)
    requires
        attempts.len() >= retries + 1,
        0 <= k <= retries,
        forall|j: int| 0 <= j < k ==> attempts[j] is Transient,
        attempts[k] == (AttemptModel::Response { status, body }),
    ensures
        resolve_model(attempts, retries) == (TransportOutcomeModel::Delivered { status, body }),
        resolve_model(attempts, retries) == resolve_model(seq![attempts[k]], 0),
    decreases k,
{
    if k > 0 {
        lemma_retry_success_within_budget(
            attempts.drop_first(),
            (retries - 1) as nat,
            k - 1,
            status,
            body,
        );
    }
}

/// Exhausting the retry budget on transient faults resolves to a transport
/// failure carrying the last fault's cause.
pub proof fn lemma_retry_budget_exhausted(attempts: Seq<AttemptModel>, retries: nat, cause: Seq<char>)
    requires
        attempts.len() >= retries + 1,
        forall|j: int| 0 <= j < retries ==> attempts[j] is Transient,
        attempts[retries as int] == (AttemptModel::Transient { cause }),
    ensures
        resolve_model(attempts, retries) == (TransportOutcomeModel::Failed { cause }),
    decreases retries,
{
    if retries > 0 {
        lemma_retry_budget_exhausted(attempts.drop_first(), (retries - 1) as nat, cause);
    }
}

} // verus!
