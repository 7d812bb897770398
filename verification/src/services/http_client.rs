//! The policy of the resilient caller: how one attempt's outcome is
//! classified, when a call is tried again, and how long to wait first.
//!
//! The policy decides; it performs no call and no wait. Its user makes the
//! attempt, hands the outcome to [`RetryPolicy::decide`], and acts on the
//! step that comes back.

use vstd::prelude::*;

verus! {

/// The method of a request.
#[derive(Debug, Clone, Copy, PartialEq, Eq, Structural)]
pub enum Method {
    Get,
    Post,
}

/// A request to a collaborator, as the resilient caller takes it. The body,
/// where there is one, travels beside it.
#[derive(Debug, PartialEq, Eq)]
pub struct HttpRequest {
    pub method: Method,
    pub url: String,
    /// Header names and values, in sending order.
    pub headers: Vec<(String, String)>,
    /// Query parameter names and values, in sending order.
    pub query: Vec<(String, String)>,
    /// The time allowed for one attempt, in seconds; `None` leaves it to
    /// the client.
    pub timeout_secs: Option<u64>,
}

/// The model of a [`HttpRequest`].
pub struct RequestView {
    pub method: Method,
    pub url: Seq<char>,
    pub headers: Seq<(Seq<char>, Seq<char>)>,
    pub query: Seq<(Seq<char>, Seq<char>)>,
    pub timeout_secs: Option<u64>,
}

/// The models of a list of name and value pairs.
pub open spec fn pair_views(pairs: Seq<(String, String)>) -> Seq<(Seq<char>, Seq<char>)> {
    pairs.map_values(|p: (String, String)| (p.0@, p.1@))
}

impl View for HttpRequest {
    type V = RequestView;

    open spec fn view(&self) -> RequestView {
        RequestView {
            method: self.method,
            url: self.url@,
            headers: pair_views(self.headers@),
            query: pair_views(self.query@),
            timeout_secs: self.timeout_secs,
        }
    }
}

/// Appends the pair of `name` and `value` to `pairs`.
pub fn push_pair(pairs: &mut Vec<(String, String)>, name: &str, value: &str)
    ensures
        pair_views(final(pairs)@) == pair_views(old(pairs)@).push((name@, value@)),
{
    pairs.push((name.to_owned(), value.to_owned()));
}

/// What one attempt of a call came to.
#[derive(Debug, PartialEq, Eq)]
pub enum AttemptOutcome {
    /// The collaborator answered.
    Response { status: u16, body: String },
    /// No answer: connection refused, name not resolved, and the like.
    TransportError { message: String },
    /// No answer within the request's timeout.
    TimedOut { seconds: u64 },
}

/// How a status code counts.
#[derive(Debug, Clone, Copy, PartialEq, Eq, Structural)]
pub enum StatusClass {
    /// 2xx: the call succeeded.
    Success,
    /// 429 or 5xx: a later attempt may succeed.
    Retryable,
    /// Anything else: trying again cannot help.
    Rejected,
}

/// Why a call failed for good.
#[derive(Debug, PartialEq, Eq)]
pub enum CallError {
    /// The collaborator refused the request; no further attempt was made.
    Rejected { status: u16, body: String },
    /// The attempts ran out, and the last one was answered with a status.
    ExhaustedStatus { status: u16, body: String, attempts: u32 },
    /// The attempts ran out, and the last one failed in transport.
    ExhaustedTransport { message: String, attempts: u32 },
    /// The attempts ran out, and the last one timed out.
    ExhaustedTimeout { seconds: u64, attempts: u32 },
}

/// What to do after an attempt.
#[derive(Debug, PartialEq, Eq)]
pub enum NextStep {
    /// The call succeeded with this body.
    Return { body: String },
    /// Wait `delay_ms`, then make attempt number `attempt`.
    Retry { delay_ms: u64, attempt: u32 },
    /// The call failed.
    Fail { error: CallError },
}

/// How often a call is attempted and how the waits between attempts grow.
#[derive(Debug, Clone, Copy, PartialEq, Eq, Structural)]
pub struct RetryPolicy {
    pub max_attempts: u32,
    pub base_delay_ms: u32,
}

/// The class of `status`.
pub open spec fn status_class(status: u16) -> StatusClass {
    if 200 <= status <= 299 {
        StatusClass::Success
    } else if status == 429 || 500 <= status <= 599 {
        StatusClass::Retryable
    } else {
        StatusClass::Rejected
    }
}

/// Classifies a status code.
pub fn classify(status: u16) -> (class: StatusClass)
    ensures
        class == status_class(status),
{
    if 200 <= status && status <= 299 {
        StatusClass::Success
    } else if status == 429 || (500 <= status && status <= 599) {
        StatusClass::Retryable
    } else {
        StatusClass::Rejected
    }
}

/// The error that stands for `outcome` when it was the last attempt allowed.
pub open spec fn exhausted(outcome: AttemptOutcome, attempts: u32) -> CallError {
    match outcome {
        AttemptOutcome::Response { status, body } => CallError::ExhaustedStatus {
            status,
            body,
            attempts,
        },
        AttemptOutcome::TransportError { message } => CallError::ExhaustedTransport {
            message,
            attempts,
        },
        AttemptOutcome::TimedOut { seconds } => CallError::ExhaustedTimeout { seconds, attempts },
    }
}

/// Whether `outcome` ends the call whatever the attempt budget: a success
/// or a refusal.
pub open spec fn is_final(outcome: AttemptOutcome) -> bool {
    outcome matches AttemptOutcome::Response { status, .. } && status_class(status)
        != StatusClass::Retryable
}

impl RetryPolicy {
    /// A policy allows at least one attempt, and its waits grow.
    pub open spec fn wf(self) -> bool {
        self.max_attempts >= 1 && self.base_delay_ms >= 1
    }

    /// The wait after attempt number `attempt` has failed:
    /// `base_delay * attempt`.
    pub open spec fn backoff(self, attempt: nat) -> nat {
        self.base_delay_ms as nat * attempt
    }

    /// The step that follows attempt number `attempt` (counted from 1) when
    /// it came to `outcome`.
    pub open spec fn step(self, attempt: u32, outcome: AttemptOutcome) -> NextStep {
        match outcome {
            AttemptOutcome::Response { status, body } => match status_class(status) {
                StatusClass::Success => NextStep::Return { body },
                StatusClass::Rejected => NextStep::Fail {
                    error: CallError::Rejected { status, body },
                },
                StatusClass::Retryable => self.retry_or_give_up(attempt, outcome),
            },
            _ => self.retry_or_give_up(attempt, outcome),
        }
    }

    /// The step after attempt number `attempt` came to `outcome`, a failure
    /// that may pass: another attempt after the backoff while the budget
    /// lasts, else the failure of the call.
    pub open spec fn retry_or_give_up(self, attempt: u32, outcome: AttemptOutcome) -> NextStep {
        if attempt < self.max_attempts {
            NextStep::Retry {
                delay_ms: self.backoff(attempt as nat) as u64,
                attempt: (attempt + 1) as u32,
            }
        } else {
            NextStep::Fail { error: exhausted(outcome, attempt) }
        }
    }

    /// A policy of `max_attempts` attempts whose waits are multiples of
    /// `base_delay_ms`; `None` where either is zero.
    pub fn new(max_attempts: u32, base_delay_ms: u32) -> (policy: Option<RetryPolicy>)
        ensures
            policy == if max_attempts >= 1 && base_delay_ms >= 1 {
                Some(RetryPolicy { max_attempts, base_delay_ms })
            } else {
                None
            },
            policy matches Some(p) ==> p.wf(),
    {
        if max_attempts >= 1 && base_delay_ms >= 1 {
            Some(RetryPolicy { max_attempts, base_delay_ms })
        } else {
            None
        }
    }

    /// Three attempts, with waits of two and four seconds between them.
    pub fn standard() -> (policy: RetryPolicy)
        ensures
            policy == (RetryPolicy { max_attempts: 3, base_delay_ms: 2000 }),
            policy.wf(),
    {
        RetryPolicy { max_attempts: 3, base_delay_ms: 2000 }
    }

    /// The wait, in milliseconds, after attempt number `attempt` has failed.
    pub fn delay_after(&self, attempt: u32) -> (delay_ms: u64)
        ensures
            delay_ms == self.backoff(attempt as nat),
    {
        assert(self.base_delay_ms as nat * attempt as nat <= 0xffff_ffff * 0xffff_ffff)
            by (nonlinear_arith)
            requires
                self.base_delay_ms <= 0xffff_ffff,
                attempt <= 0xffff_ffff,
        ;
        self.base_delay_ms as u64 * attempt as u64
    }

    /// Decides what follows attempt number `attempt` (counted from 1), which
    /// came to `outcome`.
    ///
    /// A 2xx answer returns its body. A status that is neither 2xx, 429 nor
    /// 5xx fails at once, with the status and the body. Anything else is
    /// tried again after `base_delay * attempt`, unless `attempt` was the
    /// last one allowed: then the call fails with that last outcome.
    pub fn decide(&self, attempt: u32, outcome: AttemptOutcome) -> (next: NextStep)
        ensures
            next == self.step(attempt, outcome),
    {
        let out_of_attempts = attempt >= self.max_attempts;
        match outcome {
            AttemptOutcome::Response { status, body } => {
                match classify(status) {
                    StatusClass::Success => NextStep::Return { body },
                    StatusClass::Rejected => NextStep::Fail {
                        error: CallError::Rejected { status, body },
                    },
                    StatusClass::Retryable => {
                        if out_of_attempts {
                            NextStep::Fail {
                                error: CallError::ExhaustedStatus { status, body, attempts: attempt },
                            }
                        } else {
                            NextStep::Retry {
                                delay_ms: self.delay_after(attempt),
                                attempt: attempt + 1,
                            }
                        }
                    },
                }
            },
            AttemptOutcome::TransportError { message } => {
                if out_of_attempts {
                    NextStep::Fail {
                        error: CallError::ExhaustedTransport { message, attempts: attempt },
                    }
                } else {
                    NextStep::Retry { delay_ms: self.delay_after(attempt), attempt: attempt + 1 }
                }
            },
            AttemptOutcome::TimedOut { seconds } => {
                if out_of_attempts {
                    NextStep::Fail {
                        error: CallError::ExhaustedTimeout { seconds, attempts: attempt },
                    }
                } else {
                    NextStep::Retry { delay_ms: self.delay_after(attempt), attempt: attempt + 1 }
                }
            },
        }
    }

    /// What a call comes to when its attempts meet `outcomes`, one after the
    /// other, from attempt number `done + 1` on.
    pub open spec fn replay_from(self, outcomes: Seq<AttemptOutcome>, done: nat) -> CallTrace
        decreases outcomes.len() - done,
    {
        if done >= outcomes.len() || done >= self.max_attempts {
            CallTrace { result: None, attempts: done, delays_ms: Seq::empty() }
        } else {
            match self.step((done + 1) as u32, outcomes[done as int]) {
                NextStep::Return { body } => CallTrace {
                    result: Some(Ok(body)),
                    attempts: done + 1,
                    delays_ms: Seq::empty(),
                },
                NextStep::Fail { error } => CallTrace {
                    result: Some(Err(error)),
                    attempts: done + 1,
                    delays_ms: Seq::empty(),
                },
                NextStep::Retry { delay_ms, .. } => {
                    let rest = self.replay_from(outcomes, done + 1);
                    CallTrace {
                        result: rest.result,
                        attempts: rest.attempts,
                        delays_ms: seq![delay_ms] + rest.delays_ms,
                    }
                },
            }
        }
    }

    /// Replays a recorded call: the attempts meet `outcomes` in order until
    /// the policy returns, fails, or the record ends. The report tells how
    /// the call ended (`None` where the record ended first), how many
    /// attempts were made, and the waits between them.
    pub fn replay(&self, outcomes: &Vec<AttemptOutcome>) -> (report: CallReport)
        ensures
            report.result == self.replay_from(outcomes@, 0).result,
            report.attempts == self.replay_from(outcomes@, 0).attempts,
            report.delays_ms@ == self.replay_from(outcomes@, 0).delays_ms,
    {
        let mut delays_ms: Vec<u64> = Vec::new();
        let mut done: u32 = 0;
        let mut result: Option<Result<String, CallError>> = None;
        let ghost whole = self.replay_from(outcomes@, 0);
        while result.is_none() && (done as usize) < outcomes.len() && done < self.max_attempts
            invariant
                done <= self.max_attempts,
                done <= outcomes@.len(),
                whole == self.replay_from(outcomes@, 0),
                result is None ==> whole.result == self.replay_from(outcomes@, done as nat).result,
                result is None ==> whole.attempts == self.replay_from(
                    outcomes@,
                    done as nat,
                ).attempts,
                result is None ==> whole.delays_ms == delays_ms@ + self.replay_from(
                    outcomes@,
                    done as nat,
                ).delays_ms,
                result is Some ==> whole.result == result && whole.attempts == done
                    && whole.delays_ms == delays_ms@,
            decreases
                    (if result is None {
                        1int
                    } else {
                        0int
                    }),
                    outcomes@.len() - done,
        {
            let outcome = copy_outcome(&outcomes[done as usize]);
            match self.decide(done + 1, outcome) {
                NextStep::Return { body } => {
                    result = Some(Ok(body));
                },
                NextStep::Fail { error } => {
                    result = Some(Err(error));
                },
                NextStep::Retry { delay_ms, .. } => {
                    delays_ms.push(delay_ms);
                },
            }
            done = done + 1;
        }
        CallReport { result, attempts: done, delays_ms }
    }
}

/// How a replayed call went, as a model.
pub struct CallTrace {
    pub result: Option<Result<String, CallError>>,
    pub attempts: nat,
    pub delays_ms: Seq<u64>,
}

/// How a replayed call went.
#[derive(Debug, PartialEq, Eq)]
pub struct CallReport {
    /// How the call ended; `None` where the record ended before the call.
    pub result: Option<Result<String, CallError>>,
    /// The number of attempts made.
    pub attempts: u32,
    /// The waits between the attempts, in milliseconds.
    pub delays_ms: Vec<u64>,
}

fn copy_outcome(outcome: &AttemptOutcome) -> (copy: AttemptOutcome)
    ensures
        copy == *outcome,
{
    match outcome {
        AttemptOutcome::Response { status, body } => AttemptOutcome::Response {
            status: *status,
            body: body.clone(),
        },
        AttemptOutcome::TransportError { message } => AttemptOutcome::TransportError {
            message: message.clone(),
        },
        AttemptOutcome::TimedOut { seconds } => AttemptOutcome::TimedOut { seconds: *seconds },
    }
}

/// A call whose first `k` attempts fail in a way that may pass, with `k`
/// below the attempt budget, and whose next attempt is answered with a 2xx
/// status, returns that answer's body after exactly `k + 1` attempts. It
/// waits `k` times, the `i`-th wait being `base_delay * i`, so each wait is
/// longer than the one before.
pub proof fn lemma_succeeds_after_transient_failures(
    policy: RetryPolicy,
    outcomes: Seq<AttemptOutcome>,
    k: nat,
)
    requires
        policy.wf(),
        k < policy.max_attempts,
        k < outcomes.len(),
        forall|i: int| 0 <= i < k ==> !is_final(#[trigger] outcomes[i]),
        outcomes[k as int] is Response,
        status_class(outcomes[k as int]->status) == StatusClass::Success,
    ensures
        policy.replay_from(outcomes, 0).result == Some(
            Ok::<String, CallError>(outcomes[k as int]->body),
        ),
        policy.replay_from(outcomes, 0).attempts == k + 1,
        policy.replay_from(outcomes, 0).delays_ms.len() == k,
        forall|i: int|
            0 <= i < k ==> (#[trigger] policy.replay_from(outcomes, 0).delays_ms[i])
                == policy.base_delay_ms * (i + 1),
        forall|i: int, j: int|
            0 <= i < j < k ==> policy.replay_from(outcomes, 0).delays_ms[i] < policy.replay_from(
                outcomes,
                0,
            ).delays_ms[j],
{
    lemma_replay_suffix(policy, outcomes, k, 0);
    let d = policy.replay_from(outcomes, 0).delays_ms;
    assert forall|i: int, j: int| 0 <= i < j < k implies d[i] < d[j] by {
        assert(policy.base_delay_ms * (i + 1) < policy.base_delay_ms * (j + 1))
            by (nonlinear_arith)
            requires
                policy.base_delay_ms >= 1,
                0 <= i < j,
        ;
    }
}

proof fn lemma_replay_suffix(
    policy: RetryPolicy,
    outcomes: Seq<AttemptOutcome>,
    k: nat,
    done: nat,
)
    requires
        policy.wf(),
        k < policy.max_attempts,
        k < outcomes.len(),
        done <= k,
        forall|i: int| 0 <= i < k ==> !is_final(#[trigger] outcomes[i]),
        outcomes[k as int] is Response,
        status_class(outcomes[k as int]->status) == StatusClass::Success,
    ensures
        policy.replay_from(outcomes, done).result == Some(
            Ok::<String, CallError>(outcomes[k as int]->body),
        ),
        policy.replay_from(outcomes, done).attempts == k + 1,
        policy.replay_from(outcomes, done).delays_ms.len() == k - done,
        forall|i: int|
            0 <= i < k - done ==> (#[trigger] policy.replay_from(outcomes, done).delays_ms[i])
                == policy.base_delay_ms * (done + i + 1),
    decreases k - done,
{
    if done < k {
        lemma_replay_suffix(policy, outcomes, k, done + 1);
        let wait = policy.backoff(done + 1);
        assert(wait <= 0xffff_ffff * 0xffff_ffff) by (nonlinear_arith)
            requires
                wait == policy.base_delay_ms as nat * (done + 1),
                policy.base_delay_ms <= 0xffff_ffff,
                done + 1 <= 0xffff_ffff,
        ;
        let all = policy.replay_from(outcomes, done).delays_ms;
        assert forall|i: int| 0 <= i < k - done implies (#[trigger] all[i])
            == policy.base_delay_ms * (done + i + 1) by {}
    }
}

/// A call whose attempts all fail in a way that may pass ends when the
/// budget is spent: it makes exactly as many attempts as the policy allows
/// and fails with what the last attempt came to, a status or a transport
/// failure.
pub proof fn lemma_persistent_failure_exhausts(policy: RetryPolicy, outcomes: Seq<AttemptOutcome>)
    requires
        policy.wf(),
        outcomes.len() >= policy.max_attempts,
        forall|i: int| 0 <= i < policy.max_attempts ==> !is_final(#[trigger] outcomes[i]),
    ensures
        policy.replay_from(outcomes, 0).result == Some(
            Err::<String, CallError>(
                exhausted(outcomes[policy.max_attempts - 1], policy.max_attempts),
            ),
        ),
        policy.replay_from(outcomes, 0).attempts == policy.max_attempts,
        policy.replay_from(outcomes, 0).delays_ms.len() == policy.max_attempts - 1,
{
    lemma_exhausts_from(policy, outcomes, 0);
}

proof fn lemma_exhausts_from(policy: RetryPolicy, outcomes: Seq<AttemptOutcome>, done: nat)
    requires
        policy.wf(),
        outcomes.len() >= policy.max_attempts,
        done < policy.max_attempts,
        forall|i: int| 0 <= i < policy.max_attempts ==> !is_final(#[trigger] outcomes[i]),
    ensures
        policy.replay_from(outcomes, done).result == Some(
            Err::<String, CallError>(
                exhausted(outcomes[policy.max_attempts - 1], policy.max_attempts),
            ),
        ),
        policy.replay_from(outcomes, done).attempts == policy.max_attempts,
        policy.replay_from(outcomes, done).delays_ms.len() == policy.max_attempts - 1 - done,
    decreases policy.max_attempts - done,
{
    if done + 1 < policy.max_attempts {
        lemma_exhausts_from(policy, outcomes, done + 1);
    }
}

/// A call whose first attempt is answered with a status that is neither
/// 2xx, 429 nor 5xx fails after that one attempt, without waiting, and the
/// failure carries the status and the body.
pub proof fn lemma_rejection_ends_the_call(policy: RetryPolicy, outcomes: Seq<AttemptOutcome>)
    requires
        policy.wf(),
        outcomes.len() >= 1,
        outcomes[0] is Response,
        status_class(outcomes[0]->status) == StatusClass::Rejected,
    ensures
        policy.replay_from(outcomes, 0) == (CallTrace {
            result: Some(
                Err(CallError::Rejected { status: outcomes[0]->status, body: outcomes[0]->body }),
            ),
            attempts: 1,
            delays_ms: Seq::empty(),
        }),
{
}

/// A call stays within its budget: it never makes more attempts than the
/// policy allows, nor more than the record holds outcomes. A call that
/// ended has waited exactly once between any two attempts. And a record
/// with as many outcomes as the policy allows attempts always ends the
/// call.
pub proof fn lemma_attempts_within_budget(policy: RetryPolicy, outcomes: Seq<AttemptOutcome>)
    requires
        policy.wf(),
    ensures
        policy.replay_from(outcomes, 0).attempts <= policy.max_attempts,
        policy.replay_from(outcomes, 0).attempts <= outcomes.len(),
        policy.replay_from(outcomes, 0).result is Some ==> policy.replay_from(
            outcomes,
            0,
        ).delays_ms.len() + 1 == policy.replay_from(outcomes, 0).attempts,
        outcomes.len() >= policy.max_attempts ==> policy.replay_from(outcomes, 0).result is Some,
{
    lemma_replay_bounds(policy, outcomes, 0);
}

proof fn lemma_replay_bounds(policy: RetryPolicy, outcomes: Seq<AttemptOutcome>, done: nat)
    requires
        policy.wf(),
        done <= policy.max_attempts,
    ensures
        done <= policy.replay_from(outcomes, done).attempts <= policy.max_attempts,
        policy.replay_from(outcomes, done).attempts <= outcomes.len() || policy.replay_from(
            outcomes,
            done,
        ).attempts == done,
        policy.replay_from(outcomes, done).result is Some ==> policy.replay_from(
            outcomes,
            done,
        ).delays_ms.len() + done + 1 == policy.replay_from(outcomes, done).attempts,
        outcomes.len() >= policy.max_attempts ==> policy.replay_from(outcomes, done).result
            is Some || done == policy.max_attempts,
    decreases outcomes.len() - done,
{
    if done < outcomes.len() && done < policy.max_attempts {
        if policy.step((done + 1) as u32, outcomes[done as int]) is Retry {
            lemma_replay_bounds(policy, outcomes, done + 1);
        }
    }
}

} // verus!
