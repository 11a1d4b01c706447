//! Retry policy of the ranged grid downloads.
use vstd::prelude::*;

verus! {

/// Largest number of times one ranged request is reissued.
pub const MAX_RETRIES: u8 = 8;

/// A 2xx status.
pub open spec fn is_success_status(status: u16) -> bool {
    200 <= status < 300
}

/// A 4xx status.
pub open spec fn is_client_error_status(status: u16) -> bool {
    400 <= status < 500
}

/// A 5xx status.
pub open spec fn is_server_error_status(status: u16) -> bool {
    500 <= status < 600
}

/// Statuses that storage backends send for transient throttling.
pub open spec fn is_retry_code(status: u16) -> bool {
    status == 429 || status == 500 || status == 502 || status == 504
}

/// A status on which the same request is issued again.
pub open spec fn is_retriable(status: u16) -> bool {
    is_server_error_status(status) || is_retry_code(status)
}

/// Backoff before retry number `n`, in milliseconds.
pub open spec fn wait_time(n: int) -> int {
    n * n * 100
}

pub fn is_success(status: u16) -> (r: bool)
    ensures
        r == is_success_status(status),
{
    200 <= status && status < 300
}

pub fn is_client_error(status: u16) -> (r: bool)
    ensures
        r == is_client_error_status(status),
{
    400 <= status && status < 500
}

pub fn is_server_error(status: u16) -> (r: bool)
    ensures
        r == is_server_error_status(status),
{
    500 <= status && status < 600
}

pub fn is_retry_status(status: u16) -> (r: bool)
    ensures
        r == is_retry_code(status),
{
    status == 429 || status == 500 || status == 502 || status == 504
}

/// Return a quadratically increasing wait time, in milliseconds, for the given retry count.
pub fn get_wait_time_quad(retrycount: i32) -> (r: u64)
    requires
        0 <= retrycount,
        wait_time(retrycount as int) <= u64::MAX,
    ensures
        r == wait_time(retrycount as int),
{
    if retrycount == 0 {
        assert(wait_time(0) == 0) by (nonlinear_arith);
        return 0;
    }
    let n = retrycount as u64;
    assert(n * n * 100 == wait_time(retrycount as int)) by (nonlinear_arith)
        requires n == retrycount as int;
    n * n * 100
}

/// What to do with one HTTP response of a ranged request.
#[derive(PartialEq, Eq, Structural, Clone, Copy, Debug)]
pub enum RetryAction {
    /// The response is a success: read its body.
    Accept,
    /// Sleep this many milliseconds, then issue the same request again.
    Retry { wait_ms: u64 },
    /// Stop with a download error carrying the last status and the retries used.
    GiveUp { status: u16, retries: u8 },
}

/// The decision for a response with `status`, after `retries` retries:
/// the retry count afterwards and the action.
pub open spec fn step(retries: nat, status: u16) -> (nat, RetryAction) {
    if is_success_status(status) {
        (retries, RetryAction::Accept)
    } else if is_retriable(status) && retries < MAX_RETRIES {
        (retries + 1, RetryAction::Retry { wait_ms: wait_time(retries + 1 as int) as u64 })
    } else {
        (retries, RetryAction::GiveUp { status, retries: retries as u8 })
    }
}

/// How a run of responses ends.
pub enum RunOutcome {
    /// A response was accepted after this many retries.
    Accepted(nat),
    /// The run gave up on this status after this many retries.
    GaveUp(u16, nat),
    /// Every response asked for a retry; this many retries are under way.
    Pending(nat),
}

/// Feed `statuses`, one response each, to the policy starting from `retries` retries.
pub open spec fn run_from(retries: nat, statuses: Seq<u16>) -> RunOutcome
    decreases statuses.len(),
{
    if statuses.len() == 0 {
        RunOutcome::Pending(retries)
    } else {
        let (next, action) = step(retries, statuses[0]);
        match action {
            RetryAction::Accept => RunOutcome::Accepted(retries),
            RetryAction::GiveUp { status, retries: _ } => RunOutcome::GaveUp(status, retries),
            RetryAction::Retry { wait_ms: _ } => run_from(next, statuses.drop_first()),
        }
    }
}

/// The outcome of a ranged request whose responses carry `statuses`, in order.
pub open spec fn run(statuses: Seq<u16>) -> RunOutcome {
    run_from(0, statuses)
}

/// The retry count at which a run stops or stands.
pub open spec fn outcome_retries(o: RunOutcome) -> nat {
    match o {
        RunOutcome::Accepted(n) => n,
        RunOutcome::GaveUp(_, n) => n,
        RunOutcome::Pending(n) => n,
    }
}

proof fn lemma_run_from_bounded(retries: nat, statuses: Seq<u16>)
    requires
        retries <= MAX_RETRIES,
    ensures
        outcome_retries(run_from(retries, statuses)) <= MAX_RETRIES,
    decreases statuses.len(),
{
    if statuses.len() > 0 {
        let (next, action) = step(retries, statuses[0]);
        if action is Retry {
            lemma_run_from_bounded(next, statuses.drop_first());
        }
    }
}

/// Whatever responses come back, a ranged request is never reissued more than
/// `MAX_RETRIES` times.
pub proof fn lemma_retries_never_exceed_max(statuses: Seq<u16>)
    ensures
        outcome_retries(run(statuses)) <= MAX_RETRIES,
{
    lemma_run_from_bounded(0, statuses);
}

proof fn lemma_run_from_retriable_then_success(retries: nat, statuses: Seq<u16>)
    requires
        statuses.len() >= 1,
        retries + statuses.len() - 1 <= MAX_RETRIES,
        forall|i: int| 0 <= i < statuses.len() - 1 ==> is_retriable(#[trigger] statuses[i]),
        is_success_status(statuses.last()),
    ensures
        run_from(retries, statuses) == RunOutcome::Accepted((retries + statuses.len() - 1) as nat),
    decreases statuses.len(),
{
    if statuses.len() > 1 {
        let rest = statuses.drop_first();
        assert(is_retriable(statuses[0]));
        assert forall|i: int| 0 <= i < rest.len() - 1 implies is_retriable(#[trigger] rest[i]) by {
            assert(rest[i] == statuses[i + 1]);
        }
        lemma_run_from_retriable_then_success(retries + 1, rest);
    }
}

/// A request answered by up to `MAX_RETRIES` retriable statuses and then a success is
/// accepted, after one retry for each retriable status.
pub proof fn lemma_retriable_then_success(statuses: Seq<u16>)
    requires
        1 <= statuses.len() <= MAX_RETRIES + 1,
        forall|i: int| 0 <= i < statuses.len() - 1 ==> is_retriable(#[trigger] statuses[i]),
        is_success_status(statuses.last()),
    ensures
        run(statuses) == RunOutcome::Accepted((statuses.len() - 1) as nat),
{
    lemma_run_from_retriable_then_success(0, statuses);
}

proof fn lemma_run_from_all_retriable(retries: nat, statuses: Seq<u16>)
    requires
        retries <= MAX_RETRIES,
        statuses.len() >= MAX_RETRIES + 1 - retries,
        forall|i: int| 0 <= i < statuses.len() ==> is_retriable(#[trigger] statuses[i]),
    ensures
        run_from(retries, statuses) == RunOutcome::GaveUp(
            statuses[MAX_RETRIES - retries],
            MAX_RETRIES as nat,
        ),
    decreases statuses.len(),
{
    assert(is_retriable(statuses[0]));
    if retries < MAX_RETRIES {
        let rest = statuses.drop_first();
        assert forall|i: int| 0 <= i < rest.len() implies is_retriable(#[trigger] rest[i]) by {
            assert(rest[i] == statuses[i + 1]);
        }
        lemma_run_from_all_retriable(retries + 1, rest);
        assert(rest[MAX_RETRIES - (retries + 1)] == statuses[MAX_RETRIES - retries]);
    }
}

/// A request answered only by retriable statuses gives up on the response that follows
/// the last allowed retry, with exactly `MAX_RETRIES` retries used.
pub proof fn lemma_retriable_run_gives_up(statuses: Seq<u16>)
    requires
        statuses.len() >= MAX_RETRIES + 1,
        forall|i: int| 0 <= i < statuses.len() ==> is_retriable(#[trigger] statuses[i]),
    ensures
        run(statuses) == RunOutcome::GaveUp(statuses[MAX_RETRIES as int], MAX_RETRIES as nat),
{
    lemma_run_from_all_retriable(0, statuses);
}

/// Retry bookkeeping of one ranged request.
#[derive(Debug)]
pub struct RetryState {
    retries: u8,
}

impl RetryState {
    pub closed spec fn spec_retries(&self) -> nat {
        self.retries as nat
    }

    #[verifier::type_invariant]
    spec fn bounded(&self) -> bool {
        self.retries <= MAX_RETRIES
    }

    /// State before the first response.
    pub fn new() -> (r: RetryState)
        ensures
            r.spec_retries() == 0,
    {
        RetryState { retries: 0 }
    }

    /// Retries issued so far.
    pub fn retries(&self) -> (r: u8)
        ensures
            r == self.spec_retries(),
            r <= MAX_RETRIES,
    {
        proof {
            use_type_invariant(self);
        }
        self.retries
    }

    /// Decide on a response with `status`.
    pub fn on_response(&mut self, status: u16) -> (r: RetryAction)
        ensures
            final(self).spec_retries() <= MAX_RETRIES,
            (final(self).spec_retries(), r) == step(old(self).spec_retries(), status),
    {
        proof {
            use_type_invariant(&*self);
        }
        if is_success(status) {
            RetryAction::Accept
        } else if (is_server_error(status) || is_retry_status(status)) && self.retries < MAX_RETRIES {
            self.retries = self.retries + 1;
            proof {
                let n = self.retries as int;
                assert(wait_time(n) <= u64::MAX) by (nonlinear_arith)
                    requires
                        0 <= n <= 8,
                        wait_time(n) == n * n * 100,
                ;
            }
            let wait_ms = get_wait_time_quad(self.retries as i32);
            RetryAction::Retry { wait_ms }
        } else {
            RetryAction::GiveUp { status, retries: self.retries }
        }
    }
}

} // verus!
