use vstd::prelude::*;

verus! {

/// The pause between two attempts at the same URL, in milliseconds.
pub const BACKOFF_MS: u64 = 100;

/// What one HTTP attempt came to, with how long it took.
#[derive(Debug)]
pub enum Attempt {
    Response { code: u16, elapsed_ms: u64 },
    Failed { message: String, elapsed_ms: u64 },
}

/// What to do after an attempt.
#[derive(Debug)]
pub enum Step {
    /// Wait `backoff_ms`, then make the attempt that `next` stands for.
    Retry { next: RetryState, backoff_ms: u64 },
    /// Stop: `status` and `response_time_ms` go into the record of the URL;
    /// `attempts` attempts were made in all.
    Finish { status: Result<u16, String>, response_time_ms: u64, attempts: u64 },
}

/// Where the retry loop of one URL stands: how many attempts have failed so
/// far, and how many extra attempts the budget allows after the first.
#[derive(Debug)]
pub struct RetryState {
    failed: u32,
    retries: u32,
}

/// Whether the attempt with index `attempt` (counted from zero) ends the loop
/// under a budget of `retries` extra attempts: it does on a response, and on a
/// failure once the budget is spent.
pub open spec fn finishes(attempt: nat, retries: nat, a: Attempt) -> bool {
    a is Response || attempt >= retries
}

/// The status that an attempt leaves in the record when it is the last one.
pub open spec fn attempt_status(a: Attempt) -> Result<u16, String> {
    match a {
        Attempt::Response { code, .. } => Ok(code),
        Attempt::Failed { message, .. } => Err(message),
    }
}

/// How long an attempt took.
pub open spec fn attempt_elapsed(a: Attempt) -> u64 {
    match a {
        Attempt::Response { elapsed_ms, .. } => elapsed_ms,
        Attempt::Failed { elapsed_ms, .. } => elapsed_ms,
    }
}

/// The number of attempts made, from the one with index `from` on, when
/// attempt `i` comes to `results[i]`.
pub open spec fn attempts_used(retries: nat, results: Seq<Attempt>, from: nat) -> nat
    decreases retries - from,
{
    if finishes(from, retries, results[from as int]) {
        from + 1
    } else {
        attempts_used(retries, results, from + 1)
    }
}

impl RetryState {
    #[verifier::type_invariant]
    spec fn inv(&self) -> bool {
        self.failed <= self.retries
    }

    /// The number of attempts that have failed so far; also the index of the
    /// attempt to make next.
    pub closed spec fn failed_so_far(&self) -> nat {
        self.failed as nat
    }

    /// The number of extra attempts allowed after the first.
    pub closed spec fn budget(&self) -> nat {
        self.retries as nat
    }

    /// The state before the first attempt.
    pub fn new(retries: u32) -> (r: RetryState)
        ensures
            r.failed_so_far() == 0,
            r.budget() == retries,
    {
        RetryState { failed: 0, retries }
    }

    /// The number of attempts that have failed so far.
    pub fn failed_attempts(&self) -> (r: u32)
        ensures
            r == self.failed_so_far(),
    {
        self.failed
    }

    /// The number of extra attempts allowed after the first.
    pub fn retries(&self) -> (r: u32)
        ensures
            r == self.budget(),
    {
        self.retries
    }

    /// Decides what follows the attempt that this state stands for, given
    /// what it came to.
    pub fn step(self, a: Attempt) -> (r: Step)
        ensures
            r is Finish == finishes(self.failed_so_far(), self.budget(), a),
            r is Finish ==> r->status == attempt_status(a) && r->response_time_ms
                == attempt_elapsed(a) && r->attempts == self.failed_so_far() + 1,
            r is Retry ==> r->next.failed_so_far() == self.failed_so_far() + 1
                && r->next.budget() == self.budget() && r->backoff_ms == BACKOFF_MS,
    {
        proof {
            use_type_invariant(&self);
        }
        match a {
            Attempt::Response { code, elapsed_ms } => Step::Finish {
                status: Ok(code),
                response_time_ms: elapsed_ms,
                attempts: self.failed as u64 + 1,
            },
            Attempt::Failed { message, elapsed_ms } => {
                if self.failed < self.retries {
                    Step::Retry {
                        next: RetryState { failed: self.failed + 1, retries: self.retries },
                        backoff_ms: BACKOFF_MS,
                    }
                } else {
                    Step::Finish {
                        status: Err(message),
                        response_time_ms: elapsed_ms,
                        attempts: self.failed as u64 + 1,
                    }
                }
            },
        }
    }
}

proof fn lemma_failures_run_to_budget(retries: nat, results: Seq<Attempt>, from: nat)
    requires
        from <= retries,
        results.len() == retries + 1,
        forall|i: int| 0 <= i < results.len() ==> (#[trigger] results[i]) is Failed,
    ensures
        attempts_used(retries, results, from) == retries + 1,
    decreases retries - from,
{
    if from < retries {
        lemma_failures_run_to_budget(retries, results, from + 1);
    }
}

/// A URL whose every attempt fails is tried exactly `retries + 1` times, and
/// its record holds the message of the last failure.
pub proof fn lemma_always_failing(retries: nat, results: Seq<Attempt>)
    requires
        results.len() == retries + 1,
        forall|i: int| 0 <= i < results.len() ==> (#[trigger] results[i]) is Failed,
    ensures
        attempts_used(retries, results, 0) == retries + 1,
        attempt_status(results[retries as int]) == Err::<u16, String>(
            results[retries as int]->Failed_message,
        ),
{
    lemma_failures_run_to_budget(retries, results, 0);
}

proof fn lemma_first_response_ends(retries: nat, results: Seq<Attempt>, k: nat, from: nat)
    requires
        1 <= k <= retries + 1,
        from < k,
        k <= results.len(),
        results[k - 1] is Response,
        forall|i: int| 0 <= i < k - 1 ==> (#[trigger] results[i]) is Failed,
    ensures
        attempts_used(retries, results, from) == k,
    decreases retries - from,
{
    if from + 1 < k {
        assert(results[from as int] is Failed);
        lemma_first_response_ends(retries, results, k, from + 1);
    }
}

/// A URL whose attempt number `k` (counted from one, within the budget) is the
/// first to get a response is tried exactly `k` times, and its record holds
/// that response's code.
pub proof fn lemma_success_stops_retrying(retries: nat, results: Seq<Attempt>, k: nat)
    requires
        1 <= k <= retries + 1,
        k <= results.len(),
        results[k - 1] is Response,
        forall|i: int| 0 <= i < k - 1 ==> (#[trigger] results[i]) is Failed,
    ensures
        attempts_used(retries, results, 0) == k,
        attempt_status(results[k - 1]) == Ok::<u16, String>(results[k - 1]->Response_code),
{
    lemma_first_response_ends(retries, results, k, 0);
}

} // verus!
