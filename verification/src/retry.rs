//! Retrying with backoff: which attempt comes next after a failure.
use vstd::prelude::*;

verus! {

/// Where a retried operation stands: the attempt being made (counted from
/// 1) out of at most `max_attempts`.
pub struct RetryState {
    attempt: u32,
    max_attempts: u32,
}

impl View for RetryState {
    type V = (nat, nat);

    closed spec fn view(&self) -> (nat, nat) {
        (self.attempt as nat, self.max_attempts as nat)
    }
}

impl RetryState {
    #[verifier::type_invariant]
    spec fn attempts_within_limit(self) -> bool {
        1 <= self.attempt <= self.max_attempts
    }

    /// The first attempt of an operation allowed `max_attempts` attempts.
    pub fn first(max_attempts: u32) -> (r: Self)
        requires
            max_attempts >= 1,
        ensures
            r@ == (1nat, max_attempts as nat),
    {
        RetryState { attempt: 1, max_attempts }
    }

    /// The attempt being made.
    pub fn attempt(&self) -> (r: u32)
        ensures
            r == self@.0,
            1 <= r <= self@.1,
    {
        proof {
            use_type_invariant(self);
        }
        self.attempt
    }

    /// After a failed attempt: give up (`None`) when that was the last
    /// allowed attempt or the error is not worth retrying, otherwise go on
    /// with the next attempt after the backoff delay.
    pub fn after_failure(self, retryable: bool) -> (r: Option<Self>)
        ensures
            match r {
                Some(next) => next_state(self@, retryable) == Some(next@),
                None => next_state(self@, retryable) is None,
            },
    {
        proof {
            use_type_invariant(&self);
        }
        if self.attempt == self.max_attempts || !retryable {
            None
        } else {
            Some(RetryState { attempt: self.attempt + 1, max_attempts: self.max_attempts })
        }
    }
}

/// The state after a failed attempt, on views: `None` to give up.
pub open spec fn next_state(s: (nat, nat), retryable: bool) -> Option<(nat, nat)> {
    if s.0 == s.1 || !retryable {
        None
    } else {
        Some(((s.0 + 1) as nat, s.1))
    }
}

/// How many attempts are made from state `s` when every attempt fails,
/// the i-th failure being retryable as `failures[i]` says (the last listed
/// failure ends the count).
pub open spec fn attempts_made(s: (nat, nat), failures: Seq<bool>) -> nat
    decreases failures.len(),
{
    if failures.len() == 0 {
        1
    } else {
        match next_state(s, failures[0]) {
            None => 1,
            Some(n) => 1 + attempts_made(n, failures.drop_first()),
        }
    }
}

/// However the failures go, an operation started with `max_attempts`
/// allowed attempts is tried at most `max_attempts` times.
pub proof fn law_attempts_bounded(max_attempts: nat, failures: Seq<bool>)
    requires
        max_attempts >= 1,
    ensures
        attempts_made((1nat, max_attempts), failures) <= max_attempts,
{
    lemma_attempts_from((1nat, max_attempts), failures);
}

proof fn lemma_attempts_from(s: (nat, nat), failures: Seq<bool>)
    requires
        1 <= s.0 <= s.1,
    ensures
        attempts_made(s, failures) <= s.1 - s.0 + 1,
    decreases failures.len(),
{
    if failures.len() > 0 {
        if let Some(n) = next_state(s, failures[0]) {
            lemma_attempts_from(n, failures.drop_first());
        }
    }
}

} // verus!
