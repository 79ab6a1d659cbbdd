//! Exponential backoff state and a bounded retry helper.

use vstd::prelude::*;

verus! {

/// The default ceiling on a backoff delay, in milliseconds.
pub const DEFAULT_MAX_BACKOFF_MS: u64 = 60000;

/// Exponential backoff state: the delay to wait doubles after each wait,
/// capped at `max`, until `reset` restores the initial delay. All delays are
/// in milliseconds.
#[derive(Copy, Clone, Debug)]
pub struct ExpBackoff {
    /// The ceiling on the delay.
    pub max: u64,
    /// The delay restored by `reset`.
    pub initial: u64,
    /// The next delay to wait.
    pub current: u64,
    /// A name for the waiting party, carried for diagnostics.
    pub target: &'static str,
}

/// The delay after one wait: doubled, capped at `max`.
pub open spec fn spec_after_wait(current: u64, max: u64) -> u64 {
    if 2 * current <= max {
        (2 * current) as u64
    } else {
        max
    }
}

/// The backoff delay after `n` waits from `current`.
pub open spec fn spec_after_waits(current: u64, max: u64, n: nat) -> u64
    decreases n,
{
    if n == 0 {
        current
    } else {
        spec_after_wait(spec_after_waits(current, max, (n - 1) as nat), max)
    }
}

impl ExpBackoff {
    /// Backoff starting (and resetting) at `initial`, capped at the default
    /// ceiling.
    pub fn new(initial: u64) -> (r: ExpBackoff)
        ensures
            r == (ExpBackoff {
                max: DEFAULT_MAX_BACKOFF_MS,
                initial,
                current: initial,
                target: r.target,
            }),
    {
        ExpBackoff { max: DEFAULT_MAX_BACKOFF_MS, initial, current: initial, target: "retry" }
    }

    /// The same backoff with the given ceiling.
    pub fn with_max(self, max: u64) -> (r: ExpBackoff)
        ensures
            r == (ExpBackoff { max, ..self }),
    {
        ExpBackoff { max, ..self }
    }

    /// The same backoff carrying the given diagnostic name.
    pub fn with_target(self, target: &'static str) -> (r: ExpBackoff)
        ensures
            r == (ExpBackoff { target, ..self }),
    {
        ExpBackoff { target, ..self }
    }

    /// Take the delay to wait now; the next delay doubles, capped at `max`.
    pub fn wait(&mut self) -> (delay: u64)
        ensures
            delay == old(self).current,
            final(self).current == spec_after_wait(old(self).current, old(self).max),
            final(self).max == old(self).max,
            final(self).initial == old(self).initial,
            final(self).target == old(self).target,
    {
        let current = self.current;
        if self.current <= self.max / 2 {
            self.current = self.current * 2;
        } else {
            self.current = self.max;
        }
        current
    }

    /// Restore the initial delay.
    pub fn reset(&mut self)
        ensures
            *final(self) == (ExpBackoff { current: old(self).initial, ..*old(self) }),
    {
        self.current = self.initial;
    }

    /// The next delay to wait.
    pub fn current(&self) -> (r: u64)
        ensures
            r == self.current,
    {
        self.current
    }
}

/// Backoff law: starting at or under the ceiling, the delay after each wait
/// never shrinks and never exceeds the ceiling, over any number of waits
/// without a `reset` in between.
pub proof fn lemma_backoff_monotone(current: u64, max: u64, n: nat)
    requires
        current <= max,
    ensures
        spec_after_waits(current, max, n) <= spec_after_waits(current, max, n + 1),
        spec_after_waits(current, max, n) <= max,
    decreases n,
{
    if n == 0 {
    } else {
        lemma_backoff_monotone(current, max, (n - 1) as nat);
    }
}

/// Reruns a fallible operation until it succeeds, fails with an error that
/// the predicate refuses to retry, or exhausts the retry budget. Without a
/// predicate, every error is retried.
pub struct Retry<E, F = ()> {
    /// How many times a retryable failure is retried.
    pub max_retries: usize,
    /// Decides whether an error is worth retrying.
    pub should_retry: F,
    /// A name for the retried operation, carried for diagnostics.
    pub target: &'static str,
    pub _error: core::marker::PhantomData<E>,
}

impl<E> Retry<E> {
    /// Retry every error, up to `max_retries` times.
    pub fn new(max_retries: usize) -> (r: Retry<E>)
        ensures
            r.max_retries == max_retries,
    {
        Retry { max_retries, should_retry: (), target: "retry", _error: core::marker::PhantomData }
    }

    /// The same policy carrying the given diagnostic name.
    pub fn with_target(self, target: &'static str) -> (r: Retry<E>)
        ensures
            r.max_retries == self.max_retries,
            r.target == target,
    {
        Retry {
            max_retries: self.max_retries,
            should_retry: (),
            target,
            _error: core::marker::PhantomData,
        }
    }

    /// The same policy, retrying only the errors the predicate accepts.
    pub fn with_predicate<F2: Fn(&E) -> bool>(self, should_retry: F2) -> (r: Retry<E, F2>)
        ensures
            r.max_retries == self.max_retries,
            r.should_retry == should_retry,
            r.target == self.target,
    {
        Retry {
            max_retries: self.max_retries,
            should_retry,
            target: self.target,
            _error: core::marker::PhantomData,
        }
    }

    /// Run the operation, retrying every failure while budget remains.
    /// Whatever comes back is the outcome of one call of the operation.
    pub fn run<T, O: Fn() -> Result<T, E>>(&self, op: O) -> (r: Result<T, E>)
        requires
            call_requires(op, ()),
        ensures
            call_ensures(op, (), r),
    {
        let mut retries = self.max_retries;
        loop
            invariant
                call_requires(op, ()),
            decreases retries,
        {
            match op() {
                Ok(val) => {
                    return Ok(val);
                },
                Err(error) => {
                    if retries > 0 {
                        retries -= 1;
                    } else {
                        return Err(error);
                    }
                },
            }
        }
    }
}

impl<E, F: Fn(&E) -> bool> Retry<E, F> {
    /// Run the operation, retrying failures that the predicate accepts while
    /// budget remains. Whatever comes back is the outcome of one call of the
    /// operation; an error the predicate refuses ends the run at once.
    pub fn run<T, O: Fn() -> Result<T, E>>(&self, op: O) -> (r: Result<T, E>)
        requires
            call_requires(op, ()),
            forall|e: &E| call_requires(self.should_retry, (e,)),
        ensures
            call_ensures(op, (), r),
    {
        let mut retries = self.max_retries;
        loop
            invariant
                call_requires(op, ()),
                forall|e: &E| call_requires(self.should_retry, (e,)),
            decreases retries,
        {
            match op() {
                Ok(val) => {
                    return Ok(val);
                },
                Err(error) => {
                    let retryable = (self.should_retry)(&error);
                    if retryable && retries > 0 {
                        retries -= 1;
                    } else {
                        return Err(error);
                    }
                },
            }
        }
    }
}

} // verus!
