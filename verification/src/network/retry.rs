//! How often to ask again, and how long to wait in between.
//!
//! Nothing here waits or sends. After each answer, a step function says
//! what comes next: one more attempt after a wait, or the end, with the
//! result. Whoever drives the exchange performs what the step says.

use vstd::prelude::*;
use crate::error::NetworkQueryError;
use crate::outcome::{RawResponse, TransactionOutcome, TxStatus};

verus! {

/// The wait between two attempts.
#[derive(Clone, Copy, Debug, PartialEq, Eq, Structural)]
pub enum Backoff {
    /// The same wait every time.
    Fixed { millis: u64 },
    /// A wait that starts at `initial_millis` and doubles after every
    /// attempt, up to `max_millis`.
    Exponential { initial_millis: u64, max_millis: u64 },
}

/// `initial`, doubled `times` times.
pub open spec fn doubled(initial: nat, times: nat) -> nat
    decreases times,
{
    if times == 0 {
        initial
    } else {
        2 * doubled(initial, (times - 1) as nat)
    }
}

proof fn lemma_doubled_grows(initial: nat, fewer: nat, more: nat)
    requires
        fewer <= more,
    ensures
        doubled(initial, fewer) <= doubled(initial, more),
    decreases more,
{
    if fewer < more {
        lemma_doubled_grows(initial, fewer, (more - 1) as nat);
    }
}

proof fn lemma_doubled_zero(times: nat)
    ensures
        doubled(0, times) == 0,
    decreases times,
{
    if times > 0 {
        lemma_doubled_zero((times - 1) as nat);
    }
}

impl Backoff {
    /// The wait, in milliseconds, once `attempts` attempts have been made.
    pub open spec fn delay(self, attempts: nat) -> nat {
        match self {
            Backoff::Fixed { millis } => millis as nat,
            Backoff::Exponential { initial_millis, max_millis } => {
                let grown = doubled(
                    initial_millis as nat,
                    if attempts == 0 {
                        0
                    } else {
                        (attempts - 1) as nat
                    },
                );
                if grown < max_millis {
                    grown
                } else {
                    max_millis as nat
                }
            },
        }
    }

    pub fn delay_after(&self, attempts: u32) -> (millis: u64)
        ensures
            millis == self.delay(attempts as nat),
    {
        match *self {
            Backoff::Fixed { millis } => millis,
            Backoff::Exponential { initial_millis, max_millis } => {
                let ghost times: nat = if attempts == 0 {
                    0
                } else {
                    (attempts - 1) as nat
                };
                if initial_millis == 0 {
                    proof {
                        lemma_doubled_zero(times);
                    }
                    return 0;
                }
                if attempts == 0 {
                    return if initial_millis < max_millis {
                        initial_millis
                    } else {
                        max_millis
                    };
                }
                let mut millis: u64 = initial_millis;
                let mut done: u32 = 1;
                while done < attempts && millis < max_millis
                    invariant
                        *self == (Backoff::Exponential { initial_millis, max_millis }),
                        1 <= done <= attempts,
                        times == attempts - 1,
                        millis == doubled(initial_millis as nat, (done - 1) as nat),
                    decreases attempts - done,
                {
                    if millis > max_millis / 2 {
                        proof {
                            assert(doubled(initial_millis as nat, done as nat) == 2 * millis);
                            lemma_doubled_grows(initial_millis as nat, done as nat, times);
                        }
                        return max_millis;
                    }
                    millis = millis * 2;
                    done += 1;
                }
                proof {
                    lemma_doubled_grows(initial_millis as nat, (done - 1) as nat, times);
                }
                if millis < max_millis {
                    millis
                } else {
                    max_millis
                }
            },
        }
    }
}

/// How many attempts one exchange may take, and the waits between them.
#[derive(Clone, Copy, Debug, PartialEq, Eq, Structural)]
pub struct RetryPolicy {
    pub max_attempts: u32,
    pub backoff: Backoff,
}

/// What follows an answer to a query.
#[derive(Debug, PartialEq, Eq)]
pub enum QueryStep {
    /// Wait, then send the same query again.
    Retry { millis: u64 },
    /// The exchange is over, with this answer.
    Finish(Result<RawResponse, NetworkQueryError>),
}

/// What follows an answer about a submitted transaction.
#[derive(Debug, PartialEq, Eq)]
pub enum PollStep {
    /// Wait, then ask for the outcome again.
    Again { millis: u64 },
    /// The exchange is over, with this result.
    Finish(Result<TransactionOutcome, NetworkQueryError>),
}

impl RetryPolicy {
    /// The step after the `attempts`-th answer to a query. A transient
    /// failure is tried again while attempts are left; every other answer
    /// ends the exchange as it is.
    pub open spec fn query_step(
        self,
        attempts: u32,
        answer: Result<RawResponse, NetworkQueryError>,
    ) -> QueryStep {
        match answer {
            Err(error) => if error.transient() && attempts < self.max_attempts {
                QueryStep::Retry { millis: self.backoff.delay(attempts as nat) as u64 }
            } else {
                QueryStep::Finish(answer)
            },
            Ok(_) => QueryStep::Finish(answer),
        }
    }

    pub fn after_query(
        &self,
        attempts: u32,
        answer: Result<RawResponse, NetworkQueryError>,
    ) -> (step: QueryStep)
        ensures
            step == self.query_step(attempts, answer),
    {
        let retry = match &answer {
            Err(error) => error.is_transient() && attempts < self.max_attempts,
            Ok(_) => false,
        };
        if retry {
            QueryStep::Retry { millis: self.backoff.delay_after(attempts) }
        } else {
            QueryStep::Finish(answer)
        }
    }

    /// The step after the `attempts`-th answer about a transaction. A
    /// settled outcome ends the exchange: a success as it is, a failure as
    /// an error that holds the response. A pending outcome or a transient
    /// failure is asked about again while attempts are left. Once none is
    /// left, a pending outcome ends as a timeout and a failure as itself.
    pub open spec fn poll_step(
        self,
        attempts: u32,
        answer: Result<TransactionOutcome, NetworkQueryError>,
    ) -> PollStep {
        match answer {
            Ok(outcome) => match outcome.response.status {
                TxStatus::Success => PollStep::Finish(Ok(outcome)),
                TxStatus::Failed => PollStep::Finish(
                    Err(NetworkQueryError::ExecutionFailed { response: outcome.response }),
                ),
                TxStatus::Pending => if attempts < self.max_attempts {
                    PollStep::Again { millis: self.backoff.delay(attempts as nat) as u64 }
                } else {
                    PollStep::Finish(Err(NetworkQueryError::Timeout { attempts }))
                },
            },
            Err(error) => if error.transient() && attempts < self.max_attempts {
                PollStep::Again { millis: self.backoff.delay(attempts as nat) as u64 }
            } else {
                PollStep::Finish(Err(error))
            },
        }
    }

    pub fn after_poll(
        &self,
        attempts: u32,
        answer: Result<TransactionOutcome, NetworkQueryError>,
    ) -> (step: PollStep)
        ensures
            step == self.poll_step(attempts, answer),
    {
        match answer {
            Ok(outcome) => match outcome.response.status {
                TxStatus::Success => PollStep::Finish(Ok(outcome)),
                TxStatus::Failed => PollStep::Finish(
                    Err(NetworkQueryError::ExecutionFailed { response: outcome.response }),
                ),
                TxStatus::Pending => if attempts < self.max_attempts {
                    PollStep::Again { millis: self.backoff.delay_after(attempts) }
                } else {
                    PollStep::Finish(Err(NetworkQueryError::Timeout { attempts }))
                },
            },
            Err(error) => if error.is_transient() && attempts < self.max_attempts {
                PollStep::Again { millis: self.backoff.delay_after(attempts) }
            } else {
                PollStep::Finish(Err(error))
            },
        }
    }
}

} // verus!
