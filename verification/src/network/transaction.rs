//! Transactions and deployments over the network.
//!
//! A transaction is submitted once. Whether the submission was answered
//! with a hash, with a failure or not at all, it is never sent a second
//! time here: a transaction that was taken without the answer coming
//! through would else run twice. What is repeated is the question for the
//! outcome, which changes nothing on chain.
//!
//! For the same reason, to stop following a transaction does not undo it.
//! Once it was submitted it may settle on chain, whether anyone still asks
//! for the outcome or not. A caller who gave up, or who got a timeout,
//! learns what became of it by asking again with the hash.

use vstd::prelude::*;
use crate::base::{DeployExecutor, TransactionExecutor};
use crate::codec::Decode;
use crate::data::{Address, DeployRequest, Request, TransactionRequest};
use crate::error::{ExecutorError, NetworkQueryError};
use crate::network::conclusion::{
    conclude,
    conclude_deployment,
    concludes,
    concludes_deployment,
    response_of,
};
use crate::network::interactor::{
    is_submission_run,
    poll_run_follows,
    submission_outcome,
    BlockchainInteractor,
    InteractorEvent,
    TracedInteractor,
};
use crate::network::retry::{PollStep, RetryPolicy};
use crate::outcome::TransactionOutcome;
use crate::utils::{SendableTransaction, SendableTransactionConvertible};

verus! {

/// Carries out transactions and deployments through an interactor: it
/// submits once, then asks for the outcome until it is settled or the
/// policy allows no further attempt.
pub struct BaseTransactionNetworkExecutor<I: BlockchainInteractor> {
    pub interactor: TracedInteractor<I>,
    pub policy: RetryPolicy,
}

impl<I: BlockchainInteractor> BaseTransactionNetworkExecutor<I> {
    pub fn new(interactor: I, policy: RetryPolicy) -> (executor: Self)
        ensures
            executor.interactor.wrapped() == interactor,
            executor.interactor.trace() == Seq::<InteractorEvent>::empty(),
            executor.policy == policy,
    {
        BaseTransactionNetworkExecutor { interactor: TracedInteractor::new(interactor), policy }
    }

    /// What the interactor was asked to do since it was in the state
    /// `before`.
    pub open spec fn added(&self, before: &Self) -> Seq<InteractorEvent> {
        self.interactor.trace().skip(before.interactor.trace().len() as int)
    }

    /// Submits `transaction` and follows it to its outcome. The interactor
    /// is asked for one whole submission under the policy and for nothing
    /// else: in particular the transaction is submitted once, whatever the
    /// answers are.
    pub fn submit(&mut self, transaction: &SendableTransaction) -> (outcome: Result<
        TransactionOutcome,
        NetworkQueryError,
    >)
        ensures
            final(self).policy == old(self).policy,
            old(self).interactor.trace().is_prefix_of(final(self).interactor.trace()),
            is_submission_run(old(self).policy, transaction@, final(self).added(old(self))),
            outcome == submission_outcome(old(self).policy, final(self).added(old(self))),
    {
        let ghost before = self.interactor.trace();
        let ghost policy = self.policy;
        let sent = self.interactor.sign_and_send(transaction);
        let ghost mut events: Seq<InteractorEvent> = seq![
            InteractorEvent::Submitted { transaction: transaction@, answer: sent },
        ];
        assert(self.interactor.trace() =~= before + events);
        assert(self.interactor.trace().skip(before.len() as int) =~= events);
        let hash = match sent {
            Ok(hash) => hash,
            Err(error) => {
                return Err(error);
            },
        };
        if self.policy.max_attempts == 0 {
            return Err(NetworkQueryError::Timeout { attempts: 0 });
        }
        let mut attempts: u32 = 0;
        loop
            invariant
                self.policy == old(self).policy,
                policy == self.policy,
                before == old(self).interactor.trace(),
                attempts < policy.max_attempts,
                self.interactor.trace() == before + events,
                events.len() == 1 + 2 * attempts,
                events[0] == (InteractorEvent::Submitted {
                    transaction: transaction@,
                    answer: Ok(hash),
                }),
                forall|i: int|
                    1 <= i < events.len() ==> #[trigger] poll_run_follows(
                        policy,
                        hash@,
                        events,
                        i,
                    ),
            decreases policy.max_attempts - attempts,
        {
            let ghost earlier = events;
            let answer = self.interactor.await_outcome(&hash);
            attempts = attempts + 1;
            proof {
                events = earlier.push(InteractorEvent::Asked { hash: hash@, answer });
                assert(self.interactor.trace() =~= before + events);
            }
            match self.policy.after_poll(attempts, answer) {
                PollStep::Again { millis } => {
                    let ghost asked = events;
                    self.interactor.pause(millis);
                    proof {
                        events = asked.push(InteractorEvent::Paused { millis });
                        assert(self.interactor.trace() =~= before + events);
                        assert forall|i: int| 1 <= i < events.len() implies #[trigger] poll_run_follows(
                            policy,
                            hash@,
                            events,
                            i,
                        ) by {
                            if i < earlier.len() {
                                assert(poll_run_follows(policy, hash@, earlier, i));
                            }
                        }
                    }
                },
                PollStep::Finish(outcome) => {
                    proof {
                        assert(self.interactor.trace().skip(before.len() as int) =~= events);
                        assert forall|i: int| 1 <= i < events.len() implies #[trigger] poll_run_follows(
                            policy,
                            hash@,
                            events,
                            i,
                        ) by {
                            if i < earlier.len() {
                                assert(poll_run_follows(policy, hash@, earlier, i));
                            }
                        }
                    }
                    return outcome;
                },
            }
        }
    }
}

impl<T: Decode, I: BlockchainInteractor> TransactionExecutor<T> for BaseTransactionNetworkExecutor<
    I,
> {
    /// Submits the call once, follows it to its outcome, and decodes what
    /// was returned. The result is what the submission's outcome comes to.
    fn execute(&mut self, request: TransactionRequest) -> (result: Result<T, ExecutorError>)
        ensures
            final(self).policy == old(self).policy,
            old(self).interactor.trace().is_prefix_of(final(self).interactor.trace()),
            is_submission_run(old(self).policy, request.sendable(), final(self).added(old(self))),
            concludes::<T>(
                Request::Transaction(request),
                response_of(submission_outcome(old(self).policy, final(self).added(old(self)))),
                result,
            ),
    {
        let transaction = request.to_sendable_transaction();
        let outcome = self.submit(&transaction);
        let answer = match outcome {
            Ok(outcome) => Ok(outcome.response),
            Err(error) => Err(error),
        };
        conclude(Request::Transaction(request), answer)
    }
}

impl<T: Decode, I: BlockchainInteractor> DeployExecutor<T> for BaseTransactionNetworkExecutor<I> {
    /// Submits the deployment once, follows it to its outcome, and decodes
    /// what the constructor returned. The result is what the submission's
    /// outcome comes to; an address that is returned is not empty.
    fn deploy(&mut self, request: DeployRequest) -> (result: Result<(Address, T), ExecutorError>)
        ensures
            final(self).policy == old(self).policy,
            old(self).interactor.trace().is_prefix_of(final(self).interactor.trace()),
            is_submission_run(old(self).policy, request.sendable(), final(self).added(old(self))),
            concludes_deployment::<T>(
                Request::Deploy(request),
                submission_outcome(old(self).policy, final(self).added(old(self))),
                result,
            ),
            result matches Ok((address, _)) ==> address@.len() > 0,
    {
        let transaction = request.to_sendable_transaction();
        let outcome = self.submit(&transaction);
        conclude_deployment(Request::Deploy(request), outcome)
    }
}

} // verus!
