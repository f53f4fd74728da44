//! The seam to whatever signs transactions and sends them.

use vstd::prelude::*;
use crate::error::NetworkQueryError;
use crate::network::retry::{PollStep, RetryPolicy};
use crate::outcome::{TransactionOutcome, TxHash};
use crate::utils::{SendableTransaction, SendableTransactionView};

verus! {

/// One thing that an interactor was asked to do.
#[allow(inconsistent_fields)]
pub enum InteractorEvent {
    /// A transaction was signed and sent, and `answer` came back.
    Submitted { transaction: SendableTransactionView, answer: Result<TxHash, NetworkQueryError> },
    /// The outcome of the transaction `hash` was asked for, and `answer`
    /// came back.
    Asked { hash: Seq<u8>, answer: Result<TransactionOutcome, NetworkQueryError> },
    /// The interactor let `millis` milliseconds pass.
    Paused { millis: u64 },
}

/// Signs transactions, sends them, and reports what became of them.
///
/// An interactor promises nothing about its answers: they are the
/// network's.
pub trait BlockchainInteractor {
    /// Signs a transaction and sends it. Once this was called, the
    /// transaction may be on its way, whatever the answer says.
    fn sign_and_send(&mut self, transaction: &SendableTransaction) -> Result<
        TxHash,
        NetworkQueryError,
    >;

    /// Asks once what became of a transaction. Asking changes nothing on
    /// chain and may be repeated.
    fn await_outcome(&mut self, hash: &TxHash) -> Result<TransactionOutcome, NetworkQueryError>;

    /// Lets `millis` milliseconds pass.
    fn pause(&mut self, millis: u64);
}

/// An interactor with an account of what it was asked to do. Nothing
/// reaches the interactor but through this account, so the contracts of
/// those who hold it can say which calls they make, and above all how
/// often they submit.
pub struct TracedInteractor<I: BlockchainInteractor> {
    interactor: I,
    log: Ghost<Seq<InteractorEvent>>,
}

impl<I: BlockchainInteractor> TracedInteractor<I> {
    /// Everything the interactor was asked to do since the account began,
    /// oldest first.
    pub closed spec fn trace(&self) -> Seq<InteractorEvent> {
        self.log@
    }

    /// The interactor that the account is kept of.
    pub closed spec fn wrapped(&self) -> I {
        self.interactor
    }

    /// Begins an account of `interactor`.
    pub fn new(interactor: I) -> (traced: Self)
        ensures
            traced.trace() == Seq::<InteractorEvent>::empty(),
            traced.wrapped() == interactor,
    {
        TracedInteractor { interactor, log: Ghost(Seq::empty()) }
    }

    /// The interactor, to look at.
    pub fn inner(&self) -> (interactor: &I)
        ensures
            *interactor == self.wrapped(),
    {
        &self.interactor
    }

    /// Ends the account and hands the interactor back.
    pub fn into_inner(self) -> (interactor: I)
        ensures
            interactor == self.wrapped(),
    {
        self.interactor
    }

    /// Has a transaction signed and sent, and writes it down with the
    /// answer.
    pub fn sign_and_send(&mut self, transaction: &SendableTransaction) -> (answer: Result<
        TxHash,
        NetworkQueryError,
    >)
        ensures
            final(self).trace() == old(self).trace().push(
                InteractorEvent::Submitted { transaction: transaction@, answer },
            ),
    {
        let answer = self.interactor.sign_and_send(transaction);
        proof {
            self.log@ = self.log@.push(
                InteractorEvent::Submitted { transaction: transaction@, answer },
            );
        }
        answer
    }

    /// Asks once what became of a transaction, and writes the question
    /// down with the answer.
    pub fn await_outcome(&mut self, hash: &TxHash) -> (answer: Result<
        TransactionOutcome,
        NetworkQueryError,
    >)
        ensures
            final(self).trace() == old(self).trace().push(
                InteractorEvent::Asked { hash: hash@, answer },
            ),
    {
        let answer = self.interactor.await_outcome(hash);
        proof {
            self.log@ = self.log@.push(InteractorEvent::Asked { hash: hash@, answer });
        }
        answer
    }

    /// Lets the interactor wait and writes the wait down.
    pub fn pause(&mut self, millis: u64)
        ensures
            final(self).trace() == old(self).trace().push(InteractorEvent::Paused { millis }),
    {
        self.interactor.pause(millis);
        proof {
            self.log@ = self.log@.push(InteractorEvent::Paused { millis });
        }
    }
}

/// The wait that an event stands for; none for an event that is no wait.
pub open spec fn pause_of(event: InteractorEvent) -> u64 {
    match event {
        InteractorEvent::Paused { millis } => millis,
        _ => 0,
    }
}

/// Says that the `i`-th event after the submission is as the policy has
/// it, for a transaction that the network took under `hash`. The events at
/// odd places ask for the outcome, and each answer leads to the step that
/// the run then takes: a wait of the length that the policy gives where
/// more events follow, the end where none does. The events at even places
/// are those waits.
pub open spec fn poll_run_follows(
    policy: RetryPolicy,
    hash: Seq<u8>,
    events: Seq<InteractorEvent>,
    i: int,
) -> bool {
    if i % 2 == 1 {
        &&& events[i] matches InteractorEvent::Asked { hash: asked, answer }
        &&& asked == hash
        &&& if i + 1 < events.len() {
            policy.poll_step(((i + 1) / 2) as u32, answer) == (PollStep::Again {
                millis: pause_of(events[i + 1]),
            })
        } else {
            policy.poll_step(((i + 1) / 2) as u32, answer) is Finish
        }
    } else {
        events[i] is Paused
    }
}

/// Says that `events` are one whole submission of `transaction` under
/// `policy`. The first event submits it, and no later one submits
/// anything. Where the submission failed, or the policy allows no attempt,
/// nothing follows. Else the outcome is asked for, with waits in between,
/// at most as often as the policy allows, each time as
/// [`poll_run_follows`] has it.
pub open spec fn is_submission_run(
    policy: RetryPolicy,
    transaction: SendableTransactionView,
    events: Seq<InteractorEvent>,
) -> bool {
    &&& events.len() >= 1
    &&& events[0] matches InteractorEvent::Submitted { transaction: sent, answer }
    &&& sent == transaction
    &&& match answer {
        Err(_) => events.len() == 1,
        Ok(hash) => if policy.max_attempts == 0 {
            events.len() == 1
        } else {
            &&& events.len() % 2 == 0
            &&& events.len() <= 2 * policy.max_attempts
            &&& forall|i: int|
                1 <= i < events.len() ==> #[trigger] poll_run_follows(policy, hash@, events, i)
        },
    }
}

/// The result that a submission ends with: the failure of the submission
/// itself, a timeout after no attempt where the outcome was never asked
/// for, and else what the policy makes of the last answer.
pub open spec fn submission_outcome(policy: RetryPolicy, events: Seq<InteractorEvent>) -> Result<
    TransactionOutcome,
    NetworkQueryError,
> {
    let nothing = Err(NetworkQueryError::Timeout { attempts: 0 });
    if events.len() == 0 {
        nothing
    } else if events.len() == 1 {
        match events[0] {
            InteractorEvent::Submitted { answer: Err(error), .. } => Err(error),
            _ => nothing,
        }
    } else {
        match events.last() {
            InteractorEvent::Asked { answer, .. } => match policy.poll_step(
                (events.len() / 2) as u32,
                answer,
            ) {
                PollStep::Finish(outcome) => outcome,
                PollStep::Again { .. } => nothing,
            },
            _ => nothing,
        }
    }
}

/// A whole submission submits once: its first event is the only one that
/// hands a transaction to the network.
pub proof fn lemma_submits_once(
    policy: RetryPolicy,
    transaction: SendableTransactionView,
    events: Seq<InteractorEvent>,
)
    requires
        is_submission_run(policy, transaction, events),
    ensures
        events[0] is Submitted,
        forall|i: int| 1 <= i < events.len() ==> !(#[trigger] events[i] is Submitted),
{
    assert forall|i: int| 1 <= i < events.len() implies !(#[trigger] events[i] is Submitted) by {
        if events.len() > 1 {
            let hash = events[0]->Submitted_answer->Ok_0;
            assert(poll_run_follows(policy, hash@, events, i));
        }
    }
}

} // verus!
