//! A gateway that is played from a script.
//!
//! The two seams to the network are implemented here without a network:
//! the answers come from a queue that was filled beforehand, and what was
//! asked is written down. Code that runs on the network executors can so be
//! run, and looked at, with no chain at hand.

use std::collections::VecDeque;
use vstd::prelude::*;
use crate::error::NetworkQueryError;
use crate::network::interactor::BlockchainInteractor;
use crate::network::nonce::{advanced, drawn, NonceSequence};
use crate::network::proxy::{BlockchainProxy, RawQuery};
use crate::outcome::{RawResponse, TransactionOutcome, TxHash};
use crate::utils::SendableTransaction;

verus! {

/// The head of a queue of answers, and an unreachable gateway once the
/// queue is empty.
pub open spec fn next_answer<A>(answers: Seq<Result<A, NetworkQueryError>>) -> Result<
    A,
    NetworkQueryError,
> {
    if answers.len() == 0 {
        Err(NetworkQueryError::Unreachable)
    } else {
        answers[0]
    }
}

/// The queue of answers that is left once the head was given.
pub open spec fn later_answers<A>(answers: Seq<Result<A, NetworkQueryError>>) -> Seq<
    Result<A, NetworkQueryError>,
> {
    if answers.len() == 0 {
        answers
    } else {
        answers.drop_first()
    }
}

fn take_answer<A>(answers: &mut VecDeque<Result<A, NetworkQueryError>>) -> (answer: Result<
    A,
    NetworkQueryError,
>)
    ensures
        answer == next_answer(old(answers)@),
        final(answers)@ == later_answers(old(answers)@),
{
    let taken = answers.pop_front();
    assert(answers@ =~= later_answers(old(answers)@));
    match taken {
        Some(answer) => answer,
        None => Err(NetworkQueryError::Unreachable),
    }
}

/// A proxy that answers queries from a queue.
pub struct ScriptedProxy {
    answers: VecDeque<Result<RawResponse, NetworkQueryError>>,
    queries: Vec<RawQuery>,
    pauses: Vec<u64>,
}

impl ScriptedProxy {
    /// The answers that were not given yet, the next one first.
    pub closed spec fn answers(&self) -> Seq<Result<RawResponse, NetworkQueryError>> {
        self.answers@
    }

    /// The waits that this proxy was asked for, oldest first.
    pub closed spec fn pauses(&self) -> Seq<u64> {
        self.pauses@
    }

    /// The queries that this proxy was sent, oldest first.
    pub closed spec fn sent(&self) -> Seq<RawQuery> {
        self.queries@
    }

    /// A proxy that was asked nothing yet and has no answer to give.
    pub fn new() -> (proxy: Self)
        ensures
            proxy.answers() == Seq::<Result<RawResponse, NetworkQueryError>>::empty(),
            proxy.pauses() == Seq::<u64>::empty(),
            proxy.sent() == Seq::<RawQuery>::empty(),
    {
        ScriptedProxy {
            answers: VecDeque::new(),
            queries: Vec::new(),
            pauses: Vec::new(),
        }
    }

    /// Adds an answer at the end of the queue.
    pub fn answer_with(&mut self, answer: Result<RawResponse, NetworkQueryError>)
        ensures
            final(self).answers() == old(self).answers().push(answer),
            final(self).pauses() == old(self).pauses(),
            final(self).sent() == old(self).sent(),
    {
        self.answers.push_back(answer);
    }

    /// The queries that were sent so far, oldest first.
    pub fn queries(&self) -> (queries: &Vec<RawQuery>)
        ensures
            queries@ == self.sent(),
    {
        &self.queries
    }

    /// The waits that were asked for so far, oldest first.
    pub fn waits(&self) -> (waits: &Vec<u64>)
        ensures
            waits@ == self.pauses(),
    {
        &self.pauses
    }
}

impl BlockchainProxy for ScriptedProxy {
    /// Gives the next answer of the queue, and writes the query down.
    fn send_raw_query(&mut self, endpoint: &String, payload: &RawQuery) -> (answer: Result<
        RawResponse,
        NetworkQueryError,
    >)
        ensures
            answer == next_answer(old(self).answers()),
            final(self).answers() == later_answers(old(self).answers()),
            final(self).pauses() == old(self).pauses(),
            final(self).sent().len() == old(self).sent().len() + 1,
            final(self).sent().drop_last() == old(self).sent(),
            final(self).sent().last()@ == payload@,
    {
        self.queries.push(payload.clone());
        assert(self.queries@.drop_last() =~= old(self).queries@);
        take_answer(&mut self.answers)
    }

    /// Waits for no time at all, and writes the wait down.
    fn pause(&mut self, millis: u64)
        ensures
            final(self).answers() == old(self).answers(),
            final(self).pauses() == old(self).pauses().push(millis),
            final(self).sent() == old(self).sent(),
    {
        self.pauses.push(millis);
    }
}

/// Says that every number of a list is smaller than all that follow it.
pub open spec fn strictly_increasing(numbers: Seq<u64>) -> bool {
    forall|i: int, j: int| 0 <= i < j < numbers.len() ==> numbers[i] < numbers[j]
}

/// An interactor that answers from two queues, one for submissions and
/// one for outcomes, and that gives every transaction it takes the next
/// nonce of its sender.
pub struct ScriptedInteractor {
    hashes: VecDeque<Result<TxHash, NetworkQueryError>>,
    outcomes: VecDeque<Result<TransactionOutcome, NetworkQueryError>>,
    nonces: NonceSequence,
    used: Vec<u64>,
    transactions: Vec<SendableTransaction>,
    pauses: Vec<u64>,
}

impl ScriptedInteractor {
    /// Says that the nonces given so far grow strictly, and that the
    /// sequence has moved past all of them. This holds of a new
    /// interactor, and whatever is done with an interactor keeps it.
    pub open spec fn orderly(&self) -> bool {
        &&& strictly_increasing(self.used())
        &&& forall|i: int| 0 <= i < self.used().len() ==> self.used()[i] < self.next_nonce()
    }

    /// The transactions taken so far, oldest first.
    pub closed spec fn taken(&self) -> Seq<SendableTransaction> {
        self.transactions@
    }

    /// The answers to submissions that were not given yet, the next one
    /// first.
    pub closed spec fn hashes(&self) -> Seq<Result<TxHash, NetworkQueryError>> {
        self.hashes@
    }

    /// The answers about outcomes that were not given yet, the next one
    /// first.
    pub closed spec fn outcomes(&self) -> Seq<Result<TransactionOutcome, NetworkQueryError>> {
        self.outcomes@
    }

    /// The nonces of the transactions taken so far, oldest first.
    pub closed spec fn used(&self) -> Seq<u64> {
        self.used@
    }

    /// The nonce that the next transaction gets, if one is left.
    pub closed spec fn next_nonce(&self) -> u64 {
        self.nonces.next()
    }

    /// The waits that this interactor was asked for, oldest first.
    pub closed spec fn pauses(&self) -> Seq<u64> {
        self.pauses@
    }

    /// An interactor that was asked nothing yet and has no answer to
    /// give, for a sender whose next nonce is `first_nonce`.
    pub fn new(first_nonce: u64) -> (interactor: Self)
        ensures
            interactor.hashes() == Seq::<Result<TxHash, NetworkQueryError>>::empty(),
            interactor.outcomes() == Seq::<Result<TransactionOutcome, NetworkQueryError>>::empty(),
            interactor.used() == Seq::<u64>::empty(),
            interactor.pauses() == Seq::<u64>::empty(),
            interactor.taken() == Seq::<SendableTransaction>::empty(),
            interactor.next_nonce() == first_nonce,
            interactor.orderly(),
    {
        ScriptedInteractor {
            hashes: VecDeque::new(),
            outcomes: VecDeque::new(),
            nonces: NonceSequence::starting_at(first_nonce),
            used: Vec::new(),
            transactions: Vec::new(),
            pauses: Vec::new(),
        }
    }

    /// Adds an answer to a submission at the end of its queue.
    pub fn accept_with(&mut self, answer: Result<TxHash, NetworkQueryError>)
        ensures
            final(self).hashes() == old(self).hashes().push(answer),
            final(self).outcomes() == old(self).outcomes(),
            final(self).used() == old(self).used(),
            final(self).pauses() == old(self).pauses(),
            final(self).taken() == old(self).taken(),
            final(self).next_nonce() == old(self).next_nonce(),
    {
        self.hashes.push_back(answer);
    }

    /// Adds an answer about an outcome at the end of its queue.
    pub fn report(&mut self, answer: Result<TransactionOutcome, NetworkQueryError>)
        ensures
            final(self).outcomes() == old(self).outcomes().push(answer),
            final(self).hashes() == old(self).hashes(),
            final(self).used() == old(self).used(),
            final(self).pauses() == old(self).pauses(),
            final(self).taken() == old(self).taken(),
            final(self).next_nonce() == old(self).next_nonce(),
    {
        self.outcomes.push_back(answer);
    }

    /// The nonces of the transactions taken so far, oldest first.
    pub fn used_nonces(&self) -> (nonces: &Vec<u64>)
        ensures
            nonces@ == self.used(),
    {
        &self.used
    }

    /// The transactions taken so far, oldest first.
    pub fn transactions(&self) -> (transactions: &Vec<SendableTransaction>)
        ensures
            transactions@ == self.taken(),
    {
        &self.transactions
    }

    /// The waits that were asked for so far, oldest first.
    pub fn waits(&self) -> (waits: &Vec<u64>)
        ensures
            waits@ == self.pauses(),
    {
        &self.pauses
    }
}

impl BlockchainInteractor for ScriptedInteractor {
    /// Gives the transaction the next nonce of the sender and answers
    /// with the next answer of the queue. Once the nonces are used up, the
    /// transaction is not taken and no answer is used.
    fn sign_and_send(&mut self, transaction: &SendableTransaction) -> (answer: Result<
        TxHash,
        NetworkQueryError,
    >)
        ensures
            final(self).outcomes() == old(self).outcomes(),
            final(self).pauses() == old(self).pauses(),
            final(self).next_nonce() == advanced(old(self).next_nonce()),
            match drawn(old(self).next_nonce()) {
                Some(nonce) => {
                    &&& answer == next_answer(old(self).hashes())
                    &&& final(self).hashes() == later_answers(old(self).hashes())
                    &&& final(self).used() == old(self).used().push(nonce)
                    &&& final(self).taken().len() == old(self).taken().len() + 1
                    &&& final(self).taken().drop_last() == old(self).taken()
                    &&& final(self).taken().last()@ == transaction@
                },
                None => {
                    &&& answer == Err::<TxHash, NetworkQueryError>(NetworkQueryError::Unreachable)
                    &&& final(self).hashes() == old(self).hashes()
                    &&& final(self).used() == old(self).used()
                    &&& final(self).taken() == old(self).taken()
                },
            },
            old(self).orderly() ==> final(self).orderly(),
    {
        match self.nonces.acquire() {
            Some(nonce) => {
                self.used.push(nonce);
                self.transactions.push(transaction.clone());
                assert(self.transactions@.drop_last() =~= old(self).transactions@);
                take_answer(&mut self.hashes)
            },
            None => Err(NetworkQueryError::Unreachable),
        }
    }

    /// Gives the next answer of the queue of outcomes.
    fn await_outcome(&mut self, hash: &TxHash) -> (answer: Result<
        TransactionOutcome,
        NetworkQueryError,
    >)
        ensures
            answer == next_answer(old(self).outcomes()),
            final(self).outcomes() == later_answers(old(self).outcomes()),
            final(self).hashes() == old(self).hashes(),
            final(self).used() == old(self).used(),
            final(self).pauses() == old(self).pauses(),
            final(self).taken() == old(self).taken(),
            final(self).next_nonce() == old(self).next_nonce(),
    {
        take_answer(&mut self.outcomes)
    }

    /// Waits for no time at all, and writes the wait down.
    fn pause(&mut self, millis: u64)
        ensures
            final(self).pauses() == old(self).pauses().push(millis),
            final(self).outcomes() == old(self).outcomes(),
            final(self).hashes() == old(self).hashes(),
            final(self).used() == old(self).used(),
            final(self).taken() == old(self).taken(),
            final(self).next_nonce() == old(self).next_nonce(),
    {
        self.pauses.push(millis);
    }
}

} // verus!
