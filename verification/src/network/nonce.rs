//! The sequence numbers of one sender's transactions.
//!
//! The network orders the transactions of a sender by their nonce and
//! takes each nonce once. Whoever signs for a sender therefore draws the
//! nonces from one sequence, and draws them one at a time: `acquire` takes
//! the sequence by `&mut`, so that two draws never overlap.

use vstd::prelude::*;

verus! {

/// What a draw from a sequence that stands at `next` gives: `next`, as
/// long as a nonce is left after it.
pub open spec fn drawn(next: u64) -> Option<u64> {
    if next < u64::MAX {
        Some(next)
    } else {
        None
    }
}

/// Where a sequence that stood at `next` stands after one draw.
pub open spec fn advanced(next: u64) -> u64 {
    if next < u64::MAX {
        (next + 1) as u64
    } else {
        next
    }
}

/// Where a sequence that stood at `next` stands after `draws` draws.
pub open spec fn advanced_by(next: u64, draws: nat) -> u64
    decreases draws,
{
    if draws == 0 {
        next
    } else {
        advanced_by(advanced(next), (draws - 1) as nat)
    }
}

/// What the draw gives that comes after `earlier` draws from a sequence
/// that stood at `start`.
pub open spec fn nth_drawn(start: u64, earlier: nat) -> Option<u64> {
    drawn(advanced_by(start, earlier))
}

proof fn lemma_advanced_by(start: u64, draws: nat)
    ensures
        advanced_by(start, draws) == if start + draws < u64::MAX {
            (start + draws) as u64
        } else {
            u64::MAX
        },
    decreases draws,
{
    if draws > 0 {
        lemma_advanced_by(advanced(start), (draws - 1) as nat);
    }
}

/// The nonces drawn from one sequence grow strictly: of two draws that
/// both gave a nonce, the later one gave the greater. So no nonce is ever
/// given twice.
pub proof fn lemma_nonces_strictly_increase(start: u64, first: nat, second: nat)
    requires
        first < second,
        nth_drawn(start, first) is Some,
        nth_drawn(start, second) is Some,
    ensures
        nth_drawn(start, first)->Some_0 < nth_drawn(start, second)->Some_0,
{
    lemma_advanced_by(start, first);
    lemma_advanced_by(start, second);
}

/// A sequence of nonces.
#[derive(Debug)]
pub struct NonceSequence {
    next: u64,
}

impl NonceSequence {
    /// The nonce that the next draw gives, if one is left.
    pub closed spec fn next(&self) -> u64 {
        self.next
    }

    /// A sequence whose first nonce is `first`.
    pub fn starting_at(first: u64) -> (sequence: Self)
        ensures
            sequence.next() == first,
    {
        NonceSequence { next: first }
    }

    /// The nonce that the next draw gives, without drawing it.
    pub fn peek(&self) -> (nonce: Option<u64>)
        ensures
            nonce == drawn(self.next()),
    {
        if self.next < u64::MAX {
            Some(self.next)
        } else {
            None
        }
    }

    /// Draws the next nonce. Once the nonces are used up, nothing is drawn
    /// and the sequence stays as it is.
    pub fn acquire(&mut self) -> (nonce: Option<u64>)
        ensures
            nonce == drawn(old(self).next()),
            final(self).next() == advanced(old(self).next()),
    {
        if self.next < u64::MAX {
            let nonce = self.next;
            self.next = nonce + 1;
            Some(nonce)
        } else {
            None
        }
    }
}

} // verus!
