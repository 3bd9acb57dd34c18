//! A simulated RNG register block.
//!
//! The driver's polling and buffer-fill logic is generic over
//! [`RandomSource`], so it can run against this plain-data double as well as
//! against the live peripheral. The simulation models the hardware's two
//! observable registers: a refresh counter that starts at zero and becomes
//! non-zero only after a configured number of polls, and a random-value
//! register whose word is recomputed (here: incremented) after each read.

use crate::rng::RandomSource;
use vstd::prelude::*;

verus! {

/// Simulated RNG register block.
pub struct SimRng {
    /// How many polls return a zero refresh count before the counter becomes
    /// (and stays) non-zero.
    polls_until_ready: u32,
    /// Polls observed so far, saturating at `polls_until_ready`.
    polls_observed: u32,
    /// Current content of the simulated random-value register.
    next_word: u32,
    /// Every refresh-counter poll made, saturating at the counter's maximum;
    /// plain-data observability for callers.
    polls_count: u64,
    /// Every random word delivered, saturating at the counter's maximum.
    words_count: u64,
    n_polls: Ghost<nat>,
    n_hits: Ghost<nat>,
    delivered: Ghost<Seq<u32>>,
}

impl SimRng {
    /// A fresh simulated block: the refresh counter reads zero for the first
    /// `polls_until_ready` polls, and the random-value register holds
    /// `first_word`, incremented after each delivery.
    pub fn new(polls_until_ready: u32, first_word: u32) -> (s: SimRng)
        ensures
            s.polls() == 0,
            s.hits() == 0,
            s.words() == Seq::<u32>::empty(),
            s.ready_within() == polls_until_ready,
            s.register_word() == first_word,
    {
        SimRng {
            polls_until_ready,
            polls_observed: 0,
            next_word: first_word,
            polls_count: 0,
            words_count: 0,
            n_polls: Ghost(0),
            n_hits: Ghost(0),
            delivered: Ghost(Seq::empty()),
        }
    }

    /// How many times the refresh counter has been polled.
    pub fn total_polls(&self) -> u64 {
        self.polls_count
    }

    /// How many random words have been delivered.
    pub fn delivered_words(&self) -> u64 {
        self.words_count
    }

    /// Current content of the simulated random-value register.
    pub closed spec fn register_word(&self) -> u32 {
        self.next_word
    }
}

impl RandomSource for SimRng {
    closed spec fn polls(&self) -> nat {
        self.n_polls@
    }

    closed spec fn hits(&self) -> nat {
        self.n_hits@
    }

    closed spec fn words(&self) -> Seq<u32> {
        self.delivered@
    }

    closed spec fn ready_within(&self) -> nat {
        if self.polls_observed < self.polls_until_ready {
            (self.polls_until_ready - self.polls_observed) as nat
        } else {
            0
        }
    }

    fn read_refresh_count(&mut self) -> (c: u32)
        ensures
            c == 0 <==> old(self).ready_within() > 0,
            final(self).ready_within() == if old(self).ready_within() > 0 {
                (old(self).ready_within() - 1) as nat
            } else {
                0
            },
            final(self).register_word() == old(self).register_word(),
    {
        let c: u32 = if self.polls_observed < self.polls_until_ready {
            self.polls_observed = self.polls_observed + 1;
            0
        } else {
            1
        };
        if self.polls_count < u64::MAX {
            self.polls_count = self.polls_count + 1;
        }
        self.n_polls = Ghost(self.n_polls@ + 1);
        if c != 0 {
            self.n_hits = Ghost(self.n_hits@ + 1);
        }
        c
    }

    fn read_random_word(&mut self) -> (w: u32)
        ensures
            w == old(self).register_word(),
            final(self).ready_within() == old(self).ready_within(),
    {
        let w = self.next_word;
        self.next_word = if w == u32::MAX {
            0
        } else {
            w + 1
        };
        if self.words_count < u64::MAX {
            self.words_count = self.words_count + 1;
        }
        self.delivered = Ghost(self.delivered@.push(w));
        w
    }
}

} // verus!
