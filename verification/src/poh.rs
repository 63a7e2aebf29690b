//! What the proof-of-history recorder shows of itself to those who plan by it.

use std::sync::Arc;
use vstd::prelude::*;

verus! {

/// A bank, known by its slot.
#[derive(Debug)]
pub struct Bank {
    slot: u64,
}

impl View for Bank {
    type V = u64;

    /// The slot.
    closed spec fn view(&self) -> u64 {
        self.slot
    }
}

impl Bank {
    /// The bank of a slot.
    pub fn new(slot: u64) -> (bank: Self)
        ensures
            bank@ == slot,
    {
        Bank { slot }
    }

    /// The slot that the bank belongs to.
    pub fn slot(&self) -> (slot: u64)
        ensures
            slot == self@,
    {
        self.slot
    }
}

/// What the recorder showed when it was last looked at.
#[derive(Debug)]
pub struct PohReading {
    /// The bank that is being produced, while this node leads.
    pub working_bank: Option<Arc<Bank>>,
    /// The number of ticks recorded so far.
    pub tick_height: u64,
    /// The tick at which this node's next turn as the leader begins, where one
    /// is known.
    pub leader_first_tick_height: Option<u64>,
}

impl PohReading {
    /// The ticks that are left until this node leads, given when that begins: none
    /// once it has begun.
    pub open spec fn ticks_until(self, leader_first_tick_height: u64) -> int {
        if leader_first_tick_height > self.tick_height {
            leader_first_tick_height - self.tick_height
        } else {
            0
        }
    }

    /// Whether this node's turn begins within `within_next_n_ticks`, or began and
    /// is no further back than four slots of `ticks_per_slot`.
    pub open spec fn would_be_leader(self, ticks_per_slot: u64, within_next_n_ticks: int) -> bool {
        self.leader_first_tick_height matches Some(first) && self.tick_height + within_next_n_ticks
            >= first && self.tick_height <= first + ticks_per_slot * 4
    }

    /// Whether the heights that [`PohReading::would_be_leader`] compares fit in a
    /// `u64`: the last one matters only where the first comparison holds.
    pub open spec fn heights_fit(self, ticks_per_slot: u64, within_next_n_ticks: int) -> bool {
        self.leader_first_tick_height matches Some(first) ==> {
            &&& self.tick_height + within_next_n_ticks <= u64::MAX
            &&& self.tick_height + within_next_n_ticks >= first ==> first + ticks_per_slot * 4
                <= u64::MAX
        }
    }
}

} // verus!
