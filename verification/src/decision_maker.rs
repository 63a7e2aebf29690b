//! What is done with buffered packets: consume them, forward them, hold them, or
//! forward and hold them.

use crate::clock::{default_ticks_per_slot, forward_offset};
use crate::clock::{forward_transactions_to_leader_at_slot_offset, hold_offset};
use crate::clock::{hold_transactions_slot_offset, slot_ticks};
use crate::poh::{Bank, PohReading};
use std::sync::atomic::AtomicBool;
use std::sync::Arc;
use std::time::Instant;
use vstd::prelude::*;

verus! {

/// How many slots before the own leader slots the switching point lies.
pub const SWITCHING_OFFSET: u64 = 26;

/// A bank that is being produced, and when that began.
#[derive(Debug)]
pub struct BankStart {
    pub working_bank: Arc<Bank>,
    pub bank_creation_time: Arc<Instant>,
}

/// What is done with the packets that are buffered.
#[derive(Debug)]
pub enum BufferedPacketsDecision {
    Consume(BankStart),
    Forward,
    ForwardAndHold,
    Hold,
}

impl Clone for BankStart {
    fn clone(&self) -> (copy: Self)
        ensures
            copy == *self,
    {
        BankStart {
            working_bank: self.working_bank.clone(),
            bank_creation_time: self.bank_creation_time.clone(),
        }
    }
}

impl Clone for BufferedPacketsDecision {
    fn clone(&self) -> (copy: Self)
        ensures
            copy == *self,
    {
        match self {
            Self::Consume(bank_start) => Self::Consume(bank_start.clone()),
            Self::Forward => Self::Forward,
            Self::ForwardAndHold => Self::ForwardAndHold,
            Self::Hold => Self::Hold,
        }
    }
}

impl PartialEq for BufferedPacketsDecision {
    fn eq(&self, other: &Self) -> (equal: bool) {
        match (self, other) {
            (
                BufferedPacketsDecision::Consume(bank_start1),
                BufferedPacketsDecision::Consume(bank_start2),
            ) => bank_start1.working_bank.slot() == bank_start2.working_bank.slot(),
            (BufferedPacketsDecision::Forward, BufferedPacketsDecision::Forward) => true,
            (
                BufferedPacketsDecision::ForwardAndHold,
                BufferedPacketsDecision::ForwardAndHold,
            ) => true,
            (BufferedPacketsDecision::Hold, BufferedPacketsDecision::Hold) => true,
            _ => false,
        }
    }
}

impl vstd::std_specs::cmp::PartialEqSpecImpl for BufferedPacketsDecision {
    open spec fn obeys_eq_spec() -> bool {
        true
    }

    /// Two decisions are equal that are of one kind and, where packets are
    /// consumed, for banks of one slot.
    open spec fn eq_spec(&self, other: &Self) -> bool {
        match (*self, *other) {
            (
                BufferedPacketsDecision::Consume(bank_start1),
                BufferedPacketsDecision::Consume(bank_start2),
            ) => bank_start1.working_bank@ == bank_start2.working_bank@,
            (BufferedPacketsDecision::Forward, BufferedPacketsDecision::Forward) => true,
            (
                BufferedPacketsDecision::ForwardAndHold,
                BufferedPacketsDecision::ForwardAndHold,
            ) => true,
            (BufferedPacketsDecision::Hold, BufferedPacketsDecision::Hold) => true,
            _ => false,
        }
    }
}

impl BufferedPacketsDecision {
    /// Returns the `Bank` if the decision is `Consume`. Otherwise, returns `None`.
    pub fn bank(&self) -> (bank: Option<&Arc<Bank>>)
        ensures
            match *self {
                BufferedPacketsDecision::Consume(bank_start) => bank == Some(
                    &bank_start.working_bank,
                ),
                _ => bank is None,
            },
    {
        match self {
            Self::Consume(bank_start) => Some(&bank_start.working_bank),
            _ => None,
        }
    }
}

/// The decision while no bank is being produced: forward, unless this node leads
/// soon enough to hold the packets instead, or as well.
pub open spec fn decision_without_bank(poh: PohReading) -> BufferedPacketsDecision {
    match poh.leader_first_tick_height {
        Some(first) => if poh.ticks_until(first) <= (forward_offset() - 1) * slot_ticks() {
            BufferedPacketsDecision::Hold
        } else if poh.ticks_until(first) < hold_offset() * slot_ticks() {
            BufferedPacketsDecision::ForwardAndHold
        } else {
            BufferedPacketsDecision::Forward
        },
        None => BufferedPacketsDecision::Forward,
    }
}

/// The decision: a bank that is being produced consumes the packets.
pub open spec fn decision_for(
    poh: PohReading,
    bank_creation_time: Arc<Instant>,
) -> BufferedPacketsDecision {
    match poh.working_bank {
        Some(working_bank) => BufferedPacketsDecision::Consume(
            BankStart { working_bank, bank_creation_time },
        ),
        None => decision_without_bank(poh),
    }
}

/// Whether the switching point is reached: no bank is being produced, and this
/// node's turn as the leader is at most [`SWITCHING_OFFSET`] slots of ticks away,
/// but more than one slot less.
pub open spec fn is_switching_point(poh: PohReading) -> bool {
    &&& poh.working_bank is None
    &&& poh.leader_first_tick_height matches Some(first) && (SWITCHING_OFFSET - 1) * slot_ticks()
        < poh.ticks_until(first) <= SWITCHING_OFFSET * slot_ticks()
}

/// The state of a [`DecisionMaker`].
pub ghost struct DecisionMakerView {
    pub ticks_per_slot: u64,
    pub bank_creation_time: Arc<Instant>,
    pub previous_bank_slot: u64,
}

impl DecisionMakerView {
    /// Whether the bank that is being produced is of another slot than the last
    /// one that was seen.
    pub open spec fn is_new_bank(self, poh: PohReading) -> bool {
        poh.working_bank matches Some(bank) && bank@ != self.previous_bank_slot
    }

    /// The state after a decision, where `start` is when a new bank began: a new
    /// bank is remembered, and nothing else changes.
    pub open spec fn after_decision(self, poh: PohReading, start: Arc<Instant>) -> Self {
        if self.is_new_bank(poh) {
            DecisionMakerView {
                bank_creation_time: start,
                previous_bank_slot: poh.working_bank->0@,
                ..self
            }
        } else {
            self
        }
    }

    /// Whether a decision can be computed: slots have ticks, and where this node
    /// is looked for at the switching point, the heights that are compared fit.
    pub open spec fn can_decide(self, poh: PohReading) -> bool {
        &&& self.ticks_per_slot != 0
        &&& decision_for(poh, self.bank_creation_time) is Forward ==> poh.heights_fit(
            self.ticks_per_slot,
            SWITCHING_OFFSET * slot_ticks(),
        )
    }
}

/// Decides what is done with buffered packets, and remembers since when the bank
/// that was last seen has been produced.
#[derive(Debug)]
pub struct DecisionMaker {
    ticks_per_slot: u64,
    bank_creation_time: Arc<Instant>,
    previous_bank_slot: u64,
}

impl View for DecisionMaker {
    type V = DecisionMakerView;

    closed spec fn view(&self) -> DecisionMakerView {
        DecisionMakerView {
            ticks_per_slot: self.ticks_per_slot,
            bank_creation_time: self.bank_creation_time,
            previous_bank_slot: self.previous_bank_slot,
        }
    }
}

impl Clone for DecisionMaker {
    fn clone(&self) -> (copy: Self)
        ensures
            copy@ == self@,
    {
        DecisionMaker {
            ticks_per_slot: self.ticks_per_slot,
            bank_creation_time: self.bank_creation_time.clone(),
            previous_bank_slot: self.previous_bank_slot,
        }
    }
}

/// Whether `instant` is something that the machine's clock may show when it is
/// read. What it shows at a moment only a reading tells.
pub open spec fn clock_shows(instant: Arc<Instant>) -> bool {
    call_ensures(Instant::now, (), *instant)
}

/// When a bank began: what was recorded of it, or else this moment.
fn start_or_now(recorded_start: Option<Arc<Instant>>) -> (start: Arc<Instant>)
    ensures
        recorded_start matches Some(recorded) ==> start == recorded,
        recorded_start is None ==> clock_shows(start),
{
    match recorded_start {
        Some(recorded) => recorded,
        None => Arc::new(Instant::now()),
    }
}

impl DecisionMaker {
    /// A decision maker in the state that the arguments give.
    pub fn new(
        ticks_per_slot: u64,
        bank_creation_time: Arc<Instant>,
        previous_bank_slot: u64,
    ) -> (maker: Self)
        ensures
            maker@ == (DecisionMakerView { ticks_per_slot, bank_creation_time, previous_bank_slot }),
    {
        Self { ticks_per_slot, bank_creation_time, previous_bank_slot }
    }

    /// A decision maker that has seen no bank, for a recorder with `ticks_per_slot`
    /// whose bank, where it has one, began at `recorded_start`. Without one the
    /// moment of the call takes its place.
    pub fn from_recorder(ticks_per_slot: u64, recorded_start: Option<Arc<Instant>>) -> (maker: Self)
        ensures
            maker@.ticks_per_slot == ticks_per_slot,
            maker@.previous_bank_slot == 0,
            recorded_start matches Some(start) ==> maker@.bank_creation_time == start,
            recorded_start is None ==> clock_shows(maker@.bank_creation_time),
    {
        Self::new(ticks_per_slot, start_or_now(recorded_start), 0)
    }

    /// Whether a decision on `poh` turns on when its bank began.
    pub fn needs_bank_start(&self, poh: &PohReading) -> (needed: bool)
        ensures
            needed == self@.is_new_bank(*poh),
    {
        match &poh.working_bank {
            Some(bank) => bank.slot() != self.previous_bank_slot,
            None => false,
        }
    }

    /// Whether the heights that [`DecisionMaker::would_be_leader`] compares fit in
    /// a `u64`.
    pub fn can_look_ahead(&self, poh: &PohReading, within_next_n_ticks: u64) -> (can: bool)
        ensures
            can == poh.heights_fit(self@.ticks_per_slot, within_next_n_ticks as int),
    {
        if let Some(first) = poh.leader_first_tick_height {
            match poh.tick_height.checked_add(within_next_n_ticks) {
                Some(horizon) => horizon < first || self.ticks_per_slot <= (u64::MAX - first) / 4,
                None => false,
            }
        } else {
            true
        }
    }

    /// Whether a decision on `poh` can be computed.
    pub fn can_decide(&self, poh: &PohReading) -> (can: bool)
        ensures
            can == self@.can_decide(*poh),
    {
        let forwards = match (&poh.working_bank, poh.leader_first_tick_height) {
            (Some(_), _) => false,
            (None, Some(first)) => first.saturating_sub(poh.tick_height)
                >= hold_transactions_slot_offset() * default_ticks_per_slot(),
            (None, None) => true,
        };
        self.ticks_per_slot != 0 && (!forwards || self.can_look_ahead(
            poh,
            SWITCHING_OFFSET * default_ticks_per_slot(),
        ))
    }

    /// Decides what is done with the packets, says whether the switching point is
    /// reached, and in which slot the recorder is.
    ///
    /// `recorded_start` is when the recorder says its bank began; it matters only
    /// for a new bank. Without it the moment of the call takes its place.
    pub fn make_consume_or_forward_decision(
        &mut self,
        poh: &PohReading,
        recorded_start: Option<Arc<Instant>>,
    ) -> (decided: (BufferedPacketsDecision, bool, u64))
        requires
            old(self)@.can_decide(*poh),
        ensures
            final(self)@ == old(self)@.after_decision(
                *poh,
                match recorded_start {
                    Some(start) => start,
                    None => final(self)@.bank_creation_time,
                },
            ),
            old(self)@.is_new_bank(*poh) && recorded_start is None ==> clock_shows(
                final(self)@.bank_creation_time,
            ),
            decided.0 == decision_for(*poh, final(self)@.bank_creation_time),
            decided.1 == is_switching_point(*poh),
            decided.2 == poh.tick_height / old(self)@.ticks_per_slot,
    {
        let slot = poh.tick_height / self.ticks_per_slot;
        let mut switching_point = false;

        let decision = if let Some(bank) = &poh.working_bank {
            if bank.slot() != self.previous_bank_slot {
                self.previous_bank_slot = bank.slot();
                self.bank_creation_time = start_or_now(recorded_start);
            }
            BufferedPacketsDecision::Consume(
                BankStart {
                    working_bank: bank.clone(),
                    bank_creation_time: self.bank_creation_time.clone(),
                },
            )
        } else if let Some(first_leader_tick_height) = poh.leader_first_tick_height {
            let ticks_until_leader = first_leader_tick_height.saturating_sub(poh.tick_height);

            if ticks_until_leader <= (forward_transactions_to_leader_at_slot_offset() - 1)
                * default_ticks_per_slot() {
                BufferedPacketsDecision::Hold
            } else if ticks_until_leader < hold_transactions_slot_offset()
                * default_ticks_per_slot() {
                BufferedPacketsDecision::ForwardAndHold
            } else {
                switching_point = self.check_switching_point(poh);
                BufferedPacketsDecision::Forward
            }
        } else {
            switching_point = self.check_switching_point(poh);
            BufferedPacketsDecision::Forward
        };

        (decision, switching_point, slot)
    }

    /// Whether this node leads within [`SWITCHING_OFFSET`] slots, but not within
    /// one less.
    fn check_switching_point(&self, poh: &PohReading) -> (reached: bool)
        requires
            poh.heights_fit(self@.ticks_per_slot, SWITCHING_OFFSET * slot_ticks()),
        ensures
            reached == (poh.would_be_leader(self@.ticks_per_slot, SWITCHING_OFFSET * slot_ticks())
                && !poh.would_be_leader(
                self@.ticks_per_slot,
                (SWITCHING_OFFSET - 1) * slot_ticks(),
            )),
    {
        self.would_be_leader(poh, SWITCHING_OFFSET * default_ticks_per_slot())
            && !self.would_be_leader(poh, (SWITCHING_OFFSET - 1) * default_ticks_per_slot())
    }

    /// Whether this node's turn as the leader begins within `within_next_n_ticks`,
    /// or began and is no further back than four slots.
    pub fn would_be_leader(&self, poh: &PohReading, within_next_n_ticks: u64) -> (leads: bool)
        requires
            poh.heights_fit(self@.ticks_per_slot, within_next_n_ticks as int),
        ensures
            leads == poh.would_be_leader(self@.ticks_per_slot, within_next_n_ticks as int),
    {
        if let Some(leader_first_tick_height) = poh.leader_first_tick_height {
            poh.tick_height + within_next_n_ticks >= leader_first_tick_height && poh.tick_height
                <= leader_first_tick_height + (self.ticks_per_slot * 4)
        } else {
            false
        }
    }
}

/// What the banking stage is doing.
#[derive(Debug, Clone, Copy, PartialEq, Eq, Structural)]
pub enum BankingStageStatus {
    Active,
    Inactive,
    Exited,
}

/// The status of a banking stage that has not exited: inactive while it only
/// forwards packets.
pub open spec fn status_for(decision: BufferedPacketsDecision) -> BankingStageStatus {
    if decision is Forward {
        BankingStageStatus::Inactive
    } else {
        BankingStageStatus::Active
    }
}

/// Whether `value` is something that a relaxed load of `flag` may return. What the
/// flag holds at a moment is up to those who share it, so only a load shows it.
pub open spec fn flag_reads(flag: Arc<AtomicBool>, value: bool) -> bool {
    call_ensures(AtomicBool::load, (&*flag, std::sync::atomic::Ordering::Relaxed), value)
}

/// Reports the status of a banking stage by its decisions, until it exits.
#[derive(Debug)]
pub struct DecisionMakerWrapper {
    is_exited: Arc<AtomicBool>,
    decision_maker: DecisionMaker,
}

impl View for DecisionMakerWrapper {
    type V = DecisionMakerView;

    /// The state of the decision maker.
    closed spec fn view(&self) -> DecisionMakerView {
        self.decision_maker@
    }
}

impl DecisionMakerWrapper {
    /// A reporter on `decision_maker`, for a banking stage that raises `is_exited`
    /// when it exits.
    pub fn new(is_exited: Arc<AtomicBool>, decision_maker: DecisionMaker) -> (wrapper: Self)
        ensures
            wrapper@ == decision_maker@,
            wrapper.exit_flag() == is_exited,
    {
        Self { is_exited, decision_maker }
    }

    /// The flag that says whether the banking stage has exited.
    pub closed spec fn exit_flag(self) -> Arc<AtomicBool> {
        self.is_exited
    }

    /// The decision maker that is reported on.
    pub fn decision_maker(&self) -> (maker: &DecisionMaker)
        ensures
            maker@ == self@,
    {
        &self.decision_maker
    }

    /// The status. The wrapper's own flag is read, and what the load returned
    /// decides: either the banking stage has exited and no decision is made, or a
    /// decision is made and gives the status.
    pub fn status(
        &mut self,
        poh: &PohReading,
        recorded_start: Option<Arc<Instant>>,
    ) -> (status: BankingStageStatus)
        requires
            flag_reads(old(self).exit_flag(), false) ==> old(self)@.can_decide(*poh),
        ensures
            final(self).exit_flag() == old(self).exit_flag(),
            flag_reads(old(self).exit_flag(), status == BankingStageStatus::Exited),
            match status {
                BankingStageStatus::Exited => final(self)@ == old(self)@,
                _ => {
                    &&& final(self)@ == old(self)@.after_decision(
                        *poh,
                        match recorded_start {
                            Some(start) => start,
                            None => final(self)@.bank_creation_time,
                        },
                    )
                    &&& old(self)@.is_new_bank(*poh) && recorded_start is None ==> clock_shows(
                        final(self)@.bank_creation_time,
                    )
                    &&& status == status_for(decision_for(*poh, final(self)@.bank_creation_time))
                },
            },
    {
        let exited = self.is_exited.load(std::sync::atomic::Ordering::Relaxed);
        self.status_given(exited, poh, recorded_start)
    }

    /// The status, given whether the banking stage has exited.
    pub fn status_given(
        &mut self,
        exited: bool,
        poh: &PohReading,
        recorded_start: Option<Arc<Instant>>,
    ) -> (status: BankingStageStatus)
        requires
            !exited ==> old(self)@.can_decide(*poh),
        ensures
            final(self).exit_flag() == old(self).exit_flag(),
            exited ==> status == BankingStageStatus::Exited && final(self)@ == old(self)@,
            !exited ==> {
                &&& final(self)@ == old(self)@.after_decision(
                    *poh,
                    match recorded_start {
                        Some(start) => start,
                        None => final(self)@.bank_creation_time,
                    },
                )
                &&& old(self)@.is_new_bank(*poh) && recorded_start is None ==> clock_shows(
                    final(self)@.bank_creation_time,
                )
                &&& status == status_for(decision_for(*poh, final(self)@.bank_creation_time))
            },
    {
        if exited {
            BankingStageStatus::Exited
        } else {
            let decided = self.decision_maker.make_consume_or_forward_decision(
                poh,
                recorded_start,
            );
            match decided.0 {
                BufferedPacketsDecision::Forward => BankingStageStatus::Inactive,
                _ => BankingStageStatus::Active,
            }
        }
    }
}

} // verus!
