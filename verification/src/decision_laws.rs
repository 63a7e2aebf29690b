//! What holds of all decisions on buffered packets.

use crate::clock::{hold_offset, slot_ticks};
use crate::decision_maker::{clock_shows, decision_for, flag_reads};
use crate::decision_maker::{is_switching_point, status_for, BankStart, BankingStageStatus};
use crate::decision_maker::{BufferedPacketsDecision, DecisionMakerView, SWITCHING_OFFSET};
use crate::poh::PohReading;
use std::sync::atomic::AtomicBool;
use std::sync::Arc;
use std::time::Instant;
use vstd::prelude::*;
use vstd::std_specs::cmp::PartialEqSpec;

verus! {

/// How far a decision goes in keeping the packets: not at all, as well as
/// forwarding them, alone, or to the end of consuming them.
pub open spec fn keeping(decision: BufferedPacketsDecision) -> int {
    match decision {
        BufferedPacketsDecision::Forward => 0,
        BufferedPacketsDecision::ForwardAndHold => 1,
        BufferedPacketsDecision::Hold => 2,
        BufferedPacketsDecision::Consume(_) => 3,
    }
}

/// Packets are consumed exactly while a bank is being produced, and then for that
/// bank.
pub proof fn law_packets_are_consumed_exactly_for_a_working_bank(
    poh: PohReading,
    bank_creation_time: Arc<Instant>,
)
    ensures
        decision_for(poh, bank_creation_time) is Consume <==> poh.working_bank is Some,
        decision_for(poh, bank_creation_time) matches BufferedPacketsDecision::Consume(start)
            ==> poh.working_bank == Some(start.working_bank) && start.bank_creation_time
            == bank_creation_time,
{
}

/// As the ticks go by towards a turn as the leader, packets are never kept less
/// than before; and a bank keeps them more than any wait for one.
pub proof fn law_packets_are_kept_more_as_the_turn_comes_near(
    earlier: PohReading,
    later: PohReading,
    earlier_start: Arc<Instant>,
    later_start: Arc<Instant>,
)
    requires
        earlier.tick_height <= later.tick_height,
        earlier.leader_first_tick_height == later.leader_first_tick_height,
        earlier.working_bank is Some ==> later.working_bank is Some,
    ensures
        keeping(decision_for(earlier, earlier_start)) <= keeping(decision_for(later, later_start)),
{
}

/// The switching point is where this node leads within [`SWITCHING_OFFSET`] slots
/// but not within one less, however many ticks its own slots have, and no bank is
/// being produced.
pub proof fn law_switching_point_is_entering_the_horizon(poh: PohReading, ticks_per_slot: u64)
    ensures
        is_switching_point(poh) <==> {
            &&& poh.working_bank is None
            &&& poh.would_be_leader(ticks_per_slot, SWITCHING_OFFSET * slot_ticks())
            &&& !poh.would_be_leader(ticks_per_slot, (SWITCHING_OFFSET - 1) * slot_ticks())
        },
{
}

/// At the switching point packets are forwarded and not held.
pub proof fn law_switching_point_forwards(poh: PohReading, bank_creation_time: Arc<Instant>)
    requires
        is_switching_point(poh),
    ensures
        decision_for(poh, bank_creation_time) == BufferedPacketsDecision::Forward,
{
}

/// The switching point before a turn lasts one slot: it is reached at exactly the
/// ticks from the one that is [`SWITCHING_OFFSET`] slots before the turn until a
/// slot later.
pub proof fn law_switching_point_lasts_one_slot(poh: PohReading, first: u64)
    requires
        poh.working_bank is None,
        poh.leader_first_tick_height == Some(first),
    ensures
        is_switching_point(poh) <==> first - SWITCHING_OFFSET * slot_ticks() <= poh.tick_height
            < first - SWITCHING_OFFSET * slot_ticks() + slot_ticks(),
{
}

/// Looking further ahead never loses a turn as the leader.
pub proof fn law_looking_further_ahead_finds_no_less(
    poh: PohReading,
    ticks_per_slot: u64,
    nearer: int,
    further: int,
)
    requires
        nearer <= further,
    ensures
        poh.would_be_leader(ticks_per_slot, nearer) ==> poh.would_be_leader(
            ticks_per_slot,
            further,
        ),
{
}

/// A bank keeps the time at which it began: a second reading of a bank of the
/// same slot changes nothing, whatever start is given with it, and so does a
/// reading without a bank in between.
pub proof fn law_bank_keeps_its_start(
    maker: DecisionMakerView,
    first: PohReading,
    between: PohReading,
    second: PohReading,
    first_start: Arc<Instant>,
    between_start: Arc<Instant>,
    second_start: Arc<Instant>,
)
    requires
        first.working_bank is Some,
        between.working_bank is None,
        second.working_bank is Some,
        first.working_bank->0@ == second.working_bank->0@,
    ensures
        ({
            let seen = maker.after_decision(first, first_start);
            &&& seen.previous_bank_slot == first.working_bank->0@
            &&& seen.after_decision(second, second_start) == seen
            &&& seen.after_decision(between, between_start) == seen
            &&& seen.after_decision(between, between_start).after_decision(second, second_start)
                == seen
        }),
{
}

/// Equality of decisions is reflexive, symmetric and transitive.
pub proof fn law_equality_is_an_equivalence(
    a: BufferedPacketsDecision,
    b: BufferedPacketsDecision,
    c: BufferedPacketsDecision,
)
    ensures
        a.eq_spec(&a),
        a.eq_spec(&b) <==> b.eq_spec(&a),
        a.eq_spec(&b) && b.eq_spec(&c) ==> a.eq_spec(&c),
{
}

/// When a bank began makes no difference to whether two decisions are equal.
pub proof fn law_equality_leaves_the_start_aside(
    poh: PohReading,
    start: Arc<Instant>,
    other_start: Arc<Instant>,
)
    ensures
        decision_for(poh, start).eq_spec(&decision_for(poh, other_start)),
{
}

/// A banking stage that has not exited is active exactly while a bank is being
/// produced or this node leads within the slots for which packets are held.
pub proof fn law_stage_is_active_exactly_near_its_turn(
    poh: PohReading,
    bank_creation_time: Arc<Instant>,
)
    ensures
        status_for(decision_for(poh, bank_creation_time)) != BankingStageStatus::Exited,
        status_for(decision_for(poh, bank_creation_time)) == BankingStageStatus::Active <==> {
            ||| poh.working_bank is Some
            ||| poh.leader_first_tick_height matches Some(first) && poh.ticks_until(first)
                < hold_offset() * slot_ticks()
        },
{
}

/// Without a bank the heights alone decide, at any height: packets are held alone
/// from 64 ticks before the turn on, forwarded and held from 1279 ticks before it
/// until then, and otherwise forwarded; and forwarded where no turn is known.
pub proof fn law_heights_decide_without_a_bank(poh: PohReading, bank_creation_time: Arc<Instant>)
    requires
        poh.working_bank is None,
    ensures
        ({
            let decision = decision_for(poh, bank_creation_time);
            &&& decision !is Consume
            &&& poh.leader_first_tick_height is None ==> decision is Forward
            &&& poh.leader_first_tick_height matches Some(first) ==> {
                &&& decision is Hold <==> first <= poh.tick_height + 64
                &&& decision is ForwardAndHold <==> poh.tick_height + 64 < first
                    < poh.tick_height + 1280
                &&& decision is Forward <==> poh.tick_height + 1280 <= first
            }
        }),
{
}

/// Only the distance to the turn counts, not the heights themselves: two readings
/// without a bank that are equally far from it get the same decision, and both are
/// at the switching point or neither is.
pub proof fn law_only_the_distance_to_the_turn_counts(
    a: PohReading,
    b: PohReading,
    first_of_a: u64,
    first_of_b: u64,
    start_of_a: Arc<Instant>,
    start_of_b: Arc<Instant>,
)
    requires
        a.working_bank is None,
        b.working_bank is None,
        a.leader_first_tick_height == Some(first_of_a),
        b.leader_first_tick_height == Some(first_of_b),
        first_of_a - a.tick_height == first_of_b - b.tick_height,
    ensures
        decision_for(a, start_of_a) == decision_for(b, start_of_b),
        is_switching_point(a) == is_switching_point(b),
{
}

/// A bank that is being produced consumes the packets, whatever the heights are,
/// and the decision names that bank and when it began.
pub proof fn law_working_bank_consumes(
    poh: PohReading,
    start: BankStart,
)
    requires
        poh.working_bank == Some(start.working_bank),
    ensures
        decision_for(poh, start.bank_creation_time) == BufferedPacketsDecision::Consume(start),
        !is_switching_point(poh),
        status_for(decision_for(poh, start.bank_creation_time)) == BankingStageStatus::Active,
{
}

/// The switching point is reached exactly without a bank, with a turn that is
/// more than 1600 and at most 1664 ticks away.
pub proof fn law_heights_of_the_switching_point(poh: PohReading)
    ensures
        poh.working_bank is Some ==> !is_switching_point(poh),
        poh.leader_first_tick_height is None ==> !is_switching_point(poh),
        poh.working_bank is None ==> (poh.leader_first_tick_height matches Some(first) ==> (
        is_switching_point(poh) <==> poh.tick_height + 1600 < first <= poh.tick_height + 1664)),
{
}

/// The ticks left and the ticks gone by add up to the first tick of the turn, and
/// none are left once it has begun.
pub proof fn law_ticks_until_the_turn(poh: PohReading, first: u64)
    ensures
        poh.tick_height <= first ==> poh.tick_height + poh.ticks_until(first) == first,
        first <= poh.tick_height ==> poh.ticks_until(first) == 0,
{
}

/// The window of a turn: it is open from the first tick of the turn until four
/// slots later, both included, however far one looks ahead; it is closed after
/// that, however far one looks ahead; before the turn it is open exactly if one
/// looks at least as far as the turn; and without a turn it is never open.
pub proof fn law_window_of_the_turn(poh: PohReading, ticks_per_slot: u64, within_next_n_ticks: int)
    requires
        0 <= within_next_n_ticks,
    ensures
        poh.leader_first_tick_height is None ==> !poh.would_be_leader(
            ticks_per_slot,
            within_next_n_ticks,
        ),
        poh.leader_first_tick_height matches Some(first) ==> {
            let leads = poh.would_be_leader(ticks_per_slot, within_next_n_ticks);
            &&& poh.tick_height > first + 4 * ticks_per_slot ==> !leads
            &&& first <= poh.tick_height <= first + 4 * ticks_per_slot ==> leads
            &&& poh.tick_height < first ==> (leads <==> first - poh.tick_height
                <= within_next_n_ticks)
        },
{
}

/// Whether the window is open turns on the distance to the turn, not on the
/// heights themselves, and not on whether a bank is being produced.
pub proof fn law_window_moves_with_the_turn(
    a: PohReading,
    b: PohReading,
    first_of_a: u64,
    first_of_b: u64,
    ticks_per_slot: u64,
    within_next_n_ticks: int,
)
    requires
        a.leader_first_tick_height == Some(first_of_a),
        b.leader_first_tick_height == Some(first_of_b),
        first_of_a - a.tick_height == first_of_b - b.tick_height,
    ensures
        a.would_be_leader(ticks_per_slot, within_next_n_ticks) == b.would_be_leader(
            ticks_per_slot,
            within_next_n_ticks,
        ),
{
}

/// Looking ahead fails only on a sum that a `u64` cannot hold: that of the height
/// and the look-ahead, or, where those reach the turn, the end of the window.
pub proof fn law_looking_ahead_fails_only_on_a_sum_too_large(
    poh: PohReading,
    ticks_per_slot: u64,
    within_next_n_ticks: int,
)
    ensures
        poh.leader_first_tick_height is None ==> poh.heights_fit(
            ticks_per_slot,
            within_next_n_ticks,
        ),
        poh.leader_first_tick_height matches Some(first) ==> {
            let fits = poh.heights_fit(ticks_per_slot, within_next_n_ticks);
            &&& poh.tick_height + within_next_n_ticks > u64::MAX ==> !fits
            &&& poh.tick_height + within_next_n_ticks <= u64::MAX && poh.tick_height
                + within_next_n_ticks < first ==> fits
            &&& poh.tick_height + within_next_n_ticks <= u64::MAX && poh.tick_height
                + within_next_n_ticks >= first ==> (fits <==> first + 4 * ticks_per_slot
                <= u64::MAX)
        },
{
}

/// A decision can be made on every reading but these: where slots have no ticks,
/// and, without a bank and at least 1280 ticks before the turn, where a sum of
/// looking ahead 1664 ticks is too large.
pub proof fn law_decisions_fail_only_on_a_sum_too_large(maker: DecisionMakerView, poh: PohReading)
    ensures
        maker.ticks_per_slot == 0 ==> !maker.can_decide(poh),
        maker.ticks_per_slot != 0 && (poh.working_bank is Some || poh.leader_first_tick_height
            is None) ==> maker.can_decide(poh),
        maker.ticks_per_slot != 0 && poh.working_bank is None ==> (
        poh.leader_first_tick_height matches Some(first) ==> {
            &&& first < poh.tick_height + 1280 ==> maker.can_decide(poh)
            &&& poh.tick_height + 1280 <= first ==> (maker.can_decide(poh) <==> {
                &&& poh.tick_height + 1664 <= u64::MAX
                &&& poh.tick_height + 1664 < first || first + 4 * maker.ticks_per_slot <= u64::MAX
            })
        }),
{
}

/// A bank of another slot than the last one seen is new, whichever slots these
/// are: its start is needed and taken, its slot is remembered, and the decision
/// tells that start.
pub proof fn law_another_slot_takes_the_new_start(
    maker: DecisionMakerView,
    poh: PohReading,
    start: BankStart,
)
    requires
        poh.working_bank == Some(start.working_bank),
        start.working_bank@ != maker.previous_bank_slot,
    ensures
        maker.is_new_bank(poh),
        ({
            let after = maker.after_decision(poh, start.bank_creation_time);
            &&& after.bank_creation_time == start.bank_creation_time
            &&& after.previous_bank_slot == start.working_bank@
            &&& after.ticks_per_slot == maker.ticks_per_slot
            &&& decision_for(poh, after.bank_creation_time) == BufferedPacketsDecision::Consume(
                start,
            )
        }),
{
}

/// A bank of the slot that was last seen, or no bank, is not new: no start is
/// needed, and whatever is given in its place, nothing changes.
pub proof fn law_same_slot_or_no_bank_changes_nothing(
    maker: DecisionMakerView,
    poh: PohReading,
    start: Arc<Instant>,
)
    requires
        poh.working_bank matches Some(bank) ==> bank@ == maker.previous_bank_slot,
    ensures
        !maker.is_new_bank(poh),
        maker.after_decision(poh, start).bank_creation_time == maker.bank_creation_time,
        maker.after_decision(poh, start).previous_bank_slot == maker.previous_bank_slot,
        maker.after_decision(poh, start).ticks_per_slot == maker.ticks_per_slot,
{
}

/// Of two banks of different slots that are seen one after the other, the second
/// is told with its own start, and so is the first when it is seen once more.
pub proof fn law_each_bank_is_told_with_its_own_start(
    maker: DecisionMakerView,
    first: PohReading,
    second: PohReading,
    first_start: Arc<Instant>,
    second_start: Arc<Instant>,
    again_start: Arc<Instant>,
)
    requires
        first.working_bank is Some,
        second.working_bank is Some,
        first.working_bank->0@ != second.working_bank->0@,
    ensures
        ({
            let once = maker.after_decision(first, first_start);
            let twice = once.after_decision(second, second_start);
            &&& once.is_new_bank(second)
            &&& twice.bank_creation_time == second_start
            &&& twice.is_new_bank(first)
            &&& twice.after_decision(first, again_start).bank_creation_time == again_start
        }),
{
}

/// Decisions of different kinds are never equal, those of one kind without a bank
/// always are, and two that consume are equal exactly if the slots of their banks
/// are. This is what `==` computes.
pub proof fn law_decisions_are_equal_by_kind_and_slot(
    a: BufferedPacketsDecision,
    b: BufferedPacketsDecision,
)
    ensures
        BufferedPacketsDecision::obeys_eq_spec(),
        keeping(a) != keeping(b) ==> !a.eq_spec(&b),
        keeping(a) == keeping(b) && a !is Consume ==> a.eq_spec(&b),
        a matches BufferedPacketsDecision::Consume(start_of_a) ==> (
        b matches BufferedPacketsDecision::Consume(start_of_b) ==> (a.eq_spec(&b)
            <==> start_of_a.working_bank@ == start_of_b.working_bank@)),
{
}

/// A banking stage that has not exited is inactive exactly without a bank and
/// without a turn that is less than 1280 ticks away.
pub proof fn law_heights_of_an_inactive_stage(poh: PohReading, bank_creation_time: Arc<Instant>)
    ensures
        ({
            let status = status_for(decision_for(poh, bank_creation_time));
            &&& status == BankingStageStatus::Inactive || status == BankingStageStatus::Active
            &&& poh.working_bank is Some ==> status == BankingStageStatus::Active
            &&& poh.working_bank is None && poh.leader_first_tick_height is None ==> status
                == BankingStageStatus::Inactive
            &&& poh.working_bank is None ==> (poh.leader_first_tick_height matches Some(first) ==> (
            status == BankingStageStatus::Inactive <==> poh.tick_height + 1280 <= first))
        }),
{
}

/// Each kind of decision gives its own status: forwarding alone is inactivity, and
/// everything else is activity.
pub proof fn law_status_of_each_kind(start: BankStart)
    ensures
        status_for(BufferedPacketsDecision::Forward) == BankingStageStatus::Inactive,
        status_for(BufferedPacketsDecision::ForwardAndHold) == BankingStageStatus::Active,
        status_for(BufferedPacketsDecision::Hold) == BankingStageStatus::Active,
        status_for(BufferedPacketsDecision::Consume(start)) == BankingStageStatus::Active,
{
}

/// What is claimed of a flag or of the clock is what a relaxed load of that flag,
/// or a reading of the clock, shows, and nothing less.
pub proof fn law_claims_rest_on_readings(
    flag: Arc<AtomicBool>,
    value: bool,
    instant: Arc<Instant>,
)
    ensures
        flag_reads(flag, value) ==> call_ensures(
            AtomicBool::load,
            (&*flag, std::sync::atomic::Ordering::Relaxed),
            value,
        ),
        clock_shows(instant) ==> call_ensures(Instant::now, (), *instant),
{
}

} // verus!
