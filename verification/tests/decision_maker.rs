use block_production::decision_maker::{
    BankStart, BankingStageStatus, BufferedPacketsDecision, DecisionMaker, DecisionMakerWrapper,
};
use block_production::poh::{Bank, PohReading};
use solana_clock::DEFAULT_TICKS_PER_SLOT;
use std::sync::atomic::{AtomicBool, Ordering};
use std::sync::Arc;
use std::time::{Duration, Instant};

fn maker() -> DecisionMaker {
    DecisionMaker::new(DEFAULT_TICKS_PER_SLOT, Arc::new(Instant::now()), 0)
}

fn reading(tick_height: u64, leader_first_tick_height: Option<u64>) -> PohReading {
    PohReading {
        working_bank: None,
        tick_height,
        leader_first_tick_height,
    }
}

fn reading_with_bank(slot: u64, tick_height: u64) -> PohReading {
    PohReading {
        working_bank: Some(Arc::new(Bank::new(slot))),
        tick_height,
        leader_first_tick_height: None,
    }
}

fn decide(tick_height: u64, leader: Option<u64>) -> (BufferedPacketsDecision, bool, u64) {
    let poh = reading(tick_height, leader);
    let mut maker = maker();
    assert!(maker.can_decide(&poh));
    maker.make_consume_or_forward_decision(&poh, None)
}

fn start_of(decision: &BufferedPacketsDecision) -> Arc<Instant> {
    match decision {
        BufferedPacketsDecision::Consume(bank_start) => bank_start.bank_creation_time.clone(),
        _ => panic!("packets are not consumed"),
    }
}

#[test]
fn test_buffered_packet_decision_bank() {
    let bank = Arc::new(Bank::new(0));
    let start = BankStart {
        working_bank: bank,
        bank_creation_time: Arc::new(Instant::now()),
    };
    assert!(BufferedPacketsDecision::Consume(start).bank().is_some());
    assert!(BufferedPacketsDecision::Forward.bank().is_none());
    assert!(BufferedPacketsDecision::ForwardAndHold.bank().is_none());
    assert!(BufferedPacketsDecision::Hold.bank().is_none());
}

#[test]
fn test_make_consume_or_forward_decision() {
    let bank = Arc::new(Bank::new(0));
    let mut poh = reading(0, None);
    let mut decision_maker = maker();

    // No active bank, no leader first tick height.
    assert!(matches!(
        decision_maker.make_consume_or_forward_decision(&poh, None).0,
        BufferedPacketsDecision::Forward
    ));

    // Active bank.
    poh.working_bank = Some(bank.clone());
    assert!(matches!(
        decision_maker.make_consume_or_forward_decision(&poh, None).0,
        BufferedPacketsDecision::Consume(_)
    ));
    poh.working_bank = None;

    // Will be leader shortly - Hold
    for next_leader_slot_offset in [0, 1].into_iter() {
        let next_leader_slot = bank.slot() + next_leader_slot_offset;
        poh.leader_first_tick_height = Some(next_leader_slot * DEFAULT_TICKS_PER_SLOT);

        let decision = decision_maker.make_consume_or_forward_decision(&poh, None).0;
        assert!(
            matches!(decision, BufferedPacketsDecision::Hold),
            "next_leader_slot_offset: {next_leader_slot_offset}",
        );
    }

    // Will be leader - ForwardAndHold
    for next_leader_slot_offset in [2, 19].into_iter() {
        let next_leader_slot = bank.slot() + next_leader_slot_offset;
        poh.leader_first_tick_height = Some(next_leader_slot * DEFAULT_TICKS_PER_SLOT);

        let decision = decision_maker.make_consume_or_forward_decision(&poh, None).0;
        assert!(
            matches!(decision, BufferedPacketsDecision::ForwardAndHold),
            "next_leader_slot_offset: {next_leader_slot_offset}",
        );
    }

    // Longer period until next leader - Forward
    let next_leader_slot = 20 + bank.slot();
    poh.leader_first_tick_height = Some(next_leader_slot * DEFAULT_TICKS_PER_SLOT);
    let decision = decision_maker.make_consume_or_forward_decision(&poh, None).0;
    assert!(
        matches!(decision, BufferedPacketsDecision::Forward),
        "next_leader_slot: {next_leader_slot}",
    );
}

#[test]
fn decisions_change_at_the_tick() {
    assert!(decide(1_000, Some(1_064)).0 == BufferedPacketsDecision::Hold);
    assert!(decide(1_000, Some(1_065)).0 == BufferedPacketsDecision::ForwardAndHold);
    assert!(decide(1_000, Some(2_279)).0 == BufferedPacketsDecision::ForwardAndHold);
    assert!(decide(1_000, Some(2_280)).0 == BufferedPacketsDecision::Forward);
}

#[test]
fn a_turn_that_has_begun_holds() {
    assert!(decide(5_000, Some(64)).0 == BufferedPacketsDecision::Hold);
}

#[test]
fn slot_is_the_tick_height_in_slots() {
    assert_eq!(decide(0, None).2, 0);
    assert_eq!(decide(63, None).2, 0);
    assert_eq!(decide(64, None).2, 1);
    let poh = reading(1_000, None);
    let mut maker = DecisionMaker::new(10, Arc::new(Instant::now()), 0);
    assert_eq!(maker.make_consume_or_forward_decision(&poh, None).2, 100);
}

#[test]
fn switching_point_lasts_one_slot() {
    let first = 10_000;
    assert!(!decide(first - 1_665, Some(first)).1);
    assert!(decide(first - 1_664, Some(first)).1);
    assert!(decide(first - 1_601, Some(first)).1);
    assert!(!decide(first - 1_600, Some(first)).1);
    assert!(!decide(first - 100, Some(first)).1);
    assert!(!decide(first, Some(first)).1);
    assert!(!decide(first, None).1);
}

#[test]
fn switching_point_forwards() {
    assert!(decide(0, Some(1_664)).1);
    assert!(decide(0, Some(1_664)).0 == BufferedPacketsDecision::Forward);
}

#[test]
fn switching_point_is_not_reached_while_a_bank_is_produced() {
    let mut poh = reading_with_bank(3, 0);
    poh.leader_first_tick_height = Some(1_664);
    let decided = maker().make_consume_or_forward_decision(&poh, None);
    assert!(!decided.1);
    assert_eq!(decided.0.bank().unwrap().slot(), 3);
}

#[test]
fn switching_point_is_entering_the_horizon() {
    let maker = maker();
    for tick_height in [8_335, 8_336, 8_399, 8_400] {
        let poh = reading(tick_height, Some(10_000));
        let entering = maker.would_be_leader(&poh, 26 * 64) && !maker.would_be_leader(&poh, 25 * 64);
        assert_eq!(decide(tick_height, Some(10_000)).1, entering);
    }
}

#[test]
fn packets_are_kept_more_as_the_turn_comes_near() {
    let keeping = |decision: &BufferedPacketsDecision| match decision {
        BufferedPacketsDecision::Forward => 0,
        BufferedPacketsDecision::ForwardAndHold => 1,
        BufferedPacketsDecision::Hold => 2,
        BufferedPacketsDecision::Consume(_) => 3,
    };
    let mut before = 0;
    for tick_height in 0..3_000 {
        let now = keeping(&decide(tick_height, Some(2_500)).0);
        assert!(before <= now);
        before = now;
    }
    assert_eq!(before, 2);
}

#[test]
fn leader_window_ends_after_four_slots() {
    let maker = maker();
    assert!(!maker.would_be_leader(&reading(99, Some(200)), 100));
    assert!(maker.would_be_leader(&reading(100, Some(200)), 100));
    assert!(maker.would_be_leader(&reading(200 + 256, Some(200)), 0));
    assert!(!maker.would_be_leader(&reading(200 + 257, Some(200)), 0));
    assert!(!maker.would_be_leader(&reading(100, None), 100));
}

#[test]
fn looking_further_ahead_finds_no_less() {
    let maker = maker();
    let poh = reading(100, Some(200));
    assert!(!maker.would_be_leader(&poh, 99));
    assert!(maker.would_be_leader(&poh, 100));
    assert!(maker.would_be_leader(&poh, 10_000));
}

#[test]
fn new_bank_takes_the_recorded_start() {
    let initial = Arc::new(Instant::now());
    let recorded = Arc::new(*initial + Duration::from_secs(7));
    let mut maker = DecisionMaker::new(64, initial.clone(), 0);
    let poh = reading_with_bank(5, 320);
    assert!(maker.needs_bank_start(&poh));
    let decided = maker.make_consume_or_forward_decision(&poh, Some(recorded.clone()));
    assert_eq!(start_of(&decided.0), recorded);
    assert!(!maker.needs_bank_start(&poh));
}

#[test]
fn bank_keeps_its_start() {
    let initial = Arc::new(Instant::now());
    let recorded = Arc::new(*initial + Duration::from_secs(7));
    let later = Arc::new(*initial + Duration::from_secs(9));
    let mut maker = DecisionMaker::new(64, initial, 0);
    let poh = reading_with_bank(5, 320);
    maker.make_consume_or_forward_decision(&poh, Some(recorded.clone()));
    maker.make_consume_or_forward_decision(&reading(330, None), Some(later.clone()));
    let again = maker.make_consume_or_forward_decision(&poh, Some(later.clone()));
    assert_eq!(start_of(&again.0), recorded);
    let next = reading_with_bank(6, 384);
    let decided = maker.make_consume_or_forward_decision(&next, Some(later.clone()));
    assert_eq!(start_of(&decided.0), later);
}

#[test]
fn bank_of_the_remembered_slot_is_not_new() {
    let initial = Arc::new(Instant::now());
    let mut maker = DecisionMaker::new(64, initial.clone(), 5);
    let poh = reading_with_bank(5, 320);
    assert!(!maker.needs_bank_start(&poh));
    let decided = maker.make_consume_or_forward_decision(&poh, None);
    assert_eq!(start_of(&decided.0), initial);
}

#[test]
fn new_bank_without_a_recorded_start_begins_now() {
    let initial = Arc::new(Instant::now());
    let mut maker = DecisionMaker::new(64, initial.clone(), 0);
    let before = Instant::now();
    let decided = maker.make_consume_or_forward_decision(&reading_with_bank(5, 320), None);
    let after = Instant::now();
    let start = *start_of(&decided.0);
    assert!(before <= start && start <= after);
}

#[test]
fn maker_of_a_recorder_has_seen_no_bank() {
    let recorded = Arc::new(Instant::now());
    let mut maker = DecisionMaker::from_recorder(64, Some(recorded.clone()));
    let genesis = reading_with_bank(0, 0);
    assert!(!maker.needs_bank_start(&genesis));
    assert!(maker.needs_bank_start(&reading_with_bank(1, 64)));
    let decided = maker.make_consume_or_forward_decision(&genesis, None);
    assert_eq!(start_of(&decided.0), recorded);
}

#[test]
fn maker_of_an_idle_recorder_starts_now() {
    let before = Instant::now();
    let mut maker = DecisionMaker::from_recorder(64, None);
    let after = Instant::now();
    let decided = maker.make_consume_or_forward_decision(&reading_with_bank(0, 0), None);
    let start = *start_of(&decided.0);
    assert!(before <= start && start <= after);
}

#[test]
fn clone_of_a_maker_decides_alike() {
    let maker = DecisionMaker::new(10, Arc::new(Instant::now()), 4);
    let mut copy = maker.clone();
    assert!(!copy.needs_bank_start(&reading_with_bank(4, 40)));
    assert!(copy.needs_bank_start(&reading_with_bank(5, 50)));
    assert_eq!(copy.make_consume_or_forward_decision(&reading(95, None), None).2, 9);
}

#[test]
fn decisions_are_equal_by_kind_and_slot() {
    let consume = |slot: u64| {
        BufferedPacketsDecision::Consume(BankStart {
            working_bank: Arc::new(Bank::new(slot)),
            bank_creation_time: Arc::new(Instant::now()),
        })
    };
    assert!(consume(1) == consume(1));
    assert!(consume(1) != consume(2));
    assert!(consume(1).clone() == consume(1));
    assert!(BufferedPacketsDecision::Hold == BufferedPacketsDecision::Hold);
    assert!(BufferedPacketsDecision::ForwardAndHold == BufferedPacketsDecision::ForwardAndHold);
    assert!(BufferedPacketsDecision::Forward.clone() == BufferedPacketsDecision::Forward);
    assert!(BufferedPacketsDecision::Hold != BufferedPacketsDecision::Forward);
    assert!(BufferedPacketsDecision::ForwardAndHold != BufferedPacketsDecision::Forward);
    assert!(consume(1) != BufferedPacketsDecision::Hold);
}

#[test]
fn decisions_need_heights_that_fit() {
    let maker = maker();
    assert!(maker.can_decide(&reading(0, None)));
    assert!(maker.can_decide(&reading(u64::MAX, None)));
    assert!(maker.can_decide(&reading(u64::MAX - 64, Some(u64::MAX))));
    assert!(!maker.can_decide(&reading(u64::MAX - 1_300, Some(u64::MAX))));
    assert!(!maker.can_decide(&reading(u64::MAX - 1_664, Some(u64::MAX))));
    assert!(maker.can_decide(&reading(u64::MAX - 1_665, Some(u64::MAX))));
    assert!(maker.can_decide(&reading(u64::MAX - 1_920, Some(u64::MAX - 256))));
    assert!(!maker.can_decide(&reading(u64::MAX - 1_919, Some(u64::MAX - 255))));
    let without_ticks = DecisionMaker::new(0, Arc::new(Instant::now()), 0);
    assert!(!without_ticks.can_decide(&reading(0, None)));
    assert!(!without_ticks.can_decide(&reading_with_bank(0, 0)));
}

#[test]
fn looking_ahead_needs_heights_that_fit() {
    let maker = maker();
    assert!(maker.can_look_ahead(&reading(u64::MAX, None), u64::MAX));
    assert!(maker.can_look_ahead(&reading(u64::MAX - 5, Some(100)), 5));
    assert!(!maker.can_look_ahead(&reading(u64::MAX - 5, Some(100)), 6));
    assert!(maker.can_look_ahead(&reading(0, Some(u64::MAX - 256)), u64::MAX));
    assert!(!maker.can_look_ahead(&reading(0, Some(u64::MAX - 255)), u64::MAX));
    assert!(maker.can_look_ahead(&reading(0, Some(u64::MAX - 255)), 7));
    let wide = DecisionMaker::new(u64::MAX, Arc::new(Instant::now()), 0);
    assert!(!wide.can_look_ahead(&reading(10, Some(10)), 0));
    assert!(wide.can_look_ahead(&reading(10, Some(11)), 0));
}

#[test]
fn wrapper_shows_its_decision_maker() {
    let flag = Arc::new(AtomicBool::new(false));
    let wrapper = DecisionMakerWrapper::new(flag, DecisionMaker::new(64, Arc::new(Instant::now()), 9));
    assert!(!wrapper.decision_maker().needs_bank_start(&reading_with_bank(9, 576)));
    assert!(wrapper.decision_maker().needs_bank_start(&reading_with_bank(8, 512)));
}

#[test]
fn status_follows_the_decision() {
    let exited = Arc::new(AtomicBool::new(false));
    let mut wrapper = DecisionMakerWrapper::new(exited.clone(), maker());
    let far = reading(0, Some(1_280));
    let near = reading(0, Some(1_279));
    let next = reading(0, Some(64));
    let leading = reading_with_bank(1, 64);
    assert_eq!(wrapper.status(&far, None), BankingStageStatus::Inactive);
    assert_eq!(wrapper.status(&near, None), BankingStageStatus::Active);
    assert_eq!(wrapper.status(&next, None), BankingStageStatus::Active);
    assert_eq!(wrapper.status(&leading, None), BankingStageStatus::Active);
    assert_eq!(wrapper.status(&reading(0, None), None), BankingStageStatus::Inactive);
    exited.store(true, Ordering::Relaxed);
    assert_eq!(wrapper.status(&leading, None), BankingStageStatus::Exited);
    assert_eq!(wrapper.status(&far, None), BankingStageStatus::Exited);
}

#[test]
fn status_is_given_by_the_flag_first() {
    let flag = Arc::new(AtomicBool::new(false));
    let mut wrapper = DecisionMakerWrapper::new(flag, maker());
    let poh = reading(0, None);
    assert_eq!(wrapper.status_given(true, &poh, None), BankingStageStatus::Exited);
    assert_eq!(wrapper.status_given(false, &poh, None), BankingStageStatus::Inactive);
}
