//! The parameters of the cluster's clock, and instants of the machine's.

use vstd::prelude::*;

verus! {

/// The number of ticks in a slot.
pub open spec fn slot_ticks() -> int {
    64
}

/// How many slots ahead the leader is to whom transactions are forwarded.
pub open spec fn forward_offset() -> int {
    2
}

/// How many slots before the own leader slots transactions begin to be held.
pub open spec fn hold_offset() -> int {
    20
}

/// `solana_clock::DEFAULT_TICKS_PER_SLOT`. Trusted: the constant is 64.
#[verifier::external_body]
pub(crate) fn default_ticks_per_slot() -> (ticks: u64)
    ensures
        ticks == slot_ticks(),
{
    solana_clock::DEFAULT_TICKS_PER_SLOT
}

/// `solana_clock::FORWARD_TRANSACTIONS_TO_LEADER_AT_SLOT_OFFSET`. Trusted: the
/// constant is 2.
#[verifier::external_body]
pub(crate) fn forward_transactions_to_leader_at_slot_offset() -> (slots: u64)
    ensures
        slots == forward_offset(),
{
    solana_clock::FORWARD_TRANSACTIONS_TO_LEADER_AT_SLOT_OFFSET
}

/// `solana_clock::HOLD_TRANSACTIONS_SLOT_OFFSET`. Trusted: the constant is 20.
#[verifier::external_body]
pub(crate) fn hold_transactions_slot_offset() -> (slots: u64)
    ensures
        slots == hold_offset(),
{
    solana_clock::HOLD_TRANSACTIONS_SLOT_OFFSET
}

/// `std::time::Instant`, a point on the machine's monotonic clock. Nothing is
/// claimed of what is inside; instants are only handed on.
#[verifier::external_type_specification]
#[verifier::external_body]
pub struct ExInstant(std::time::Instant);

/// `std::time::Instant::now`. Nothing is claimed of its result, which depends on
/// when it is called.
pub assume_specification[ std::time::Instant::now ]() -> std::time::Instant;

} // verus!
