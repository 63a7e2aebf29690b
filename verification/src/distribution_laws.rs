//! What holds of every configuration that was brought into its normal form.

use crate::distribution_config_parser::MAX_COMMISSION_BPS;
use crate::distribution_config_parser::{CommissionConfig, CommissionConfigView};
use crate::distribution_config_parser::{DistributionConfig, DistributionConfigView};
use crate::distribution_config_parser::{StakersConfig, StakersConfigView};
use crate::distribution_config_parser::{ValidatorConfig, ValidatorConfigView};
use crate::distribution_config_parser::{ValidatorRewardSplit, ValidatorRewardSplitView};
use crate::distribution_config_parser::{normalized_commission, normalized_commissions};
use vstd::prelude::*;

verus! {

/// The terms of a staker: those of their entry, or those of a staker without one.
pub open spec fn terms_of(
    stakers: StakersConfigView,
    staker: Seq<char>,
    min_commission_bps: u32,
) -> CommissionConfigView {
    match stakers.custom_commissions {
        Some(commissions) if commissions.contains_key(staker) => commissions[staker],
        _ => CommissionConfigView::unnamed(min_commission_bps),
    }
}

/// A commission in its normal form: from the minimum to a whole. Where the minimum
/// exceeds a whole nothing is in between, and it is one of the two.
pub open spec fn bps_are_normal(commission_bps: u32, min_commission_bps: u32) -> bool {
    if min_commission_bps <= MAX_COMMISSION_BPS {
        min_commission_bps <= commission_bps <= MAX_COMMISSION_BPS
    } else {
        commission_bps == min_commission_bps || commission_bps == MAX_COMMISSION_BPS
    }
}

/// An entry in its normal form: with a normal commission, with no referral that
/// pays nothing, and not redundant.
pub open spec fn commission_is_normal(
    commission: CommissionConfigView,
    min_commission_bps: u32,
) -> bool {
    &&& bps_are_normal(commission.commission_bps, min_commission_bps)
    &&& commission.referral_claimant_commission_bps != Some(0u32)
    &&& commission != CommissionConfigView::unnamed(min_commission_bps)
}

/// A validator's configuration in its normal form: a map of commissions has
/// entries, and all are normal; a split pays something, and at most a whole.
pub open spec fn validator_is_normal(
    validator: ValidatorConfigView,
    min_commission_bps: u32,
) -> bool {
    &&& validator.stakers matches Some(stakers) ==> stakers.custom_commissions matches Some(
        commissions,
    ) ==> {
        &&& commissions != Map::<Seq<char>, CommissionConfigView>::empty()
        &&& forall|staker: Seq<char>| #[trigger]
            commissions.contains_key(staker) ==> commission_is_normal(
                commissions[staker],
                min_commission_bps,
            )
    }
    &&& validator.validator_reward_split matches Some(split) ==> 0 < split.claimant_commission_bps
        <= MAX_COMMISSION_BPS
}

/// Whether normalizing again leaves the normal form of `commission` as it is.
/// It does, unless the minimum itself exceeds a whole and the entry was kept.
pub open spec fn commission_is_stable(
    commission: CommissionConfigView,
    min_commission_bps: u32,
) -> bool {
    ||| min_commission_bps <= MAX_COMMISSION_BPS
    ||| commission.normalized(min_commission_bps) == CommissionConfigView::unnamed(
        min_commission_bps,
    )
}

/// Whether every commission of the validator is stable.
pub open spec fn validator_is_stable(
    validator: ValidatorConfigView,
    min_commission_bps: u32,
) -> bool {
    validator.stakers matches Some(stakers) ==> stakers.custom_commissions matches Some(
        commissions,
    ) ==> forall|staker: Seq<char>| #[trigger]
        commissions.contains_key(staker) ==> commission_is_stable(
            commissions[staker],
            min_commission_bps,
        )
}

/// Under a minimum of at most a whole, a commission ends up from the minimum to a
/// whole, and one that was there already stays as it is. Under any minimum it is
/// normal.
pub proof fn law_commission_is_clamped(commission_bps: u32, min_commission_bps: u32)
    ensures
        bps_are_normal(
            normalized_commission(commission_bps, min_commission_bps),
            min_commission_bps,
        ),
        min_commission_bps <= MAX_COMMISSION_BPS ==> min_commission_bps <= normalized_commission(
            commission_bps,
            min_commission_bps,
        ) <= MAX_COMMISSION_BPS,
        min_commission_bps <= commission_bps <= MAX_COMMISSION_BPS ==> normalized_commission(
            commission_bps,
            min_commission_bps,
        ) == commission_bps,
{
}

/// A higher commission never ends up below a lower one, unless the minimum exceeds
/// a whole and lies between the two.
pub proof fn law_commission_order_is_kept(lower: u32, higher: u32, min_commission_bps: u32)
    requires
        lower <= higher,
        min_commission_bps <= MAX_COMMISSION_BPS || higher < min_commission_bps
            || min_commission_bps <= lower,
    ensures
        normalized_commission(lower, min_commission_bps) <= normalized_commission(
            higher,
            min_commission_bps,
        ),
{
}

/// Dropping entries takes nothing from anyone: the terms of a staker who was
/// named are the normal form of their entry, whether the entry is still there
/// or not, and a staker who was not named has the terms that they had.
pub proof fn law_stakers_keep_their_terms(
    stakers: StakersConfigView,
    staker: Seq<char>,
    min_commission_bps: u32,
)
    ensures
        terms_of(stakers.normalized(min_commission_bps), staker, min_commission_bps) == (
        match stakers.custom_commissions {
            Some(commissions) if commissions.contains_key(
                staker,
            ) => commissions[staker].normalized(min_commission_bps),
            _ => terms_of(stakers, staker, min_commission_bps),
        }),
{
    if let Some(commissions) = stakers.custom_commissions {
        let kept = normalized_commissions(commissions, min_commission_bps);
        if kept == Map::<Seq<char>, CommissionConfigView>::empty() {
            assert(!kept.contains_key(staker));
        }
    }
}

/// A split is dropped exactly if it pays nothing. One that is kept has the
/// claimant it had, and the share it had up to a whole.
pub proof fn law_split_is_dropped_exactly_if_it_pays_nothing(split: ValidatorRewardSplitView)
    ensures
        split.normalized() is None <==> split.claimant_commission_bps == 0,
        split.normalized() matches Some(kept) ==> {
            &&& kept.claimant_pubkey == split.claimant_pubkey
            &&& kept.claimant_commission_bps == if split.claimant_commission_bps
                <= MAX_COMMISSION_BPS {
                split.claimant_commission_bps
            } else {
                MAX_COMMISSION_BPS
            }
        },
{
}

/// Every validator keeps its entry and none is added, each entry is the normal
/// form of what the same validator had, and neither the stake pools nor the
/// excluded stakes change.
pub proof fn law_validators_are_kept(
    config: DistributionConfigView,
    validator: Seq<char>,
    min_commission_bps: u32,
)
    ensures
        config.normalized(min_commission_bps).stake_pool_ids == config.stake_pool_ids,
        config.normalized(min_commission_bps).validators_config.dom()
            == config.validators_config.dom(),
        config.validators_config.contains_key(validator) ==> {
            let before = config.validators_config[validator];
            let after = config.normalized(min_commission_bps).validators_config[validator];
            &&& after == before.normalized(min_commission_bps)
            &&& after.stakers is Some <==> before.stakers is Some
            &&& before.stakers is Some ==> after.stakers->0.excluded_stake_pubkeys
                == before.stakers->0.excluded_stake_pubkeys
        },
{
    assert(config.normalized(min_commission_bps).validators_config.dom()
        =~= config.validators_config.dom());
}

/// Every validator's configuration ends up in its normal form.
pub proof fn law_result_is_normal(
    config: DistributionConfigView,
    validator: Seq<char>,
    min_commission_bps: u32,
)
    requires
        config.validators_config.contains_key(validator),
    ensures
        validator_is_normal(
            config.normalized(min_commission_bps).validators_config[validator],
            min_commission_bps,
        ),
{
}

/// An entry that is kept stays as it is when normalized again exactly if it is
/// stable.
pub proof fn law_kept_commission_is_final_exactly_if_stable(
    commission: CommissionConfigView,
    min_commission_bps: u32,
)
    requires
        commission.normalized(min_commission_bps) != CommissionConfigView::unnamed(
            min_commission_bps,
        ),
    ensures
        commission.normalized(min_commission_bps).normalized(min_commission_bps)
            == commission.normalized(min_commission_bps) <==> commission_is_stable(
            commission,
            min_commission_bps,
        ),
{
}

proof fn lemma_commissions_are_stable(
    commissions: Map<Seq<char>, CommissionConfigView>,
    min_commission_bps: u32,
)
    requires
        forall|staker: Seq<char>| #[trigger]
            commissions.contains_key(staker) ==> commission_is_stable(
                commissions[staker],
                min_commission_bps,
            ),
    ensures
        ({
            let once = normalized_commissions(commissions, min_commission_bps);
            normalized_commissions(once, min_commission_bps) == once
        }),
{
    let once = normalized_commissions(commissions, min_commission_bps);
    let twice = normalized_commissions(once, min_commission_bps);
    assert forall|staker: Seq<char>| #[trigger] once.contains_key(staker) implies once[staker]
        == once[staker].normalized(min_commission_bps) by {
        assert(commissions.contains_key(staker));
        assert(once[staker] == commissions[staker].normalized(min_commission_bps));
    }
    assert(twice =~= once);
}

/// Normalizing a second time changes nothing, wherever the commissions are stable.
pub proof fn law_normalizing_twice_is_normalizing_once(
    config: DistributionConfigView,
    min_commission_bps: u32,
)
    requires
        forall|validator: Seq<char>| #[trigger]
            config.validators_config.contains_key(validator) ==> validator_is_stable(
                config.validators_config[validator],
                min_commission_bps,
            ),
    ensures
        config.normalized(min_commission_bps).normalized(min_commission_bps) == config.normalized(
            min_commission_bps,
        ),
{
    let once = config.normalized(min_commission_bps);
    let twice = once.normalized(min_commission_bps);
    assert forall|validator: Seq<char>| #[trigger]
        once.validators_config.contains_key(
            validator,
        ) implies twice.validators_config[validator] == once.validators_config[validator] by {
        let before = config.validators_config[validator];
        assert(config.validators_config.contains_key(validator));
        if let Some(stakers) = before.stakers {
            if let Some(commissions) = stakers.custom_commissions {
                lemma_commissions_are_stable(commissions, min_commission_bps);
            }
        }
    }
    assert(twice.validators_config =~= once.validators_config);
}

/// A commission below the minimum is raised to it, one from there to 10000 stays,
/// and any other is lowered to 10000.
pub proof fn law_commission_ends_at_the_nearer_limit(commission_bps: u32, min_commission_bps: u32)
    ensures
        commission_bps < min_commission_bps ==> normalized_commission(
            commission_bps,
            min_commission_bps,
        ) == min_commission_bps,
        min_commission_bps <= commission_bps <= 10_000 ==> normalized_commission(
            commission_bps,
            min_commission_bps,
        ) == commission_bps,
        min_commission_bps <= commission_bps && 10_000 < commission_bps ==> normalized_commission(
            commission_bps,
            min_commission_bps,
        ) == 10_000,
{
}

/// The entry of a staker, where there is one.
pub open spec fn entry_of(stakers: StakersConfigView, staker: Seq<char>) -> Option<
    CommissionConfigView,
> {
    match stakers.custom_commissions {
        Some(commissions) if commissions.contains_key(staker) => Some(commissions[staker]),
        _ => None,
    }
}

/// What an entry that is kept owes to the one before: a commission at the nearer
/// limit, and the referral, whole, unless it pays nothing.
pub open spec fn entry_is_carried_over(
    before: CommissionConfigView,
    after: CommissionConfigView,
    min_commission_bps: u32,
) -> bool {
    &&& before.commission_bps < min_commission_bps ==> after.commission_bps == min_commission_bps
    &&& min_commission_bps <= before.commission_bps <= 10_000 ==> after.commission_bps
        == before.commission_bps
    &&& min_commission_bps <= before.commission_bps && 10_000 < before.commission_bps
        ==> after.commission_bps == 10_000
    &&& before.referral_claimant_commission_bps == Some(0u32)
        ==> after.referral_claimant_pubkey is None && after.referral_claimant_commission_bps is None
    &&& before.referral_claimant_commission_bps != Some(0u32) ==> after.referral_claimant_pubkey
        == before.referral_claimant_pubkey && after.referral_claimant_commission_bps
        == before.referral_claimant_commission_bps
}

/// Whether an entry is like having none: no one is paid for a referral or named
/// for one that would be, and the commission ends at the minimum.
pub open spec fn entry_is_default_like(
    entry: CommissionConfigView,
    min_commission_bps: u32,
) -> bool {
    &&& {
        ||| entry.referral_claimant_commission_bps == Some(0u32)
        ||| entry.referral_claimant_commission_bps is None && entry.referral_claimant_pubkey is None
    }
    &&& {
        ||| entry.commission_bps < min_commission_bps
        ||| entry.commission_bps == min_commission_bps && min_commission_bps <= 10_000
        ||| entry.commission_bps > 10_000 && min_commission_bps == 10_000
    }
}

/// How what is kept of a staker follows from what there was: an entry is dropped
/// exactly if it is default-like and is otherwise carried over, and none is made up.
pub open spec fn entry_outcome(
    before: Option<CommissionConfigView>,
    after: Option<CommissionConfigView>,
    min_commission_bps: u32,
) -> bool {
    match before {
        Some(entry) => match after {
            Some(kept) => !entry_is_default_like(entry, min_commission_bps)
                && entry_is_carried_over(entry, kept, min_commission_bps),
            None => entry_is_default_like(entry, min_commission_bps),
        },
        None => after is None,
    }
}

/// How what is kept of a split follows from what there was: there is one exactly
/// if there was one that paid something, for the same claimant and at the same
/// share, or 10000 where it was more.
pub open spec fn split_outcome(
    before: Option<ValidatorRewardSplitView>,
    after: Option<ValidatorRewardSplitView>,
) -> bool {
    &&& after is Some <==> before is Some && before->0.claimant_commission_bps > 0
    &&& after is Some ==> {
        &&& after->0.claimant_pubkey == before->0.claimant_pubkey
        &&& before->0.claimant_commission_bps <= 10_000 ==> after->0.claimant_commission_bps
            == before->0.claimant_commission_bps
        &&& before->0.claimant_commission_bps > 10_000 ==> after->0.claimant_commission_bps
            == 10_000
    }
}

/// The normal form of an entry carries it over, and is what a staker has who is
/// not named exactly if the entry is default-like.
pub proof fn law_entry_is_carried_over(entry: CommissionConfigView, min_commission_bps: u32)
    ensures
        entry_is_carried_over(entry, entry.normalized(min_commission_bps), min_commission_bps),
        entry.normalized(min_commission_bps) == CommissionConfigView::unnamed(min_commission_bps)
            <==> entry_is_default_like(entry, min_commission_bps),
{
}

/// A staker who is not named has the minimum and no referral.
pub proof fn law_unnamed_has_the_minimum_and_no_referral(min_commission_bps: u32)
    ensures
        CommissionConfigView::unnamed(min_commission_bps).commission_bps == min_commission_bps,
        CommissionConfigView::unnamed(min_commission_bps).referral_claimant_pubkey is None,
        CommissionConfigView::unnamed(min_commission_bps).referral_claimant_commission_bps is None,
{
}

/// Of every staker of a validator the entry is dropped exactly if it is
/// default-like and otherwise carried over; no entry is made up; a map that is
/// left has an entry; and the excluded stakes stay.
pub proof fn law_entries_are_kept_unless_default_like(
    stakers: StakersConfigView,
    staker: Seq<char>,
    min_commission_bps: u32,
)
    ensures
        ({
            let after = stakers.normalized(min_commission_bps);
            &&& entry_outcome(
                entry_of(stakers, staker),
                entry_of(after, staker),
                min_commission_bps,
            )
            &&& after.custom_commissions is Some ==> exists|kept: Seq<char>| #[trigger]
                after.custom_commissions->0.contains_key(kept)
            &&& after.excluded_stake_pubkeys == stakers.excluded_stake_pubkeys
        }),
{
    let after = stakers.normalized(min_commission_bps);
    if let Some(commissions) = stakers.custom_commissions {
        let kept = normalized_commissions(commissions, min_commission_bps);
        if kept == Map::<Seq<char>, CommissionConfigView>::empty() {
            assert(!kept.contains_key(staker));
        } else {
            if forall|named: Seq<char>| !kept.contains_key(named) {
                assert(kept =~= Map::<Seq<char>, CommissionConfigView>::empty());
            }
        }
    }
}

/// A validator keeps its stakers section exactly if it had one, and in it every
/// staker's entry fares as it does by itself, whatever else the section holds and
/// whether there is a split; and the split fares as it does by itself, whether
/// there is a stakers section.
pub proof fn law_parts_of_a_validator_are_kept(
    validator: ValidatorConfigView,
    staker: Seq<char>,
    min_commission_bps: u32,
)
    ensures
        ({
            let after = validator.normalized(min_commission_bps);
            &&& after.stakers is Some <==> validator.stakers is Some
            &&& validator.stakers is Some ==> {
                &&& entry_outcome(
                    entry_of(validator.stakers->0, staker),
                    entry_of(after.stakers->0, staker),
                    min_commission_bps,
                )
                &&& after.stakers->0.custom_commissions is Some ==> exists|kept: Seq<char>|
                    #[trigger] after.stakers->0.custom_commissions->0.contains_key(kept)
                &&& after.stakers->0.excluded_stake_pubkeys
                    == validator.stakers->0.excluded_stake_pubkeys
            }
            &&& split_outcome(validator.validator_reward_split, after.validator_reward_split)
        }),
{
    if let Some(stakers) = validator.stakers {
        law_entries_are_kept_unless_default_like(stakers, staker, min_commission_bps);
    }
}

/// In a whole configuration: the stake pools stay; there are entries for the same
/// validators; and of each, every staker's entry is dropped exactly if it is
/// default-like and otherwise carried over, the excluded stakes stay, and the
/// split stays unless it pays nothing, at 10000 at most.
pub proof fn law_parts_of_a_config_are_kept(
    config: DistributionConfigView,
    validator: Seq<char>,
    staker: Seq<char>,
    min_commission_bps: u32,
)
    ensures
        ({
            let normal = config.normalized(min_commission_bps);
            &&& normal.stake_pool_ids == config.stake_pool_ids
            &&& normal.validators_config.contains_key(validator)
                <==> config.validators_config.contains_key(validator)
            &&& config.validators_config.contains_key(validator) ==> {
                let before = config.validators_config[validator];
                let after = normal.validators_config[validator];
                &&& after.stakers is Some <==> before.stakers is Some
                &&& before.stakers is Some ==> {
                    &&& entry_outcome(
                        entry_of(before.stakers->0, staker),
                        entry_of(after.stakers->0, staker),
                        min_commission_bps,
                    )
                    &&& after.stakers->0.custom_commissions is Some ==> exists|kept: Seq<char>|
                        #[trigger] after.stakers->0.custom_commissions->0.contains_key(kept)
                    &&& after.stakers->0.excluded_stake_pubkeys
                        == before.stakers->0.excluded_stake_pubkeys
                }
                &&& split_outcome(before.validator_reward_split, after.validator_reward_split)
            }
        }),
{
    if config.validators_config.contains_key(validator) {
        law_parts_of_a_validator_are_kept(
            config.validators_config[validator],
            staker,
            min_commission_bps,
        );
    }
}

/// Validators do not affect each other, nor do the stake pools affect them: one
/// that has the same entry in two configurations ends up with the same.
pub proof fn law_validators_do_not_affect_each_other(
    a: DistributionConfigView,
    b: DistributionConfigView,
    validator: Seq<char>,
    min_commission_bps: u32,
)
    requires
        a.validators_config.contains_key(validator),
        b.validators_config.contains_key(validator),
        a.validators_config[validator] == b.validators_config[validator],
    ensures
        a.normalized(min_commission_bps).validators_config[validator] == b.normalized(
            min_commission_bps,
        ).validators_config[validator],
{
}

/// Stakers do not affect each other, nor do the excluded stakes affect them: one
/// who has the same entry in two sections ends up with the same.
pub proof fn law_stakers_do_not_affect_each_other(
    a: StakersConfigView,
    b: StakersConfigView,
    staker: Seq<char>,
    min_commission_bps: u32,
)
    requires
        entry_of(a, staker) == entry_of(b, staker),
    ensures
        entry_of(a.normalized(min_commission_bps), staker) == entry_of(
            b.normalized(min_commission_bps),
            staker,
        ),
{
    law_entries_are_kept_unless_default_like(a, staker, min_commission_bps);
    law_entries_are_kept_unless_default_like(b, staker, min_commission_bps);
}

/// The stakers section and the split of a validator do not affect each other.
pub proof fn law_sections_do_not_affect_each_other(
    a: ValidatorConfigView,
    b: ValidatorConfigView,
    min_commission_bps: u32,
)
    ensures
        a.stakers == b.stakers ==> a.normalized(min_commission_bps).stakers == b.normalized(
            min_commission_bps,
        ).stakers,
        a.validator_reward_split == b.validator_reward_split ==> a.normalized(
            min_commission_bps,
        ).validator_reward_split == b.normalized(min_commission_bps).validator_reward_split,
{
}

/// The contents of an entry and of a split show every field.
pub proof fn law_contents_show_entries_and_splits(
    entry: CommissionConfig,
    split: ValidatorRewardSplit,
)
    ensures
        entry@.commission_bps == entry.commission_bps,
        entry@.referral_claimant_commission_bps == entry.referral_claimant_commission_bps,
        entry@.referral_claimant_pubkey is Some <==> entry.referral_claimant_pubkey is Some,
        entry.referral_claimant_pubkey matches Some(pubkey) ==> entry@.referral_claimant_pubkey
            == Some(pubkey@),
        split@.claimant_pubkey == split.claimant_pubkey@,
        split@.claimant_commission_bps == split.claimant_commission_bps,
{
}

/// The contents of a stakers section show every excluded stake, in its place, and
/// the map of commissions.
pub proof fn law_contents_show_stakers(stakers: StakersConfig, i: int)
    ensures
        stakers@.excluded_stake_pubkeys is Some <==> stakers.excluded_stake_pubkeys is Some,
        stakers.excluded_stake_pubkeys matches Some(pubkeys) ==> {
            &&& stakers@.excluded_stake_pubkeys->0.len() == pubkeys@.len()
            &&& 0 <= i < pubkeys@.len() ==> stakers@.excluded_stake_pubkeys->0[i] == pubkeys@[i]@
        },
        stakers@.custom_commissions is Some <==> stakers.custom_commissions is Some,
        stakers.custom_commissions matches Some(commissions) ==> stakers@.custom_commissions
            == Some(commissions@),
{
}

/// The contents of a validator's configuration show both its sections.
pub proof fn law_contents_show_validators(validator: ValidatorConfig)
    ensures
        validator@.stakers is Some <==> validator.stakers is Some,
        validator.stakers matches Some(stakers) ==> validator@.stakers == Some(stakers@),
        validator@.validator_reward_split is Some <==> validator.validator_reward_split is Some,
        validator.validator_reward_split matches Some(split) ==> validator@.validator_reward_split
            == Some(split@),
{
}

/// The contents of a configuration show every stake pool, in its place, and the
/// map of validators.
pub proof fn law_contents_show_the_config(config: DistributionConfig, i: int)
    ensures
        config@.stake_pool_ids.len() == config.stake_pool_ids@.len(),
        0 <= i < config.stake_pool_ids@.len() ==> config@.stake_pool_ids[i]
            == config.stake_pool_ids@[i]@,
        config@.validators_config == config.validators_config@,
{
}

} // verus!
