//! How the rewards of a block are shared among stakers and claimants, and how a
//! configuration of it is brought into its normal form.

use crate::config_map::lemma_view_of_push;
use crate::config_map::{entries_view, has_key, keys_distinct, ConfigMap};
use vstd::prelude::*;

verus! {

/// All of a reward, in basis points.
pub const MAX_COMMISSION_BPS: u32 = 10_000;

/// The whole configuration: one entry per validator.
#[derive(Debug)]
pub struct DistributionConfig {
    pub stake_pool_ids: Vec<String>,
    pub validators_config: ConfigMap<ValidatorConfig>,
}

/// What holds for one validator.
#[derive(Debug)]
pub struct ValidatorConfig {
    pub stakers: Option<StakersConfig>,
    pub validator_reward_split: Option<ValidatorRewardSplit>,
}

/// What holds for the stakers of one validator.
#[derive(Debug)]
pub struct StakersConfig {
    pub excluded_stake_pubkeys: Option<Vec<String>>,
    pub custom_commissions: Option<ConfigMap<CommissionConfig>>,
}

/// The commission of one staker, and who is paid for having referred them.
#[derive(Debug)]
pub struct CommissionConfig {
    pub commission_bps: u32,
    pub referral_claimant_pubkey: Option<String>,
    pub referral_claimant_commission_bps: Option<u32>,
}

/// The share of the validator's own reward that goes to a claimant.
#[derive(Debug)]
pub struct ValidatorRewardSplit {
    pub claimant_pubkey: String,
    pub claimant_commission_bps: u32,
}

/// The contents of a [`DistributionConfig`].
#[verifier::ext_equal]
pub ghost struct DistributionConfigView {
    pub stake_pool_ids: Seq<Seq<char>>,
    pub validators_config: Map<Seq<char>, ValidatorConfigView>,
}

/// The contents of a [`ValidatorConfig`].
#[verifier::ext_equal]
pub ghost struct ValidatorConfigView {
    pub stakers: Option<StakersConfigView>,
    pub validator_reward_split: Option<ValidatorRewardSplitView>,
}

/// The contents of a [`StakersConfig`].
#[verifier::ext_equal]
pub ghost struct StakersConfigView {
    pub excluded_stake_pubkeys: Option<Seq<Seq<char>>>,
    pub custom_commissions: Option<Map<Seq<char>, CommissionConfigView>>,
}

/// The contents of a [`CommissionConfig`].
#[verifier::ext_equal]
pub ghost struct CommissionConfigView {
    pub commission_bps: u32,
    pub referral_claimant_pubkey: Option<Seq<char>>,
    pub referral_claimant_commission_bps: Option<u32>,
}

/// The contents of a [`ValidatorRewardSplit`].
#[verifier::ext_equal]
pub ghost struct ValidatorRewardSplitView {
    pub claimant_pubkey: Seq<char>,
    pub claimant_commission_bps: u32,
}

impl View for DistributionConfig {
    type V = DistributionConfigView;

    open spec fn view(&self) -> DistributionConfigView {
        DistributionConfigView {
            stake_pool_ids: self.stake_pool_ids.deep_view(),
            validators_config: self.validators_config@,
        }
    }
}

impl View for ValidatorConfig {
    type V = ValidatorConfigView;

    open spec fn view(&self) -> ValidatorConfigView {
        ValidatorConfigView {
            stakers: match self.stakers {
                Some(stakers) => Some(stakers@),
                None => None,
            },
            validator_reward_split: match self.validator_reward_split {
                Some(split) => Some(split@),
                None => None,
            },
        }
    }
}

impl View for StakersConfig {
    type V = StakersConfigView;

    open spec fn view(&self) -> StakersConfigView {
        StakersConfigView {
            excluded_stake_pubkeys: self.excluded_stake_pubkeys.deep_view(),
            custom_commissions: match self.custom_commissions {
                Some(commissions) => Some(commissions@),
                None => None,
            },
        }
    }
}

impl View for CommissionConfig {
    type V = CommissionConfigView;

    open spec fn view(&self) -> CommissionConfigView {
        CommissionConfigView {
            commission_bps: self.commission_bps,
            referral_claimant_pubkey: self.referral_claimant_pubkey.deep_view(),
            referral_claimant_commission_bps: self.referral_claimant_commission_bps,
        }
    }
}

impl View for ValidatorRewardSplit {
    type V = ValidatorRewardSplitView;

    open spec fn view(&self) -> ValidatorRewardSplitView {
        ValidatorRewardSplitView {
            claimant_pubkey: self.claimant_pubkey@,
            claimant_commission_bps: self.claimant_commission_bps,
        }
    }
}

/// The commission clamped to at least `min_commission_bps` and at most a whole.
/// The minimum comes first: where it exceeds a whole itself, a commission below it
/// is raised to it.
pub open spec fn normalized_commission(commission_bps: u32, min_commission_bps: u32) -> u32 {
    if commission_bps < min_commission_bps {
        min_commission_bps
    } else if commission_bps > MAX_COMMISSION_BPS {
        MAX_COMMISSION_BPS
    } else {
        commission_bps
    }
}

impl CommissionConfigView {
    /// What a staker has who is not named: the minimum, and no referral.
    pub open spec fn unnamed(min_commission_bps: u32) -> Self {
        CommissionConfigView {
            commission_bps: min_commission_bps,
            referral_claimant_pubkey: None,
            referral_claimant_commission_bps: None,
        }
    }

    /// The normal form: the commission clamped, and no referral that pays nothing.
    pub open spec fn normalized(self, min_commission_bps: u32) -> Self {
        let pays_nothing = self.referral_claimant_commission_bps == Some(0u32);
        CommissionConfigView {
            commission_bps: normalized_commission(self.commission_bps, min_commission_bps),
            referral_claimant_pubkey: if pays_nothing {
                None
            } else {
                self.referral_claimant_pubkey
            },
            referral_claimant_commission_bps: if pays_nothing {
                None
            } else {
                self.referral_claimant_commission_bps
            },
        }
    }
}

/// The normal form of each commission, without those that say no more than
/// leaving the staker out would.
pub open spec fn normalized_commissions(
    commissions: Map<Seq<char>, CommissionConfigView>,
    min_commission_bps: u32,
) -> Map<Seq<char>, CommissionConfigView> {
    Map::new(
        |staker: Seq<char>|
            commissions.contains_key(staker) && commissions[staker].normalized(min_commission_bps)
                != CommissionConfigView::unnamed(min_commission_bps),
        |staker: Seq<char>| commissions[staker].normalized(min_commission_bps),
    )
}

impl StakersConfigView {
    /// The normal form: an empty map of commissions is no map.
    pub open spec fn normalized(self, min_commission_bps: u32) -> Self {
        StakersConfigView {
            excluded_stake_pubkeys: self.excluded_stake_pubkeys,
            custom_commissions: match self.custom_commissions {
                Some(commissions) => {
                    let kept = normalized_commissions(commissions, min_commission_bps);
                    if kept == Map::<Seq<char>, CommissionConfigView>::empty() {
                        None
                    } else {
                        Some(kept)
                    }
                },
                None => None,
            },
        }
    }
}

impl ValidatorRewardSplitView {
    /// The normal form: at most a whole, and no split that pays nothing.
    pub open spec fn normalized(self) -> Option<Self> {
        if self.claimant_commission_bps == 0 {
            None
        } else if self.claimant_commission_bps > MAX_COMMISSION_BPS {
            Some(ValidatorRewardSplitView { claimant_commission_bps: MAX_COMMISSION_BPS, ..self })
        } else {
            Some(self)
        }
    }
}

impl ValidatorConfigView {
    /// The normal form: that of each part.
    pub open spec fn normalized(self, min_commission_bps: u32) -> Self {
        ValidatorConfigView {
            stakers: match self.stakers {
                Some(stakers) => Some(stakers.normalized(min_commission_bps)),
                None => None,
            },
            validator_reward_split: match self.validator_reward_split {
                Some(split) => split.normalized(),
                None => None,
            },
        }
    }
}

impl DistributionConfigView {
    /// The normal form: that of each validator.
    pub open spec fn normalized(self, min_commission_bps: u32) -> Self {
        DistributionConfigView {
            stake_pool_ids: self.stake_pool_ids,
            validators_config: self.validators_config.map_values(
                |validator: ValidatorConfigView| validator.normalized(min_commission_bps),
            ),
        }
    }
}

impl CommissionConfig {
    /// Clamps the commission and drops a referral that pays nothing.
    pub fn normalize(&mut self, min_commission_bps: u32)
        ensures
            final(self)@ == old(self)@.normalized(min_commission_bps),
    {
        if self.commission_bps < min_commission_bps {
            self.commission_bps = min_commission_bps;
        } else if self.commission_bps > MAX_COMMISSION_BPS {
            self.commission_bps = MAX_COMMISSION_BPS;
        }
        if let Some(bps) = self.referral_claimant_commission_bps {
            if bps == 0 {
                self.referral_claimant_commission_bps = None;
                self.referral_claimant_pubkey = None;
            }
        }
    }

    /// Whether the entry says no more than leaving the staker out would.
    pub fn is_redundant(&self, min_commission_bps: u32) -> (redundant: bool)
        ensures
            redundant == (self@ == CommissionConfigView::unnamed(min_commission_bps)),
    {
        self.commission_bps == min_commission_bps && self.referral_claimant_pubkey.is_none()
            && self.referral_claimant_commission_bps.is_none()
    }
}

/// The normal form of each commission, without the redundant ones.
fn normalize_commissions(
    commissions: ConfigMap<CommissionConfig>,
    min_commission_bps: u32,
) -> (kept: ConfigMap<CommissionConfig>)
    ensures
        kept@ == normalized_commissions(commissions@, min_commission_bps),
{
    let entries = commissions.into_entries();
    let ghost all = entries@;
    let mut kept: ConfigMap<CommissionConfig> = ConfigMap::new();
    proof {
        assert(all.take(0) =~= Seq::empty());
        assert(kept@ =~= normalized_commissions(entries_view(all.take(0)), min_commission_bps));
    }
    for entry in it: entries.into_iter()
        invariant
            it.seq() == all,
            keys_distinct(all),
            kept@ == normalized_commissions(
                entries_view(all.take(it.index() as int)),
                min_commission_bps,
            ),
    {
        let ghost i = it.index() as int;
        let ghost done = all.take(i);
        let (staker, mut config) = entry;
        proof {
            assert(all.take(i + 1) =~= done.push(all[i]));
            assert(!has_key(done, staker@));
            lemma_view_of_push(done, all[i]);
        }
        config.normalize(min_commission_bps);
        if !config.is_redundant(min_commission_bps) {
            kept.push_new(staker, config);
        }
        assert(kept@ =~= normalized_commissions(
            entries_view(all.take(i + 1)),
            min_commission_bps,
        ));
    }
    assert(all.take(all.len() as int) =~= all);
    kept
}

impl StakersConfig {
    /// Normalizes the commissions, and drops the map where none is left.
    pub fn normalize(&mut self, min_commission_bps: u32)
        ensures
            final(self)@ == old(self)@.normalized(min_commission_bps),
    {
        if let Some(commissions) = self.custom_commissions.take() {
            let kept = normalize_commissions(commissions, min_commission_bps);
            if !kept.is_empty() {
                self.custom_commissions = Some(kept);
            }
        }
    }
}

impl ValidatorConfig {
    /// Normalizes what holds for the stakers and for the validator's own reward.
    pub fn normalize(&mut self, min_commission_bps: u32)
        ensures
            final(self)@ == old(self)@.normalized(min_commission_bps),
    {
        if let Some(stakers) = &mut self.stakers {
            stakers.normalize(min_commission_bps);
        }
        if let Some(split) = &mut self.validator_reward_split {
            if split.claimant_commission_bps > MAX_COMMISSION_BPS {
                split.claimant_commission_bps = MAX_COMMISSION_BPS;
            }
            if split.claimant_commission_bps == 0 {
                self.validator_reward_split = None;
            }
        }
    }
}

impl DistributionConfig {
    /// Brings the configuration of every validator into its normal form.
    pub fn validate_and_normalize(&mut self, min_commission_bps: u32)
        ensures
            final(self)@ == old(self)@.normalized(min_commission_bps),
    {
        let ghost normal_form = |validator: ValidatorConfigView|
            validator.normalized(min_commission_bps);
        let mut validators: ConfigMap<ValidatorConfig> = ConfigMap::new();
        std::mem::swap(&mut validators, &mut self.validators_config);
        let entries = validators.into_entries();
        let ghost all = entries@;
        let mut normalized: ConfigMap<ValidatorConfig> = ConfigMap::new();
        proof {
            assert(all.take(0) =~= Seq::empty());
            assert(normalized@ =~= entries_view(all.take(0)).map_values(normal_form));
        }
        for entry in it: entries.into_iter()
            invariant
                it.seq() == all,
                keys_distinct(all),
                normal_form == (|validator: ValidatorConfigView|
                    validator.normalized(min_commission_bps)),
                normalized@ == entries_view(all.take(it.index() as int)).map_values(normal_form),
        {
            let ghost i = it.index() as int;
            let ghost done = all.take(i);
            let (validator, mut config) = entry;
            proof {
                assert(all.take(i + 1) =~= done.push(all[i]));
                assert(!has_key(done, validator@));
                lemma_view_of_push(done, all[i]);
            }
            config.normalize(min_commission_bps);
            normalized.push_new(validator, config);
            assert(normalized@ =~= entries_view(all.take(i + 1)).map_values(normal_form));
        }
        assert(all.take(all.len() as int) =~= all);
        self.validators_config = normalized;
    }
}

/// A copy of some strings.
fn clone_strings(strings: &Vec<String>) -> (copy: Vec<String>)
    ensures
        copy@ == strings@,
{
    let copy = strings.clone();
    assert(copy@ =~= strings@);
    copy
}

impl Clone for ValidatorRewardSplit {
    fn clone(&self) -> (copy: Self)
        ensures
            copy@ == self@,
    {
        ValidatorRewardSplit {
            claimant_pubkey: self.claimant_pubkey.clone(),
            claimant_commission_bps: self.claimant_commission_bps,
        }
    }
}

impl Clone for CommissionConfig {
    fn clone(&self) -> (copy: Self)
        ensures
            copy@ == self@,
    {
        CommissionConfig {
            commission_bps: self.commission_bps,
            referral_claimant_pubkey: self.referral_claimant_pubkey.clone(),
            referral_claimant_commission_bps: self.referral_claimant_commission_bps,
        }
    }
}

impl Clone for StakersConfig {
    fn clone(&self) -> (copy: Self)
        ensures
            copy@ == self@,
    {
        StakersConfig {
            excluded_stake_pubkeys: match &self.excluded_stake_pubkeys {
                Some(pubkeys) => Some(clone_strings(pubkeys)),
                None => None,
            },
            custom_commissions: match &self.custom_commissions {
                Some(commissions) => Some(commissions.clone()),
                None => None,
            },
        }
    }
}

impl Clone for ValidatorConfig {
    fn clone(&self) -> (copy: Self)
        ensures
            copy@ == self@,
    {
        ValidatorConfig {
            stakers: match &self.stakers {
                Some(stakers) => Some(stakers.clone()),
                None => None,
            },
            validator_reward_split: match &self.validator_reward_split {
                Some(split) => Some(split.clone()),
                None => None,
            },
        }
    }
}

impl Clone for DistributionConfig {
    fn clone(&self) -> (copy: Self)
        ensures
            copy@ == self@,
    {
        DistributionConfig {
            stake_pool_ids: clone_strings(&self.stake_pool_ids),
            validators_config: self.validators_config.clone(),
        }
    }
}

impl Default for ValidatorRewardSplit {
    fn default() -> (split: Self)
        ensures
            split@ == (ValidatorRewardSplitView {
                claimant_pubkey: Seq::empty(),
                claimant_commission_bps: 0,
            }),
    {
        ValidatorRewardSplit { claimant_pubkey: String::new(), claimant_commission_bps: 0 }
    }
}

impl Default for CommissionConfig {
    fn default() -> (commission: Self)
        ensures
            commission@ == CommissionConfigView::unnamed(0),
    {
        CommissionConfig {
            commission_bps: 0,
            referral_claimant_pubkey: None,
            referral_claimant_commission_bps: None,
        }
    }
}

impl Default for StakersConfig {
    fn default() -> (stakers: Self)
        ensures
            stakers@ == (StakersConfigView {
                excluded_stake_pubkeys: None,
                custom_commissions: None,
            }),
    {
        StakersConfig { excluded_stake_pubkeys: None, custom_commissions: None }
    }
}

impl Default for ValidatorConfig {
    fn default() -> (validator: Self)
        ensures
            validator@ == (ValidatorConfigView { stakers: None, validator_reward_split: None }),
    {
        ValidatorConfig { stakers: None, validator_reward_split: None }
    }
}

impl Default for DistributionConfig {
    fn default() -> (config: Self)
        ensures
            config@ == (DistributionConfigView {
                stake_pool_ids: Seq::empty(),
                validators_config: Map::empty(),
            }),
    {
        let config = DistributionConfig {
            stake_pool_ids: Vec::new(),
            validators_config: ConfigMap::new(),
        };
        assert(config@.stake_pool_ids =~= Seq::empty());
        config
    }
}

} // verus!
