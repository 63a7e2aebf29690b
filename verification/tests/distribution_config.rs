use block_production::config_map::ConfigMap;
use block_production::distribution_config_parser::{
    CommissionConfig, DistributionConfig, StakersConfig, ValidatorConfig, ValidatorRewardSplit,
    MAX_COMMISSION_BPS,
};

fn commission(bps: u32, referral: Option<(&str, u32)>) -> CommissionConfig {
    CommissionConfig {
        commission_bps: bps,
        referral_claimant_pubkey: referral.map(|(pubkey, _)| pubkey.to_string()),
        referral_claimant_commission_bps: referral.map(|(_, bps)| bps),
    }
}

fn validator(stakers: Vec<(&str, CommissionConfig)>, split_bps: Option<u32>) -> ValidatorConfig {
    let mut commissions = ConfigMap::new();
    for (staker, config) in stakers {
        commissions.insert(staker.to_string(), config);
    }
    ValidatorConfig {
        stakers: Some(StakersConfig {
            excluded_stake_pubkeys: Some(vec!["excluded".to_string()]),
            custom_commissions: Some(commissions),
        }),
        validator_reward_split: split_bps.map(|bps| ValidatorRewardSplit {
            claimant_pubkey: "claimant".to_string(),
            claimant_commission_bps: bps,
        }),
    }
}

fn config(validators: Vec<(&str, ValidatorConfig)>) -> DistributionConfig {
    let mut validators_config = ConfigMap::new();
    for (name, validator) in validators {
        validators_config.insert(name.to_string(), validator);
    }
    DistributionConfig {
        stake_pool_ids: vec!["pool".to_string()],
        validators_config,
    }
}

fn stakers_of(config: &DistributionConfig) -> &StakersConfig {
    let validator = config.validators_config.get(&"v".to_string()).unwrap();
    validator.stakers.as_ref().unwrap()
}

fn entry<'a>(config: &'a DistributionConfig, staker: &str) -> Option<&'a CommissionConfig> {
    stakers_of(config)
        .custom_commissions
        .as_ref()
        .and_then(|commissions| commissions.get(&staker.to_string()))
}

fn split_after(bps: u32) -> Option<u32> {
    let mut config = config(vec![("v", validator(vec![], Some(bps)))]);
    config.validate_and_normalize(500);
    let validator = config.validators_config.get(&"v".to_string()).unwrap();
    validator.validator_reward_split.as_ref().map(|split| {
        assert_eq!(split.claimant_pubkey, "claimant");
        split.claimant_commission_bps
    })
}

fn commission_after(bps: u32, min_commission_bps: u32) -> u32 {
    let mut config = config(vec![("v", validator(vec![("s", commission(bps, Some(("r", 1))))], None))]);
    config.validate_and_normalize(min_commission_bps);
    entry(&config, "s").unwrap().commission_bps
}

#[test]
fn commission_is_clamped() {
    assert_eq!(commission_after(0, 500), 500);
    assert_eq!(commission_after(300, 500), 500);
    assert_eq!(commission_after(499, 500), 500);
    assert_eq!(commission_after(500, 500), 500);
    assert_eq!(commission_after(800, 500), 800);
    assert_eq!(commission_after(10_000, 500), 10_000);
    assert_eq!(commission_after(10_001, 500), 10_000);
    assert_eq!(commission_after(u32::MAX, 0), 10_000);
    assert_eq!(commission_after(20_000, 10_000), 10_000);
    for bps in [0, 1, 499, 500, 501, 9_999, 10_000, 10_001, u32::MAX] {
        for min in [0, 500, 10_000] {
            let after = commission_after(bps, min);
            assert!(min <= after && after <= MAX_COMMISSION_BPS);
        }
    }
}

#[test]
fn commission_under_a_minimum_above_a_whole() {
    assert_eq!(commission_after(9_999, 20_000), 20_000);
    assert_eq!(commission_after(19_999, 20_000), 20_000);
    assert_eq!(commission_after(20_000, 20_000), 10_000);
    assert_eq!(commission_after(30_000, 20_000), 10_000);
}

#[test]
fn commission_order_is_kept() {
    assert!(commission_after(400, 500) <= commission_after(600, 500));
    assert!(commission_after(600, 500) <= commission_after(25_000, 500));
    assert!(commission_after(1, 20_000) <= commission_after(19_999, 20_000));
    assert!(commission_after(20_000, 20_000) <= commission_after(25_000, 20_000));
}

#[test]
fn referral_that_pays_nothing_is_dropped() {
    let mut config = config(vec![("v", validator(vec![("s", commission(700, Some(("r", 0))))], None))]);
    config.validate_and_normalize(500);
    let kept = entry(&config, "s").unwrap();
    assert_eq!(kept.commission_bps, 700);
    assert_eq!(kept.referral_claimant_pubkey, None);
    assert_eq!(kept.referral_claimant_commission_bps, None);
}

#[test]
fn referral_that_pays_is_kept() {
    let mut config = config(vec![("v", validator(vec![("s", commission(300, Some(("r", 25))))], None))]);
    config.validate_and_normalize(500);
    let kept = entry(&config, "s").unwrap();
    assert_eq!(kept.commission_bps, 500);
    assert_eq!(kept.referral_claimant_pubkey, Some("r".to_string()));
    assert_eq!(kept.referral_claimant_commission_bps, Some(25));
}

#[test]
fn referral_named_by_half_is_kept() {
    let without_bps = CommissionConfig {
        commission_bps: 500,
        referral_claimant_pubkey: Some("r".to_string()),
        referral_claimant_commission_bps: None,
    };
    let without_pubkey = CommissionConfig {
        commission_bps: 500,
        referral_claimant_pubkey: None,
        referral_claimant_commission_bps: Some(3),
    };
    let mut config = config(vec![("v", validator(vec![("a", without_bps), ("b", without_pubkey)], None))]);
    config.validate_and_normalize(500);
    assert_eq!(entry(&config, "a").unwrap().referral_claimant_pubkey, Some("r".to_string()));
    assert_eq!(entry(&config, "b").unwrap().referral_claimant_commission_bps, Some(3));
}

#[test]
fn redundant_entries_are_dropped() {
    let stakers = vec![
        ("equal", commission(500, None)),
        ("below", commission(499, None)),
        ("zero_referral", commission(300, Some(("r", 0)))),
        ("above", commission(501, None)),
        ("referred", commission(500, Some(("r", 1)))),
    ];
    let mut config = config(vec![("v", validator(stakers, None))]);
    config.validate_and_normalize(500);
    assert!(entry(&config, "equal").is_none());
    assert!(entry(&config, "below").is_none());
    assert!(entry(&config, "zero_referral").is_none());
    assert_eq!(entry(&config, "above").unwrap().commission_bps, 501);
    assert_eq!(entry(&config, "referred").unwrap().commission_bps, 500);
}

#[test]
fn stakers_keep_their_terms() {
    let min = 500;
    let stakers = vec![("dropped", commission(100, None)), ("kept", commission(900, None))];
    let mut config = config(vec![("v", validator(stakers, None))]);
    config.validate_and_normalize(min);
    let terms = |staker: &str| entry(&config, staker).map_or(min, |entry| entry.commission_bps);
    assert_eq!(terms("dropped"), 500);
    assert_eq!(terms("kept"), 900);
    assert_eq!(terms("unnamed"), 500);
}

#[test]
fn empty_map_of_commissions_is_dropped() {
    let mut emptied = config(vec![("v", validator(vec![("s", commission(500, None))], None))]);
    emptied.validate_and_normalize(500);
    assert!(stakers_of(&emptied).custom_commissions.is_none());

    let mut empty = config(vec![("v", validator(vec![], None))]);
    empty.validate_and_normalize(500);
    assert!(stakers_of(&empty).custom_commissions.is_none());
    assert_eq!(stakers_of(&empty).excluded_stake_pubkeys, Some(vec!["excluded".to_string()]));
}

#[test]
fn split_is_limited_to_a_whole_and_dropped_at_nothing() {
    assert_eq!(split_after(0), None);
    assert_eq!(split_after(1), Some(1));
    assert_eq!(split_after(MAX_COMMISSION_BPS), Some(10_000));
    assert_eq!(split_after(10_001), Some(10_000));
    assert_eq!(split_after(u32::MAX), Some(10_000));
}

#[test]
fn validators_are_kept() {
    let bare = ValidatorConfig::default();
    let busy = validator(vec![("s", commission(700, None))], Some(20_000));
    let mut config = config(vec![("bare", bare), ("v", busy)]);
    config.validate_and_normalize(500);
    assert_eq!(config.stake_pool_ids, vec!["pool".to_string()]);
    assert_eq!(config.validators_config.clone().into_entries().len(), 2);
    let bare = config.validators_config.get(&"bare".to_string()).unwrap();
    assert!(bare.stakers.is_none());
    assert!(bare.validator_reward_split.is_none());
}

#[test]
fn normalizing_twice_is_normalizing_once() {
    let stakers = vec![
        ("a", commission(200, Some(("r", 2)))),
        ("b", commission(500, None)),
        ("c", commission(40_000, Some(("r", 0)))),
    ];
    let mut once = config(vec![("v", validator(stakers, Some(30_000)))]);
    once.validate_and_normalize(500);
    let mut twice = once.clone();
    twice.validate_and_normalize(500);
    for staker in ["a", "b", "c"] {
        let first = entry(&once, staker).map(|e| (e.commission_bps, e.referral_claimant_commission_bps));
        let second = entry(&twice, staker).map(|e| (e.commission_bps, e.referral_claimant_commission_bps));
        assert_eq!(first, second);
    }
    assert_eq!(entry(&twice, "a").unwrap().commission_bps, 500);
    assert!(entry(&twice, "b").is_none());
    assert_eq!(entry(&twice, "c").unwrap().commission_bps, 10_000);
}

#[test]
fn minimum_above_a_whole_is_not_final() {
    let mut config = config(vec![("v", validator(vec![("s", commission(5_000, Some(("r", 1))))], None))]);
    config.validate_and_normalize(20_000);
    assert_eq!(entry(&config, "s").unwrap().commission_bps, 20_000);
    config.validate_and_normalize(20_000);
    assert_eq!(entry(&config, "s").unwrap().commission_bps, 10_000);
    config.validate_and_normalize(20_000);
    assert_eq!(entry(&config, "s").unwrap().commission_bps, 20_000);
}

#[test]
fn defaults_are_empty() {
    let config = DistributionConfig::default();
    assert!(config.stake_pool_ids.is_empty());
    assert!(config.validators_config.is_empty());
    let stakers = StakersConfig::default();
    assert!(stakers.excluded_stake_pubkeys.is_none() && stakers.custom_commissions.is_none());
    assert!(CommissionConfig::default().is_redundant(0));
    let split = ValidatorRewardSplit::default();
    assert_eq!((split.claimant_pubkey.as_str(), split.claimant_commission_bps), ("", 0));
}

#[test]
fn map_gives_each_key_one_value() {
    let mut map = ConfigMap::new();
    assert!(map.is_empty());
    assert!(map.insert("a".to_string(), commission(1, None)).is_none());
    assert!(map.insert("b".to_string(), commission(2, None)).is_none());
    let previous = map.insert("a".to_string(), commission(3, None));
    assert_eq!(previous.unwrap().commission_bps, 1);
    assert!(!map.is_empty());
    assert_eq!(map.get(&"a".to_string()).unwrap().commission_bps, 3);
    assert_eq!(map.get(&"b".to_string()).unwrap().commission_bps, 2);
    assert!(map.get(&"c".to_string()).is_none());
    assert_eq!(map.clone().into_entries().len(), 2);
}
