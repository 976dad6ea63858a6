use bolt_policy::{
    AcceptChannel, CommonParams, OpenChannel, PeerParams, Policy, PolicyError, BOLT3_DUST_LIMIT,
    BOLT3_MAX_ACCEPTED_HTLC_LIMIT,
};
use lnp2p::bolt::ChannelType;

fn open_channel() -> OpenChannel {
    OpenChannel {
        funding_satoshis: 100_000,
        dust_limit_satoshis: 400,
        max_htlc_value_in_flight_msat: 20_000,
        channel_reserve_satoshis: 5_000,
        htlc_minimum_msat: 1,
        feerate_per_kw: 50,
        to_self_delay: 10,
        max_accepted_htlcs: 20,
        channel_flags: 1,
        channel_type: None,
    }
}

fn accept_channel() -> AcceptChannel {
    AcceptChannel {
        dust_limit_satoshis: 400,
        max_htlc_value_in_flight_msat: 20_000,
        channel_reserve_satoshis: 5_000,
        htlc_minimum_msat: 1,
        minimum_depth: 3,
        to_self_delay: 10,
        max_accepted_htlcs: 20,
    }
}

fn good_params() -> PeerParams {
    PeerParams::from(&open_channel())
}

#[test]
fn protocol_constants() {
    assert_eq!(BOLT3_MAX_ACCEPTED_HTLC_LIMIT, 483);
    assert_eq!(BOLT3_DUST_LIMIT, 354);
}

#[test]
fn default_policy_values() {
    let p = Policy::default();
    assert_eq!(p.to_self_delay_max, 250);
    assert_eq!(p.feerate_per_kw_range, 1..100);
    assert_eq!(p.minimum_depth, 3);
    assert_eq!(p.maximum_depth, Some(6));
    assert_eq!(p.funding_satoshis_min, Some(10000));
    assert_eq!(p.htlc_minimum_msat_max, None);
    assert_eq!(p.max_htlc_value_in_flight_msat_min, Some(10000));
    assert_eq!(p.max_accepted_htlcs_min, Some(10));
    assert_eq!(p.channel_reserve_satoshis_max_abs, None);
    assert_eq!(p.channel_reserve_satoshis_max_percent, Some(10));
    assert_eq!(p.dust_limit_satoshis_max, Some(1000));
}

#[test]
fn clightning_defaults() {
    let p = Policy::with_clightning_defaults();
    assert_eq!(p.to_self_delay_max, 2016);
    assert_eq!(p.feerate_per_kw_range, 1..1000);
    assert_eq!(p.minimum_depth, 3);
    assert_eq!(p.maximum_depth, Some(6));
    assert_eq!(p.funding_satoshis_min, Some(10000));
    assert_eq!(p.htlc_minimum_msat_max, None);
    assert_eq!(p.max_htlc_value_in_flight_msat_min, Some(10000));
    assert_eq!(p.max_accepted_htlcs_min, Some(30));
    assert_eq!(p.channel_reserve_satoshis_max_abs, None);
    assert_eq!(p.channel_reserve_satoshis_max_percent, Some(10));
    assert_eq!(p.dust_limit_satoshis_max, Some(546));
}

#[test]
fn lnd_defaults() {
    let p = Policy::with_lnd_defaults();
    assert_eq!(p.to_self_delay_max, 2016);
    assert_eq!(p.feerate_per_kw_range, 1..1000);
    assert_eq!(p.funding_satoshis_min, Some(20000));
    assert_eq!(p.max_htlc_value_in_flight_msat_min, Some(10000));
    assert_eq!(p.max_accepted_htlcs_min, Some(483));
    assert_eq!(p.channel_reserve_satoshis_max_percent, Some(1));
    assert_eq!(p.dust_limit_satoshis_max, Some(546));
    assert_eq!(p.maximum_depth, Some(6));
}

#[test]
fn eclair_defaults() {
    let p = Policy::with_eclair_defaults();
    assert_eq!(p.to_self_delay_max, 2016);
    assert_eq!(p.feerate_per_kw_range, 1..1000);
    assert_eq!(p.funding_satoshis_min, Some(100000));
    assert_eq!(p.max_htlc_value_in_flight_msat_min, Some(5_000_000_000));
    assert_eq!(p.max_accepted_htlcs_min, Some(30));
    assert_eq!(p.channel_reserve_satoshis_max_percent, Some(5));
    assert_eq!(p.dust_limit_satoshis_max, Some(546));
}

#[test]
fn policy_clone_is_equal() {
    let p = Policy::with_eclair_defaults();
    assert_eq!(p.clone(), p);
}

#[test]
fn default_peer_params_values() {
    let p = PeerParams::default();
    assert_eq!(p.dust_limit_satoshis, 354);
    assert_eq!(p.to_self_delay, 3);
    assert_eq!(p.htlc_minimum_msat, 1);
    assert_eq!(p.max_htlc_value_in_flight_msat, 1_000_000_000);
    assert_eq!(p.channel_reserve_satoshis, 10000);
    assert_eq!(p.max_accepted_htlcs, 483);
}

#[test]
fn default_peer_params_pass_default_policy() {
    assert_eq!(Policy::default().validate_peer_params(PeerParams::default()), Ok(()));
}

#[test]
fn default_common_params() {
    let c = CommonParams::default();
    assert_eq!(c.minimum_depth, 3);
    assert_eq!(c.feerate_per_kw, 256);
    assert!(c.announce_channel);
    assert_eq!(c.channel_type, ChannelType::Basic);
}

#[test]
fn common_params_from_open_channel() {
    let mut oc = open_channel();
    let c = CommonParams::with(&oc, 7);
    assert_eq!(c.minimum_depth, 7);
    assert_eq!(c.feerate_per_kw, 50);
    assert!(c.announce_channel);
    assert_eq!(c.channel_type, ChannelType::Basic);

    oc.channel_flags = 0b10;
    oc.channel_type = Some(ChannelType::AnchorOutputsStaticRemotekey);
    let c = CommonParams::with(&oc, 1);
    assert!(!c.announce_channel);
    assert_eq!(c.channel_type, ChannelType::AnchorOutputsStaticRemotekey);
}

#[test]
fn announce_flag_is_least_significant_bit() {
    let mut oc = open_channel();
    for (flags, expected) in [(0u8, false), (1, true), (2, false), (3, true), (0xff, true), (0xfe, false)] {
        oc.channel_flags = flags;
        assert_eq!(oc.should_announce_channel(), expected);
    }
}

#[test]
fn peer_params_from_messages() {
    let oc = open_channel();
    let p = PeerParams::from(&oc);
    assert_eq!(
        p,
        PeerParams {
            dust_limit_satoshis: 400,
            to_self_delay: 10,
            htlc_minimum_msat: 1,
            max_htlc_value_in_flight_msat: 20_000,
            channel_reserve_satoshis: 5_000,
            max_accepted_htlcs: 20,
        }
    );
    let mut ac = accept_channel();
    ac.dust_limit_satoshis = 500;
    ac.to_self_delay = 11;
    ac.htlc_minimum_msat = 2;
    ac.max_htlc_value_in_flight_msat = 30_000;
    ac.channel_reserve_satoshis = 6_000;
    ac.max_accepted_htlcs = 21;
    assert_eq!(
        PeerParams::from(&ac),
        PeerParams {
            dust_limit_satoshis: 500,
            to_self_delay: 11,
            htlc_minimum_msat: 2,
            max_htlc_value_in_flight_msat: 30_000,
            channel_reserve_satoshis: 6_000,
            max_accepted_htlcs: 21,
        }
    );
}

#[test]
fn peer_params_errors_in_order() {
    let policy = Policy::default();
    let base = good_params();
    assert_eq!(policy.validate_peer_params(base), Ok(()));

    let mut p = base;
    p.to_self_delay = 251;
    // the first broken rule wins, even with later ones broken too
    p.max_accepted_htlcs = 500;
    assert_eq!(
        policy.validate_peer_params(p),
        Err(PolicyError::ToSelfDelayUnreasonablyLarge { proposed: 251, allowed_maximum: 250 })
    );

    let mut p = base;
    p.max_accepted_htlcs = 484;
    assert_eq!(policy.validate_peer_params(p), Err(PolicyError::MaxAcceptedHtlcLimitExceeded(484)));

    let mut p = base;
    p.dust_limit_satoshis = 6000;
    assert_eq!(
        policy.validate_peer_params(p),
        Err(PolicyError::ChannelReserveLessDust { reserve: 5000, dust_limit: 6000 })
    );

    let mut p = base;
    p.dust_limit_satoshis = 353;
    assert_eq!(policy.validate_peer_params(p), Err(PolicyError::DustLimitTooSmall(353)));

    let mut strict = policy.clone();
    strict.htlc_minimum_msat_max = Some(0);
    assert_eq!(
        strict.validate_peer_params(base),
        Err(PolicyError::HtlcMinimumTooLarge { proposed: 1, allowed_maximum: 0 })
    );

    let mut p = base;
    p.max_htlc_value_in_flight_msat = 9999;
    assert_eq!(
        policy.validate_peer_params(p),
        Err(PolicyError::HtlcInFlightMaximumTooSmall { proposed: 9999, required_minimum: 10000 })
    );

    let mut strict = policy.clone();
    strict.channel_reserve_satoshis_max_abs = Some(4999);
    assert_eq!(
        strict.validate_peer_params(base),
        Err(PolicyError::ChannelReserveTooLarge { proposed: 5000, allowed_maximum: 4999 })
    );

    let mut p = base;
    p.max_accepted_htlcs = 9;
    assert_eq!(
        policy.validate_peer_params(p),
        Err(PolicyError::MaxAcceptedHtlcsTooSmall { proposed: 9, required_minimum: 10 })
    );

    let mut p = base;
    p.dust_limit_satoshis = 1001;
    assert_eq!(
        policy.validate_peer_params(p),
        Err(PolicyError::DustLimitTooLarge { proposed: 1001, allowed_maximum: 1000 })
    );
}

#[test]
fn peer_params_edges_are_accepted() {
    let policy = Policy::default();
    let mut p = good_params();
    p.to_self_delay = 250;
    p.dust_limit_satoshis = 354;
    p.channel_reserve_satoshis = 354;
    p.max_accepted_htlcs = 483;
    p.max_htlc_value_in_flight_msat = 10000;
    assert_eq!(policy.validate_peer_params(p), Ok(()));
}

#[test]
fn policy_without_limits_checks_only_the_protocol() {
    let policy = Policy {
        to_self_delay_max: u16::MAX,
        feerate_per_kw_range: 0..u32::MAX,
        minimum_depth: 0,
        maximum_depth: None,
        funding_satoshis_min: None,
        htlc_minimum_msat_max: None,
        max_htlc_value_in_flight_msat_min: None,
        channel_reserve_satoshis_max_abs: None,
        channel_reserve_satoshis_max_percent: None,
        max_accepted_htlcs_min: None,
        dust_limit_satoshis_max: None,
    };
    let mut p = good_params();
    p.max_accepted_htlcs = 0;
    p.dust_limit_satoshis = u64::MAX;
    p.channel_reserve_satoshis = u64::MAX;
    assert_eq!(policy.validate_peer_params(p), Ok(()));
    p.max_accepted_htlcs = 484;
    assert_eq!(policy.validate_peer_params(p), Err(PolicyError::MaxAcceptedHtlcLimitExceeded(484)));
}

#[test]
fn inbound_accepts_and_returns_proposed_params() {
    let oc = open_channel();
    assert_eq!(Policy::default().validate_inbound(&oc), Ok(PeerParams::from(&oc)));
}

#[test]
fn inbound_fee_rate_range_is_half_open() {
    let policy = Policy::default();
    let mut oc = open_channel();
    oc.feerate_per_kw = 1;
    assert!(policy.validate_inbound(&oc).is_ok());
    oc.feerate_per_kw = 99;
    assert!(policy.validate_inbound(&oc).is_ok());
    oc.feerate_per_kw = 100;
    assert_eq!(
        policy.validate_inbound(&oc),
        Err(PolicyError::FeeRateUnreasonable { proposed: 100, lowest_accepted: 1, highest_accepted: 100 })
    );
    oc.feerate_per_kw = 0;
    assert_eq!(
        policy.validate_inbound(&oc),
        Err(PolicyError::FeeRateUnreasonable { proposed: 0, lowest_accepted: 1, highest_accepted: 100 })
    );
}

#[test]
fn inbound_funding_too_small() {
    let mut oc = open_channel();
    oc.funding_satoshis = 9999;
    oc.channel_reserve_satoshis = 500;
    assert_eq!(
        Policy::default().validate_inbound(&oc),
        Err(PolicyError::ChannelFundingTooSmall { proposed: 9999, required_minimum: 10000 })
    );
}

#[test]
fn inbound_reserve_is_a_percentage_of_funding() {
    let policy = Policy::default();
    let mut oc = open_channel();
    // 10% of 100 000 sat
    oc.channel_reserve_satoshis = 10_000;
    assert!(policy.validate_inbound(&oc).is_ok());
    oc.channel_reserve_satoshis = 10_001;
    assert_eq!(
        policy.validate_inbound(&oc),
        Err(PolicyError::ChannelReserveTooLarge { proposed: 10_001, allowed_maximum: 10_000 })
    );
    // the limit is rounded down: 10% of 100 005 sat is 10 000 sat
    oc.funding_satoshis = 100_005;
    assert_eq!(
        policy.validate_inbound(&oc),
        Err(PolicyError::ChannelReserveTooLarge { proposed: 10_001, allowed_maximum: 10_000 })
    );
}

#[test]
fn inbound_reserve_limit_with_huge_funding() {
    let mut policy = Policy::default();
    policy.channel_reserve_satoshis_max_percent = Some(255);
    let mut oc = open_channel();
    oc.funding_satoshis = u64::MAX;
    oc.channel_reserve_satoshis = u64::MAX;
    oc.dust_limit_satoshis = 400;
    assert!(policy.validate_inbound(&oc).is_ok());
    policy.channel_reserve_satoshis_max_percent = Some(1);
    assert_eq!(
        policy.validate_inbound(&oc),
        Err(PolicyError::ChannelReserveTooLarge { proposed: u64::MAX, allowed_maximum: u64::MAX / 100 })
    );
}

#[test]
fn inbound_passes_on_peer_params_errors() {
    let mut oc = open_channel();
    oc.to_self_delay = 300;
    assert_eq!(
        Policy::default().validate_inbound(&oc),
        Err(PolicyError::ToSelfDelayUnreasonablyLarge { proposed: 300, allowed_maximum: 250 })
    );
}

#[test]
fn outbound_accepts_and_returns_proposed_params() {
    let ac = accept_channel();
    let ours = PeerParams::default();
    assert_eq!(Policy::default().confirm_outbound(ours, &ac), Ok(PeerParams::from(&ac)));
}

#[test]
fn outbound_min_depth_too_large() {
    let mut ac = accept_channel();
    ac.minimum_depth = 7;
    assert_eq!(
        Policy::default().confirm_outbound(PeerParams::default(), &ac),
        Err(PolicyError::UnreasonableMinDepth { proposed: 7, allowed_maximum: 6 })
    );
    let mut policy = Policy::default();
    policy.maximum_depth = None;
    assert!(policy.confirm_outbound(PeerParams::default(), &ac).is_ok());
}

#[test]
fn outbound_reserves_must_cover_dust() {
    let policy = Policy::default();
    let mut ours = PeerParams::default();
    let mut ac = accept_channel();
    ours.dust_limit_satoshis = 5001;
    assert_eq!(
        policy.confirm_outbound(ours, &ac),
        Err(PolicyError::LocalDustExceedsRemoteReserve { channel_reserve: 5000, dust_limit: 5001 })
    );
    ours = PeerParams::default();
    ours.channel_reserve_satoshis = 399;
    assert_eq!(
        policy.confirm_outbound(ours, &ac),
        Err(PolicyError::RemoteDustExceedsLocalReserve { channel_reserve: 399, dust_limit: 400 })
    );
    ac.dust_limit_satoshis = 10;
    ours = PeerParams::default();
    assert_eq!(policy.confirm_outbound(ours, &ac), Err(PolicyError::DustLimitTooSmall(10)));
}

#[test]
fn accepted_params_keep_bolt3_limits() {
    // law: whatever the policy, accepted parameters are BOLT-3 compliant
    for policy in [
        Policy::default(),
        Policy::with_clightning_defaults(),
        Policy::with_lnd_defaults(),
        Policy::with_eclair_defaults(),
    ] {
        for dust in [0u64, 353, 354, 400, 546, 1000, 6000] {
            for htlcs in [0u16, 10, 30, 483, 484] {
                let mut oc = open_channel();
                oc.funding_satoshis = 1_000_000;
                oc.max_htlc_value_in_flight_msat = 5_000_000_000;
                oc.dust_limit_satoshis = dust;
                oc.max_accepted_htlcs = htlcs;
                if let Ok(p) = policy.validate_inbound(&oc) {
                    assert!(p.max_accepted_htlcs <= 483);
                    assert!(p.dust_limit_satoshis >= 354);
                    assert!(p.dust_limit_satoshis <= p.channel_reserve_satoshis);
                }
            }
        }
    }
}

#[test]
fn relaxed_policy_accepts_what_stricter_accepts() {
    // law: relaxing a limit never turns an acceptance into a rejection
    let strict = Policy::with_lnd_defaults();
    let mut loose = strict.clone();
    loose.max_accepted_htlcs_min = None;
    loose.funding_satoshis_min = Some(1);
    loose.dust_limit_satoshis_max = Some(1000);
    loose.feerate_per_kw_range = 0..5000;
    let mut oc = open_channel();
    oc.max_accepted_htlcs = 483;
    oc.funding_satoshis = 500_000;
    assert!(strict.validate_inbound(&oc).is_ok());
    assert!(loose.validate_inbound(&oc).is_ok());
    // and the looser policy accepts some that the stricter rejects
    oc.max_accepted_htlcs = 100;
    assert!(strict.validate_inbound(&oc).is_err());
    assert!(loose.validate_inbound(&oc).is_ok());
}

#[test]
fn rejections_name_the_violated_limit() {
    // law: every error carries a proposed value beyond its limit
    let policy = Policy::with_eclair_defaults();
    let mut oc = open_channel();
    oc.funding_satoshis = 50_000;
    match policy.validate_inbound(&oc) {
        Err(PolicyError::ChannelFundingTooSmall { proposed, required_minimum }) => {
            assert!(proposed < required_minimum)
        }
        other => panic!("unexpected {:?}", other),
    }
}
