use vstd::prelude::*;
use crate::params::{AcceptChannel, OpenChannel, PeerParams, peer_params_of_accept, peer_params_of_open};
use crate::policy::{
    Policy, accept_channel_meets_policy, bolt3_compliant, inbound_verdict,
    open_channel_meets_policy, outbound_verdict, peer_params_meet_policy, peer_params_verdict,
    relative_reserve_limit, relaxes,
};

verus! {

/// Peer parameters pass validation exactly when they meet every rule of
/// BOLT-3 and every limit of the policy.
pub proof fn peer_params_accepted_iff_policy_met(policy: Policy, params: PeerParams)
    ensures
        peer_params_verdict(policy, params) is Ok <==> peer_params_meet_policy(policy, params),
{
}

/// An `open_channel` message is accepted exactly when it meets the policy,
/// and then the parameters handed back are the ones it proposed.
pub proof fn open_channel_accepted_iff_policy_met(policy: Policy, open_channel: OpenChannel)
    ensures
        inbound_verdict(policy, open_channel) is Ok <==> open_channel_meets_policy(
            policy,
            open_channel,
        ),
        inbound_verdict(policy, open_channel) matches Ok(params) ==> params == peer_params_of_open(
            open_channel,
        ),
{
}

/// An `accept_channel` message is accepted exactly when it meets the policy,
/// and then the parameters handed back are the ones it proposed.
pub proof fn accept_channel_accepted_iff_policy_met(
    policy: Policy,
    our_params: PeerParams,
    accept_channel: AcceptChannel,
)
    ensures
        outbound_verdict(policy, our_params, accept_channel) is Ok <==> accept_channel_meets_policy(
            policy,
            our_params,
            accept_channel,
        ),
        outbound_verdict(policy, our_params, accept_channel) matches Ok(params) ==> params
            == peer_params_of_accept(accept_channel),
{
}

/// Whatever the policy, the parameters of every accepted channel, inbound or
/// outbound, keep the BOLT-3 limits.
pub proof fn accepted_params_are_bolt3_compliant(
    policy: Policy,
    params: PeerParams,
    open_channel: OpenChannel,
    our_params: PeerParams,
    accept_channel: AcceptChannel,
)
    ensures
        peer_params_verdict(policy, params) is Ok ==> bolt3_compliant(params),
        inbound_verdict(policy, open_channel) matches Ok(accepted) ==> bolt3_compliant(accepted),
        outbound_verdict(policy, our_params, accept_channel) matches Ok(accepted) ==> bolt3_compliant(
            accepted,
        ),
{
}

/// Every rejection reports a real violation: the value it names as proposed
/// lies on the wrong side of the limit it names.
pub proof fn rejections_report_violations(
    policy: Policy,
    params: PeerParams,
    open_channel: OpenChannel,
    our_params: PeerParams,
    accept_channel: AcceptChannel,
)
    ensures
        peer_params_verdict(policy, params) matches Err(e) ==> e.reports_violation(),
        inbound_verdict(policy, open_channel) matches Err(e) ==> e.reports_violation(),
        outbound_verdict(policy, our_params, accept_channel) matches Err(e) ==> e.reports_violation(),
{
}

/// Relaxing a policy never turns an accepted channel into a rejected one:
/// what a policy accepts, every policy that relaxes it accepts too.
pub proof fn relaxed_policy_accepts_more(
    loose: Policy,
    strict: Policy,
    params: PeerParams,
    open_channel: OpenChannel,
    our_params: PeerParams,
    accept_channel: AcceptChannel,
)
    requires
        relaxes(loose, strict),
    ensures
        peer_params_verdict(strict, params) is Ok ==> peer_params_verdict(loose, params) is Ok,
        inbound_verdict(strict, open_channel) is Ok ==> inbound_verdict(loose, open_channel) is Ok,
        outbound_verdict(strict, our_params, accept_channel) is Ok ==> outbound_verdict(
            loose,
            our_params,
            accept_channel,
        ) is Ok,
{
    if strict.channel_reserve_satoshis_max_percent is Some
        && loose.channel_reserve_satoshis_max_percent is Some {
        let funding = open_channel.funding_satoshis;
        let l = loose.channel_reserve_satoshis_max_percent->0;
        let s = strict.channel_reserve_satoshis_max_percent->0;
        assert(relative_reserve_limit(funding, s) <= relative_reserve_limit(funding, l))
            by (nonlinear_arith)
            requires
                s <= l,
        ;
    }
}

} // verus!

verus! {

/// The peer parameters extracted from an `open_channel` message are its own
/// fields, copied unchanged.
pub proof fn open_channel_params_are_its_fields(open_channel: OpenChannel)
    ensures
        peer_params_of_open(open_channel).dust_limit_satoshis == open_channel.dust_limit_satoshis,
        peer_params_of_open(open_channel).to_self_delay == open_channel.to_self_delay,
        peer_params_of_open(open_channel).htlc_minimum_msat == open_channel.htlc_minimum_msat,
        peer_params_of_open(open_channel).max_htlc_value_in_flight_msat
            == open_channel.max_htlc_value_in_flight_msat,
        peer_params_of_open(open_channel).channel_reserve_satoshis
            == open_channel.channel_reserve_satoshis,
        peer_params_of_open(open_channel).max_accepted_htlcs == open_channel.max_accepted_htlcs,
{
}

/// The peer parameters extracted from an `accept_channel` message are its
/// own fields, copied unchanged.
pub proof fn accept_channel_params_are_its_fields(accept_channel: AcceptChannel)
    ensures
        peer_params_of_accept(accept_channel).dust_limit_satoshis
            == accept_channel.dust_limit_satoshis,
        peer_params_of_accept(accept_channel).to_self_delay == accept_channel.to_self_delay,
        peer_params_of_accept(accept_channel).htlc_minimum_msat == accept_channel.htlc_minimum_msat,
        peer_params_of_accept(accept_channel).max_htlc_value_in_flight_msat
            == accept_channel.max_htlc_value_in_flight_msat,
        peer_params_of_accept(accept_channel).channel_reserve_satoshis
            == accept_channel.channel_reserve_satoshis,
        peer_params_of_accept(accept_channel).max_accepted_htlcs
            == accept_channel.max_accepted_htlcs,
{
}

/// An accepted `open_channel` message hands back its own fields, unchanged,
/// as the peer parameters; and it is accepted exactly when its fee rate,
/// funding and reserve share meet the policy, its fields keep the BOLT-3
/// limits, and its fields are within every limit of the policy.
pub proof fn inbound_acceptance_on_message_fields(policy: Policy, open_channel: OpenChannel)
    ensures
        inbound_verdict(policy, open_channel) matches Ok(params) ==> {
            &&& params.dust_limit_satoshis == open_channel.dust_limit_satoshis
            &&& params.to_self_delay == open_channel.to_self_delay
            &&& params.htlc_minimum_msat == open_channel.htlc_minimum_msat
            &&& params.max_htlc_value_in_flight_msat == open_channel.max_htlc_value_in_flight_msat
            &&& params.channel_reserve_satoshis == open_channel.channel_reserve_satoshis
            &&& params.max_accepted_htlcs == open_channel.max_accepted_htlcs
        },
        inbound_verdict(policy, open_channel) is Ok <==> {
            &&& policy.feerate_per_kw_range.start <= open_channel.feerate_per_kw
            &&& open_channel.feerate_per_kw < policy.feerate_per_kw_range.end
            &&& policy.funding_satoshis_min matches Some(limit) ==> open_channel.funding_satoshis
                >= limit
            &&& policy.channel_reserve_satoshis_max_percent matches Some(percents)
                ==> open_channel.channel_reserve_satoshis * 100 <= open_channel.funding_satoshis
                * percents
            &&& open_channel.to_self_delay <= policy.to_self_delay_max
            &&& open_channel.max_accepted_htlcs <= 483
            &&& open_channel.dust_limit_satoshis <= open_channel.channel_reserve_satoshis
            &&& open_channel.dust_limit_satoshis >= 354
            &&& policy.htlc_minimum_msat_max matches Some(limit) ==> open_channel.htlc_minimum_msat
                <= limit
            &&& policy.max_htlc_value_in_flight_msat_min matches Some(limit)
                ==> open_channel.max_htlc_value_in_flight_msat >= limit
            &&& policy.channel_reserve_satoshis_max_abs matches Some(limit)
                ==> open_channel.channel_reserve_satoshis <= limit
            &&& policy.max_accepted_htlcs_min matches Some(limit) ==> open_channel.max_accepted_htlcs
                >= limit
            &&& policy.dust_limit_satoshis_max matches Some(limit)
                ==> open_channel.dust_limit_satoshis <= limit
        },
{
    if let Some(percents) = policy.channel_reserve_satoshis_max_percent {
        let reserve = open_channel.channel_reserve_satoshis;
        let product = open_channel.funding_satoshis * percents;
        assert(reserve <= product / 100 <==> reserve * 100 <= product) by (nonlinear_arith)
            requires
                product >= 0,
        ;
    }
}

/// An accepted `accept_channel` message hands back its own fields,
/// unchanged, as the peer parameters; and it is accepted exactly when its
/// minimum depth meets the policy, each side's reserve covers the other
/// side's dust limit, its fields keep the BOLT-3 limits, and its fields are
/// within every limit of the policy.
pub proof fn outbound_acceptance_on_message_fields(
    policy: Policy,
    our_params: PeerParams,
    accept_channel: AcceptChannel,
)
    ensures
        outbound_verdict(policy, our_params, accept_channel) matches Ok(params) ==> {
            &&& params.dust_limit_satoshis == accept_channel.dust_limit_satoshis
            &&& params.to_self_delay == accept_channel.to_self_delay
            &&& params.htlc_minimum_msat == accept_channel.htlc_minimum_msat
            &&& params.max_htlc_value_in_flight_msat
                == accept_channel.max_htlc_value_in_flight_msat
            &&& params.channel_reserve_satoshis == accept_channel.channel_reserve_satoshis
            &&& params.max_accepted_htlcs == accept_channel.max_accepted_htlcs
        },
        outbound_verdict(policy, our_params, accept_channel) is Ok <==> {
            &&& policy.maximum_depth matches Some(limit) ==> accept_channel.minimum_depth <= limit
            &&& accept_channel.channel_reserve_satoshis >= our_params.dust_limit_satoshis
            &&& our_params.channel_reserve_satoshis >= accept_channel.dust_limit_satoshis
            &&& accept_channel.to_self_delay <= policy.to_self_delay_max
            &&& accept_channel.max_accepted_htlcs <= 483
            &&& accept_channel.dust_limit_satoshis <= accept_channel.channel_reserve_satoshis
            &&& accept_channel.dust_limit_satoshis >= 354
            &&& policy.htlc_minimum_msat_max matches Some(limit)
                ==> accept_channel.htlc_minimum_msat <= limit
            &&& policy.max_htlc_value_in_flight_msat_min matches Some(limit)
                ==> accept_channel.max_htlc_value_in_flight_msat >= limit
            &&& policy.channel_reserve_satoshis_max_abs matches Some(limit)
                ==> accept_channel.channel_reserve_satoshis <= limit
            &&& policy.max_accepted_htlcs_min matches Some(limit)
                ==> accept_channel.max_accepted_htlcs >= limit
            &&& policy.dust_limit_satoshis_max matches Some(limit)
                ==> accept_channel.dust_limit_satoshis <= limit
        },
{
}

} // verus!
