use vstd::prelude::*;
use core::ops::Range;
use crate::error::{PolicyError, BOLT3_DUST_LIMIT, BOLT3_MAX_ACCEPTED_HTLC_LIMIT};
use crate::params::{
    AcceptChannel, OpenChannel, PeerParams, peer_params_of_accept, peer_params_of_open,
};

verus! {

/// Policy to validate channel parameters proposed by a remote peer.
#[derive(Eq, PartialEq, Hash, Debug)]
pub struct Policy {
    /// Reasonable limit to check value of `to_self_delay` required by a remote
    /// node, in blocks.
    pub to_self_delay_max: u16,
    /// Range of acceptable channel fees.
    pub feerate_per_kw_range: Range<u32>,
    /// Minimum funding transaction mining depth required from the remote node
    /// for a channel proposed by it.
    pub minimum_depth: u32,
    // The following are optional policies which may not be set by a local
    // node:
    /// Maximum funding transaction mining depth which may be required by a
    /// remote node for a channel opened by a local node.
    pub maximum_depth: Option<u32>,
    /// Minimum funding for a channel by this node.
    pub funding_satoshis_min: Option<u64>,
    /// The maximum acceptable limit on the value stored in a single HTLC.
    pub htlc_minimum_msat_max: Option<u64>,
    /// Minimum boundary for the upper limit of in-flight HTLC funds.
    pub max_htlc_value_in_flight_msat_min: Option<u64>,
    /// Maximum reserve for a channel from a local node required by the remote
    /// node in absolute value.
    pub channel_reserve_satoshis_max_abs: Option<u64>,
    /// Maximum reserve for a channel from a local node required by the remote
    /// node in persents from the channel funding.
    pub channel_reserve_satoshis_max_percent: Option<u8>,
    /// Minimum boundary to the limit of HTLCs offered to a remote peer.
    pub max_accepted_htlcs_min: Option<u16>,
    /// Maximum value for the dust limit required by a remote node.
    pub dust_limit_satoshis_max: Option<u64>,
}

impl Clone for Policy {
    fn clone(&self) -> (copy: Self)
        ensures
            copy == *self,
    {
        Policy {
            to_self_delay_max: self.to_self_delay_max,
            feerate_per_kw_range: Range {
                start: self.feerate_per_kw_range.start,
                end: self.feerate_per_kw_range.end,
            },
            minimum_depth: self.minimum_depth,
            maximum_depth: self.maximum_depth,
            funding_satoshis_min: self.funding_satoshis_min,
            htlc_minimum_msat_max: self.htlc_minimum_msat_max,
            max_htlc_value_in_flight_msat_min: self.max_htlc_value_in_flight_msat_min,
            channel_reserve_satoshis_max_abs: self.channel_reserve_satoshis_max_abs,
            channel_reserve_satoshis_max_percent: self.channel_reserve_satoshis_max_percent,
            max_accepted_htlcs_min: self.max_accepted_htlcs_min,
            dust_limit_satoshis_max: self.dust_limit_satoshis_max,
        }
    }
}

impl Default for Policy {
    /// Sets reasonable values for the local node policies
    fn default() -> (policy: Policy)
        ensures
            policy.to_self_delay_max == 250,
            policy.feerate_per_kw_range.start == 1,
            policy.feerate_per_kw_range.end == 100,
            policy.minimum_depth == 3,
            policy.maximum_depth == Some(6u32),
            policy.funding_satoshis_min == Some(10000u64),
            policy.htlc_minimum_msat_max is None,
            policy.max_htlc_value_in_flight_msat_min == Some(10000u64),
            policy.max_accepted_htlcs_min == Some(10u16),
            policy.channel_reserve_satoshis_max_abs is None,
            policy.channel_reserve_satoshis_max_percent == Some(10u8),
            policy.dust_limit_satoshis_max == Some(1000u64),
    {
        Policy {
            to_self_delay_max: 250,
            // normal operational range for the fees in bitcoin network - it
            // really never went above 100 to get tx mined within an hour or two
            feerate_per_kw_range: Range { start: 1, end: 100 },
            // three blocks is enough to get sufficient security
            minimum_depth: 3,
            // 6 blocks is enough to provide the necessary security
            maximum_depth: Some(6),
            // no reason of spamming blockchain with channels < 10000 sats
            funding_satoshis_min: Some(10000),
            // HTLCs can be arbitrary small:
            htlc_minimum_msat_max: None,
            // we need to earn commissions on routing, so limiting HTLCs too
            // much does not make sense
            max_htlc_value_in_flight_msat_min: Some(10000),
            max_accepted_htlcs_min: Some(10),
            // we do not want to over-collateralize on our channels in regard to
            // the size of the channel: it should not exceed 10% of funds in the
            // channel.
            channel_reserve_satoshis_max_abs: None,
            channel_reserve_satoshis_max_percent: Some(10),
            // we do not want to require too large `to_local` / `to_remote`
            // outputs
            dust_limit_satoshis_max: Some(1000),
        }
    }
}

impl Policy {
    /// Sets policy to match default policy used in c-lightning
    pub fn with_clightning_defaults() -> (policy: Policy)
        ensures
            policy.to_self_delay_max == 2016,
            policy.feerate_per_kw_range.start == 1,
            policy.feerate_per_kw_range.end == 1000,
            policy.minimum_depth == 3,
            policy.maximum_depth == Some(6u32),
            policy.funding_satoshis_min == Some(10000u64),
            policy.htlc_minimum_msat_max is None,
            policy.max_htlc_value_in_flight_msat_min == Some(10000u64),
            policy.max_accepted_htlcs_min == Some(30u16),
            policy.channel_reserve_satoshis_max_abs is None,
            policy.channel_reserve_satoshis_max_percent == Some(10u8),
            policy.dust_limit_satoshis_max == Some(546u64),
    {
        Policy {
            to_self_delay_max: 14 * 24 * 6,
            feerate_per_kw_range: Range { start: 1, end: 1000 },
            minimum_depth: 3,
            maximum_depth: Some(6),
            funding_satoshis_min: Some(10000),
            htlc_minimum_msat_max: None,
            max_htlc_value_in_flight_msat_min: Some(10000),
            max_accepted_htlcs_min: Some(30),
            channel_reserve_satoshis_max_abs: None,
            // c-lightning uses 10% of the channel funding as a reserve
            channel_reserve_satoshis_max_percent: Some(10),
            dust_limit_satoshis_max: Some(546),
        }
    }

    /// Sets policy to match default policy used in LND
    pub fn with_lnd_defaults() -> (policy: Policy)
        ensures
            policy.to_self_delay_max == 2016,
            policy.feerate_per_kw_range.start == 1,
            policy.feerate_per_kw_range.end == 1000,
            policy.minimum_depth == 3,
            policy.maximum_depth == Some(6u32),
            policy.funding_satoshis_min == Some(20000u64),
            policy.htlc_minimum_msat_max is None,
            policy.max_htlc_value_in_flight_msat_min == Some(10000u64),
            policy.max_accepted_htlcs_min == Some(483u16),
            policy.channel_reserve_satoshis_max_abs is None,
            policy.channel_reserve_satoshis_max_percent == Some(1u8),
            policy.dust_limit_satoshis_max == Some(546u64),
    {
        Policy {
            to_self_delay_max: 14 * 24 * 6,
            feerate_per_kw_range: Range { start: 1, end: 1000 },
            minimum_depth: 3,
            maximum_depth: Some(6),
            funding_satoshis_min: Some(20000),
            htlc_minimum_msat_max: None,
            max_htlc_value_in_flight_msat_min: Some(10000),
            max_accepted_htlcs_min: Some(483),
            channel_reserve_satoshis_max_abs: None,
            // LND uses 1% of the channel funding as a reserve
            channel_reserve_satoshis_max_percent: Some(1),
            // since LND 0.13.3 there is no default value for the dust limit;
            // 546 is the biggest value, the one for p2pkh
            dust_limit_satoshis_max: Some(546),
        }
    }

    /// Sets policy to match default policy used in Eclair
    pub fn with_eclair_defaults() -> (policy: Policy)
        ensures
            policy.to_self_delay_max == 2016,
            policy.feerate_per_kw_range.start == 1,
            policy.feerate_per_kw_range.end == 1000,
            policy.minimum_depth == 3,
            policy.maximum_depth == Some(6u32),
            policy.funding_satoshis_min == Some(100000u64),
            policy.htlc_minimum_msat_max is None,
            policy.max_htlc_value_in_flight_msat_min == Some(5000000000u64),
            policy.max_accepted_htlcs_min == Some(30u16),
            policy.channel_reserve_satoshis_max_abs is None,
            policy.channel_reserve_satoshis_max_percent == Some(5u8),
            policy.dust_limit_satoshis_max == Some(546u64),
    {
        Policy {
            to_self_delay_max: 14 * 24 * 6,
            feerate_per_kw_range: Range { start: 1, end: 1000 },
            minimum_depth: 3,
            maximum_depth: Some(6),
            funding_satoshis_min: Some(100000),
            htlc_minimum_msat_max: None,
            max_htlc_value_in_flight_msat_min: Some(5000000000),
            max_accepted_htlcs_min: Some(30),
            channel_reserve_satoshis_max_abs: None,
            // Eclair uses 5% of the channel funding as a reserve
            channel_reserve_satoshis_max_percent: Some(5),
            dust_limit_satoshis_max: Some(546),
        }
    }
}

/// Whether `feerate` lies in the policy's half-open range of acceptable fee
/// rates.
pub open spec fn feerate_accepted(policy: Policy, feerate: u32) -> bool {
    policy.feerate_per_kw_range.start <= feerate && feerate < policy.feerate_per_kw_range.end
}

/// The verdict on peer parameters: the first rule that they break, in the
/// order in which the rules are checked, or `Ok` when they break none.
pub open spec fn peer_params_verdict(policy: Policy, params: PeerParams) -> Result<(), PolicyError> {
    if params.to_self_delay > policy.to_self_delay_max {
        Err(
            PolicyError::ToSelfDelayUnreasonablyLarge {
                proposed: params.to_self_delay,
                allowed_maximum: policy.to_self_delay_max,
            },
        )
    } else if params.max_accepted_htlcs > BOLT3_MAX_ACCEPTED_HTLC_LIMIT {
        Err(PolicyError::MaxAcceptedHtlcLimitExceeded(params.max_accepted_htlcs))
    } else if params.dust_limit_satoshis > params.channel_reserve_satoshis {
        Err(
            PolicyError::ChannelReserveLessDust {
                reserve: params.channel_reserve_satoshis,
                dust_limit: params.dust_limit_satoshis,
            },
        )
    } else if params.dust_limit_satoshis < BOLT3_DUST_LIMIT {
        Err(PolicyError::DustLimitTooSmall(params.dust_limit_satoshis))
    } else if policy.htlc_minimum_msat_max matches Some(limit) && params.htlc_minimum_msat > limit {
        Err(
            PolicyError::HtlcMinimumTooLarge {
                proposed: params.htlc_minimum_msat,
                allowed_maximum: policy.htlc_minimum_msat_max->0,
            },
        )
    } else if policy.max_htlc_value_in_flight_msat_min matches Some(limit)
        && params.max_htlc_value_in_flight_msat < limit {
        Err(
            PolicyError::HtlcInFlightMaximumTooSmall {
                proposed: params.max_htlc_value_in_flight_msat,
                required_minimum: policy.max_htlc_value_in_flight_msat_min->0,
            },
        )
    } else if policy.channel_reserve_satoshis_max_abs matches Some(limit)
        && params.channel_reserve_satoshis > limit {
        Err(
            PolicyError::ChannelReserveTooLarge {
                proposed: params.channel_reserve_satoshis,
                allowed_maximum: policy.channel_reserve_satoshis_max_abs->0,
            },
        )
    } else if policy.max_accepted_htlcs_min matches Some(limit) && params.max_accepted_htlcs < limit {
        Err(
            PolicyError::MaxAcceptedHtlcsTooSmall {
                proposed: params.max_accepted_htlcs,
                required_minimum: policy.max_accepted_htlcs_min->0,
            },
        )
    } else if policy.dust_limit_satoshis_max matches Some(limit) && params.dust_limit_satoshis > limit {
        Err(
            PolicyError::DustLimitTooLarge {
                proposed: params.dust_limit_satoshis,
                allowed_maximum: policy.dust_limit_satoshis_max->0,
            },
        )
    } else {
        Ok(())
    }
}

/// The largest channel reserve that the policy lets an `open_channel`
/// message ask for: `percents` percent of the channel's funding, rounded
/// down to whole satoshis.
pub open spec fn relative_reserve_limit(funding_satoshis: u64, percents: u8) -> int {
    (funding_satoshis * percents) / 100
}

/// Whether the checks that precede the relative reserve check pass: the fee
/// rate lies in the accepted range and the funding is not below the minimum.
pub open spec fn inbound_fee_and_funding_accepted(policy: Policy, open_channel: OpenChannel) -> bool {
    &&& feerate_accepted(policy, open_channel.feerate_per_kw)
    &&& policy.funding_satoshis_min matches Some(limit) ==> open_channel.funding_satoshis >= limit
}

/// The verdict on an `open_channel` message: the first rule that it breaks,
/// or the peer parameters that it proposes when it breaks none.
pub open spec fn inbound_verdict(policy: Policy, open_channel: OpenChannel) -> Result<PeerParams, PolicyError> {
    if !feerate_accepted(policy, open_channel.feerate_per_kw) {
        Err(
            PolicyError::FeeRateUnreasonable {
                proposed: open_channel.feerate_per_kw,
                lowest_accepted: policy.feerate_per_kw_range.start,
                highest_accepted: policy.feerate_per_kw_range.end,
            },
        )
    } else if policy.funding_satoshis_min matches Some(limit) && open_channel.funding_satoshis
        < limit {
        Err(
            PolicyError::ChannelFundingTooSmall {
                proposed: open_channel.funding_satoshis,
                required_minimum: policy.funding_satoshis_min->0,
            },
        )
    } else if policy.channel_reserve_satoshis_max_percent matches Some(percents)
        && open_channel.channel_reserve_satoshis > relative_reserve_limit(
        open_channel.funding_satoshis,
        percents,
    ) {
        Err(
            PolicyError::ChannelReserveTooLarge {
                proposed: open_channel.channel_reserve_satoshis,
                allowed_maximum: relative_reserve_limit(
                    open_channel.funding_satoshis,
                    policy.channel_reserve_satoshis_max_percent->0,
                ) as u64,
            },
        )
    } else {
        match peer_params_verdict(policy, peer_params_of_open(open_channel)) {
            Ok(_) => Ok(peer_params_of_open(open_channel)),
            Err(e) => Err(e),
        }
    }
}

/// The verdict on an `accept_channel` message answering a channel proposed
/// with `our_params`: the first rule that it breaks, or the peer parameters
/// that it proposes when it breaks none.
pub open spec fn outbound_verdict(
    policy: Policy,
    our_params: PeerParams,
    accept_channel: AcceptChannel,
) -> Result<PeerParams, PolicyError> {
    if policy.maximum_depth matches Some(limit) && accept_channel.minimum_depth > limit {
        Err(
            PolicyError::UnreasonableMinDepth {
                proposed: accept_channel.minimum_depth,
                allowed_maximum: policy.maximum_depth->0,
            },
        )
    } else if accept_channel.channel_reserve_satoshis < our_params.dust_limit_satoshis {
        Err(
            PolicyError::LocalDustExceedsRemoteReserve {
                channel_reserve: accept_channel.channel_reserve_satoshis,
                dust_limit: our_params.dust_limit_satoshis,
            },
        )
    } else if our_params.channel_reserve_satoshis < accept_channel.dust_limit_satoshis {
        Err(
            PolicyError::RemoteDustExceedsLocalReserve {
                channel_reserve: our_params.channel_reserve_satoshis,
                dust_limit: accept_channel.dust_limit_satoshis,
            },
        )
    } else {
        match peer_params_verdict(policy, peer_params_of_accept(accept_channel)) {
            Ok(_) => Ok(peer_params_of_accept(accept_channel)),
            Err(e) => Err(e),
        }
    }
}

impl Policy {
    /// Validates the peer parameters against the BOLT-3 protocol limits and
    /// the limits of this policy, in order, stopping at the first one broken.
    pub fn validate_peer_params(&self, params: PeerParams) -> (verdict: Result<(), PolicyError>)
        ensures
            verdict == peer_params_verdict(*self, params),
    {
        // if `to_self_delay` is unreasonably large.
        if params.to_self_delay > self.to_self_delay_max {
            return Err(
                PolicyError::ToSelfDelayUnreasonablyLarge {
                    proposed: params.to_self_delay,
                    allowed_maximum: self.to_self_delay_max,
                },
            );
        }
        // if `max_accepted_htlcs` is greater than 483.
        if params.max_accepted_htlcs > BOLT3_MAX_ACCEPTED_HTLC_LIMIT {
            return Err(PolicyError::MaxAcceptedHtlcLimitExceeded(params.max_accepted_htlcs));
        }
        // if `dust_limit_satoshis` is greater than `channel_reserve_satoshis`.
        if params.dust_limit_satoshis > params.channel_reserve_satoshis {
            return Err(
                PolicyError::ChannelReserveLessDust {
                    reserve: params.channel_reserve_satoshis,
                    dust_limit: params.dust_limit_satoshis,
                },
            );
        }
        // if `dust_limit_satoshis` is smaller than 354 satoshis
        if params.dust_limit_satoshis < BOLT3_DUST_LIMIT {
            return Err(PolicyError::DustLimitTooSmall(params.dust_limit_satoshis));
        }
        // if we consider `htlc_minimum_msat` too large
        if let Some(limit) = self.htlc_minimum_msat_max {
            if params.htlc_minimum_msat > limit {
                return Err(
                    PolicyError::HtlcMinimumTooLarge {
                        proposed: params.htlc_minimum_msat,
                        allowed_maximum: limit,
                    },
                );
            }
        }
        // if we consider `max_htlc_value_in_flight_msat` too small
        if let Some(limit) = self.max_htlc_value_in_flight_msat_min {
            if params.max_htlc_value_in_flight_msat < limit {
                return Err(
                    PolicyError::HtlcInFlightMaximumTooSmall {
                        proposed: params.max_htlc_value_in_flight_msat,
                        required_minimum: limit,
                    },
                );
            }
        }
        // if we consider `channel_reserve_satoshis` too large
        if let Some(limit) = self.channel_reserve_satoshis_max_abs {
            if params.channel_reserve_satoshis > limit {
                return Err(
                    PolicyError::ChannelReserveTooLarge {
                        proposed: params.channel_reserve_satoshis,
                        allowed_maximum: limit,
                    },
                );
            }
        }
        // if we consider `max_accepted_htlcs` too small
        if let Some(limit) = self.max_accepted_htlcs_min {
            if params.max_accepted_htlcs < limit {
                return Err(
                    PolicyError::MaxAcceptedHtlcsTooSmall {
                        proposed: params.max_accepted_htlcs,
                        required_minimum: limit,
                    },
                );
            }
        }
        // if we consider `dust_limit_satoshis` too large
        if let Some(limit) = self.dust_limit_satoshis_max {
            if params.dust_limit_satoshis > limit {
                return Err(
                    PolicyError::DustLimitTooLarge {
                        proposed: params.dust_limit_satoshis,
                        allowed_maximum: limit,
                    },
                );
            }
        }
        Ok(())
    }

    /// Validates parameters proposed by remote peer in `open_channel` message
    /// against the policy, and returns the [`PeerParams`] to use for
    /// constructing channel transactions which should be signed by the local
    /// node.
    pub fn validate_inbound(&self, open_channel: &OpenChannel) -> (verdict: Result<
        PeerParams,
        PolicyError,
    >)
        ensures
            verdict == inbound_verdict(*self, *open_channel),
    {
        // if we consider `feerate_per_kw` too small for timely processing or
        // unreasonably large.
        if !self.feerate_per_kw_range.contains(&open_channel.feerate_per_kw) {
            return Err(
                PolicyError::FeeRateUnreasonable {
                    proposed: open_channel.feerate_per_kw,
                    lowest_accepted: self.feerate_per_kw_range.start,
                    highest_accepted: self.feerate_per_kw_range.end,
                },
            );
        }
        // if `funding_satoshis` is too small
        if let Some(limit) = self.funding_satoshis_min {
            if open_channel.funding_satoshis < limit {
                return Err(
                    PolicyError::ChannelFundingTooSmall {
                        proposed: open_channel.funding_satoshis,
                        required_minimum: limit,
                    },
                );
            }
        }
        // if we consider `channel_reserve_satoshis` too large relative to the
        // channel funding; the product is taken in 128 bits, where it cannot
        // overflow
        if let Some(percents) = self.channel_reserve_satoshis_max_percent {
            proof {
                let funding = open_channel.funding_satoshis;
                assert(funding * percents <= u64::MAX * 255) by (nonlinear_arith)
                    requires
                        funding <= u64::MAX,
                        percents <= 255,
                ;
            }
            let product: u128 = open_channel.funding_satoshis as u128 * percents as u128;
            let limit: u128 = product / 100;
            if open_channel.channel_reserve_satoshis as u128 > limit {
                return Err(
                    PolicyError::ChannelReserveTooLarge {
                        proposed: open_channel.channel_reserve_satoshis,
                        allowed_maximum: limit as u64,
                    },
                );
            }
        }
        let peer_params = PeerParams::from(open_channel);
        match self.validate_peer_params(peer_params) {
            Ok(()) => Ok(peer_params),
            Err(e) => Err(e),
        }
    }

    /// Confirms that parameters which were asked by a remote node via
    /// `accept_channel` message are confirming our policy, given the
    /// parameters `our_params` that the local node proposed in its
    /// `open_channel` message; returns the [`PeerParams`] to use for
    /// constructing channel transactions which should be signed by the local
    /// node.
    pub fn confirm_outbound(&self, our_params: PeerParams, accept_channel: &AcceptChannel) -> (verdict:
        Result<PeerParams, PolicyError>)
        ensures
            verdict == outbound_verdict(*self, our_params, *accept_channel),
    {
        // if `minimum_depth` is unreasonably large: MAY reject the channel.
        if let Some(limit) = self.maximum_depth {
            if accept_channel.minimum_depth > limit {
                return Err(
                    PolicyError::UnreasonableMinDepth {
                        proposed: accept_channel.minimum_depth,
                        allowed_maximum: limit,
                    },
                );
            }
        }
        // if `channel_reserve_satoshis` is less than `dust_limit_satoshis`
        // within the open_channel message: MUST reject the channel.
        if accept_channel.channel_reserve_satoshis < our_params.dust_limit_satoshis {
            return Err(
                PolicyError::LocalDustExceedsRemoteReserve {
                    channel_reserve: accept_channel.channel_reserve_satoshis,
                    dust_limit: our_params.dust_limit_satoshis,
                },
            );
        }
        // if `channel_reserve_satoshis` from the open_channel message is less
        // than `dust_limit_satoshis`: MUST reject the channel.
        if our_params.channel_reserve_satoshis < accept_channel.dust_limit_satoshis {
            return Err(
                PolicyError::RemoteDustExceedsLocalReserve {
                    channel_reserve: our_params.channel_reserve_satoshis,
                    dust_limit: accept_channel.dust_limit_satoshis,
                },
            );
        }
        let peer_params = PeerParams::from(accept_channel);
        match self.validate_peer_params(peer_params) {
            Ok(()) => Ok(peer_params),
            Err(e) => Err(e),
        }
    }
}

} // verus!

verus! {

/// The limits that BOLT-3 puts on peer parameters, whatever the local
/// policy: at most 483 accepted HTLCs, and a dust limit of at least 354
/// satoshis that does not exceed the channel reserve.
pub open spec fn bolt3_compliant(params: PeerParams) -> bool {
    &&& params.max_accepted_htlcs <= BOLT3_MAX_ACCEPTED_HTLC_LIMIT
    &&& params.dust_limit_satoshis <= params.channel_reserve_satoshis
    &&& params.dust_limit_satoshis >= BOLT3_DUST_LIMIT
}

/// Peer parameters meet the policy: they are BOLT-3 compliant and within
/// every limit that the policy sets.
pub open spec fn peer_params_meet_policy(policy: Policy, params: PeerParams) -> bool {
    &&& params.to_self_delay <= policy.to_self_delay_max
    &&& bolt3_compliant(params)
    &&& policy.htlc_minimum_msat_max matches Some(limit) ==> params.htlc_minimum_msat <= limit
    &&& policy.max_htlc_value_in_flight_msat_min matches Some(limit)
        ==> params.max_htlc_value_in_flight_msat >= limit
    &&& policy.channel_reserve_satoshis_max_abs matches Some(limit)
        ==> params.channel_reserve_satoshis <= limit
    &&& policy.max_accepted_htlcs_min matches Some(limit) ==> params.max_accepted_htlcs >= limit
    &&& policy.dust_limit_satoshis_max matches Some(limit) ==> params.dust_limit_satoshis <= limit
}

/// An `open_channel` message meets the policy: its fee rate is accepted, its
/// funding is large enough, its reserve is within the share of the funding
/// that the policy allows, and the peer parameters it proposes meet the
/// policy.
pub open spec fn open_channel_meets_policy(policy: Policy, open_channel: OpenChannel) -> bool {
    &&& inbound_fee_and_funding_accepted(policy, open_channel)
    &&& policy.channel_reserve_satoshis_max_percent matches Some(percents)
        ==> open_channel.channel_reserve_satoshis <= relative_reserve_limit(
        open_channel.funding_satoshis,
        percents,
    )
    &&& peer_params_meet_policy(policy, peer_params_of_open(open_channel))
}

/// An `accept_channel` message answering a channel proposed with
/// `our_params` meets the policy: its minimum depth is not beyond the
/// policy's maximum, each side's reserve covers the other side's dust limit,
/// and the peer parameters it proposes meet the policy.
pub open spec fn accept_channel_meets_policy(
    policy: Policy,
    our_params: PeerParams,
    accept_channel: AcceptChannel,
) -> bool {
    &&& policy.maximum_depth matches Some(limit) ==> accept_channel.minimum_depth <= limit
    &&& accept_channel.channel_reserve_satoshis >= our_params.dust_limit_satoshis
    &&& our_params.channel_reserve_satoshis >= accept_channel.dust_limit_satoshis
    &&& peer_params_meet_policy(policy, peer_params_of_accept(accept_channel))
}

/// `loose` is nowhere stricter than `strict`: each of its upper limits is
/// absent or at least that of `strict`, each of its lower limits is absent
/// or at most that of `strict`, and its fee rate range contains that of
/// `strict`.
pub open spec fn relaxes(loose: Policy, strict: Policy) -> bool {
    &&& loose.to_self_delay_max >= strict.to_self_delay_max
    &&& loose.feerate_per_kw_range.start <= strict.feerate_per_kw_range.start
    &&& loose.feerate_per_kw_range.end >= strict.feerate_per_kw_range.end
    &&& loose.maximum_depth matches Some(l) ==> (strict.maximum_depth matches Some(s) && l >= s)
    &&& loose.funding_satoshis_min matches Some(l) ==> (strict.funding_satoshis_min matches Some(
        s,
    ) && l <= s)
    &&& loose.htlc_minimum_msat_max matches Some(l) ==> (strict.htlc_minimum_msat_max matches Some(
        s,
    ) && l >= s)
    &&& loose.max_htlc_value_in_flight_msat_min matches Some(l)
        ==> (strict.max_htlc_value_in_flight_msat_min matches Some(s) && l <= s)
    &&& loose.channel_reserve_satoshis_max_abs matches Some(l)
        ==> (strict.channel_reserve_satoshis_max_abs matches Some(s) && l >= s)
    &&& loose.channel_reserve_satoshis_max_percent matches Some(l)
        ==> (strict.channel_reserve_satoshis_max_percent matches Some(s) && l >= s)
    &&& loose.max_accepted_htlcs_min matches Some(l) ==> (strict.max_accepted_htlcs_min matches Some(
        s,
    ) && l <= s)
    &&& loose.dust_limit_satoshis_max matches Some(l) ==> (strict.dust_limit_satoshis_max matches Some(
        s,
    ) && l >= s)
}

} // verus!
