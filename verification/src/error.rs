use vstd::prelude::*;

verus! {

/// Limit for the maximum number of the accepted HTLCs towards some node
pub const BOLT3_MAX_ACCEPTED_HTLC_LIMIT: u16 = 483;

/// BOLT-3 dust limit
pub const BOLT3_DUST_LIMIT: u64 = 354;

/// Errors from BOLT-2 policy validations for `open_channel` and
/// `accept_channel` messages.
#[derive(Clone, Copy, PartialEq, Eq, Hash, Debug)]
#[allow(inconsistent_fields)]
pub enum PolicyError {
    /// proposed `to_self_delay` value {proposed} is unreasonably large and
    /// exceeds node policy limit of {allowed_maximum}; rejecting the channel
    /// according to BOLT-2
    ToSelfDelayUnreasonablyLarge { proposed: u16, allowed_maximum: u16 },
    /// proposed limit for maximum accepted number of HTLCs {0} exceeds BOLT-3
    /// requirement to be below 483; rejecting the channel according to BOLT-2
    MaxAcceptedHtlcLimitExceeded(u16),
    /// proposed fee rate {proposed} sat/kw is outside of the fee rate policy
    /// of the local node ({lowest_accepted}..{highest_accepted} sat/kw);
    /// rejecting the channel according to BOLT-2
    FeeRateUnreasonable { proposed: u32, lowest_accepted: u32, highest_accepted: u32 },
    /// proposed channel reserve limit {reserve} sat is less than dust limit
    /// {dust_limit} sat; rejecting the channel according to BOLT-2
    ChannelReserveLessDust { reserve: u64, dust_limit: u64 },
    /// dust limit {0} sat is less than protocol minimum requirement of 354
    /// sat; rejecting the channel according to BOLT-2
    DustLimitTooSmall(u64),
    /// offered channel funding of {proposed} sat is too small and less than
    /// {required_minimum} required by the node policy; rejecting the channel
    /// according to BOLT-2
    ChannelFundingTooSmall { proposed: u64, required_minimum: u64 },
    /// HTLC minimum {proposed} is too large and exceeds node policy
    /// requirements ({allowed_maximum}); rejecting the channel according to
    /// BOLT-2
    HtlcMinimumTooLarge { proposed: u64, allowed_maximum: u64 },
    /// HTLC-in-flight maximum requirement of {proposed} is too small and
    /// does not match the node policy; the smallest requirement is
    /// {required_minimum}; rejecting the channel according to BOLT-2
    HtlcInFlightMaximumTooSmall { proposed: u64, required_minimum: u64 },
    /// requested {proposed} channel reserve is too large and exceeds local
    /// policy requirement of {allowed_maximum}; rejecting the channel
    /// according to BOLT-2
    ChannelReserveTooLarge { proposed: u64, allowed_maximum: u64 },
    /// maximum number of HTLCs {proposed} that can be accepted by the remote
    /// node is too small and does not match node policy requirement of
    /// {required_minimum}; rejecting the channel according to BOLT-2
    MaxAcceptedHtlcsTooSmall { proposed: u16, required_minimum: u16 },
    /// dust limit {proposed} sats exceeds node policy requirement of
    /// {allowed_maximum}; rejecting the channel according to BOLT-2
    DustLimitTooLarge { proposed: u64, allowed_maximum: u64 },
    /// minimum depth of {proposed} requested by the remote peer is exceeds
    /// local policy limit of {allowed_maximum}; rejecting the channel
    /// according to BOLT-2
    UnreasonableMinDepth { proposed: u32, allowed_maximum: u32 },
    /// `channel_reserve_satoshis` ({channel_reserve}) is less than
    /// `dust_limit_satoshis` ({dust_limit}) within the `open_channel`
    /// message; rejecting the channel according to BOLT-2
    LocalDustExceedsRemoteReserve { channel_reserve: u64, dust_limit: u64 },
    /// `channel_reserve_satoshis` from the open_channel message
    /// ({channel_reserve}) is less than `dust_limit_satoshis`
    /// ({dust_limit}; rejecting the channel according to BOLT-2
    RemoteDustExceedsLocalReserve { channel_reserve: u64, dust_limit: u64 },
}

impl PolicyError {
    /// What the error reports holds of the values it carries: the proposed
    /// value lies on the wrong side of the limit that the error names.
    pub open spec fn reports_violation(self) -> bool {
        match self {
            PolicyError::ToSelfDelayUnreasonablyLarge { proposed, allowed_maximum } =>
                proposed > allowed_maximum,
            PolicyError::MaxAcceptedHtlcLimitExceeded(proposed) =>
                proposed > BOLT3_MAX_ACCEPTED_HTLC_LIMIT,
            PolicyError::FeeRateUnreasonable { proposed, lowest_accepted, highest_accepted } =>
                !(lowest_accepted <= proposed && proposed < highest_accepted),
            PolicyError::ChannelReserveLessDust { reserve, dust_limit } => dust_limit > reserve,
            PolicyError::DustLimitTooSmall(dust_limit) => dust_limit < BOLT3_DUST_LIMIT,
            PolicyError::ChannelFundingTooSmall { proposed, required_minimum } =>
                proposed < required_minimum,
            PolicyError::HtlcMinimumTooLarge { proposed, allowed_maximum } =>
                proposed > allowed_maximum,
            PolicyError::HtlcInFlightMaximumTooSmall { proposed, required_minimum } =>
                proposed < required_minimum,
            PolicyError::ChannelReserveTooLarge { proposed, allowed_maximum } =>
                proposed > allowed_maximum,
            PolicyError::MaxAcceptedHtlcsTooSmall { proposed, required_minimum } =>
                proposed < required_minimum,
            PolicyError::DustLimitTooLarge { proposed, allowed_maximum } =>
                proposed > allowed_maximum,
            PolicyError::UnreasonableMinDepth { proposed, allowed_maximum } =>
                proposed > allowed_maximum,
            PolicyError::LocalDustExceedsRemoteReserve { channel_reserve, dust_limit } =>
                channel_reserve < dust_limit,
            PolicyError::RemoteDustExceedsLocalReserve { channel_reserve, dust_limit } =>
                channel_reserve < dust_limit,
        }
    }
}

} // verus!
