use vstd::prelude::*;
use crate::error::{BOLT3_DUST_LIMIT, BOLT3_MAX_ACCEPTED_HTLC_LIMIT};

verus! {

/// Structure containing part of the channel state which must follow specific
/// policies and be accepted or validated basing on those policies and
/// additional protocol-level requirements.
///
/// This information applies for only to one of the peers and requested by the
/// other peer. It is used in constructing transactions which should be signed
/// by the node demanding this requirements.
#[derive(Clone, Copy, PartialEq, Eq, Debug, Hash)]
pub struct PeerParams {
    /// The threshold below which outputs on transactions broadcast by sender
    /// will be omitted
    pub dust_limit_satoshis: u64,
    /// The number of blocks which the counterparty will have to wait to claim
    /// on-chain funds if they broadcast a commitment transaction
    pub to_self_delay: u16,
    /// Indicates the smallest value HTLC this node will accept.
    pub htlc_minimum_msat: u64,
    /// The maximum inbound HTLC value in flight towards sender, in
    /// milli-satoshi
    pub max_htlc_value_in_flight_msat: u64,
    /// The minimum value unencumbered by HTLCs for the counterparty to keep in
    /// the channel
    pub channel_reserve_satoshis: u64,
    /// The maximum number of inbound HTLCs towards sender
    pub max_accepted_htlcs: u16,
}

impl Default for PeerParams {
    /// Sets reasonable values for the channel parameters requested from the
    /// other peer in sent `open_channel` or `accept_channel` messages.
    fn default() -> (params: Self)
        ensures
            params.dust_limit_satoshis == BOLT3_DUST_LIMIT,
            params.to_self_delay == 3,
            params.htlc_minimum_msat == 1,
            params.max_htlc_value_in_flight_msat == 1_000_000_000,
            params.channel_reserve_satoshis == 10000,
            params.max_accepted_htlcs == BOLT3_MAX_ACCEPTED_HTLC_LIMIT,
    {
        PeerParams {
            dust_limit_satoshis: BOLT3_DUST_LIMIT,
            to_self_delay: 3,
            htlc_minimum_msat: 1,
            max_htlc_value_in_flight_msat: 1_000_000_000,
            channel_reserve_satoshis: 10000,
            max_accepted_htlcs: BOLT3_MAX_ACCEPTED_HTLC_LIMIT,
        }
    }
}

} // verus!

verus! {

/// The kinds of channel that BOLT-2 enumerates (`lnp2p`'s `ChannelType`),
/// carried through unchanged.
#[verifier::external_type_specification]
#[verifier::external_body]
pub struct ExChannelType(lnp2p::bolt::ChannelType);

/// `lnp2p`'s `Default` for `ChannelType` (which gives `ChannelType::Basic`).
/// Nothing is claimed of its result: the type is opaque here, and the
/// contracts that use it speak of whatever this call returns.
pub assume_specification [<lnp2p::bolt::ChannelType as core::default::Default>::default] () -> lnp2p::bolt::ChannelType;

/// The fields of a BOLT-2 `open_channel` message that the local policy reads
/// when a remote peer proposes a new channel.
#[derive(Clone, Copy, PartialEq, Eq, Debug, Hash)]
pub struct OpenChannel {
    /// The channel value
    pub funding_satoshis: u64,
    /// The threshold below which outputs on transactions broadcast by sender
    /// will be omitted
    pub dust_limit_satoshis: u64,
    /// The maximum inbound HTLC value in flight towards sender, in
    /// millisatoshi
    pub max_htlc_value_in_flight_msat: u64,
    /// The minimum value unencumbered by HTLCs for the counterparty to keep
    /// in the channel
    pub channel_reserve_satoshis: u64,
    /// The minimum HTLC size incoming to sender, in milli-satoshi
    pub htlc_minimum_msat: u64,
    /// The fee rate per 1000-weight of sender generated transactions
    pub feerate_per_kw: u32,
    /// The number of blocks which the counterparty will have to wait to claim
    /// on-chain funds if they broadcast a commitment transaction
    pub to_self_delay: u16,
    /// The maximum number of inbound HTLCs towards sender
    pub max_accepted_htlcs: u16,
    /// Channel flags; only the least-significant bit, `announce_channel`, is
    /// defined.
    pub channel_flags: u8,
    /// The channel type requested by the sender, if any
    pub channel_type: Option<lnp2p::bolt::ChannelType>,
}

/// Whether the flags of an `open_channel` message ask for the channel to be
/// announced: their least-significant bit is set.
pub open spec fn announces_channel(channel_flags: u8) -> bool {
    channel_flags & 0x01 == 0x01
}

impl OpenChannel {
    /// Detects whether channel should be announced
    pub fn should_announce_channel(&self) -> (announce: bool)
        ensures
            announce == announces_channel(self.channel_flags),
    {
        self.channel_flags & 0x01 == 0x01
    }
}

/// The fields of a BOLT-2 `accept_channel` message that the local policy
/// reads when a remote peer answers a channel proposed by the local node.
#[derive(Clone, Copy, PartialEq, Eq, Debug, Hash)]
pub struct AcceptChannel {
    /// The threshold below which outputs on transactions broadcast by sender
    /// will be omitted
    pub dust_limit_satoshis: u64,
    /// The maximum inbound HTLC value in flight towards sender, in
    /// milli-satoshi
    pub max_htlc_value_in_flight_msat: u64,
    /// The minimum value unencumbered by HTLCs for the counterparty to keep in
    /// the channel
    pub channel_reserve_satoshis: u64,
    /// The minimum HTLC size incoming to sender, in milli-satoshi
    pub htlc_minimum_msat: u64,
    /// Minimum depth of the funding transaction before the channel is
    /// considered open
    pub minimum_depth: u32,
    /// The number of blocks which the counterparty will have to wait to claim
    /// on-chain funds if they broadcast a commitment transaction
    pub to_self_delay: u16,
    /// The maximum number of inbound HTLCs towards sender
    pub max_accepted_htlcs: u16,
}

/// The peer parameters that an `open_channel` message proposes.
pub open spec fn peer_params_of_open(open_channel: OpenChannel) -> PeerParams {
    PeerParams {
        dust_limit_satoshis: open_channel.dust_limit_satoshis,
        to_self_delay: open_channel.to_self_delay,
        htlc_minimum_msat: open_channel.htlc_minimum_msat,
        max_htlc_value_in_flight_msat: open_channel.max_htlc_value_in_flight_msat,
        channel_reserve_satoshis: open_channel.channel_reserve_satoshis,
        max_accepted_htlcs: open_channel.max_accepted_htlcs,
    }
}

/// The peer parameters that an `accept_channel` message proposes.
pub open spec fn peer_params_of_accept(accept_channel: AcceptChannel) -> PeerParams {
    PeerParams {
        dust_limit_satoshis: accept_channel.dust_limit_satoshis,
        to_self_delay: accept_channel.to_self_delay,
        htlc_minimum_msat: accept_channel.htlc_minimum_msat,
        max_htlc_value_in_flight_msat: accept_channel.max_htlc_value_in_flight_msat,
        channel_reserve_satoshis: accept_channel.channel_reserve_satoshis,
        max_accepted_htlcs: accept_channel.max_accepted_htlcs,
    }
}

impl<'a> From<&'a OpenChannel> for PeerParams {
    /// Extracts peer-specific parameters from the incoming `open_channel`
    /// message. These parameters are applied to the local node.
    fn from(open_channel: &'a OpenChannel) -> (params: Self)
        ensures
            params == peer_params_of_open(*open_channel),
            params.dust_limit_satoshis == open_channel.dust_limit_satoshis,
            params.to_self_delay == open_channel.to_self_delay,
            params.htlc_minimum_msat == open_channel.htlc_minimum_msat,
            params.max_htlc_value_in_flight_msat == open_channel.max_htlc_value_in_flight_msat,
            params.channel_reserve_satoshis == open_channel.channel_reserve_satoshis,
            params.max_accepted_htlcs == open_channel.max_accepted_htlcs,
    {
        PeerParams {
            dust_limit_satoshis: open_channel.dust_limit_satoshis,
            to_self_delay: open_channel.to_self_delay,
            htlc_minimum_msat: open_channel.htlc_minimum_msat,
            max_htlc_value_in_flight_msat: open_channel.max_htlc_value_in_flight_msat,
            channel_reserve_satoshis: open_channel.channel_reserve_satoshis,
            max_accepted_htlcs: open_channel.max_accepted_htlcs,
        }
    }
}

impl<'a> vstd::std_specs::convert::FromSpecImpl<&'a OpenChannel> for PeerParams {
    open spec fn obeys_from_spec() -> bool {
        true
    }

    open spec fn from_spec(open_channel: &'a OpenChannel) -> PeerParams {
        peer_params_of_open(*open_channel)
    }
}

impl<'a> From<&'a AcceptChannel> for PeerParams {
    /// Extracts peer-specific parameters from the incoming `accept_channel`
    /// message. These parameters are applied to the local node.
    fn from(accept_channel: &'a AcceptChannel) -> (params: Self)
        ensures
            params == peer_params_of_accept(*accept_channel),
            params.dust_limit_satoshis == accept_channel.dust_limit_satoshis,
            params.to_self_delay == accept_channel.to_self_delay,
            params.htlc_minimum_msat == accept_channel.htlc_minimum_msat,
            params.max_htlc_value_in_flight_msat == accept_channel.max_htlc_value_in_flight_msat,
            params.channel_reserve_satoshis == accept_channel.channel_reserve_satoshis,
            params.max_accepted_htlcs == accept_channel.max_accepted_htlcs,
    {
        PeerParams {
            dust_limit_satoshis: accept_channel.dust_limit_satoshis,
            to_self_delay: accept_channel.to_self_delay,
            htlc_minimum_msat: accept_channel.htlc_minimum_msat,
            max_htlc_value_in_flight_msat: accept_channel.max_htlc_value_in_flight_msat,
            channel_reserve_satoshis: accept_channel.channel_reserve_satoshis,
            max_accepted_htlcs: accept_channel.max_accepted_htlcs,
        }
    }
}

impl<'a> vstd::std_specs::convert::FromSpecImpl<&'a AcceptChannel> for PeerParams {
    open spec fn obeys_from_spec() -> bool {
        true
    }

    open spec fn from_spec(accept_channel: &'a AcceptChannel) -> PeerParams {
        peer_params_of_accept(*accept_channel)
    }
}

/// Structure containing part of the channel configuration (and state, as it
/// contains adjustible fee) which must follow specific policies and be accepted
/// or validated basing on those policies and additional protocol-level
/// requirements.
///
/// This information applies for both channel peers and used in constructing
/// both sides of asymmetric transactions.
#[derive(Clone, Copy, PartialEq, Eq, Debug, Hash)]
pub struct CommonParams {
    /// Minimum depth of the funding transaction before the channel is
    /// considered open
    pub minimum_depth: u32,
    /// indicates the initial fee rate in satoshi per 1000-weight that this
    /// side will pay for commitment and HTLC transactions, as described in
    /// BOLT #3 (this can be adjusted later with an update_fee message).
    pub feerate_per_kw: u32,
    /// The least-significant bit of `channel_flags`. Indicates whether the
    /// initiator of the funding flow wishes to advertise this channel publicly
    /// to the network, as detailed within BOLT #7.
    pub announce_channel: bool,
    /// Channel types are an explicit enumeration: for convenience of future
    /// definitions they reuse even feature bits, but they are not an arbitrary
    /// combination (they represent the persistent features which affect the
    /// channel operation).
    pub channel_type: lnp2p::bolt::ChannelType,
}

impl Default for CommonParams {
    /// Sets reasonable values for the common channel parameters used in
    /// constructing `open_channel` message.
    fn default() -> (params: Self)
        ensures
            params.minimum_depth == 3,
            params.feerate_per_kw == 256,
            params.announce_channel,
            <lnp2p::bolt::ChannelType as Default>::default.ensures((), params.channel_type),
    {
        CommonParams {
            minimum_depth: 3,
            feerate_per_kw: 256,
            announce_channel: true,
            channel_type: <lnp2p::bolt::ChannelType as Default>::default(),
        }
    }
}

impl CommonParams {
    /// Extracts common parameters from the incoming `open_channel` message and
    /// local default requirement for the minimum depth.
    pub fn with(open_channel: &OpenChannel, minimum_depth: u32) -> (params: Self)
        ensures
            params.minimum_depth == minimum_depth,
            params.feerate_per_kw == open_channel.feerate_per_kw,
            params.announce_channel == announces_channel(open_channel.channel_flags),
            open_channel.channel_type matches Some(requested)
                ==> params.channel_type == requested,
            open_channel.channel_type is None
                ==> <lnp2p::bolt::ChannelType as Default>::default.ensures((), params.channel_type),
    {
        CommonParams {
            minimum_depth,
            feerate_per_kw: open_channel.feerate_per_kw,
            announce_channel: open_channel.should_announce_channel(),
            channel_type: open_channel.channel_type.unwrap_or_default(),
        }
    }
}

} // verus!
