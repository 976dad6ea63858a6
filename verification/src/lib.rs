//! Policies for accepting the parameters of a Lightning channel proposed by a
//! remote peer, following the channel establishment rules of BOLT-2 and the
//! protocol limits of BOLT-3.
//!
//! The policy checks themselves, the messages' fields that they read and the
//! parameters they hand back are all verified; `laws` states and proves what
//! holds of every validation.

pub mod error;
pub mod params;
pub mod policy;
pub mod laws;

pub use error::{PolicyError, BOLT3_DUST_LIMIT, BOLT3_MAX_ACCEPTED_HTLC_LIMIT};
pub use params::{AcceptChannel, CommonParams, OpenChannel, PeerParams};
pub use policy::Policy;
