//! The flags of the vhost-user protocol, as the `vhost` crate defines them.
use vhost::vhost_user::message::{
    VhostUserHeaderFlag, VhostUserProtocolFeatures, VhostUserVirtioFeatures,
};
use vstd::prelude::*;

verus! {

/// The virtio feature bit by which a backend offers protocol features.
pub const VHOST_USER_F_PROTOCOL_FEATURES: u64 = 0x4000_0000;

/// The virtio feature bit that makes a backend log the guest pages it writes.
pub const VHOST_F_LOG_ALL: u64 = 0x0400_0000;

/// Protocol feature: more than one queue.
pub const PROTOCOL_F_MQ: u64 = 0x0000_0001;

/// Protocol feature: the dirty log lies in shared memory.
pub const PROTOCOL_F_LOG_SHMFD: u64 = 0x0000_0002;

/// Protocol feature: the backend answers requests that ask for a reply.
pub const PROTOCOL_F_REPLY_ACK: u64 = 0x0000_0008;

/// Protocol feature: the backend saves and loads its internal state.
pub const PROTOCOL_F_DEVICE_STATE: u64 = 0x0008_0000;

/// All protocol features that are known.
pub const PROTOCOL_F_ALL: u64 = 0x003f_ffff;

/// Header flag: the request asks for a reply.
pub const HEADER_NEED_REPLY: u32 = 0x8;

/// `VhostUserVirtioFeatures::PROTOCOL_FEATURES.bits()`.
#[verifier::external_body]
pub(crate) fn protocol_features_bit() -> (bits: u64)
    ensures
        bits == VHOST_USER_F_PROTOCOL_FEATURES,
{
    VhostUserVirtioFeatures::PROTOCOL_FEATURES.bits()
}

/// `VhostUserVirtioFeatures::LOG_ALL.bits()`.
#[verifier::external_body]
pub(crate) fn log_all_bit() -> (bits: u64)
    ensures
        bits == VHOST_F_LOG_ALL,
{
    VhostUserVirtioFeatures::LOG_ALL.bits()
}

/// `VhostUserProtocolFeatures::MQ.bits()`.
#[verifier::external_body]
pub(crate) fn mq_bit() -> (bits: u64)
    ensures
        bits == PROTOCOL_F_MQ,
{
    VhostUserProtocolFeatures::MQ.bits()
}

/// `VhostUserProtocolFeatures::LOG_SHMFD.bits()`.
#[verifier::external_body]
pub(crate) fn log_shmfd_bit() -> (bits: u64)
    ensures
        bits == PROTOCOL_F_LOG_SHMFD,
{
    VhostUserProtocolFeatures::LOG_SHMFD.bits()
}

/// `VhostUserProtocolFeatures::REPLY_ACK.bits()`.
#[verifier::external_body]
pub(crate) fn reply_ack_bit() -> (bits: u64)
    ensures
        bits == PROTOCOL_F_REPLY_ACK,
{
    VhostUserProtocolFeatures::REPLY_ACK.bits()
}

/// `VhostUserProtocolFeatures::DEVICE_STATE.bits()`.
#[verifier::external_body]
pub(crate) fn device_state_bit() -> (bits: u64)
    ensures
        bits == PROTOCOL_F_DEVICE_STATE,
{
    VhostUserProtocolFeatures::DEVICE_STATE.bits()
}

/// `VhostUserHeaderFlag::NEED_REPLY.bits()`.
#[verifier::external_body]
pub(crate) fn need_reply_flag() -> (bits: u32)
    ensures
        bits == HEADER_NEED_REPLY,
{
    VhostUserHeaderFlag::NEED_REPLY.bits()
}

/// Protocol features of which every bit is known.
pub open spec fn known_protocol_bits(bits: u64) -> Option<u64> {
    if bits & PROTOCOL_F_ALL == bits {
        Some(bits)
    } else {
        None
    }
}

/// `VhostUserProtocolFeatures::from_bits`: it keeps a set of bits exactly where all of them are
/// known flags.
#[verifier::external_body]
pub(crate) fn protocol_features_from_bits(bits: u64) -> (known: Option<u64>)
    ensures
        known == known_protocol_bits(bits),
{
    VhostUserProtocolFeatures::from_bits(bits).map(|features| features.bits())
}

/// A set of bits contains all bits of a flag.
pub open spec fn has_flag(bits: u64, flag: u64) -> bool {
    bits & flag == flag
}

} // verus!
