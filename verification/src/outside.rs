//! Values taken from the virtio, vhost and guest memory crates, and from `std`.
//!
//! Each function here hands on one value of another crate. Its contract is
//! not proved: it says what that crate defines.
use vm_memory::{ByteValued, Le16};
use vstd::prelude::*;

verus! {

/// `virtio_bindings::bindings::virtio_config::VIRTIO_F_VERSION_1`, a constant:
/// the feature bit of devices that follow version 1 of virtio is bit 32.
#[verifier::external_body]
pub(crate) fn virtio_f_version_1() -> (bit: u32)
    ensures
        bit == 32,
{
    virtio_bindings::bindings::virtio_config::VIRTIO_F_VERSION_1
}

/// `virtio_bindings::bindings::virtio_config::VIRTIO_F_NOTIFY_ON_EMPTY`, a
/// constant: the feature bit is bit 24.
#[verifier::external_body]
pub(crate) fn virtio_f_notify_on_empty() -> (bit: u32)
    ensures
        bit == 24,
{
    virtio_bindings::bindings::virtio_config::VIRTIO_F_NOTIFY_ON_EMPTY
}

/// `virtio_bindings::bindings::virtio_ring::VIRTIO_RING_F_INDIRECT_DESC`, a
/// constant: the feature bit is bit 28.
#[verifier::external_body]
pub(crate) fn virtio_ring_f_indirect_desc() -> (bit: u32)
    ensures
        bit == 28,
{
    virtio_bindings::bindings::virtio_ring::VIRTIO_RING_F_INDIRECT_DESC
}

/// `bits` of `vhost::vhost_user::message::VhostUserVirtioFeatures::PROTOCOL_FEATURES`:
/// the one flag is bit 30.
#[verifier::external_body]
pub(crate) fn vhost_user_protocol_features() -> (bits: u64)
    ensures
        bits == 0x4000_0000,
{
    vhost::vhost_user::message::VhostUserVirtioFeatures::PROTOCOL_FEATURES.bits()
}

/// `bits` of `vhost::vhost_user::message::VhostUserProtocolFeatures::MQ`: the
/// one flag is bit 0.
#[verifier::external_body]
pub(crate) fn vhost_user_protocol_mq() -> (bits: u64)
    ensures
        bits == 1,
{
    vhost::vhost_user::message::VhostUserProtocolFeatures::MQ.bits()
}

/// `bits` of `vmm_sys_util::epoll::EventSet::IN`: `EPOLLIN`, which is 1 on
/// Linux.
#[verifier::external_body]
pub(crate) fn event_set_in() -> (bits: u32)
    ensures
        bits == 1,
{
    vmm_sys_util::epoll::EventSet::IN.bits()
}

/// `vm_memory::Le16::from`, seen through `vm_memory::ByteValued::as_slice`: a
/// 16-bit value in memory is its low byte, then its high byte.
#[verifier::external_body]
pub(crate) fn le16_bytes(value: u16) -> (bytes: [u8; 2])
    ensures
        bytes@ == seq![(value % 256) as u8, (value / 256) as u8],
{
    let value = Le16::from(value);
    let bytes = value.as_slice();
    [bytes[0], bytes[1]]
}

/// What `std` prints for a string with `{:?}`.
pub uninterp spec fn str_debug(s: Seq<char>) -> Seq<char>;

/// `std`'s `format!` with the `Debug` form of a string, as a name: the quoted
/// and escaped string is a function of the string alone.
#[verifier::external_body]
pub(crate) fn debug_string(s: &str) -> (quoted: String)
    ensures
        quoted@ == str_debug(s@),
{
    format!("{:?}", s)
}

} // verus!
