//! The items of the iceoryx2 building-block crates that the request logic
//! touches, with the contracts this crate relies on.
//!
//! Nothing in this file is proved: each contract below is believed as it
//! stands, and says what the outside function does in the crate's source.
use vstd::prelude::*;

use iceoryx2_bb_posix::unique_system_id::UniqueSystemId;
use iceoryx2_cal::shm_allocator::PointerOffset;
use iceoryx2_cal::zero_copy_connection::{ChannelId, ZeroCopyReleaseError};

verus! {

/// `iceoryx2_cal::shm_allocator::PointerOffset`: the position of a chunk in
/// the data segment. Carried through unchanged; its bits are never read here.
#[verifier::external_type_specification]
#[verifier::external_body]
pub struct ExPointerOffset(PointerOffset);

/// `iceoryx2_cal::zero_copy_connection::ChannelId`: a channel of a
/// zero-copy connection.
#[verifier::external_type_specification]
#[verifier::external_body]
pub struct ExChannelId(ChannelId);

/// `iceoryx2_cal::zero_copy_connection::ZeroCopyReleaseError`: why a
/// receiver could not hand a chunk back to its sender. A public enum with one
/// unit variant, so verified code may match on it.
#[verifier::external_type_specification]
pub struct ExZeroCopyReleaseError(ZeroCopyReleaseError);

/// `iceoryx2_bb_posix::unique_system_id::UniqueSystemId`: a system wide
/// unique id, four `u32` words laid out as one `u128`.
#[verifier::external_type_specification]
#[verifier::external_body]
pub struct ExUniqueSystemId(UniqueSystemId);

/// The channel id that `ChannelId::new(value)` gives.
pub uninterp spec fn channel_id_of(value: usize) -> ChannelId;

/// The number of a channel: the value that `ChannelId::new` turns into `id`.
pub open spec fn channel_number(id: ChannelId) -> usize {
    choose|value: usize| channel_id_of(value) == id
}

/// The system id that `UniqueSystemId::from(value)` gives.
pub uninterp spec fn system_id_of(value: u128) -> UniqueSystemId;

/// Calls `ChannelId::new`, which wraps `value` as it is
/// (`Self(value)` in the crate's source), so no other value gives the same
/// channel id.
#[verifier::external_body]
pub(crate) fn channel_id_new(value: usize) -> (id: ChannelId)
    ensures
        id == channel_id_of(value),
        forall|other: usize| #[trigger] channel_id_of(other) == id ==> other == value,
{
    ChannelId::new(value)
}

/// Calls `<UniqueSystemId as From<u128>>::from`. In the crate's source it is
/// a `transmute` from the `u128` into the four `u32` words of a `repr(C)`
/// struct without padding, so it is a bijection: the contract states that
/// the id is the one named by `system_id_of(value)` and that no other value
/// names it.
#[verifier::external_body]
pub(crate) fn system_id_from(value: u128) -> (id: UniqueSystemId)
    ensures
        id == system_id_of(value),
        forall|other: u128| #[trigger] system_id_of(other) == id ==> other == value,
{
    UniqueSystemId::from(value)
}

/// Calls `UniqueSystemId::value`, the `transmute` back into a `u128`: the
/// value it returns is the one that `UniqueSystemId::from` turns into `id`.
#[verifier::external_body]
pub(crate) fn system_id_value(id: &UniqueSystemId) -> (value: u128)
    ensures
        system_id_of(value) == *id,
        forall|other: u128| #[trigger] system_id_of(other) == *id ==> other == value,
{
    id.value()
}

} // verus!
