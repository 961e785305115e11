//! The server side of one request: the received request chunk, where it came
//! from, and how it is handed back to the client once the server is done.
use vstd::prelude::*;

use core::fmt::Debug;
use core::marker::PhantomData;

use iceoryx2_cal::shm_allocator::PointerOffset;
use iceoryx2_cal::zero_copy_connection::{ChannelId, ZeroCopyReleaseError};

use crate::external::{
    channel_id_new, channel_id_of, channel_number, system_id_from, system_id_of,
};
use crate::header;
use crate::port_identifiers::UniqueClientId;
use crate::raw_sample::RawSample;

verus! {

/// The channel of the client's zero-copy connection over which request
/// chunks are handed back.
pub const REQUEST_RETURN_CHANNEL: usize = 0;

/// Where a received chunk lives and who sent it.
#[derive(Debug, Clone, Copy)]
pub struct ChunkDetails {
    pub offset: PointerOffset,
    pub origin: u128,
}

impl ChunkDetails {
    /// The position of the chunk in the data segment.
    pub open spec fn spec_offset(&self) -> PointerOffset {
        self.offset
    }

    /// The raw id of the client port that sent the chunk.
    pub open spec fn spec_origin(&self) -> u128 {
        self.origin
    }

    /// The views of chunk details are its fields as stored: the offset the
    /// chunk lives at and the raw id of the client that sent it, unchanged.
    pub proof fn lemma_views_are_fields(self)
        ensures
            self.spec_offset() == self.offset,
            self.spec_origin() == self.origin,
    {
    }

    /// Describes a chunk at `offset` that was sent by the client whose raw id
    /// is `origin`.
    pub fn new(offset: PointerOffset, origin: u128) -> (r: Self)
        ensures
            r.offset == offset,
            r.origin == origin,
            r.spec_offset() == offset,
            r.spec_origin() == origin,
    {
        ChunkDetails { offset, origin }
    }
}

/// One step of giving a request chunk back to the client.
#[derive(Debug, Clone, Copy)]
pub enum ReleaseStep {
    /// Unregister the chunk at this offset from the data segment.
    Unregister(PointerOffset),
    /// Release the chunk at this offset to the client over this channel of
    /// the client's zero-copy connection.
    Release(PointerOffset, ChannelId),
}

/// Why a request chunk could not be handed back to the client.
#[derive(Debug, Clone, Copy, PartialEq, Eq, Structural)]
pub enum ReleaseError {
    /// The client's retrieve channel is full.
    RetrieveBufferFull,
}

/// A request that a server received from a client: the request chunk
/// (request header, user header and payload), where the chunk lives and
/// which client sent it. Giving it up yields the steps that hand the chunk
/// back to that client.
pub struct ActiveRequest<
    RequestPayload: Debug,
    RequestHeader: Debug,
    ResponsePayload: Debug,
    ResponseHeader: Debug,
> {
    pub ptr: RawSample<header::RequestHeader, RequestHeader, RequestPayload>,
    pub details: ChunkDetails,
    pub _response_payload: PhantomData<ResponsePayload>,
    pub _response_header: PhantomData<ResponseHeader>,
}

impl<
    RequestPayload: Debug,
    RequestHeader: Debug,
    ResponsePayload: Debug,
    ResponseHeader: Debug,
> ActiveRequest<RequestPayload, RequestHeader, ResponsePayload, ResponseHeader> {
    /// The received chunk.
    pub open spec fn spec_sample(&self) -> RawSample<
        header::RequestHeader,
        RequestHeader,
        RequestPayload,
    > {
        self.ptr
    }

    /// Where the received chunk lives and who sent it.
    pub open spec fn spec_details(&self) -> ChunkDetails {
        self.details
    }

    /// The views of a request are its fields as stored: the received chunk
    /// and its details, and through them the payload, user header, header,
    /// offset and raw origin that the accessors hand out.
    pub proof fn lemma_views_are_fields(self)
        ensures
            self.spec_sample() == self.ptr,
            self.spec_details() == self.details,
            self.spec_sample().spec_payload() == self.ptr.payload,
            self.spec_sample().spec_user_header() == self.ptr.user_header,
            self.spec_sample().spec_header() == self.ptr.header,
            self.spec_details().spec_offset() == self.details.offset,
            self.spec_details().spec_origin() == self.details.origin,
    {
    }

    /// Wraps a received request chunk.
    pub fn new(
        ptr: RawSample<header::RequestHeader, RequestHeader, RequestPayload>,
        details: ChunkDetails,
    ) -> (r: Self)
        ensures
            r.ptr == ptr,
            r.details == details,
            r.spec_sample() == ptr,
            r.spec_details() == details,
    {
        ActiveRequest {
            ptr,
            details,
            _response_payload: PhantomData,
            _response_header: PhantomData,
        }
    }

    /// Returns a reference to the payload of the received request.
    pub fn payload(&self) -> (r: &RequestPayload)
        ensures
            *r == self.ptr.payload,
            *r == self.spec_sample().spec_payload(),
    {
        self.ptr.as_payload_ref()
    }

    /// Returns a reference to the user header of the received request.
    pub fn user_header(&self) -> (r: &RequestHeader)
        ensures
            *r == self.ptr.user_header,
            *r == self.spec_sample().spec_user_header(),
    {
        self.ptr.as_user_header_ref()
    }

    /// Returns a reference to the request header of the received request.
    pub fn header(&self) -> (r: &header::RequestHeader)
        ensures
            *r == self.ptr.header,
            *r == self.spec_sample().spec_header(),
    {
        self.ptr.as_header_ref()
    }

    /// Returns the id of the client that sent the request: the system id
    /// that the raw origin of the chunk names, so its value is that origin.
    pub fn origin(&self) -> (r: UniqueClientId)
        ensures
            r.0 == system_id_of(self.details.origin),
            system_id_of(r.spec_value()) == r.0,
            r.system_id() == system_id_of(self.spec_details().spec_origin()),
            r.spec_value() == self.spec_details().spec_origin(),
    {
        let id = system_id_from(self.details.origin);
        let r = UniqueClientId::from_system_id(id);
        r
    }

    /// Returns where the received chunk lives and who sent it.
    pub fn details(&self) -> (r: &ChunkDetails)
        ensures
            *r == self.details,
            *r == self.spec_details(),
    {
        &self.details
    }

    /// Gives the request up and returns, in the order they are to be
    /// performed, the steps that hand its chunk back to the client: first the
    /// chunk's offset is unregistered from the data segment, then that same
    /// offset is released over the request return channel. There is no other
    /// step, and each happens once; since the request is consumed, one
    /// request yields one release.
    pub fn release_steps(self) -> (r: Vec<ReleaseStep>)
        ensures
            r@.len() == 2,
            r@[0] == ReleaseStep::Unregister(self.details.offset),
            r@[1] == ReleaseStep::Release(self.details.offset, channel_id_of(REQUEST_RETURN_CHANNEL)),
            r@[0] == ReleaseStep::Unregister(self.spec_details().spec_offset()),
            r@[1] == ReleaseStep::Release(
                self.spec_details().spec_offset(),
                channel_id_of(REQUEST_RETURN_CHANNEL),
            ),
            channel_number(channel_id_of(REQUEST_RETURN_CHANNEL)) == REQUEST_RETURN_CHANNEL,
    {
        let offset = self.details.offset;
        let mut steps: Vec<ReleaseStep> = Vec::new();
        steps.push(ReleaseStep::Unregister(offset));
        steps.push(ReleaseStep::Release(offset, channel_id_new(REQUEST_RETURN_CHANNEL)));
        steps
    }
}

impl<
    RequestPayload: Debug,
    RequestHeader: Debug,
    ResponsePayload: Debug,
    ResponseHeader: Debug,
> core::ops::Deref for ActiveRequest<RequestPayload, RequestHeader, ResponsePayload, ResponseHeader> {
    type Target = RequestPayload;

    /// The request dereferences to its payload.
    fn deref(&self) -> (r: &RequestPayload)
        ensures
            *r == self.ptr.payload,
            *r == self.spec_sample().spec_payload(),
    {
        self.ptr.as_payload_ref()
    }
}

/// Judges what the client's receiver answered to the `Release` step: the
/// chunk is back with the client exactly when the answer is `Ok`; a refusal
/// means the client's retrieve channel is full, which the handing back
/// cannot recover from.
pub fn release_outcome(result: Result<(), ZeroCopyReleaseError>) -> (r: Result<
    (),
    ReleaseError,
>)
    ensures
        r is Ok <==> result is Ok,
        r is Err ==> r == Err::<(), ReleaseError>(ReleaseError::RetrieveBufferFull),
{
    match result {
        Ok(()) => Ok(()),
        Err(ZeroCopyReleaseError::RetrieveBufferFull) => Err(ReleaseError::RetrieveBufferFull),
    }
}

} // verus!
