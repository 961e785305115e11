//! A received chunk: header, user header and payload side by side.
use vstd::prelude::*;

verus! {

/// The three parts of a received chunk. In shared memory they sit side by
/// side behind one pointer; here each part is held as a value, so every
/// reference handed out is a reference into this sample.
pub struct RawSample<Header, UserHeader, Payload> {
    pub header: Header,
    pub user_header: UserHeader,
    pub payload: Payload,
}

impl<Header, UserHeader, Payload> RawSample<Header, UserHeader, Payload> {
    /// The header of the chunk.
    pub open spec fn spec_header(&self) -> Header {
        self.header
    }

    /// The user header of the chunk.
    pub open spec fn spec_user_header(&self) -> UserHeader {
        self.user_header
    }

    /// The payload of the chunk.
    pub open spec fn spec_payload(&self) -> Payload {
        self.payload
    }

    /// The views of a sample are its three parts as stored.
    pub proof fn lemma_views_are_fields(self)
        ensures
            self.spec_header() == self.header,
            self.spec_user_header() == self.user_header,
            self.spec_payload() == self.payload,
    {
    }

    /// Puts the three parts of a chunk together.
    pub fn new(header: Header, user_header: UserHeader, payload: Payload) -> (r: Self)
        ensures
            r.header == header,
            r.user_header == user_header,
            r.payload == payload,
            r.spec_header() == header,
            r.spec_user_header() == user_header,
            r.spec_payload() == payload,
    {
        RawSample { header, user_header, payload }
    }

    /// Returns a reference to the header.
    pub fn as_header_ref(&self) -> (r: &Header)
        ensures
            *r == self.header,
            *r == self.spec_header(),
    {
        &self.header
    }

    /// Returns a reference to the user header.
    pub fn as_user_header_ref(&self) -> (r: &UserHeader)
        ensures
            *r == self.user_header,
            *r == self.spec_user_header(),
    {
        &self.user_header
    }

    /// Returns a reference to the payload.
    pub fn as_payload_ref(&self) -> (r: &Payload)
        ensures
            *r == self.payload,
            *r == self.spec_payload(),
    {
        &self.payload
    }
}

} // verus!
