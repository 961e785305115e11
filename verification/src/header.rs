//! The header that iceoryx2 puts in front of every request.
use vstd::prelude::*;

use crate::port_identifiers::UniqueClientId;

verus! {

/// The request header that the client writes next to the user header and
/// the payload of each request.
#[derive(Debug, Clone, Copy)]
pub struct RequestHeader {
    pub client_id: UniqueClientId,
    pub request_id: u64,
    pub number_of_elements: u64,
}

impl RequestHeader {
    /// The id of the client that sent the request.
    pub open spec fn spec_client_id(&self) -> UniqueClientId {
        self.client_id
    }

    /// The number the client gave to the request.
    pub open spec fn spec_request_id(&self) -> u64 {
        self.request_id
    }

    /// The number of payload elements the request carries.
    pub open spec fn spec_number_of_elements(&self) -> u64 {
        self.number_of_elements
    }

    /// The views of a header are its fields as the client wrote them: the
    /// client id, the request id and the number of elements, none swapped or
    /// changed.
    pub proof fn lemma_views_are_fields(self)
        ensures
            self.spec_client_id() == self.client_id,
            self.spec_request_id() == self.request_id,
            self.spec_number_of_elements() == self.number_of_elements,
    {
    }

    /// Creates the header of a request.
    pub fn new(client_id: UniqueClientId, request_id: u64, number_of_elements: u64) -> (r: Self)
        ensures
            r.client_id == client_id,
            r.request_id == request_id,
            r.number_of_elements == number_of_elements,
            r.spec_client_id() == client_id,
            r.spec_request_id() == request_id,
            r.spec_number_of_elements() == number_of_elements,
    {
        RequestHeader { client_id, request_id, number_of_elements }
    }

    /// Returns the id of the client that sent the request.
    pub fn client_port_id(&self) -> (r: UniqueClientId)
        ensures
            r == self.client_id,
            r == self.spec_client_id(),
    {
        self.client_id
    }

    /// Returns the number of payload elements of the request.
    pub fn number_of_elements(&self) -> (r: u64)
        ensures
            r == self.number_of_elements,
            r == self.spec_number_of_elements(),
    {
        self.number_of_elements
    }
}

} // verus!
