//! Identifiers of the ports that take part in a request-response exchange.
use vstd::prelude::*;

use iceoryx2_bb_posix::unique_system_id::UniqueSystemId;

use crate::external::{system_id_of, system_id_value};

verus! {

/// The system wide unique id of a client port.
#[derive(Debug, Clone, Copy)]
pub struct UniqueClientId(pub UniqueSystemId);

impl UniqueClientId {
    /// The system id that this client id wraps.
    pub open spec fn system_id(&self) -> UniqueSystemId {
        self.0
    }

    /// The `u128` that names this id: the value `v` with
    /// `UniqueSystemId::from(v)` equal to the wrapped system id.
    pub open spec fn spec_value(&self) -> u128 {
        choose|v: u128| system_id_of(v) == self.system_id()
    }

    /// The view of a client id is the system id it holds, and its value is a
    /// `u128` that `UniqueSystemId::from` turns into that very system id
    /// whenever such a value exists.
    pub proof fn lemma_view_is_field(self)
        ensures
            self.system_id() == self.0,
            (exists|v: u128| system_id_of(v) == self.0) ==> system_id_of(self.spec_value()) == self.0,
    {
    }

    /// Wraps a system id as the id of a client port.
    pub fn from_system_id(id: UniqueSystemId) -> (r: Self)
        ensures
            r.0 == id,
            r.system_id() == id,
    {
        UniqueClientId(id)
    }

    /// Returns the underlying `u128` value of the id.
    pub fn value(&self) -> (r: u128)
        ensures
            system_id_of(r) == self.0,
            forall|other: u128| #[trigger] system_id_of(other) == self.0 ==> other == r,
            r == self.spec_value(),
            system_id_of(r) == self.system_id(),
    {
        let r = system_id_value(&self.0);
        r
    }
}

} // verus!
