//! The server-side handle of a request received over an iceoryx2
//! request-response service.
mod external;

pub mod active_request;
pub mod header;
pub mod port_identifiers;
pub mod raw_sample;

pub use active_request::{
    release_outcome, ActiveRequest, ChunkDetails, ReleaseError, ReleaseStep,
    REQUEST_RETURN_CHANNEL,
};
pub use external::{channel_id_of, channel_number, system_id_of};
pub use header::RequestHeader;
pub use port_identifiers::UniqueClientId;
pub use raw_sample::RawSample;
