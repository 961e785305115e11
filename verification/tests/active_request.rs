use active_request::{
    release_outcome, ActiveRequest, ChunkDetails, RawSample, ReleaseError, ReleaseStep,
    RequestHeader, UniqueClientId, REQUEST_RETURN_CHANNEL,
};
use iceoryx2_bb_posix::unique_system_id::UniqueSystemId;
use iceoryx2_cal::shm_allocator::PointerOffset;
use iceoryx2_cal::zero_copy_connection::{ChannelId, ZeroCopyReleaseError};

#[derive(Debug, Clone, Copy, PartialEq)]
struct Point {
    x: i64,
    y: i64,
}

fn request(
    client: u128,
    origin: u128,
    offset: usize,
) -> ActiveRequest<Point, u32, u64, u8> {
    let client_id = UniqueClientId::from_system_id(UniqueSystemId::from(client));
    let header = RequestHeader::new(client_id, 17, 1);
    let sample = RawSample::new(header, 0xabcd_u32, Point { x: -3, y: 8 });
    ActiveRequest::new(sample, ChunkDetails::new(PointerOffset::new(offset), origin))
}

#[test]
fn payload_is_the_received_payload() {
    let req = request(1, 2, 64);
    assert_eq!(*req.payload(), Point { x: -3, y: 8 });
}

#[test]
fn user_header_is_the_received_user_header() {
    let req = request(1, 2, 64);
    assert_eq!(*req.user_header(), 0xabcd_u32);
}

#[test]
fn header_is_the_received_request_header() {
    let req = request(0x1234_5678_9abc_def0_0fed_cba9_8765_4321, 2, 64);
    let header = req.header();
    assert_eq!(header.number_of_elements(), 1);
    assert_eq!(
        header.client_port_id().value(),
        0x1234_5678_9abc_def0_0fed_cba9_8765_4321
    );
}

#[test]
fn deref_gives_the_payload() {
    let req = request(1, 2, 64);
    let payload: &Point = &req;
    assert_eq!(payload.x, -3);
    assert_eq!(payload.y, 8);
    assert!(core::ptr::eq(payload, req.payload()));
}

#[test]
fn origin_carries_the_chunk_origin() {
    let req = request(1, 0xdead_beef_0000_0001_0000_0002_0000_0003, 64);
    assert_eq!(req.origin().value(), 0xdead_beef_0000_0001_0000_0002_0000_0003);
    assert_ne!(req.origin().value(), req.header().client_port_id().value());
}

#[test]
fn origin_of_zero_and_max() {
    assert_eq!(request(1, 0, 64).origin().value(), 0);
    assert_eq!(request(1, u128::MAX, 64).origin().value(), u128::MAX);
}

#[test]
fn client_id_value_round_trips() {
    let id = UniqueClientId::from_system_id(UniqueSystemId::from(99u128));
    assert_eq!(id.value(), 99);
}

#[test]
fn release_steps_unregister_then_release_over_channel_zero() {
    let req = request(1, 2, 4096);
    let steps = req.release_steps();
    assert_eq!(steps.len(), 2);
    match steps[0] {
        ReleaseStep::Unregister(offset) => {
            assert_eq!(offset, PointerOffset::new(4096));
            assert_ne!(offset, PointerOffset::new(0));
        }
        ReleaseStep::Release(..) => panic!("the offset must be unregistered first"),
    }
    match steps[1] {
        ReleaseStep::Release(offset, channel_id) => {
            assert_eq!(offset, PointerOffset::new(4096));
            assert_eq!(channel_id, ChannelId::new(0));
            assert_eq!(channel_id.value(), REQUEST_RETURN_CHANNEL);
        }
        ReleaseStep::Unregister(_) => panic!("the release must come second"),
    }
}

#[test]
fn details_are_the_received_details() {
    let req = request(1, 77, 256);
    let details = req.details();
    let again = ChunkDetails::new(PointerOffset::new(256), 77);
    assert_eq!(format!("{:?}", details), format!("{:?}", again));
}

#[test]
fn release_outcome_ok_when_released() {
    assert_eq!(release_outcome(Ok(())), Ok(()));
}

#[test]
fn release_outcome_reports_full_retrieve_buffer() {
    assert_eq!(
        release_outcome(Err(ZeroCopyReleaseError::RetrieveBufferFull)),
        Err(ReleaseError::RetrieveBufferFull)
    );
}
