use keeper_of_keys::messaging::{
    complete_send, decode_version, encode_request, encode_version, handle_port_message,
    outcome_from_code, ClientRequest, PostReplyEffect, SendError, SendOutcome, REQUEST_SHUTDOWN,
    REQUEST_VERSION_INFO,
};
use keeper_of_keys::version::AppVersion;

#[test]
fn version_record_is_little_endian() {
    let v = AppVersion::new(1, 2, 3);
    assert_eq!(encode_version(&v), vec![1, 0, 2, 0, 3, 0]);

    let wide = AppVersion::new(0x1234, 0, 0xFFFF);
    assert_eq!(encode_version(&wide), vec![0x34, 0x12, 0, 0, 0xFF, 0xFF]);
}

#[test]
fn version_record_round_trips() {
    let v = AppVersion::new(260, 515, 65535);
    let decoded = decode_version(&encode_version(&v));
    assert_eq!(decoded, Some(v));
}

#[test]
fn version_decode_rejects_wrong_sizes() {
    assert_eq!(decode_version(&vec![]), None);
    assert_eq!(decode_version(&vec![1, 0, 2, 0, 3]), None);
    assert_eq!(decode_version(&vec![1, 0, 2, 0, 3, 0, 0]), None);
}

#[test]
fn request_record_is_one_tag_byte() {
    assert_eq!(encode_request(ClientRequest(REQUEST_VERSION_INFO)), vec![0]);
    assert_eq!(encode_request(ClientRequest(REQUEST_SHUTDOWN)), vec![1]);
}

#[test]
fn bogus_sized_request_gets_empty_reply() {
    // A request whose byte length is not the agreed record size is
    // rejected before dispatch: empty reply, no effect, endpoint alive.
    let current = AppVersion::new(1, 0, 0);
    for msg in [vec![], vec![0, 0], vec![1, 2, 3]] {
        let r = handle_port_message(&current, &msg);
        assert!(r.data.is_none());
        assert!(r.after_reply.is_none());
    }
}

#[test]
fn version_query_replies_running_version() {
    let current = AppVersion::new(4, 5, 6);
    let r = handle_port_message(&current, &vec![REQUEST_VERSION_INFO]);
    assert_eq!(r.data, Some(vec![4, 0, 5, 0, 6, 0]));
    assert!(r.after_reply.is_none());
}

#[test]
fn shutdown_request_acknowledges_then_stops() {
    let current = AppVersion::new(4, 5, 6);
    let r = handle_port_message(&current, &vec![REQUEST_SHUTDOWN]);
    assert_eq!(r.data, Some(vec![]));
    assert_eq!(r.after_reply, Some(PostReplyEffect::StopServing));
}

#[test]
fn unknown_request_kind_gets_empty_reply() {
    let current = AppVersion::new(4, 5, 6);
    let r = handle_port_message(&current, &vec![7]);
    assert!(r.data.is_none());
    assert!(r.after_reply.is_none());
}

#[test]
fn outcome_codes_cover_the_transport_verdicts() {
    assert_eq!(outcome_from_code(0), SendOutcome::Success);
    assert_eq!(outcome_from_code(-1), SendOutcome::SendTimeout);
    assert_eq!(outcome_from_code(-2), SendOutcome::ReceiveTimeout);
    assert_eq!(outcome_from_code(-3), SendOutcome::InvalidPort);
    assert_eq!(outcome_from_code(-4), SendOutcome::TransportError);
    assert_eq!(outcome_from_code(-5), SendOutcome::BecameInvalid);
}

#[test]
fn every_failed_outcome_aborts_the_send() {
    // All non-success transport outcomes are fatal to the operation that
    // issued the send; none hands back a reply.
    let cases = [
        (SendOutcome::SendTimeout, SendError::SendTimeout),
        (SendOutcome::ReceiveTimeout, SendError::ReceiveTimeout),
        (SendOutcome::InvalidPort, SendError::InvalidPort),
        (SendOutcome::TransportError, SendError::TransportError),
        (SendOutcome::BecameInvalid, SendError::BecameInvalid),
    ];
    for (outcome, expected) in cases {
        assert_eq!(complete_send(outcome, Some(vec![0; 6]), 6), Err(expected));
        assert_eq!(complete_send(outcome, None, 6), Err(expected));
    }
}

#[test]
fn successful_send_keeps_well_sized_reply() {
    let reply = vec![1, 0, 2, 0, 3, 0];
    assert_eq!(
        complete_send(SendOutcome::Success, Some(reply.clone()), 6),
        Ok(reply)
    );
}

#[test]
fn successful_send_rejects_malformed_reply() {
    assert_eq!(
        complete_send(SendOutcome::Success, Some(vec![1, 2]), 6),
        Err(SendError::MalformedReply)
    );
    assert_eq!(
        complete_send(SendOutcome::Success, None, 6),
        Err(SendError::MalformedReply)
    );
}
