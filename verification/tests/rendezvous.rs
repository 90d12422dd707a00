use natlink::rendezvous::{
    encode_punch_request, encode_punch_response, handle_datagram, parse_punch_request,
    parse_punch_response, PunchMessage, REQ_TAG,
};

fn own_id() -> Vec<u8> {
    b"node-77".to_vec()
}

#[test]
fn well_formed_request_gets_own_identity_and_declared_port() {
    let request = encode_punch_request(&PunchMessage {
        node_id: b"X".to_vec(),
        nonce: 42,
        listen_port: 51000,
    });
    let reply = handle_datagram(&own_id(), 51820, &request)
        .expect("a well-formed request must be answered");
    assert_eq!(reply, encode_punch_response(&own_id(), 51820));
    let (id, port) = parse_punch_response(&reply).expect("the reply must decode");
    assert_eq!(id, own_id());
    assert_eq!(port, 51820);
}

#[test]
fn reply_is_independent_of_the_nonce() {
    let first = encode_punch_request(&PunchMessage {
        node_id: b"X".to_vec(),
        nonce: 42,
        listen_port: 51000,
    });
    let second = encode_punch_request(&PunchMessage {
        node_id: b"X".to_vec(),
        nonce: 7,
        listen_port: 51000,
    });
    assert_ne!(first, second);
    assert_eq!(
        handle_datagram(&own_id(), 51820, &first),
        handle_datagram(&own_id(), 51820, &second)
    );
}

#[test]
fn garbage_and_truncated_datagrams_get_no_reply_and_service_goes_on() {
    let me = own_id();
    assert_eq!(handle_datagram(&me, 51820, b""), None);
    assert_eq!(handle_datagram(&me, 51820, b"hello, is this the tunnel?"), None);

    let valid = encode_punch_request(&PunchMessage {
        node_id: b"peer-3".to_vec(),
        nonce: 9000,
        listen_port: 50001,
    });
    // Every truncation of a valid request is refused.
    for cut in 0..valid.len() {
        assert_eq!(handle_datagram(&me, 51820, &valid[..cut]), None);
    }
    // A trailing byte is refused too.
    let mut padded = valid.clone();
    padded.push(0);
    assert_eq!(handle_datagram(&me, 51820, &padded), None);

    // The listener survives all of that and still answers the next good one.
    assert!(handle_datagram(&me, 51820, &valid).is_some());
}

#[test]
fn request_round_trips_through_the_codec() {
    let m = PunchMessage {
        node_id: b"some-node-identity".to_vec(),
        nonce: u64::MAX,
        listen_port: u16::MAX,
    };
    let bytes = encode_punch_request(&m);
    let back = parse_punch_request(&bytes).expect("an encoded request must decode");
    assert_eq!(back.node_id, m.node_id);
    assert_eq!(back.nonce, m.nonce);
    assert_eq!(back.listen_port, m.listen_port);
}

#[test]
fn response_round_trips_through_the_codec() {
    let bytes = encode_punch_response(&b"n".to_vec(), 0);
    let (id, port) = parse_punch_response(&bytes).expect("an encoded response must decode");
    assert_eq!(id, b"n".to_vec());
    assert_eq!(port, 0);
}

#[test]
fn parser_refuses_a_wrong_tag_and_an_empty_identity() {
    let mut wrong_tag = encode_punch_request(&PunchMessage {
        node_id: b"X".to_vec(),
        nonce: 1,
        listen_port: 2,
    });
    wrong_tag[0] = 9;
    assert!(parse_punch_request(&wrong_tag).is_none());

    // Tag right, identity length zero: refused.
    let empty_id = [REQ_TAG, 0, 0, 0, 0, 0, 0, 0, 0, 0, 0, 0];
    assert!(parse_punch_request(&empty_id).is_none());

    // A response is not a request.
    let resp = encode_punch_response(&b"X".to_vec(), 51000);
    assert!(parse_punch_request(&resp).is_none());
}
