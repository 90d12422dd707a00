//! Rendezvous wire codec and datagram handling.
//!
//! A punch request carries `{node_id, nonce, listen_port}`, a punch response
//! `{node_id, listen_port}`, both in a compact binary form well under the
//! safe datagram size: a tag byte, the identity length, the identity bytes,
//! then the numbers little-endian. The listener is purely reactive: a
//! well-formed request is answered with this node's identity and declared
//! listen port, anything else is dropped without a reply.

use vstd::prelude::*;
use vstd::bytes::*;
use vstd::seq::group_seq_axioms;
use vstd::slice::{slice_index_get, slice_subrange, slice_to_vec};

verus! {

broadcast use group_seq_axioms;

/// Tag byte opening a punch request.
pub const REQ_TAG: u8 = 1;

/// Tag byte opening a punch response.
pub const RESP_TAG: u8 = 2;

/// A node identity the wire format can carry: present, and short enough for
/// its length to ride in one byte.
pub open spec fn id_ok(id: Seq<u8>) -> bool {
    1 <= id.len() <= 255
}

/// A punch request as this node understands it.
pub struct PunchMessage {
    /// The sender's node identity.
    pub node_id: Vec<u8>,
    /// Echo value chosen by the sender; carried but never interpreted.
    pub nonce: u64,
    /// The port the sender declares to listen on.
    pub listen_port: u16,
}

impl PunchMessage {
    /// A message the wire format can carry.
    pub open spec fn wf(self) -> bool {
        id_ok(self.node_id@)
    }
}

/// The bytes of a punch request on the wire.
pub open spec fn spec_req_bytes(m: PunchMessage) -> Seq<u8> {
    seq![REQ_TAG, m.node_id@.len() as u8] + m.node_id@ + spec_u64_to_le_bytes(m.nonce)
        + spec_u16_to_le_bytes(m.listen_port)
}

/// The bytes of a punch response on the wire.
pub open spec fn spec_resp_bytes(id: Seq<u8>, listen_port: u16) -> Seq<u8> {
    seq![RESP_TAG, id.len() as u8] + id + spec_u16_to_le_bytes(listen_port)
}

/// How a well-formed request's fields sit in its bytes: the layout is fixed,
/// so the bytes determine every field.
proof fn lemma_req_bytes_parts(m: PunchMessage)
    requires
        m.wf(),
    ensures
        spec_req_bytes(m).len() == 12 + m.node_id@.len(),
        spec_req_bytes(m)[0] == REQ_TAG,
        spec_req_bytes(m)[1] == m.node_id@.len() as u8,
        spec_req_bytes(m).subrange(2, 2 + m.node_id@.len() as int) == m.node_id@,
        spec_u64_from_le_bytes(
            spec_req_bytes(m).subrange(
                2 + m.node_id@.len() as int,
                10 + m.node_id@.len() as int,
            ),
        ) == m.nonce,
        spec_u16_from_le_bytes(
            spec_req_bytes(m).subrange(
                10 + m.node_id@.len() as int,
                12 + m.node_id@.len() as int,
            ),
        ) == m.listen_port,
{
    lemma_auto_spec_u64_to_from_le_bytes();
    lemma_auto_spec_u16_to_from_le_bytes();
    let s = spec_req_bytes(m);
    let l = m.node_id@.len() as int;
    assert(s.subrange(2, 2 + l) =~= m.node_id@);
    assert(s.subrange(2 + l, 10 + l) =~= spec_u64_to_le_bytes(m.nonce));
    assert(s.subrange(10 + l, 12 + l) =~= spec_u16_to_le_bytes(m.listen_port));
}

/// Encode a punch request.
pub fn encode_punch_request(m: &PunchMessage) -> (r: Vec<u8>)
    requires
        m.wf(),
    ensures
        r@ == spec_req_bytes(*m),
{
    let mut r: Vec<u8> = Vec::new();
    r.push(REQ_TAG);
    r.push(m.node_id.len() as u8);
    let mut id = slice_to_vec(m.node_id.as_slice());
    r.append(&mut id);
    let mut nonce_bytes = u64_to_le_bytes(m.nonce);
    r.append(&mut nonce_bytes);
    let mut port_bytes = u16_to_le_bytes(m.listen_port);
    r.append(&mut port_bytes);
    proof {
        assert(r@ =~= spec_req_bytes(*m));
    }
    r
}

/// Encode a punch response.
pub fn encode_punch_response(id: &Vec<u8>, listen_port: u16) -> (r: Vec<u8>)
    requires
        id_ok(id@),
    ensures
        r@ == spec_resp_bytes(id@, listen_port),
{
    let mut r: Vec<u8> = Vec::new();
    r.push(RESP_TAG);
    r.push(id.len() as u8);
    let mut id_bytes = slice_to_vec(id.as_slice());
    r.append(&mut id_bytes);
    let mut port_bytes = u16_to_le_bytes(listen_port);
    r.append(&mut port_bytes);
    proof {
        assert(r@ =~= spec_resp_bytes(id@, listen_port));
    }
    r
}

/// Decode a datagram as a punch request. Exactly the datagrams that are the
/// encoding of a well-formed request decode; every truncated, oversized or
/// otherwise malformed datagram is refused.
pub fn parse_punch_request(data: &[u8]) -> (r: Option<PunchMessage>)
    ensures
        r matches Some(m) ==> m.wf() && data@ == spec_req_bytes(m),
        r is None ==> forall|m: PunchMessage| m.wf() ==> data@ != spec_req_bytes(m),
{
    proof {
        lemma_auto_spec_u64_to_from_le_bytes();
        lemma_auto_spec_u16_to_from_le_bytes();
    }
    if data.len() < 2 {
        proof {
            assert forall|m: PunchMessage| m.wf() implies data@ != spec_req_bytes(m) by {
                lemma_req_bytes_parts(m);
            }
        }
        return None;
    }
    let tag = *slice_index_get(data, 0);
    let id_len = *slice_index_get(data, 1);
    if tag != REQ_TAG || id_len == 0 {
        proof {
            assert forall|m: PunchMessage| m.wf() implies data@ != spec_req_bytes(m) by {
                lemma_req_bytes_parts(m);
                if data@ == spec_req_bytes(m) {
                    assert(data@[1] == m.node_id@.len() as u8);
                    assert(m.node_id@.len() as u8 != 0);
                }
            }
        }
        return None;
    }
    let idl = id_len as usize;
    if data.len() != 12 + idl {
        proof {
            assert forall|m: PunchMessage| m.wf() implies data@ != spec_req_bytes(m) by {
                lemma_req_bytes_parts(m);
                if data@ == spec_req_bytes(m) {
                    assert(data@[1] == m.node_id@.len() as u8);
                    assert(m.node_id@.len() as u8 as int == m.node_id@.len());
                }
            }
        }
        return None;
    }
    let node_id = slice_to_vec(slice_subrange(data, 2, 2 + idl));
    let nonce = u64_from_le_bytes(slice_subrange(data, 2 + idl, 10 + idl));
    let listen_port = u16_from_le_bytes(slice_subrange(data, 10 + idl, 12 + idl));
    let m = PunchMessage { node_id, nonce, listen_port };
    proof {
        assert(data@ =~= spec_req_bytes(m));
    }
    Some(m)
}

/// Decode a datagram as a punch response, in the same all-or-nothing way as
/// requests: only the exact encoding of some identity and port decodes.
pub fn parse_punch_response(data: &[u8]) -> (r: Option<(Vec<u8>, u16)>)
    ensures
        r matches Some(p) ==> id_ok(p.0@) && data@ == spec_resp_bytes(p.0@, p.1),
        r is None ==> forall|id: Seq<u8>, port: u16|
            id_ok(id) ==> data@ != spec_resp_bytes(id, port),
{
    proof {
        lemma_auto_spec_u16_to_from_le_bytes();
    }
    if data.len() < 2 {
        proof {
            assert forall|id: Seq<u8>, port: u16| id_ok(id) implies data@ != spec_resp_bytes(
                id,
                port,
            ) by {
                lemma_auto_spec_u16_to_from_le_bytes();
            }
        }
        return None;
    }
    let tag = *slice_index_get(data, 0);
    let id_len = *slice_index_get(data, 1);
    if tag != RESP_TAG || id_len == 0 {
        proof {
            assert forall|id: Seq<u8>, port: u16| id_ok(id) implies data@ != spec_resp_bytes(
                id,
                port,
            ) by {
                lemma_auto_spec_u16_to_from_le_bytes();
                if data@ == spec_resp_bytes(id, port) {
                    assert(data@[0] == RESP_TAG);
                    assert(data@[1] == id.len() as u8);
                    assert(id.len() as u8 != 0);
                }
            }
        }
        return None;
    }
    let idl = id_len as usize;
    if data.len() != 4 + idl {
        proof {
            assert forall|id: Seq<u8>, port: u16| id_ok(id) implies data@ != spec_resp_bytes(
                id,
                port,
            ) by {
                lemma_auto_spec_u16_to_from_le_bytes();
                if data@ == spec_resp_bytes(id, port) {
                    assert(data@[1] == id.len() as u8);
                    assert(id.len() as u8 as int == id.len());
                }
            }
        }
        return None;
    }
    let node_id = slice_to_vec(slice_subrange(data, 2, 2 + idl));
    let listen_port = u16_from_le_bytes(slice_subrange(data, 2 + idl, 4 + idl));
    proof {
        assert(data@.subrange(2 + idl as int, 4 + idl as int) =~= spec_u16_to_le_bytes(
            listen_port,
        ));
        assert(data@ =~= spec_resp_bytes(node_id@, listen_port));
    }
    Some((node_id, listen_port))
}

/// Serve one datagram of the rendezvous listener. A well-formed punch request
/// is answered with a response carrying this node's own identity and declared
/// listen port, whatever the request's sender, nonce or declared port said;
/// any other datagram gets no reply, and the listener is none the worse for
/// it.
pub fn handle_datagram(own_id: &Vec<u8>, own_listen_port: u16, data: &[u8]) -> (r: Option<Vec<u8>>)
    requires
        id_ok(own_id@),
    ensures
        r matches Some(resp) ==> resp@ == spec_resp_bytes(own_id@, own_listen_port),
        (r is Some) == (exists|m: PunchMessage| m.wf() && data@ == spec_req_bytes(m)),
{
    match parse_punch_request(data) {
        Some(m) => {
            proof {
                assert(m.wf() && data@ == spec_req_bytes(m));
            }
            Some(encode_punch_response(own_id, own_listen_port))
        },
        None => None,
    }
}

/// The request encoding is injective: equal wire bytes carry equal identity,
/// nonce and declared port. With the decoder's exactness this makes the codec
/// a round trip: what a request encodes is the one thing its datagram decodes
/// to.
pub proof fn lemma_req_bytes_injective(m1: PunchMessage, m2: PunchMessage)
    requires
        m1.wf(),
        m2.wf(),
        spec_req_bytes(m1) == spec_req_bytes(m2),
    ensures
        m1.node_id@ == m2.node_id@,
        m1.nonce == m2.nonce,
        m1.listen_port == m2.listen_port,
{
    lemma_req_bytes_parts(m1);
    lemma_req_bytes_parts(m2);
    assert(m1.node_id@.len() as u8 == m2.node_id@.len() as u8);
    assert(m1.node_id@.len() == m2.node_id@.len());
}

} // verus!
