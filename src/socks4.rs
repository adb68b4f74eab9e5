use vstd::prelude::*;

use crate::error::{ConnectError, RejectReason};
use crate::target::{port_bytes, push_all, push_port};

verus! {

/// A SOCKS4 reply is always this many bytes.
pub const SOCKS4_REPLY_LEN: usize = 8;

/// The CONNECT request: version 4, command 1, port, IPv4 address, user id,
/// and the terminating `0x00`.
pub open spec fn socks4_request_bytes(port: u16, ip: Seq<u8>, userid: Seq<u8>) -> Seq<u8> {
    seq![0x04u8, 0x01u8] + port_bytes(port) + ip + userid + seq![0x00u8]
}

/// What a SOCKS4 reply means. Anything but eight bytes whose first is `0x00`
/// and whose second is a known code is a protocol violation.
pub open spec fn socks4_reply_outcome(reply: Seq<u8>) -> Result<(), ConnectError> {
    if reply.len() != 8 || reply[0] != 0x00 {
        Err(ConnectError::Protocol)
    } else if reply[1] == 0x5A {
        Ok(())
    } else if reply[1] == 0x5B {
        Err(ConnectError::ProxyRejected(RejectReason::Socks4Rejected))
    } else if reply[1] == 0x5C {
        Err(ConnectError::ProxyRejected(RejectReason::Socks4IdentdUnreachable))
    } else if reply[1] == 0x5D {
        Err(ConnectError::ProxyRejected(RejectReason::Socks4IdentMismatch))
    } else {
        Err(ConnectError::Protocol)
    }
}

/// Builds the SOCKS4 CONNECT request for `ip:port` on behalf of `userid`.
pub fn socks4_request(port: u16, ip: &[u8; 4], userid: &[u8]) -> (r: Vec<u8>)
    ensures
        r@ == socks4_request_bytes(port, ip@, userid@),
{
    let mut v: Vec<u8> = Vec::new();
    v.push(0x04);
    v.push(0x01);
    push_port(&mut v, port);
    push_all(&mut v, ip.as_slice());
    push_all(&mut v, userid);
    v.push(0x00);
    v
}

/// Reads a SOCKS4 reply: `Ok` when the proxy granted the request.
pub fn parse_socks4_reply(reply: &[u8]) -> (r: Result<(), ConnectError>)
    ensures
        r == socks4_reply_outcome(reply@),
        r matches Err(ConnectError::ProxyRejected(why)) ==> why.spec_code() == reply@[1],
{
    if reply.len() != SOCKS4_REPLY_LEN || reply[0] != 0x00 {
        Err(ConnectError::Protocol)
    } else if reply[1] == 0x5A {
        Ok(())
    } else if reply[1] == 0x5B {
        Err(ConnectError::ProxyRejected(RejectReason::Socks4Rejected))
    } else if reply[1] == 0x5C {
        Err(ConnectError::ProxyRejected(RejectReason::Socks4IdentdUnreachable))
    } else if reply[1] == 0x5D {
        Err(ConnectError::ProxyRejected(RejectReason::Socks4IdentMismatch))
    } else {
        Err(ConnectError::Protocol)
    }
}

/// In a well-framed reply, `0x5A` and only `0x5A` grants the request, and each
/// of `0x5B`, `0x5C`, `0x5D` gives a refusal that carries that very code.
pub proof fn lemma_socks4_reply_codes(reply: Seq<u8>)
    requires
        reply.len() == 8,
        reply[0] == 0x00,
    ensures
        socks4_reply_outcome(reply) is Ok <==> reply[1] == 0x5A,
        0x5B <= reply[1] <= 0x5D ==> (socks4_reply_outcome(reply) matches Err(
            ConnectError::ProxyRejected(why),
        ) && why.spec_code() == reply[1]),
{
}

/// A reply shorter than eight bytes is a protocol violation, whatever it holds.
pub proof fn lemma_short_socks4_reply(reply: Seq<u8>)
    requires
        reply.len() < 8,
    ensures
        socks4_reply_outcome(reply) == Err::<(), ConnectError>(ConnectError::Protocol),
{
}

} // verus!
