use vstd::prelude::*;

use crate::error::{ConnectError, RejectReason};
use crate::target::{port_bytes, push_all, push_port, Target};

verus! {

/// The reply to the method negotiation is always this many bytes.
pub const SOCKS5_METHOD_REPLY_LEN: usize = 2;

/// The method negotiation: version 5, one method offered, "no authentication".
pub open spec fn socks5_greeting_bytes() -> Seq<u8> {
    seq![0x05u8, 0x01u8, 0x00u8]
}

/// What the proxy's choice of method means: only "no authentication" goes on.
pub open spec fn socks5_method_outcome(reply: Seq<u8>) -> Result<(), ConnectError> {
    if reply.len() != 2 || reply[0] != 0x05 {
        Err(ConnectError::Protocol)
    } else if reply[1] != 0x00 {
        Err(ConnectError::AuthMethodUnsupported)
    } else {
        Ok(())
    }
}

/// The address field of a request: its type byte, then the address itself.
pub open spec fn socks5_addr_bytes(target: Target) -> Seq<u8> {
    match target {
        Target::Ipv4(ip) => seq![0x01u8] + ip@,
        Target::Ipv6(ip) => seq![0x04u8] + ip@,
        Target::Domain(name) => seq![0x03u8, name@.len() as u8] + name@,
    }
}

/// The CONNECT request for `target` and `port`, or why it cannot be framed.
pub open spec fn socks5_request_outcome(target: Target, port: u16) -> Result<Seq<u8>, ConnectError> {
    match target {
        Target::Domain(name) if name@.len() > 255 => Err(ConnectError::DomainTooLong),
        _ => Ok(seq![0x05u8, 0x01u8, 0x00u8] + socks5_addr_bytes(target) + port_bytes(port)),
    }
}

/// The refusal that a non-zero SOCKS5 reply code stands for, if it is one of
/// the eight defined codes.
pub open spec fn socks5_reject_reason(code: u8) -> Option<RejectReason> {
    if code == 0x01 {
        Some(RejectReason::GeneralFailure)
    } else if code == 0x02 {
        Some(RejectReason::RuleDenied)
    } else if code == 0x03 {
        Some(RejectReason::NetworkUnreachable)
    } else if code == 0x04 {
        Some(RejectReason::HostUnreachable)
    } else if code == 0x05 {
        Some(RejectReason::ConnectionRefused)
    } else if code == 0x06 {
        Some(RejectReason::TtlExpired)
    } else if code == 0x07 {
        Some(RejectReason::CommandUnsupported)
    } else if code == 0x08 {
        Some(RejectReason::AddressTypeUnsupported)
    } else {
        None
    }
}

/// The length of the bound address that follows the header, by address
/// type: four bytes for IPv4, sixteen for IPv6, and a length byte followed by
/// that many name bytes for a domain.
pub open spec fn socks5_bound_addr_len(atyp: u8, first: u8) -> Option<nat> {
    if atyp == 0x01 {
        Some(4)
    } else if atyp == 0x04 {
        Some(16)
    } else if atyp == 0x03 {
        Some((1 + first) as nat)
    } else {
        None
    }
}

/// Whether the four-byte header `[VER, REP, RSV, ATYP]` grants the request:
/// version 5, status 0, reserved 0, and a known address type.
pub open spec fn socks5_header_ok(reply: Seq<u8>) -> bool {
    reply.len() >= 4 && reply[0] == 0x05 && reply[1] == 0x00 && reply[2] == 0x00
        && socks5_bound_addr_len(reply[3], 0) is Some
}

/// How many bytes of the reply to a CONNECT request to wait for in all, as
/// far as the bytes read so far tell. The whole reply is
/// `[VER, REP, RSV, ATYP] ++ BND.ADDR ++ BND.PORT`; the header is always
/// read whole, and only a header that grants the request is followed by the
/// address and the two port bytes (a domain's length byte comes first).
pub open spec fn socks5_reply_wanted(prefix: Seq<u8>) -> nat {
    if !socks5_header_ok(prefix) {
        4
    } else if prefix.len() < 5 {
        5
    } else {
        4 + socks5_bound_addr_len(prefix[3], prefix[4]).unwrap() + 2
    }
}

/// What a reply to a CONNECT request means. A reply without its whole
/// header, of another version or with a non-zero reserved byte is a protocol
/// violation; a complete header with a non-zero status is a refusal (one of
/// the eight defined codes) or a protocol violation (any other code); a
/// granting header must be followed by exactly the address and port it
/// announces.
pub open spec fn socks5_reply_outcome(reply: Seq<u8>) -> Result<(), ConnectError> {
    if reply.len() < 4 || reply[0] != 0x05 || reply[2] != 0x00 {
        Err(ConnectError::Protocol)
    } else if reply[1] != 0x00 {
        match socks5_reject_reason(reply[1]) {
            Some(why) => Err(ConnectError::ProxyRejected(why)),
            None => Err(ConnectError::Protocol),
        }
    } else if socks5_bound_addr_len(reply[3], 0) is None {
        Err(ConnectError::Protocol)
    } else if reply.len() != socks5_reply_wanted(reply) {
        Err(ConnectError::Protocol)
    } else {
        Ok(())
    }
}

/// Builds the method negotiation frame.
pub fn socks5_greeting() -> (r: Vec<u8>)
    ensures
        r@ == socks5_greeting_bytes(),
{
    let mut v: Vec<u8> = Vec::new();
    v.push(0x05);
    v.push(0x01);
    v.push(0x00);
    v
}

/// Reads the proxy's choice of authentication method.
pub fn parse_socks5_method_reply(reply: &[u8]) -> (r: Result<(), ConnectError>)
    ensures
        r == socks5_method_outcome(reply@),
{
    if reply.len() != SOCKS5_METHOD_REPLY_LEN || reply[0] != 0x05 {
        Err(ConnectError::Protocol)
    } else if reply[1] != 0x00 {
        Err(ConnectError::AuthMethodUnsupported)
    } else {
        Ok(())
    }
}

/// Builds the CONNECT request for `target:port`. A domain name longer than
/// 255 bytes does not fit its length byte and is refused.
pub fn socks5_request(target: &Target, port: u16) -> (r: Result<Vec<u8>, ConnectError>)
    ensures
        match socks5_request_outcome(*target, port) {
            Ok(bytes) => r matches Ok(v) && v@ == bytes,
            Err(e) => r == Err::<Vec<u8>, ConnectError>(e),
        },
{
    let mut v: Vec<u8> = Vec::new();
    v.push(0x05);
    v.push(0x01);
    v.push(0x00);
    match target {
        Target::Ipv4(ip) => {
            v.push(0x01);
            push_all(&mut v, ip.as_slice());
        },
        Target::Ipv6(ip) => {
            v.push(0x04);
            push_all(&mut v, ip.as_slice());
        },
        Target::Domain(name) => {
            if name.len() > 255 {
                return Err(ConnectError::DomainTooLong);
            }
            v.push(0x03);
            v.push(name.len() as u8);
            push_all(&mut v, name.as_slice());
        },
    }
    push_port(&mut v, port);
    assert(v@ == seq![0x05u8, 0x01u8, 0x00u8] + socks5_addr_bytes(*target) + port_bytes(port));
    Ok(v)
}

/// The refusal that a SOCKS5 reply code stands for.
pub fn socks5_reject_reason_of(code: u8) -> (r: Option<RejectReason>)
    ensures
        r == socks5_reject_reason(code),
        r matches Some(why) ==> why.spec_code() == code,
{
    match code {
        0x01 => Some(RejectReason::GeneralFailure),
        0x02 => Some(RejectReason::RuleDenied),
        0x03 => Some(RejectReason::NetworkUnreachable),
        0x04 => Some(RejectReason::HostUnreachable),
        0x05 => Some(RejectReason::ConnectionRefused),
        0x06 => Some(RejectReason::TtlExpired),
        0x07 => Some(RejectReason::CommandUnsupported),
        0x08 => Some(RejectReason::AddressTypeUnsupported),
        _ => None,
    }
}

/// How many bytes of the reply to wait for in all, given those read so far.
/// The caller reads until it holds at least that many, then parses.
pub fn socks5_reply_len(prefix: &[u8]) -> (r: usize)
    ensures
        r == socks5_reply_wanted(prefix@),
{
    if prefix.len() < 4 || prefix[0] != 0x05 || prefix[1] != 0x00 || prefix[2] != 0x00 {
        4
    } else if prefix[3] != 0x01 && prefix[3] != 0x03 && prefix[3] != 0x04 {
        4
    } else if prefix.len() < 5 {
        5
    } else if prefix[3] == 0x01 {
        4 + 4 + 2
    } else if prefix[3] == 0x04 {
        4 + 16 + 2
    } else {
        4 + 1 + prefix[4] as usize + 2
    }
}

/// Reads the reply to a CONNECT request: `Ok` when the proxy connected.
/// The bound address and port it carries are checked for length and dropped.
pub fn parse_socks5_reply(reply: &[u8]) -> (r: Result<(), ConnectError>)
    ensures
        r == socks5_reply_outcome(reply@),
        r matches Err(ConnectError::ProxyRejected(why)) ==> why.spec_code() == reply@[1],
{
    if reply.len() < 4 || reply[0] != 0x05 || reply[2] != 0x00 {
        Err(ConnectError::Protocol)
    } else if reply[1] != 0x00 {
        match socks5_reject_reason_of(reply[1]) {
            Some(why) => Err(ConnectError::ProxyRejected(why)),
            None => Err(ConnectError::Protocol),
        }
    } else if reply[3] != 0x01 && reply[3] != 0x03 && reply[3] != 0x04 {
        Err(ConnectError::Protocol)
    } else if reply.len() != socks5_reply_len(reply) {
        Err(ConnectError::Protocol)
    } else {
        Ok(())
    }
}

/// A reply cut short of the length its own first bytes announce, the
/// four-byte header included, is a protocol violation, never a success or a
/// refusal.
pub proof fn lemma_short_socks5_reply(reply: Seq<u8>)
    requires
        reply.len() < socks5_reply_wanted(reply),
    ensures
        socks5_reply_outcome(reply) == Err::<(), ConnectError>(ConnectError::Protocol),
{
}

/// Each of the eight defined non-zero reply codes gives a refusal that
/// carries that very code; no two codes give the same refusal.
pub proof fn lemma_socks5_reject_codes(reply: Seq<u8>)
    requires
        reply.len() >= 4,
        reply[0] == 0x05,
        reply[2] == 0x00,
        0x01 <= reply[1] <= 0x08,
    ensures
        socks5_reply_outcome(reply) matches Err(ConnectError::ProxyRejected(why))
            && why.spec_code() == reply[1],
{
}

} // verus!
