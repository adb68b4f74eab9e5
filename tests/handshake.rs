use hyper_socks::{
    parse_socks4_reply, parse_socks5_method_reply, parse_socks5_reply, socks4_request,
    socks5_greeting, socks5_reject_reason_of, socks5_reply_len, socks5_request, ConnectError,
    RejectReason, Target, SOCKS4_REPLY_LEN, SOCKS5_METHOD_REPLY_LEN,
};

#[test]
fn socks4_request_frame() {
    let r = socks4_request(8080, &[10, 0, 0, 1], b"bob");
    assert_eq!(r, vec![4, 1, 0x1F, 0x90, 10, 0, 0, 1, b'b', b'o', b'b', 0]);
}

#[test]
fn socks4_request_empty_userid() {
    let r = socks4_request(80, &[127, 0, 0, 1], b"");
    assert_eq!(r, vec![4, 1, 0, 80, 127, 0, 0, 1, 0]);
}

#[test]
fn socks4_reply_granted() {
    assert_eq!(SOCKS4_REPLY_LEN, 8);
    assert_eq!(parse_socks4_reply(&[0, 0x5A, 0, 0, 0, 0, 0, 0]), Ok(()));
}

#[test]
fn socks4_reply_rejections_are_distinct() {
    let a = parse_socks4_reply(&[0, 0x5B, 0, 0, 0, 0, 0, 0]);
    let b = parse_socks4_reply(&[0, 0x5C, 0, 0, 0, 0, 0, 0]);
    let c = parse_socks4_reply(&[0, 0x5D, 0, 0, 0, 0, 0, 0]);
    assert_eq!(a, Err(ConnectError::ProxyRejected(RejectReason::Socks4Rejected)));
    assert_eq!(b, Err(ConnectError::ProxyRejected(RejectReason::Socks4IdentdUnreachable)));
    assert_eq!(c, Err(ConnectError::ProxyRejected(RejectReason::Socks4IdentMismatch)));
    assert_eq!(RejectReason::Socks4Rejected.code(), 0x5B);
    assert_eq!(RejectReason::Socks4IdentdUnreachable.code(), 0x5C);
    assert_eq!(RejectReason::Socks4IdentMismatch.code(), 0x5D);
}

#[test]
fn socks4_reply_unknown_code_or_version() {
    assert_eq!(parse_socks4_reply(&[0, 0x5E, 0, 0, 0, 0, 0, 0]), Err(ConnectError::Protocol));
    assert_eq!(parse_socks4_reply(&[0, 0x00, 0, 0, 0, 0, 0, 0]), Err(ConnectError::Protocol));
    assert_eq!(parse_socks4_reply(&[4, 0x5A, 0, 0, 0, 0, 0, 0]), Err(ConnectError::Protocol));
}

#[test]
fn socks4_reply_truncated() {
    assert_eq!(parse_socks4_reply(&[0, 0x5A, 0, 0]), Err(ConnectError::Protocol));
    assert_eq!(parse_socks4_reply(&[]), Err(ConnectError::Protocol));
    assert_eq!(parse_socks4_reply(&[0, 0x5A, 0, 0, 0, 0, 0, 0, 0]), Err(ConnectError::Protocol));
}

#[test]
fn socks5_greeting_frame() {
    assert_eq!(socks5_greeting(), vec![5, 1, 0]);
}

#[test]
fn socks5_method_reply() {
    assert_eq!(SOCKS5_METHOD_REPLY_LEN, 2);
    assert_eq!(parse_socks5_method_reply(&[5, 0]), Ok(()));
    assert_eq!(parse_socks5_method_reply(&[5, 2]), Err(ConnectError::AuthMethodUnsupported));
    assert_eq!(parse_socks5_method_reply(&[5, 0xFF]), Err(ConnectError::AuthMethodUnsupported));
    assert_eq!(parse_socks5_method_reply(&[4, 0]), Err(ConnectError::Protocol));
    assert_eq!(parse_socks5_method_reply(&[5]), Err(ConnectError::Protocol));
}

#[test]
fn socks5_request_ipv4() {
    let r = socks5_request(&Target::Ipv4([192, 168, 1, 2]), 443).unwrap();
    assert_eq!(r, vec![5, 1, 0, 1, 192, 168, 1, 2, 0x01, 0xBB]);
}

#[test]
fn socks5_request_ipv6() {
    let mut ip = [0u8; 16];
    ip[15] = 1;
    let r = socks5_request(&Target::Ipv6(ip), 80).unwrap();
    let mut want = vec![5, 1, 0, 4];
    want.extend_from_slice(&ip);
    want.extend_from_slice(&[0, 80]);
    assert_eq!(r, want);
}

#[test]
fn socks5_request_domain() {
    let r = socks5_request(&Target::Domain(b"www.google.com".to_vec()), 80).unwrap();
    let mut want = vec![5, 1, 0, 3, 14];
    want.extend_from_slice(b"www.google.com");
    want.extend_from_slice(&[0, 80]);
    assert_eq!(r, want);
}

#[test]
fn socks5_request_domain_length_limit() {
    let longest = vec![b'a'; 255];
    let r = socks5_request(&Target::Domain(longest), 1).unwrap();
    assert_eq!(r.len(), 4 + 1 + 255 + 2);
    assert_eq!(r[4], 255);
    let too_long = vec![b'a'; 256];
    assert_eq!(
        socks5_request(&Target::Domain(too_long), 1).unwrap_err(),
        ConnectError::DomainTooLong
    );
}

#[test]
fn socks5_reply_success() {
    assert_eq!(parse_socks5_reply(&[5, 0, 0, 1, 1, 2, 3, 4, 0, 80]), Ok(()));
    let mut v6 = vec![5, 0, 0, 4];
    v6.extend_from_slice(&[0u8; 16]);
    v6.extend_from_slice(&[0, 80]);
    assert_eq!(parse_socks5_reply(&v6), Ok(()));
    let mut name = vec![5, 0, 0, 3, 3];
    name.extend_from_slice(b"abc");
    name.extend_from_slice(&[0, 80]);
    assert_eq!(parse_socks5_reply(&name), Ok(()));
}

#[test]
fn socks5_reply_each_rejection() {
    let reasons = [
        RejectReason::GeneralFailure,
        RejectReason::RuleDenied,
        RejectReason::NetworkUnreachable,
        RejectReason::HostUnreachable,
        RejectReason::ConnectionRefused,
        RejectReason::TtlExpired,
        RejectReason::CommandUnsupported,
        RejectReason::AddressTypeUnsupported,
    ];
    for (i, why) in reasons.iter().enumerate() {
        let code = (i + 1) as u8;
        let reply = [5, code, 0, 1, 0, 0, 0, 0, 0, 0];
        assert_eq!(parse_socks5_reply(&reply), Err(ConnectError::ProxyRejected(*why)));
        assert_eq!(why.code(), code);
        assert_eq!(socks5_reject_reason_of(code), Some(*why));
    }
    assert_eq!(socks5_reject_reason_of(0), None);
    assert_eq!(socks5_reject_reason_of(9), None);
}

#[test]
fn socks5_reply_malformed() {
    assert_eq!(parse_socks5_reply(&[5, 9, 0, 1, 0, 0, 0, 0, 0, 0]), Err(ConnectError::Protocol));
    assert_eq!(parse_socks5_reply(&[4, 0, 0, 1, 0, 0, 0, 0, 0, 0]), Err(ConnectError::Protocol));
    assert_eq!(parse_socks5_reply(&[5, 0, 1, 1, 0, 0, 0, 0, 0, 0]), Err(ConnectError::Protocol));
    assert_eq!(parse_socks5_reply(&[5, 0, 0, 2, 0, 0, 0, 0, 0, 0]), Err(ConnectError::Protocol));
}

#[test]
fn socks5_reply_truncated() {
    assert_eq!(parse_socks5_reply(&[5, 0, 0, 1]), Err(ConnectError::Protocol));
    assert_eq!(parse_socks5_reply(&[5, 0, 0, 1, 1, 2, 3, 4, 0]), Err(ConnectError::Protocol));
    assert_eq!(parse_socks5_reply(&[5]), Err(ConnectError::Protocol));
    assert_eq!(parse_socks5_reply(&[]), Err(ConnectError::Protocol));
}

#[test]
fn socks5_reply_length_from_prefix() {
    assert_eq!(socks5_reply_len(&[]), 4);
    assert_eq!(socks5_reply_len(&[5]), 4);
    assert_eq!(socks5_reply_len(&[5, 3]), 4);
    assert_eq!(socks5_reply_len(&[4, 0]), 4);
    assert_eq!(socks5_reply_len(&[5, 0]), 4);
    assert_eq!(socks5_reply_len(&[5, 1, 0, 1]), 4);
    assert_eq!(socks5_reply_len(&[5, 0, 0, 1]), 5);
    assert_eq!(socks5_reply_len(&[5, 0, 0, 1, 9]), 10);
    assert_eq!(socks5_reply_len(&[5, 0, 0, 4, 9]), 22);
    assert_eq!(socks5_reply_len(&[5, 0, 0, 3, 7]), 14);
    assert_eq!(socks5_reply_len(&[5, 0, 0, 3, 255]), 262);
    assert_eq!(socks5_reply_len(&[5, 0, 0, 2, 0]), 4);
}

#[test]
fn socks5_refusal_needs_whole_header() {
    assert_eq!(parse_socks5_reply(&[5, 1]), Err(ConnectError::Protocol));
    assert_eq!(parse_socks5_reply(&[5, 5, 0]), Err(ConnectError::Protocol));
    assert_eq!(
        parse_socks5_reply(&[5, 1, 0, 1]),
        Err(ConnectError::ProxyRejected(RejectReason::GeneralFailure))
    );
    assert_eq!(parse_socks5_reply(&[5, 1, 7, 1]), Err(ConnectError::Protocol));
}
