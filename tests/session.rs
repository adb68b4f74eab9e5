use hyper_socks::{
    first_ipv4, step, Action, ConnectError, Handshake, Phase, ProxyAddr, RejectReason,
    Socks4HttpConnector, Socks5HttpsConnector, Target,
};

fn proxy() -> Vec<ProxyAddr> {
    vec![ProxyAddr::V4([127, 0, 0, 1], 1080)]
}

fn socks4_handshake() -> Handshake {
    let c = Socks4HttpConnector::new(proxy(), "u").unwrap();
    c.connect(&Target::Ipv4([10, 0, 0, 2]), 80, "http").unwrap().handshake
}

fn socks5_handshake() -> Handshake {
    let c = Socks5HttpsConnector::new(proxy(), ()).unwrap();
    c.connect(&Target::Ipv4([10, 0, 0, 2]), 443, "https").unwrap().handshake
}

fn sent(a: Action) -> Vec<u8> {
    match a {
        Action::Send(b) => b,
        other => panic!("expected a frame to send, got {:?}", other),
    }
}

fn asked(a: Action) -> usize {
    match a {
        Action::Receive(n) => n,
        other => panic!("expected a read, got {:?}", other),
    }
}

#[test]
fn socks4_session_granted() {
    let h = socks4_handshake();
    let (p, a) = step(&h, Phase::Start, &[]);
    assert_eq!(sent(a), vec![4, 1, 0, 80, 10, 0, 0, 2, b'u', 0]);
    let (p, a) = step(&h, p, &[]);
    assert_eq!(asked(a), 8);
    let (p, a) = step(&h, p, &[0, 0x5A, 0, 0, 0, 0, 0, 0]);
    assert_eq!(p, Phase::Established);
    assert!(matches!(a, Action::Established));
}

#[test]
fn socks4_session_rejected_and_truncated() {
    let h = socks4_handshake();
    let (p, _) = step(&h, Phase::Start, &[]);
    let (p, _) = step(&h, p, &[]);
    let (q, a) = step(&h, p, &[0, 0x5B, 0, 0, 0, 0, 0, 0]);
    let refused = ConnectError::ProxyRejected(RejectReason::Socks4Rejected);
    assert_eq!(q, Phase::Failed(refused));
    assert!(matches!(a, Action::Abort(e) if e == refused));
    let (q, a) = step(&h, p, &[0, 0x5A, 0, 0]);
    assert_eq!(q, Phase::Failed(ConnectError::Protocol));
    assert!(matches!(a, Action::Abort(ConnectError::Protocol)));
}

#[test]
fn socks5_session_granted() {
    let h = socks5_handshake();
    let (p, a) = step(&h, Phase::Start, &[]);
    assert_eq!(sent(a), vec![5, 1, 0]);
    let (p, a) = step(&h, p, &[]);
    assert_eq!(asked(a), 2);
    let (p, a) = step(&h, p, &[5, 0]);
    assert_eq!(sent(a), vec![5, 1, 0, 1, 10, 0, 0, 2, 0x01, 0xBB]);
    let (p, a) = step(&h, p, &[]);
    assert_eq!(asked(a), 4);
    let (p, a) = step(&h, p, &[5, 0, 0, 1]);
    assert_eq!(asked(a), 5);
    let (p, a) = step(&h, p, &[5, 0, 0, 1, 1]);
    assert_eq!(asked(a), 10);
    let (p, a) = step(&h, p, &[5, 0, 0, 1, 1, 2, 3, 4, 0, 80]);
    assert_eq!(p, Phase::Established);
    assert!(matches!(a, Action::Established));
    let (p, a) = step(&h, p, &[]);
    assert_eq!(p, Phase::Established);
    assert!(matches!(a, Action::Established));
}

#[test]
fn socks5_session_auth_refused_sends_no_request() {
    let h = socks5_handshake();
    let (p, _) = step(&h, Phase::Start, &[]);
    let (p, _) = step(&h, p, &[]);
    let (q, a) = step(&h, p, &[5, 2]);
    assert_eq!(q, Phase::Failed(ConnectError::AuthMethodUnsupported));
    assert!(matches!(a, Action::Abort(ConnectError::AuthMethodUnsupported)));
    let (q, a) = step(&h, q, &[]);
    assert_eq!(q, Phase::Failed(ConnectError::AuthMethodUnsupported));
    assert!(matches!(a, Action::Abort(_)));
}

#[test]
fn socks5_session_short_replies() {
    let h = socks5_handshake();
    let (q, _) = step(&h, Phase::AwaitMethodReply { asked: 2 }, &[5]);
    assert_eq!(q, Phase::Failed(ConnectError::Protocol));
    let (q, _) = step(&h, Phase::AwaitConnectReply { asked: 4 }, &[5, 1]);
    assert_eq!(q, Phase::Failed(ConnectError::Protocol));
    let (q, _) = step(&h, Phase::AwaitConnectReply { asked: 10 }, &[5, 0, 0, 1, 1, 2, 3]);
    assert_eq!(q, Phase::Failed(ConnectError::Protocol));
    let (q, _) = step(&h, Phase::AwaitConnectReply { asked: 4 }, &[5, 3, 0, 1]);
    assert_eq!(
        q,
        Phase::Failed(ConnectError::ProxyRejected(RejectReason::NetworkUnreachable))
    );
}

#[test]
fn first_ipv4_picks_the_first_ipv4() {
    let addrs = vec![
        ProxyAddr::V6([0; 16], 80),
        ProxyAddr::V4([1, 2, 3, 4], 80),
        ProxyAddr::V4([5, 6, 7, 8], 80),
    ];
    assert!(matches!(first_ipv4(&addrs), Ok(Target::Ipv4([1, 2, 3, 4]))));
    let only_v6 = vec![ProxyAddr::V6([0; 16], 80)];
    assert_eq!(first_ipv4(&only_v6).unwrap_err(), ConnectError::AddressResolution);
    assert_eq!(first_ipv4(&[]).unwrap_err(), ConnectError::AddressResolution);
}
