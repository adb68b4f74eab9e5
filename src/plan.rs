use vstd::prelude::*;
use vstd::string::StringSliceAdditionalSpecFns;

use crate::error::ConnectError;
use crate::socks4::{socks4_request, socks4_request_bytes};
use crate::socks5::{socks5_greeting, socks5_greeting_bytes, socks5_request, socks5_request_outcome};
use crate::target::Target;

verus! {

/// A URL scheme that a connector may serve.
#[derive(Clone, Copy, Debug, PartialEq, Eq, Structural)]
pub enum Scheme {
    Http,
    Https,
}

/// How the proxied stream is handed to the caller: as it is, or after a TLS
/// handshake on top of it.
#[derive(Clone, Copy, Debug, PartialEq, Eq, Structural)]
pub enum StreamKind {
    Plain,
    Encrypted,
}

/// The SOCKS protocol version a handshake speaks.
#[derive(Clone, Copy, Debug, PartialEq, Eq, Structural)]
pub enum ProxyVersion {
    Socks4,
    Socks5,
}

/// The frames to send to the proxy, in order, each followed by reading its reply.
#[derive(Debug)]
pub enum Handshake {
    /// One CONNECT request, answered by an eight-byte reply.
    Socks4 { request: Vec<u8> },
    /// The method negotiation, answered by two bytes, then the CONNECT
    /// request, answered by a reply whose length its first bytes announce.
    Socks5 { greeting: Vec<u8>, request: Vec<u8> },
}

/// Everything a caller needs to run one connection through the proxy.
#[derive(Debug)]
pub struct ConnectPlan {
    pub handshake: Handshake,
    pub stream: StreamKind,
}

/// A plan as values: the version, the frames in the order they are sent, and
/// the kind of stream handed back.
pub type PlanView = (ProxyVersion, Seq<Seq<u8>>, StreamKind);

impl View for ConnectPlan {
    type V = PlanView;

    open spec fn view(&self) -> PlanView {
        match self.handshake {
            Handshake::Socks4 { request } => (ProxyVersion::Socks4, seq![request@], self.stream),
            Handshake::Socks5 { greeting, request } => (
                ProxyVersion::Socks5,
                seq![greeting@, request@],
                self.stream,
            ),
        }
    }
}

/// The bytes of `http`.
pub open spec fn http_bytes() -> Seq<u8> {
    seq![0x68u8, 0x74u8, 0x74u8, 0x70u8]
}

/// The bytes of `https`.
pub open spec fn https_bytes() -> Seq<u8> {
    http_bytes().push(0x73u8)
}

/// The scheme that a string names, if any; the match is exact.
pub open spec fn scheme_of(bytes: Seq<u8>) -> Option<Scheme> {
    if bytes == http_bytes() {
        Some(Scheme::Http)
    } else if bytes == https_bytes() {
        Some(Scheme::Https)
    } else {
        None
    }
}

/// The stream a connector hands back for `scheme`, or `None` when it does not
/// serve that scheme. Every connector serves `http`; only one that holds a
/// TLS capability serves `https`.
pub open spec fn stream_for(scheme: Seq<u8>, tls: bool) -> Option<StreamKind> {
    match scheme_of(scheme) {
        Some(Scheme::Http) => Some(StreamKind::Plain),
        Some(Scheme::Https) => if tls {
            Some(StreamKind::Encrypted)
        } else {
            None
        },
        None => None,
    }
}

/// The plan of a SOCKS4 connection. The scheme is checked before anything
/// else; the target must be an IPv4 address (a name is resolved to one
/// first), and any other target is an address resolution failure.
pub open spec fn socks4_plan(
    userid: Seq<u8>,
    scheme: Seq<u8>,
    tls: bool,
    target: Target,
    port: u16,
) -> Result<PlanView, ConnectError> {
    match stream_for(scheme, tls) {
        None => Err(ConnectError::UnsupportedScheme),
        Some(kind) => match target {
            Target::Ipv4(ip) => Ok(
                (ProxyVersion::Socks4, seq![socks4_request_bytes(port, ip@, userid)], kind),
            ),
            _ => Err(ConnectError::AddressResolution),
        },
    }
}

/// The plan of a SOCKS5 connection. The scheme is checked before anything else.
pub open spec fn socks5_plan(scheme: Seq<u8>, tls: bool, target: Target, port: u16) -> Result<
    PlanView,
    ConnectError,
> {
    match stream_for(scheme, tls) {
        None => Err(ConnectError::UnsupportedScheme),
        Some(kind) => match socks5_request_outcome(target, port) {
            Ok(request) => Ok((ProxyVersion::Socks5, seq![socks5_greeting_bytes(), request], kind)),
            Err(e) => Err(e),
        },
    }
}

/// Reads a scheme; anything but exactly `http` or `https` is `None`.
pub fn parse_scheme(scheme: &str) -> (r: Option<Scheme>)
    ensures
        r == scheme_of(scheme.spec_bytes()),
{
    let b = scheme.as_bytes();
    if b.len() == 4 && b[0] == 0x68 && b[1] == 0x74 && b[2] == 0x74 && b[3] == 0x70 {
        assert(b@ =~= http_bytes());
        Some(Scheme::Http)
    } else if b.len() == 5 && b[0] == 0x68 && b[1] == 0x74 && b[2] == 0x74 && b[3] == 0x70 && b[4]
        == 0x73 {
        assert(b@ =~= https_bytes());
        Some(Scheme::Https)
    } else {
        assert(b@ != http_bytes() && b@ != https_bytes()) by {
            if b@ == http_bytes() {
                assert(b@.len() == 4 && b@[0] == 0x68 && b@[1] == 0x74);
            }
            if b@ == https_bytes() {
                assert(b@.len() == 5 && b@[4] == 0x73);
            }
        }
        None
    }
}

/// The stream to hand back for `scheme`, or `UnsupportedScheme`.
pub fn check_scheme(scheme: &str, tls: bool) -> (r: Result<StreamKind, ConnectError>)
    ensures
        match stream_for(scheme.spec_bytes(), tls) {
            Some(kind) => r == Ok::<StreamKind, ConnectError>(kind),
            None => r == Err::<StreamKind, ConnectError>(ConnectError::UnsupportedScheme),
        },
{
    match parse_scheme(scheme) {
        Some(Scheme::Http) => Ok(StreamKind::Plain),
        Some(Scheme::Https) => if tls {
            Ok(StreamKind::Encrypted)
        } else {
            Err(ConnectError::UnsupportedScheme)
        },
        None => Err(ConnectError::UnsupportedScheme),
    }
}

/// Plans a SOCKS4 connection to `target:port` for `scheme`.
pub fn plan_socks4(userid: &[u8], target: &Target, port: u16, scheme: &str, tls: bool) -> (r: Result<
    ConnectPlan,
    ConnectError,
>)
    ensures
        match socks4_plan(userid@, scheme.spec_bytes(), tls, *target, port) {
            Ok(plan) => r matches Ok(p) && p@ == plan,
            Err(e) => r matches Err(f) && f == e,
        },
{
    let stream = match check_scheme(scheme, tls) {
        Ok(kind) => kind,
        Err(e) => return Err(e),
    };
    match target {
        Target::Ipv4(ip) => {
            let request = socks4_request(port, ip, userid);
            Ok(ConnectPlan { handshake: Handshake::Socks4 { request }, stream })
        },
        _ => Err(ConnectError::AddressResolution),
    }
}

/// Plans a SOCKS5 connection to `target:port` for `scheme`.
pub fn plan_socks5(target: &Target, port: u16, scheme: &str, tls: bool) -> (r: Result<
    ConnectPlan,
    ConnectError,
>)
    ensures
        match socks5_plan(scheme.spec_bytes(), tls, *target, port) {
            Ok(plan) => r matches Ok(p) && p@ == plan,
            Err(e) => r matches Err(f) && f == e,
        },
{
    let stream = match check_scheme(scheme, tls) {
        Ok(kind) => kind,
        Err(e) => return Err(e),
    };
    match socks5_request(target, port) {
        Ok(request) => {
            let greeting = socks5_greeting();
            Ok(ConnectPlan { handshake: Handshake::Socks5 { greeting, request }, stream })
        },
        Err(e) => Err(e),
    }
}

/// A scheme that a connector does not serve is refused before the target is
/// looked at, whatever the host and port: no frame is ever built for it.
pub proof fn lemma_unsupported_scheme_refused_first(
    userid: Seq<u8>,
    scheme: Seq<u8>,
    tls: bool,
    target: Target,
    port: u16,
)
    requires
        stream_for(scheme, tls) is None,
    ensures
        socks4_plan(userid, scheme, tls, target, port) == Err::<PlanView, ConnectError>(
            ConnectError::UnsupportedScheme,
        ),
        socks5_plan(scheme, tls, target, port) == Err::<PlanView, ConnectError>(
            ConnectError::UnsupportedScheme,
        ),
{
}

/// The stream handed back matches the scheme asked for: `https` gives an
/// encrypted stream, `http` a plain one, on either protocol version.
pub proof fn lemma_stream_kind_follows_scheme(
    userid: Seq<u8>,
    scheme: Seq<u8>,
    tls: bool,
    target: Target,
    port: u16,
)
    ensures
        socks4_plan(userid, scheme, tls, target, port) matches Ok(p) ==> (p.2
            == StreamKind::Encrypted <==> scheme == https_bytes()),
        socks4_plan(userid, scheme, tls, target, port) matches Ok(p) ==> (p.2 == StreamKind::Plain
            <==> scheme == http_bytes()),
        socks5_plan(scheme, tls, target, port) matches Ok(p) ==> (p.2 == StreamKind::Encrypted
            <==> scheme == https_bytes()),
        socks5_plan(scheme, tls, target, port) matches Ok(p) ==> (p.2 == StreamKind::Plain
            <==> scheme == http_bytes()),
{
    assert(http_bytes() != https_bytes()) by {
        assert(http_bytes().len() != https_bytes().len());
    }
}

/// Planning a connection never fails but for a named reason: a SOCKS4 plan
/// is refused only for the scheme or for a target that is not an IPv4
/// address, a SOCKS5 plan only for the scheme or for a domain name too long
/// for its length byte.
pub proof fn lemma_plan_errors_are_named(
    userid: Seq<u8>,
    scheme: Seq<u8>,
    tls: bool,
    target: Target,
    port: u16,
)
    ensures
        socks4_plan(userid, scheme, tls, target, port) matches Err(e) ==> (e
            == ConnectError::UnsupportedScheme || e == ConnectError::AddressResolution),
        socks5_plan(scheme, tls, target, port) matches Err(e) ==> (e
            == ConnectError::UnsupportedScheme || e == ConnectError::DomainTooLong),
{
}

} // verus!
