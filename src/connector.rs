use vstd::prelude::*;
use vstd::string::StringSliceAdditionalSpecFns;

use crate::error::ConnectError;
use crate::plan::{plan_socks4, plan_socks5, socks4_plan, socks5_plan, ConnectPlan, PlanView};
use crate::target::{push_all, ProxyAddr, Target};

verus! {

/// What a SOCKS4 connector is built from: the proxy's addresses and the user
/// id, or why they cannot make one.
pub open spec fn socks4_config(proxies: Seq<ProxyAddr>, userid: Seq<u8>) -> Result<
    (Seq<ProxyAddr>, Seq<u8>),
    ConnectError,
> {
    if proxies.len() == 0 {
        Err(ConnectError::Resolution)
    } else if userid.contains(0x00u8) {
        Err(ConnectError::InvalidUserId)
    } else {
        Ok((proxies, userid))
    }
}

/// What a SOCKS5 connector is built from: the proxy's addresses, or why they
/// cannot make one.
pub open spec fn socks5_config(proxies: Seq<ProxyAddr>) -> Result<Seq<ProxyAddr>, ConnectError> {
    if proxies.len() == 0 {
        Err(ConnectError::Resolution)
    } else {
        Ok(proxies)
    }
}

/// Whether `bytes` holds a `0x00`.
fn has_nul(bytes: &[u8]) -> (r: bool)
    ensures
        r == bytes@.contains(0x00u8),
{
    let mut i: usize = 0;
    while i < bytes.len()
        invariant
            i <= bytes@.len(),
            forall|j: int| 0 <= j < i ==> bytes@[j] != 0x00u8,
        decreases bytes@.len() - i,
    {
        if bytes[i] == 0x00 {
            return true;
        }
        i = i + 1;
    }
    false
}

/// Checks a SOCKS4 configuration and copies the user id out.
fn socks4_parts(proxies: &Vec<ProxyAddr>, userid: &str) -> (r: Result<Vec<u8>, ConnectError>)
    ensures
        match socks4_config(proxies@, userid.spec_bytes()) {
            Ok(cfg) => r matches Ok(u) && u@ == cfg.1,
            Err(e) => r matches Err(f) && f == e,
        },
{
    if proxies.len() == 0 {
        return Err(ConnectError::Resolution);
    }
    let bytes = userid.as_bytes();
    if has_nul(bytes) {
        return Err(ConnectError::InvalidUserId);
    }
    let mut id: Vec<u8> = Vec::new();
    push_all(&mut id, bytes);
    assert(id@ =~= bytes@);
    Ok(id)
}

/// A connector that produces plain streams proxied over a SOCKS4 server.
#[derive(Debug)]
pub struct Socks4HttpConnector {
    addrs: Vec<ProxyAddr>,
    userid: Vec<u8>,
}

impl View for Socks4HttpConnector {
    type V = (Seq<ProxyAddr>, Seq<u8>);

    closed spec fn view(&self) -> (Seq<ProxyAddr>, Seq<u8>) {
        (self.addrs@, self.userid@)
    }
}

impl Socks4HttpConnector {
    /// Creates a connector for the proxy at `proxies`, tried in order, on
    /// behalf of `userid`.
    pub fn new(proxies: Vec<ProxyAddr>, userid: &str) -> (r: Result<Self, ConnectError>)
        ensures
            match socks4_config(proxies@, userid.spec_bytes()) {
                Ok(cfg) => r matches Ok(c) && c@ == cfg,
                Err(e) => r matches Err(f) && f == e,
            },
    {
        match socks4_parts(&proxies, userid) {
            Ok(id) => Ok(Socks4HttpConnector { addrs: proxies, userid: id }),
            Err(e) => Err(e),
        }
    }

    /// The proxy's addresses, in the order they are to be dialled.
    pub fn proxies(&self) -> (r: &[ProxyAddr])
        ensures
            r@ == self@.0,
    {
        self.addrs.as_slice()
    }

    /// Plans a connection to `target:port`. Only `http` is served.
    pub fn connect(&self, target: &Target, port: u16, scheme: &str) -> (r: Result<
        ConnectPlan,
        ConnectError,
    >)
        ensures
            match socks4_plan(self@.1, scheme.spec_bytes(), false, *target, port) {
                Ok(plan) => r matches Ok(p) && p@ == plan,
                Err(e) => r matches Err(f) && f == e,
            },
    {
        plan_socks4(self.userid.as_slice(), target, port, scheme, false)
    }
}

/// A connector that produces plain or TLS streams proxied over a SOCKS4
/// server, with `ssl` as its TLS capability.
#[derive(Debug)]
pub struct Socks4HttpsConnector<S> {
    addrs: Vec<ProxyAddr>,
    userid: Vec<u8>,
    ssl: S,
}

impl<S> View for Socks4HttpsConnector<S> {
    type V = (Seq<ProxyAddr>, Seq<u8>);

    closed spec fn view(&self) -> (Seq<ProxyAddr>, Seq<u8>) {
        (self.addrs@, self.userid@)
    }
}

impl<S> Socks4HttpsConnector<S> {
    /// Creates a connector for the proxy at `proxies`, tried in order, on
    /// behalf of `userid`, encrypting `https` streams with `ssl`.
    pub fn new(proxies: Vec<ProxyAddr>, userid: &str, ssl: S) -> (r: Result<Self, ConnectError>)
        ensures
            match socks4_config(proxies@, userid.spec_bytes()) {
                Ok(cfg) => r matches Ok(c) && c@ == cfg && c.spec_ssl() == ssl,
                Err(e) => r matches Err(f) && f == e,
            },
    {
        match socks4_parts(&proxies, userid) {
            Ok(id) => Ok(Socks4HttpsConnector { addrs: proxies, userid: id, ssl }),
            Err(e) => Err(e),
        }
    }

    /// The TLS capability.
    pub closed spec fn spec_ssl(&self) -> S {
        self.ssl
    }

    /// The TLS capability that encrypts `https` streams.
    pub fn ssl(&self) -> (r: &S)
        ensures
            *r == self.spec_ssl(),
    {
        &self.ssl
    }

    /// The proxy's addresses, in the order they are to be dialled.
    pub fn proxies(&self) -> (r: &[ProxyAddr])
        ensures
            r@ == self@.0,
    {
        self.addrs.as_slice()
    }

    /// Plans a connection to `target:port`. `http` and `https` are served.
    pub fn connect(&self, target: &Target, port: u16, scheme: &str) -> (r: Result<
        ConnectPlan,
        ConnectError,
    >)
        ensures
            match socks4_plan(self@.1, scheme.spec_bytes(), true, *target, port) {
                Ok(plan) => r matches Ok(p) && p@ == plan,
                Err(e) => r matches Err(f) && f == e,
            },
    {
        plan_socks4(self.userid.as_slice(), target, port, scheme, true)
    }
}

/// A connector that produces plain streams proxied over a SOCKS5 server.
#[derive(Debug)]
pub struct Socks5HttpConnector {
    addrs: Vec<ProxyAddr>,
}

impl View for Socks5HttpConnector {
    type V = Seq<ProxyAddr>;

    closed spec fn view(&self) -> Seq<ProxyAddr> {
        self.addrs@
    }
}

impl Socks5HttpConnector {
    /// Creates a connector for the proxy at `proxies`, tried in order.
    pub fn new(proxies: Vec<ProxyAddr>) -> (r: Result<Self, ConnectError>)
        ensures
            match socks5_config(proxies@) {
                Ok(cfg) => r matches Ok(c) && c@ == cfg,
                Err(e) => r matches Err(f) && f == e,
            },
    {
        if proxies.len() == 0 {
            return Err(ConnectError::Resolution);
        }
        Ok(Socks5HttpConnector { addrs: proxies })
    }

    /// The proxy's addresses, in the order they are to be dialled.
    pub fn proxies(&self) -> (r: &[ProxyAddr])
        ensures
            r@ == self@,
    {
        self.addrs.as_slice()
    }

    /// Plans a connection to `target:port`. Only `http` is served.
    pub fn connect(&self, target: &Target, port: u16, scheme: &str) -> (r: Result<
        ConnectPlan,
        ConnectError,
    >)
        ensures
            match socks5_plan(scheme.spec_bytes(), false, *target, port) {
                Ok(plan) => r matches Ok(p) && p@ == plan,
                Err(e) => r matches Err(f) && f == e,
            },
    {
        plan_socks5(target, port, scheme, false)
    }
}

/// A connector that produces plain or TLS streams proxied over a SOCKS5
/// server, with `ssl` as its TLS capability.
#[derive(Debug)]
pub struct Socks5HttpsConnector<S> {
    addrs: Vec<ProxyAddr>,
    ssl: S,
}

impl<S> View for Socks5HttpsConnector<S> {
    type V = Seq<ProxyAddr>;

    closed spec fn view(&self) -> Seq<ProxyAddr> {
        self.addrs@
    }
}

impl<S> Socks5HttpsConnector<S> {
    /// Creates a connector for the proxy at `proxies`, tried in order,
    /// encrypting `https` streams with `ssl`.
    pub fn new(proxies: Vec<ProxyAddr>, ssl: S) -> (r: Result<Self, ConnectError>)
        ensures
            match socks5_config(proxies@) {
                Ok(cfg) => r matches Ok(c) && c@ == cfg && c.spec_ssl() == ssl,
                Err(e) => r matches Err(f) && f == e,
            },
    {
        if proxies.len() == 0 {
            return Err(ConnectError::Resolution);
        }
        Ok(Socks5HttpsConnector { addrs: proxies, ssl })
    }

    /// The TLS capability.
    pub closed spec fn spec_ssl(&self) -> S {
        self.ssl
    }

    /// The TLS capability that encrypts `https` streams.
    pub fn ssl(&self) -> (r: &S)
        ensures
            *r == self.spec_ssl(),
    {
        &self.ssl
    }

    /// The proxy's addresses, in the order they are to be dialled.
    pub fn proxies(&self) -> (r: &[ProxyAddr])
        ensures
            r@ == self@,
    {
        self.addrs.as_slice()
    }

    /// Plans a connection to `target:port`. `http` and `https` are served.
    pub fn connect(&self, target: &Target, port: u16, scheme: &str) -> (r: Result<
        ConnectPlan,
        ConnectError,
    >)
        ensures
            match socks5_plan(scheme.spec_bytes(), true, *target, port) {
                Ok(plan) => r matches Ok(p) && p@ == plan,
                Err(e) => r matches Err(f) && f == e,
            },
    {
        plan_socks5(target, port, scheme, true)
    }
}

/// Building a connector twice from the same proxy addresses and user id gives
/// two connectors with the same configuration, and so the same plan for every
/// connection; a plan depends on nothing else, so neither can disturb the other.
pub proof fn lemma_socks4_built_alike_plan_alike(
    proxies: Seq<ProxyAddr>,
    userid: Seq<u8>,
    a: (Seq<ProxyAddr>, Seq<u8>),
    b: (Seq<ProxyAddr>, Seq<u8>),
    scheme: Seq<u8>,
    tls: bool,
    target: Target,
    port: u16,
)
    requires
        socks4_config(proxies, userid) == Ok::<(Seq<ProxyAddr>, Seq<u8>), ConnectError>(a),
        socks4_config(proxies, userid) == Ok::<(Seq<ProxyAddr>, Seq<u8>), ConnectError>(b),
    ensures
        a == b,
        socks4_plan(a.1, scheme, tls, target, port) == socks4_plan(b.1, scheme, tls, target, port),
{
}

/// Building a SOCKS5 connector twice from the same proxy addresses gives two
/// connectors with the same configuration.
pub proof fn lemma_socks5_built_alike(
    proxies: Seq<ProxyAddr>,
    a: Seq<ProxyAddr>,
    b: Seq<ProxyAddr>,
)
    requires
        socks5_config(proxies) == Ok::<Seq<ProxyAddr>, ConnectError>(a),
        socks5_config(proxies) == Ok::<Seq<ProxyAddr>, ConnectError>(b),
    ensures
        a == b,
{
}

} // verus!
