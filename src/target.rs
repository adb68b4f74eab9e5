use vstd::prelude::*;

use crate::error::ConnectError;

verus! {

/// One resolved address of the proxy: an IP address and a port.
#[derive(Clone, Copy, Debug)]
pub enum ProxyAddr {
    V4([u8; 4], u16),
    V6([u8; 16], u16),
}

/// The host that the proxy is asked to reach.
#[derive(Debug)]
pub enum Target {
    Ipv4([u8; 4]),
    Ipv6([u8; 16]),
    /// A host name, as its bytes, resolved on the proxy's side.
    Domain(Vec<u8>),
}

/// The two bytes of a port in network order.
pub open spec fn port_bytes(port: u16) -> Seq<u8> {
    seq![(port / 256) as u8, (port % 256) as u8]
}

/// Appends the bytes of `s` to `v`.
pub(crate) fn push_all(v: &mut Vec<u8>, s: &[u8])
    ensures
        final(v)@ == old(v)@ + s@,
{
    let mut i: usize = 0;
    while i < s.len()
        invariant
            i <= s@.len(),
            v@ == old(v)@ + s@.subrange(0, i as int),
        decreases s@.len() - i,
    {
        v.push(s[i]);
        i = i + 1;
        assert(s@.subrange(0, i as int) == s@.subrange(0, i - 1 as int).push(s@[i - 1]));
    }
    assert(s@.subrange(0, s@.len() as int) == s@);
}

/// Appends the two bytes of `port`, high byte first.
pub(crate) fn push_port(v: &mut Vec<u8>, port: u16)
    ensures
        final(v)@ == old(v)@ + port_bytes(port),
{
    v.push((port / 256) as u8);
    v.push((port % 256) as u8);
    assert(final(v)@ == old(v)@ + port_bytes(port));
}

/// Picks the SOCKS4 target out of the addresses a host name resolved to: the
/// first IPv4 address, in the order given. With none, the name cannot be
/// addressed over SOCKS4.
pub fn first_ipv4(addrs: &[ProxyAddr]) -> (r: Result<Target, ConnectError>)
    ensures
        (exists|i: int| 0 <= i < addrs@.len() && #[trigger] addrs@[i] is V4) <==> r is Ok,
        r is Err ==> r == Err::<Target, ConnectError>(ConnectError::AddressResolution),
        r matches Ok(t) ==> exists|i: int|
            0 <= i < addrs@.len() && (forall|j: int| 0 <= j < i ==> !(#[trigger] addrs@[j] is V4))
                && (#[trigger] addrs@[i] matches ProxyAddr::V4(ip, _) && t matches Target::Ipv4(
                tip,
            ) && tip == ip),
{
    let mut i: usize = 0;
    while i < addrs.len()
        invariant
            i <= addrs@.len(),
            forall|j: int| 0 <= j < i ==> !(addrs@[j] is V4),
        decreases addrs@.len() - i,
    {
        match addrs[i] {
            ProxyAddr::V4(ip, _) => {
                assert(addrs@[i as int] is V4);
                return Ok(Target::Ipv4(ip));
            },
            ProxyAddr::V6(_, _) => {},
        }
        i = i + 1;
    }
    Err(ConnectError::AddressResolution)
}

} // verus!
