use vstd::prelude::*;

verus! {

/// Why a proxy refused a CONNECT request, one reason per reply code.
#[derive(Clone, Copy, Debug, PartialEq, Eq, Structural)]
pub enum RejectReason {
    /// SOCKS4 `0x5B`: request rejected or failed.
    Socks4Rejected,
    /// SOCKS4 `0x5C`: the proxy could not reach identd on the client.
    Socks4IdentdUnreachable,
    /// SOCKS4 `0x5D`: identd and the client reported different user ids.
    Socks4IdentMismatch,
    /// SOCKS5 `0x01`: general SOCKS server failure.
    GeneralFailure,
    /// SOCKS5 `0x02`: connection not allowed by ruleset.
    RuleDenied,
    /// SOCKS5 `0x03`: network unreachable.
    NetworkUnreachable,
    /// SOCKS5 `0x04`: host unreachable.
    HostUnreachable,
    /// SOCKS5 `0x05`: connection refused.
    ConnectionRefused,
    /// SOCKS5 `0x06`: TTL expired.
    TtlExpired,
    /// SOCKS5 `0x07`: command not supported.
    CommandUnsupported,
    /// SOCKS5 `0x08`: address type not supported.
    AddressTypeUnsupported,
}

impl RejectReason {
    /// The reply code that carries this reason on the wire.
    pub open spec fn spec_code(self) -> u8 {
        match self {
            RejectReason::Socks4Rejected => 0x5B,
            RejectReason::Socks4IdentdUnreachable => 0x5C,
            RejectReason::Socks4IdentMismatch => 0x5D,
            RejectReason::GeneralFailure => 0x01,
            RejectReason::RuleDenied => 0x02,
            RejectReason::NetworkUnreachable => 0x03,
            RejectReason::HostUnreachable => 0x04,
            RejectReason::ConnectionRefused => 0x05,
            RejectReason::TtlExpired => 0x06,
            RejectReason::CommandUnsupported => 0x07,
            RejectReason::AddressTypeUnsupported => 0x08,
        }
    }

    /// The raw reply code, kept for diagnostics.
    pub fn code(&self) -> (r: u8)
        ensures
            r == self.spec_code(),
    {
        match self {
            RejectReason::Socks4Rejected => 0x5B,
            RejectReason::Socks4IdentdUnreachable => 0x5C,
            RejectReason::Socks4IdentMismatch => 0x5D,
            RejectReason::GeneralFailure => 0x01,
            RejectReason::RuleDenied => 0x02,
            RejectReason::NetworkUnreachable => 0x03,
            RejectReason::HostUnreachable => 0x04,
            RejectReason::ConnectionRefused => 0x05,
            RejectReason::TtlExpired => 0x06,
            RejectReason::CommandUnsupported => 0x07,
            RejectReason::AddressTypeUnsupported => 0x08,
        }
    }
}

/// Everything that can go wrong while connecting through a proxy.
#[derive(Clone, Copy, Debug, PartialEq, Eq, Structural)]
pub enum ConnectError {
    /// The proxy specification gave no address to dial.
    Resolution,
    /// A SOCKS4 user id holds the byte `0x00`, which ends the field on the wire.
    InvalidUserId,
    /// The connector does not serve the requested scheme.
    UnsupportedScheme,
    /// The target is not, and did not resolve to, an IPv4 address, the only
    /// kind SOCKS4 can carry.
    AddressResolution,
    /// A SOCKS5 domain name is longer than 255 bytes.
    DomainTooLong,
    /// No proxy address accepted a TCP connection.
    ProxyUnreachable,
    /// Reading from or writing to the proxy failed.
    Io,
    /// The proxy's reply was malformed, truncated or of the wrong version.
    Protocol,
    /// The SOCKS5 proxy chose an authentication method other than none.
    AuthMethodUnsupported,
    /// The proxy refused the CONNECT request.
    ProxyRejected(RejectReason),
    /// The TLS handshake on top of the proxied stream failed.
    Tls,
}

} // verus!
