//! SOCKS proxy support for HTTP clients.
//!
//! The library decides everything that a connection through a SOCKS4 or
//! SOCKS5 proxy needs: which schemes a connector serves, the exact bytes of
//! each handshake frame, how many reply bytes to wait for, and what a reply
//! means. The caller owns the sockets: it dials the proxy addresses in order,
//! sends the frames of the plan, feeds the replies back, and wraps the stream
//! in TLS when the plan asks for an encrypted one.
pub mod connector;
pub mod error;
pub mod plan;
pub mod session;
pub mod socks4;
pub mod socks5;
pub mod target;

pub use connector::{
    Socks4HttpConnector, Socks4HttpsConnector, Socks5HttpConnector, Socks5HttpsConnector,
};
pub use error::{ConnectError, RejectReason};
pub use plan::{
    check_scheme, parse_scheme, ConnectPlan, Handshake, ProxyVersion, Scheme, StreamKind,
};
pub use socks4::{parse_socks4_reply, socks4_request, SOCKS4_REPLY_LEN};
pub use socks5::{
    parse_socks5_method_reply, parse_socks5_reply, socks5_greeting, socks5_reject_reason_of,
    socks5_reply_len, socks5_request, SOCKS5_METHOD_REPLY_LEN,
};
pub use target::{first_ipv4, ProxyAddr, Target};
pub use session::{step, Action, Phase};
