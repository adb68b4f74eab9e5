use vstd::prelude::*;

use crate::error::ConnectError;
use crate::plan::Handshake;
use crate::socks4::{parse_socks4_reply, socks4_reply_outcome, SOCKS4_REPLY_LEN};
use crate::socks5::{
    parse_socks5_method_reply, parse_socks5_reply, socks5_method_outcome, socks5_reply_len,
    socks5_reply_outcome, socks5_reply_wanted, SOCKS5_METHOD_REPLY_LEN,
};
use crate::target::push_all;

verus! {

/// Where a handshake stands. `asked` is how many reply bytes the caller was
/// last told to hold; holding fewer after reading means the proxy closed the
/// stream early.
#[derive(Clone, Copy, Debug, PartialEq, Eq, Structural)]
pub enum Phase {
    /// Nothing sent yet.
    Start,
    /// The SOCKS4 request is sent; its reply is awaited.
    AwaitSocks4Reply { asked: usize },
    /// The SOCKS5 method negotiation is sent; the proxy's choice is awaited.
    AwaitMethodReply { asked: usize },
    /// The SOCKS5 CONNECT request is sent; its reply is awaited.
    AwaitConnectReply { asked: usize },
    /// The proxy relays the stream.
    Established,
    /// The handshake failed; nothing more is sent.
    Failed(ConnectError),
}

/// What the caller does next on the proxy socket.
#[derive(Debug)]
pub enum Action {
    /// Write these bytes whole, then drop any reply bytes held so far.
    Send(Vec<u8>),
    /// Read until this many reply bytes are held in all, or the stream ends.
    Receive(usize),
    /// The handshake succeeded: the socket is the proxied stream.
    Established,
    /// The handshake failed with this error: close the socket.
    Abort(ConnectError),
}

/// Whether `phase` belongs to the protocol version of `handshake`.
pub open spec fn phase_fits(handshake: Handshake, phase: Phase) -> bool {
    match phase {
        Phase::AwaitSocks4Reply { .. } => handshake is Socks4,
        Phase::AwaitMethodReply { .. } | Phase::AwaitConnectReply { .. } => handshake is Socks5,
        _ => true,
    }
}

/// The end of a handshake once its last reply is read.
pub open spec fn finishes(outcome: Result<(), ConnectError>, next: Phase, action: Action) -> bool {
    match outcome {
        Ok(()) => next == Phase::Established && action is Established,
        Err(e) => next == Phase::Failed(e) && aborts(action, e),
    }
}

/// Sends exactly `bytes`.
pub open spec fn sends(action: Action, bytes: Seq<u8>) -> bool {
    action matches Action::Send(b) && b@ == bytes
}

/// Gives up with `e`.
pub open spec fn aborts(action: Action, e: ConnectError) -> bool {
    action matches Action::Abort(f) && f == e
}

/// Asks for `wanted` reply bytes in all.
pub open spec fn asks(wanted: nat, action: Action) -> bool {
    action matches Action::Receive(n) && n == wanted
}

/// One step of the handshake: from the phase and the reply bytes held, the
/// next phase and what the caller does. A reply is asked for until it is as
/// long as its first bytes announce; when the caller holds fewer bytes than
/// it was asked for, the stream ended and the reply is judged as it stands.
pub open spec fn step_spec(
    handshake: Handshake,
    phase: Phase,
    received: Seq<u8>,
    next: Phase,
    action: Action,
) -> bool {
    match phase {
        Phase::Start => match handshake {
            Handshake::Socks4 { request } => next == (Phase::AwaitSocks4Reply { asked: 0 })
                && sends(action, request@),
            Handshake::Socks5 { greeting, request } => next == (Phase::AwaitMethodReply {
                asked: 0,
            }) && sends(action, greeting@),
        },
        Phase::AwaitSocks4Reply { asked } => if asked <= received.len() < 8 {
            next == (Phase::AwaitSocks4Reply { asked: 8 }) && asks(8, action)
        } else {
            finishes(socks4_reply_outcome(received), next, action)
        },
        Phase::AwaitMethodReply { asked } => if asked <= received.len() < 2 {
            next == (Phase::AwaitMethodReply { asked: 2 }) && asks(2, action)
        } else {
            match socks5_method_outcome(received) {
                Ok(()) => match handshake {
                    Handshake::Socks5 { greeting, request } => next == (
                    Phase::AwaitConnectReply { asked: 0 }) && sends(action, request@),
                    _ => false,
                },
                Err(e) => next == Phase::Failed(e) && aborts(action, e),
            }
        },
        Phase::AwaitConnectReply { asked } => if asked <= received.len() < socks5_reply_wanted(
            received,
        ) {
            next == (Phase::AwaitConnectReply { asked: socks5_reply_wanted(received) as usize })
                && asks(socks5_reply_wanted(received), action)
        } else {
            finishes(socks5_reply_outcome(received), next, action)
        },
        Phase::Established => next == Phase::Established && action is Established,
        Phase::Failed(e) => next == Phase::Failed(e) && aborts(action, e),
    }
}

fn copy_bytes(b: &Vec<u8>) -> (r: Vec<u8>)
    ensures
        r@ == b@,
{
    let mut v: Vec<u8> = Vec::new();
    push_all(&mut v, b.as_slice());
    assert(v@ =~= b@);
    v
}

fn finish(outcome: Result<(), ConnectError>) -> (r: (Phase, Action))
    ensures
        finishes(outcome, r.0, r.1),
{
    match outcome {
        Ok(()) => (Phase::Established, Action::Established),
        Err(e) => (Phase::Failed(e), Action::Abort(e)),
    }
}

/// Runs one step of the handshake of `handshake`: given the phase and the
/// reply bytes held, returns the next phase and what to do on the socket.
/// Each `Receive` asks for more bytes than are held, so a caller that reads
/// as told always moves on.
pub fn step(handshake: &Handshake, phase: Phase, received: &[u8]) -> (r: (Phase, Action))
    requires
        phase_fits(*handshake, phase),
    ensures
        step_spec(*handshake, phase, received@, r.0, r.1),
        phase_fits(*handshake, r.0),
        r.1 matches Action::Receive(n) ==> received@.len() < n,
{
    match phase {
        Phase::Start => match handshake {
            Handshake::Socks4 { request } => (
                Phase::AwaitSocks4Reply { asked: 0 },
                Action::Send(copy_bytes(request)),
            ),
            Handshake::Socks5 { greeting, request: _ } => (
                Phase::AwaitMethodReply { asked: 0 },
                Action::Send(copy_bytes(greeting)),
            ),
        },
        Phase::AwaitSocks4Reply { asked } => if asked <= received.len() && received.len()
            < SOCKS4_REPLY_LEN {
            (Phase::AwaitSocks4Reply { asked: SOCKS4_REPLY_LEN }, Action::Receive(SOCKS4_REPLY_LEN))
        } else {
            finish(parse_socks4_reply(received))
        },
        Phase::AwaitMethodReply { asked } => if asked <= received.len() && received.len()
            < SOCKS5_METHOD_REPLY_LEN {
            (
                Phase::AwaitMethodReply { asked: SOCKS5_METHOD_REPLY_LEN },
                Action::Receive(SOCKS5_METHOD_REPLY_LEN),
            )
        } else {
            match parse_socks5_method_reply(received) {
                Ok(()) => match handshake {
                    Handshake::Socks5 { greeting: _, request } => (
                        Phase::AwaitConnectReply { asked: 0 },
                        Action::Send(copy_bytes(request)),
                    ),
                    Handshake::Socks4 { request: _ } => {
                        assert(false);
                        (Phase::Failed(ConnectError::Protocol), Action::Abort(ConnectError::Protocol))
                    },
                },
                Err(e) => (Phase::Failed(e), Action::Abort(e)),
            }
        },
        Phase::AwaitConnectReply { asked } => {
            let wanted = socks5_reply_len(received);
            if asked <= received.len() && received.len() < wanted {
                (Phase::AwaitConnectReply { asked: wanted }, Action::Receive(wanted))
            } else {
                finish(parse_socks5_reply(received))
            }
        },
        Phase::Established => (Phase::Established, Action::Established),
        Phase::Failed(e) => (Phase::Failed(e), Action::Abort(e)),
    }
}

/// The CONNECT request is never sent after a failed method negotiation: a
/// method reply that does not choose "no authentication" ends the handshake.
pub proof fn lemma_no_request_after_failed_negotiation(
    handshake: Handshake,
    asked: usize,
    received: Seq<u8>,
    next: Phase,
    action: Action,
)
    requires
        step_spec(handshake, Phase::AwaitMethodReply { asked }, received, next, action),
        socks5_method_outcome(received) is Err,
    ensures
        !(action is Send),
        !(next is AwaitConnectReply),
{
}

/// The handshake is established only on a reply that grants the request,
/// whole and well-formed; a reply cut short never establishes it.
pub proof fn lemma_established_only_on_granted_reply(
    handshake: Handshake,
    phase: Phase,
    received: Seq<u8>,
    next: Phase,
    action: Action,
)
    requires
        step_spec(handshake, phase, received, next, action),
        action is Established,
    ensures
        phase is AwaitSocks4Reply ==> socks4_reply_outcome(received) is Ok && received.len() == 8,
        phase is AwaitConnectReply ==> socks5_reply_outcome(received) is Ok && received.len()
            == socks5_reply_wanted(received),
        phase is Start ==> false,
        phase is AwaitMethodReply ==> false,
{
}

/// A handshake that fails from the proxy's side fails with a protocol
/// violation, a refusal, or an unsupported authentication method, and with
/// nothing else.
pub proof fn lemma_handshake_errors_are_named(
    handshake: Handshake,
    phase: Phase,
    received: Seq<u8>,
    next: Phase,
    action: Action,
)
    requires
        step_spec(handshake, phase, received, next, action),
        !(phase is Failed),
    ensures
        action matches Action::Abort(e) ==> (e == ConnectError::Protocol
            || e == ConnectError::AuthMethodUnsupported || e is ProxyRejected),
{
}

} // verus!
