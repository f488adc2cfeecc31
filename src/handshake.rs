//! The handshake as a state machine: the caller moves bytes, the machine decides.
//!
//! Each call of [`Handshake::advance`] takes the bytes that the previous action
//! asked to receive and answers with the next action: bytes to send and how
//! many to receive next, success, or failure. The caller performs the I/O.
use vstd::prelude::*;

use crate::error::Socks5Error;
use crate::method::{method_of_byte, Socks5Method};
use crate::reply::{reply_of_byte, Socks5Reply};
use crate::request::{
    connect_request, encode_request, Destination, ATYP_DOMAIN, ATYP_IPV4, ATYP_IPV6,
    RESERVED, SOCKS_VERSION,
};

verus! {

/// How the bound address that follows a reply header is framed.
#[derive(Clone, Copy, Debug, PartialEq, Eq, Structural)]
pub enum BoundAddress {
    /// Exactly this many bytes.
    Fixed(usize),
    /// One length byte, then that many bytes.
    Prefixed,
}

/// The method negotiation request: version 5, one method, "no authentication".
pub open spec fn greeting() -> Seq<u8> {
    seq![SOCKS_VERSION, 1, 0x00]
}

/// The verdict on the server's method choice.
pub open spec fn method_verdict(version: u8, method: Socks5Method) -> Result<(), Socks5Error> {
    if version != SOCKS_VERSION {
        Err(Socks5Error::UnsupportedVersion(version))
    } else {
        match method {
            Socks5Method::NoAuthRequired => Ok(()),
            Socks5Method::NoAcceptable => Err(Socks5Error::NoAcceptableMethods),
            _ => Err(Socks5Error::UnsupportedMethod(method)),
        }
    }
}

/// The verdict on a four-byte reply header `[VER, REP, RSV, ATYP]`, checked in that order.
pub open spec fn header_verdict(h: Seq<u8>) -> Result<BoundAddress, Socks5Error> {
    if h[0] != SOCKS_VERSION {
        Err(Socks5Error::UnsupportedVersion(h[0]))
    } else if reply_of_byte(h[1]) != Socks5Reply::Succeeded {
        Err(Socks5Error::ReplyError(reply_of_byte(h[1])))
    } else if h[2] != RESERVED {
        Err(Socks5Error::InvalidReserved(h[2]))
    } else if h[3] == ATYP_IPV4 {
        Ok(BoundAddress::Fixed(4))
    } else if h[3] == ATYP_IPV6 {
        Ok(BoundAddress::Fixed(16))
    } else if h[3] == ATYP_DOMAIN {
        Ok(BoundAddress::Prefixed)
    } else {
        Err(Socks5Error::InvalidAddressType(h[3]))
    }
}

/// Builds the method negotiation request.
pub fn method_request() -> (r: Vec<u8>)
    ensures
        r@ == greeting(),
{
    let r = vec![SOCKS_VERSION, 1, Socks5Method::NoAuthRequired.to_byte()];
    assert(r@ =~= greeting());
    r
}

/// Splits the two-byte method response into the server's version and chosen method.
pub fn parse_method_response(response: &[u8]) -> (r: (u8, Socks5Method))
    requires
        response@.len() == 2,
    ensures
        r.0 == response@[0],
        r.1 == method_of_byte(response@[1]),
{
    (response[0], Socks5Method::from_byte(response[1]))
}

/// Decides whether the handshake may go on after the server chose `method`.
pub fn check_method(version: u8, method: Socks5Method) -> (r: Result<(), Socks5Error>)
    ensures
        r == method_verdict(version, method),
{
    if version != SOCKS_VERSION {
        return Err(Socks5Error::UnsupportedVersion(version));
    }
    match method {
        Socks5Method::NoAuthRequired => Ok(()),
        Socks5Method::NoAcceptable => Err(Socks5Error::NoAcceptableMethods),
        _ => Err(Socks5Error::UnsupportedMethod(method)),
    }
}

/// Validates a reply header and tells how the bound address after it is framed.
pub fn check_reply_header(header: &[u8]) -> (r: Result<BoundAddress, Socks5Error>)
    requires
        header@.len() == 4,
    ensures
        r == header_verdict(header@),
{
    if header[0] != SOCKS_VERSION {
        return Err(Socks5Error::UnsupportedVersion(header[0]));
    }
    let reply = Socks5Reply::from_byte(header[1]);
    if reply != Socks5Reply::Succeeded {
        return Err(Socks5Error::ReplyError(reply));
    }
    if header[2] != RESERVED {
        return Err(Socks5Error::InvalidReserved(header[2]));
    }
    let atyp = header[3];
    if atyp == ATYP_IPV4 {
        Ok(BoundAddress::Fixed(4))
    } else if atyp == ATYP_IPV6 {
        Ok(BoundAddress::Fixed(16))
    } else if atyp == ATYP_DOMAIN {
        Ok(BoundAddress::Prefixed)
    } else {
        Err(Socks5Error::InvalidAddressType(atyp))
    }
}

/// Where a handshake stands.
#[derive(Clone, Copy, Debug, PartialEq, Eq, Structural)]
pub enum Phase {
    /// The channel to the proxy is open; nothing has been sent.
    Connecting,
    /// The greeting is sent; the method response is awaited.
    NegotiatingMethod,
    /// The CONNECT request is sent; the reply header is awaited.
    ReadingReplyHeader,
    /// The length byte of a bound domain name is awaited.
    ReadingAddressLength,
    /// The bound address is awaited.
    ReadingBoundAddress,
    /// The bound port is awaited.
    ReadingBoundPort,
    /// The tunnel is ready.
    Established,
    /// The attempt failed; the channel must be dropped.
    Failed,
}

/// What the caller must do next.
#[derive(Clone, Debug, PartialEq, Eq)]
pub enum Action {
    /// Write all of `send` (possibly nothing), then read exactly `receive` bytes
    /// and hand them to the next call of `advance`.
    Exchange { send: Vec<u8>, receive: usize },
    /// The tunnel is established; the channel is ready for use.
    Established,
    /// The attempt failed with this error.
    Failed(Socks5Error),
}

/// One handshake attempt over one channel.
#[derive(Clone, Debug)]
pub struct Handshake {
    /// Where the attempt stands.
    pub phase: Phase,
    /// How many bytes the next call of `advance` takes.
    pub pending: usize,
    /// Where the tunnel should lead.
    pub target: Destination,
}

impl Handshake {
    /// The number of bytes a phase awaits is fixed, but for the bound address.
    pub open spec fn wf(self) -> bool {
        match self.phase {
            Phase::Connecting => self.pending == 0,
            Phase::NegotiatingMethod => self.pending == 2,
            Phase::ReadingReplyHeader => self.pending == 4,
            Phase::ReadingAddressLength => self.pending == 1,
            Phase::ReadingBoundAddress => self.pending <= 255,
            Phase::ReadingBoundPort => self.pending == 2,
            Phase::Established => self.pending == 0,
            Phase::Failed => self.pending == 0,
        }
    }

    /// Whether the attempt has ended, in success or failure.
    pub open spec fn is_finished(self) -> bool {
        self.phase == Phase::Established || self.phase == Phase::Failed
    }

    /// `post` and `act` are the state and action that follow `pre` on `input`.
    pub open spec fn steps_to(pre: Handshake, input: Seq<u8>, post: Handshake, act: Action) -> bool {
        let receives = |n: nat, phase: Phase|
            act matches Action::Exchange { send, receive } && send@.len() == 0 && receive == n
                && post.phase == phase && post.pending == n;
        let fails = |e: Socks5Error|
            act == Action::Failed(e) && post.phase == Phase::Failed && post.pending == 0;
        &&& post.target == pre.target
        &&& match pre.phase {
            Phase::Connecting => act matches Action::Exchange { send, receive } && send@
                == greeting() && receive == 2 && post.phase == Phase::NegotiatingMethod
                && post.pending == 2,
            Phase::NegotiatingMethod => match method_verdict(input[0], method_of_byte(input[1])) {
                Err(e) => fails(e),
                Ok(_) => match connect_request(pre.target) {
                    Err(e) => fails(e),
                    Ok(request) => act matches Action::Exchange { send, receive } && send@
                        == request && receive == 4 && post.phase == Phase::ReadingReplyHeader
                        && post.pending == 4,
                },
            },
            Phase::ReadingReplyHeader => match header_verdict(input) {
                Err(e) => fails(e),
                Ok(BoundAddress::Fixed(n)) => receives(n as nat, Phase::ReadingBoundAddress),
                Ok(BoundAddress::Prefixed) => receives(1, Phase::ReadingAddressLength),
            },
            Phase::ReadingAddressLength => receives(input[0] as nat, Phase::ReadingBoundAddress),
            Phase::ReadingBoundAddress => receives(2, Phase::ReadingBoundPort),
            Phase::ReadingBoundPort => act == Action::Established && post.phase
                == Phase::Established && post.pending == 0,
            _ => false,
        }
    }

    /// Starts an attempt towards `target` on a freshly opened channel.
    pub fn new(target: Destination) -> (h: Handshake)
        ensures
            h.phase == Phase::Connecting,
            h.pending == 0,
            h.target == target,
            h.wf(),
    {
        Handshake { phase: Phase::Connecting, pending: 0, target }
    }

    /// Consumes the bytes received for the previous action and decides the next one.
    pub fn advance(&mut self, received: &[u8]) -> (act: Action)
        requires
            old(self).wf(),
            !old(self).is_finished(),
            received@.len() == old(self).pending,
        ensures
            final(self).wf(),
            Self::steps_to(*old(self), received@, *final(self), act),
    {
        match self.phase {
            Phase::Connecting => {
                self.phase = Phase::NegotiatingMethod;
                self.pending = 2;
                Action::Exchange { send: method_request(), receive: 2 }
            },
            Phase::NegotiatingMethod => {
                let (version, method) = parse_method_response(received);
                if let Err(e) = check_method(version, method) {
                    return self.fail(e);
                }
                match encode_request(&self.target) {
                    Err(e) => self.fail(e),
                    Ok(request) => {
                        self.phase = Phase::ReadingReplyHeader;
                        self.pending = 4;
                        Action::Exchange { send: request, receive: 4 }
                    },
                }
            },
            Phase::ReadingReplyHeader => match check_reply_header(received) {
                Err(e) => self.fail(e),
                Ok(BoundAddress::Fixed(n)) => self.receive(n, Phase::ReadingBoundAddress),
                Ok(BoundAddress::Prefixed) => self.receive(1, Phase::ReadingAddressLength),
            },
            Phase::ReadingAddressLength => self.receive(
                received[0] as usize,
                Phase::ReadingBoundAddress,
            ),
            Phase::ReadingBoundAddress => self.receive(2, Phase::ReadingBoundPort),
            Phase::ReadingBoundPort => {
                self.phase = Phase::Established;
                self.pending = 0;
                Action::Established
            },
            Phase::Established | Phase::Failed => {
                proof {
                    assert(false);
                }
                Action::Established
            },
        }
    }

    /// Ends the attempt with `e`.
    fn fail(&mut self, e: Socks5Error) -> (act: Action)
        ensures
            final(self).target == old(self).target,
            final(self).phase == Phase::Failed,
            final(self).pending == 0,
            act == Action::Failed(e),
    {
        self.phase = Phase::Failed;
        self.pending = 0;
        Action::Failed(e)
    }

    /// Moves to `phase`, which awaits `n` bytes and sends nothing.
    fn receive(&mut self, n: usize, phase: Phase) -> (act: Action)
        ensures
            final(self).target == old(self).target,
            final(self).phase == phase,
            final(self).pending == n,
            act matches Action::Exchange { send, receive } && send@.len() == 0 && receive == n,
    {
        self.phase = phase;
        self.pending = n;
        Action::Exchange { send: Vec::new(), receive: n }
    }
}

} // verus!
