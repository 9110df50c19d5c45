//! The UDP tunnel channel: the negotiated endpoint and token, the handshake
//! that confirms them, the retry policy, and the routing of datagrams.
//!
//! The channel decides; its caller owns the sockets and the clock. Each
//! operation takes what was observed (the time, a received datagram and its
//! sender) and returns what to transmit and where.
use vstd::prelude::*;

use crate::udp_proto::{parse_tail, tail_bytes, tail_len, UdpFlow, V4_LEN};

verus! {

/// Milliseconds without a confirmation after which the token is sent again.
pub const RESEND_INTERVAL_MS: u64 = 10_000;

/// Milliseconds after an unconfirmed token send before it is retried.
pub const AUTH_RETRY_MS: u64 = 5_000;

/// A socket address: an IPv4 or IPv6 address (as its number) and a port, and
/// for IPv6 the flow information and scope id.
#[allow(inconsistent_fields)]
#[derive(PartialEq, Eq, Structural, Clone, Copy, Debug)]
pub enum SocketAddress {
    V4 { ip: u32, port: u16 },
    V6 { ip: u128, port: u16, flowinfo: u32, scope_id: u32 },
}

/// Why a channel operation did not go through.
#[derive(PartialEq, Eq, Structural, Clone, Copy, Debug)]
pub enum TunnelError {
    /// No channel details are installed yet.
    NotConnected,
    /// The tunnel endpoint is IPv6 and no IPv6 socket is bound.
    Unsupported,
    /// The datagram came from elsewhere than the tunnel endpoint, or its tail
    /// names no flow.
    InvalidData,
    /// The datagram is too short to carry a flow tail.
    WriteZero,
}

/// What a datagram received from the tunnel endpoint turned out to be.
#[derive(PartialEq, Eq, Structural, Clone, Copy, Debug)]
pub enum UdpTunnelRx {
    /// A client's packet: its first `bytes` bytes are payload, followed by the
    /// tail of `flow`.
    ReceivedPacket { bytes: usize, flow: UdpFlow },
    /// The relay echoed the token: the channel is live.
    ConfirmedConnection,
}

/// The channel negotiated with the relay: where to send, and the token that
/// authorises it.
#[derive(Clone, Debug)]
pub struct ChannelDetails {
    pub tunnel_addr: SocketAddress,
    pub token: Vec<u8>,
}

/// Mathematical model of [`ChannelDetails`].
pub struct ChannelDetailsView {
    pub tunnel_addr: SocketAddress,
    pub token: Seq<u8>,
}

impl View for ChannelDetails {
    type V = ChannelDetailsView;

    open spec fn view(&self) -> ChannelDetailsView {
        ChannelDetailsView { tunnel_addr: self.tunnel_addr, token: self.token@ }
    }
}

impl PartialEq for ChannelDetails {
    fn eq(&self, other: &ChannelDetails) -> (r: bool)
        ensures
            r == (self@ == other@),
    {
        self.tunnel_addr == other.tunnel_addr && bytes_eq(self.token.as_slice(), other.token.as_slice())
    }
}

impl vstd::std_specs::cmp::PartialEqSpecImpl for ChannelDetails {
    open spec fn obeys_eq_spec() -> bool {
        true
    }

    open spec fn eq_spec(&self, other: &ChannelDetails) -> bool {
        self@ == other@
    }
}

/// A datagram to transmit: destination and contents.
#[derive(Clone, Debug)]
pub struct Datagram {
    pub to: SocketAddress,
    pub bytes: Vec<u8>,
}

impl View for Datagram {
    type V = (SocketAddress, Seq<u8>);

    open spec fn view(&self) -> (SocketAddress, Seq<u8>) {
        (self.to, self.bytes@)
    }
}

/// Mathematical model of the channel state.
pub struct TunnelView {
    /// The installed channel details, if any.
    pub details: Option<ChannelDetailsView>,
    /// When the relay last echoed the token (milliseconds).
    pub last_confirm: u64,
    /// When the token was last transmitted (milliseconds).
    pub last_send: u64,
    /// Whether an IPv6 socket is bound beside the IPv4 one.
    pub ipv6_bound: bool,
}

/// The state of the UDP tunnel channel.
pub struct UdpTunnel {
    details: Option<ChannelDetails>,
    last_confirm: u64,
    last_send: u64,
    ipv6_bound: bool,
}

impl View for UdpTunnel {
    type V = TunnelView;

    closed spec fn view(&self) -> TunnelView {
        TunnelView {
            details: match self.details {
                Some(d) => Some(d@),
                None => None,
            },
            last_confirm: self.last_confirm,
            last_send: self.last_send,
            ipv6_bound: self.ipv6_bound,
        }
    }
}

/// The later of two timestamps.
pub open spec fn later(a: u64, b: u64) -> u64 {
    if b > a {
        b
    } else {
        a
    }
}

/// More than the resend interval has passed since the last confirmation.
pub open spec fn resend_due(last_confirm: u64, now: u64) -> bool {
    now - last_confirm > RESEND_INTERVAL_MS
}

/// The last token send is unconfirmed (no confirmation came after it) and
/// more than the retry delay has passed since it.
pub open spec fn auth_due(last_send: u64, last_confirm: u64, now: u64) -> bool {
    last_send >= last_confirm && now - last_send > AUTH_RETRY_MS
}

/// The address to use for `addr`, given whether an IPv6 socket is bound.
pub open spec fn route(ipv6_bound: bool, addr: SocketAddress) -> Result<SocketAddress, TunnelError> {
    match addr {
        SocketAddress::V6 { .. } => if ipv6_bound {
            Ok(addr)
        } else {
            Err(TunnelError::Unsupported)
        },
        SocketAddress::V4 { .. } => Ok(addr),
    }
}

/// The tunnel endpoint that traffic goes to and comes from, if it can be reached.
pub open spec fn active_route(v: TunnelView) -> Result<SocketAddress, TunnelError> {
    match v.details {
        None => Err(TunnelError::NotConnected),
        Some(d) => route(v.ipv6_bound, d.tunnel_addr),
    }
}

/// The transmission of the token of `d`.
pub open spec fn token_send(ipv6_bound: bool, d: ChannelDetailsView) -> Result<
    (SocketAddress, Seq<u8>),
    TunnelError,
> {
    match route(ipv6_bound, d.tunnel_addr) {
        Ok(a) => Ok((a, d.token)),
        Err(e) => Err(e),
    }
}

/// The model of what an operation hands back for transmission.
pub open spec fn outgoing(r: Result<Option<Datagram>, TunnelError>) -> Result<
    Option<(SocketAddress, Seq<u8>)>,
    TunnelError,
> {
    match r {
        Ok(Some(g)) => Ok(Some(g@)),
        Ok(None) => Ok(None),
        Err(e) => Err(e),
    }
}

/// A token transmission as an optional outgoing datagram.
pub open spec fn some_send(r: Result<(SocketAddress, Seq<u8>), TunnelError>) -> Result<
    Option<(SocketAddress, Seq<u8>)>,
    TunnelError,
> {
    match r {
        Ok(g) => Ok(Some(g)),
        Err(e) => Err(e),
    }
}

/// Installing `d`: nothing happens if the same details are installed already;
/// otherwise they replace what was there and the token is transmitted.
pub open spec fn set_outcome(v: TunnelView, d: ChannelDetailsView) -> (
    TunnelView,
    Result<Option<(SocketAddress, Seq<u8>)>, TunnelError>,
) {
    if v.details == Some(d) {
        (v, Ok(None))
    } else {
        (TunnelView { details: Some(d), ..v }, some_send(token_send(v.ipv6_bound, d)))
    }
}

/// Retransmitting the installed token, if there is one.
pub open spec fn resend_outcome(v: TunnelView) -> Result<
    Option<(SocketAddress, Seq<u8>)>,
    TunnelError,
> {
    match v.details {
        None => Ok(None),
        Some(d) => some_send(token_send(v.ipv6_bound, d)),
    }
}

/// Classifying the datagram `data` received from `remote` at time `now`:
/// the new state and the result.
pub open spec fn receive_outcome(v: TunnelView, data: Seq<u8>, remote: SocketAddress, now: u64) -> (
    TunnelView,
    Result<UdpTunnelRx, TunnelError>,
) {
    match v.details {
        None => (v, Err(TunnelError::NotConnected)),
        Some(d) => match route(v.ipv6_bound, d.tunnel_addr) {
            Err(e) => (v, Err(e)),
            Ok(_) => if remote != d.tunnel_addr {
                (v, Err(TunnelError::InvalidData))
            } else if data == d.token {
                (
                    TunnelView { last_confirm: later(v.last_confirm, now), ..v },
                    Ok(UdpTunnelRx::ConfirmedConnection),
                )
            } else if data.len() < V4_LEN {
                (v, Err(TunnelError::WriteZero))
            } else {
                match parse_tail(data) {
                    None => (v, Err(TunnelError::InvalidData)),
                    Some(f) => (
                        v,
                        Ok(
                            UdpTunnelRx::ReceivedPacket {
                                bytes: (data.len() - tail_len(f)) as usize,
                                flow: f,
                            },
                        ),
                    ),
                }
            },
        },
    }
}

/// An echo of exactly the installed token, from the tunnel endpoint, confirms
/// the channel and moves the confirmation time up to `now`; a datagram that
/// differs from the token in any way is never taken as a confirmation.
pub proof fn lemma_token_confirms(v: TunnelView, data: Seq<u8>, now: u64)
    requires
        v.details is Some,
        active_route(v) is Ok,
    ensures
        ({
            let d = v.details->Some_0;
            let (w, r) = receive_outcome(v, data, d.tunnel_addr, now);
            &&& (r == Ok::<UdpTunnelRx, TunnelError>(UdpTunnelRx::ConfirmedConnection)) <==> (data
                == d.token)
            &&& data == d.token ==> w.last_confirm == later(v.last_confirm, now)
        }),
{
}

/// A datagram from any address but the tunnel endpoint is rejected as
/// invalid and leaves the state, its timestamps included, as it was.
pub proof fn lemma_spoofed_sender_rejected(
    v: TunnelView,
    data: Seq<u8>,
    remote: SocketAddress,
    now: u64,
)
    requires
        v.details is Some,
        active_route(v) is Ok,
        remote != v.details->Some_0.tunnel_addr,
    ensures
        receive_outcome(v, data, remote, now) == (v, Err::<UdpTunnelRx, TunnelError>(
            TunnelError::InvalidData,
        )),
{
}

/// Installing details equal to those installed transmits nothing and changes
/// nothing; so of two installs of equal details only the first sends the token.
pub proof fn lemma_same_details_sent_once(v: TunnelView, d: ChannelDetailsView, e: ChannelDetailsView)
    requires
        e == d,
    ensures
        set_outcome(v, d).0.details == Some(d),
        set_outcome(set_outcome(v, d).0, e) == (set_outcome(v, d).0, Ok::<
            Option<(SocketAddress, Seq<u8>)>,
            TunnelError,
        >(None)),
        forall|w: TunnelView| #[trigger]
            w.details == Some(d) ==> set_outcome(w, e) == (w, Ok::<
                Option<(SocketAddress, Seq<u8>)>,
                TunnelError,
            >(None)),
{
}

/// Eleven seconds after the last confirmation a resend is due; nine seconds
/// after it, not yet.
pub proof fn lemma_resend_timing(last_confirm: u64, now: u64)
    ensures
        now == last_confirm + 11_000 ==> resend_due(last_confirm, now),
        now == last_confirm + 9_000 ==> !resend_due(last_confirm, now),
{
}

/// Six seconds after a token send that no confirmation followed, a retry is
/// due; once a confirmation came after the send, none is, however long ago
/// the send was.
pub proof fn lemma_auth_timing(last_send: u64, last_confirm: u64, now: u64)
    ensures
        now == last_send + 6_000 && last_confirm < last_send ==> auth_due(
            last_send,
            last_confirm,
            now,
        ),
        last_confirm > last_send ==> !auth_due(last_send, last_confirm, now),
{
}

/// A datagram from the tunnel endpoint that is not the token and is shorter
/// than the shortest flow tail is refused as too short.
pub proof fn lemma_undersized_datagram(v: TunnelView, data: Seq<u8>, now: u64)
    requires
        v.details is Some,
        active_route(v) is Ok,
        data != v.details->Some_0.token,
        data.len() < V4_LEN,
    ensures
        receive_outcome(v, data, v.details->Some_0.tunnel_addr, now) == (v, Err::<
            UdpTunnelRx,
            TunnelError,
        >(TunnelError::WriteZero)),
{
}


/// Whether `a` and `b` hold the same bytes.
pub fn bytes_eq(a: &[u8], b: &[u8]) -> (r: bool)
    ensures
        r == (a@ == b@),
{
    if a.len() != b.len() {
        return false;
    }
    let mut i: usize = 0;
    while i < a.len()
        invariant
            a@.len() == b@.len(),
            0 <= i <= a@.len(),
            forall|j: int| 0 <= j < i ==> a@[j] == b@[j],
        decreases a@.len() - i,
    {
        if a[i] != b[i] {
            return false;
        }
        i = i + 1;
    }
    assert(a@ =~= b@);
    true
}

/// A fresh copy of `a`.
fn copy_bytes(a: &[u8]) -> (r: Vec<u8>)
    ensures
        r@ == a@,
{
    let mut r: Vec<u8> = Vec::new();
    let mut i: usize = 0;
    while i < a.len()
        invariant
            0 <= i <= a@.len(),
            r@ == a@.subrange(0, i as int),
        decreases a@.len() - i,
    {
        r.push(a[i]);
        i = i + 1;
        assert(r@ =~= a@.subrange(0, i as int));
    }
    assert(a@.subrange(0, a@.len() as int) =~= a@);
    r
}

impl UdpTunnel {
    /// A channel with no details installed, that has never sent nor been
    /// confirmed; `ipv6_bound` tells whether an IPv6 socket was bound.
    pub fn new(ipv6_bound: bool) -> (r: UdpTunnel)
        ensures
            r@ == (TunnelView { details: None, last_confirm: 0, last_send: 0, ipv6_bound }),
    {
        UdpTunnel { details: None, last_confirm: 0, last_send: 0, ipv6_bound }
    }

    /// Whether channel details are installed.
    pub fn is_setup(&self) -> (r: bool)
        ensures
            r == self@.details.is_some(),
    {
        self.details.is_some()
    }

    /// Whether an IPv6 socket is bound.
    pub fn ipv6_bound(&self) -> (r: bool)
        ensures
            r == self@.ipv6_bound,
    {
        self.ipv6_bound
    }

    /// When the relay last echoed the token.
    pub fn last_confirm(&self) -> (r: u64)
        ensures
            r == self@.last_confirm,
    {
        self.last_confirm
    }

    /// When the token was last transmitted.
    pub fn last_send(&self) -> (r: u64)
        ensures
            r == self@.last_send,
    {
        self.last_send
    }

    /// Whether the token should be sent again at time `now` because no
    /// confirmation came for too long.
    pub fn requires_resend(&self, now: u64) -> (r: bool)
        ensures
            r == resend_due(self@.last_confirm, now),
    {
        now > self.last_confirm && now - self.last_confirm > RESEND_INTERVAL_MS
    }

    /// Whether the last token send is unconfirmed and old enough at time `now`
    /// to be retried.
    pub fn requires_auth(&self, now: u64) -> (r: bool)
        ensures
            r == auth_due(self@.last_send, self@.last_confirm, now),
    {
        if self.last_send < self.last_confirm {
            return false;
        }
        now > self.last_send && now - self.last_send > AUTH_RETRY_MS
    }

    /// The address to use for `addr`: an IPv6 one needs the IPv6 socket.
    fn route_to(&self, addr: SocketAddress) -> (r: Result<SocketAddress, TunnelError>)
        ensures
            r == route(self@.ipv6_bound, addr),
    {
        match addr {
            SocketAddress::V6 { .. } => if self.ipv6_bound {
                Ok(addr)
            } else {
                Err(TunnelError::Unsupported)
            },
            SocketAddress::V4 { .. } => Ok(addr),
        }
    }

    /// The datagram that carries the token of `details` to its endpoint.
    fn send_token(&self, details: &ChannelDetails) -> (r: Result<Datagram, TunnelError>)
        ensures
            match r {
                Ok(g) => token_send(self@.ipv6_bound, details@) == Ok::<
                    (SocketAddress, Seq<u8>),
                    TunnelError,
                >(g@),
                Err(e) => token_send(self@.ipv6_bound, details@) == Err::<
                    (SocketAddress, Seq<u8>),
                    TunnelError,
                >(e),
            },
    {
        match self.route_to(details.tunnel_addr) {
            Ok(to) => Ok(Datagram { to, bytes: copy_bytes(details.token.as_slice()) }),
            Err(e) => Err(e),
        }
    }

    /// Installs `details` and hands back the token datagram to transmit; does
    /// nothing if equal details are installed already. The caller records a
    /// successful transmission with `record_token_sent`.
    pub fn set_udp_tunnel(&mut self, details: ChannelDetails) -> (r: Result<
        Option<Datagram>,
        TunnelError,
    >)
        ensures
            (final(self)@, outgoing(r)) == set_outcome(old(self)@, details@),
    {
        if let Some(current) = &self.details {
            if details.eq(current) {
                return Ok(None);
            }
        }
        let sent = self.send_token(&details);
        self.details = Some(details);
        match sent {
            Ok(g) => Ok(Some(g)),
            Err(e) => Err(e),
        }
    }

    /// The datagram that retransmits the installed token, or `None` if no
    /// details are installed.
    pub fn resend_token(&self) -> (r: Result<Option<Datagram>, TunnelError>)
        ensures
            outgoing(r) == resend_outcome(self@),
    {
        match &self.details {
            None => Ok(None),
            Some(d) => match self.send_token(d) {
                Ok(g) => Ok(Some(g)),
                Err(e) => Err(e),
            },
        }
    }

    /// Records that the token was transmitted at time `now`.
    pub fn record_token_sent(&mut self, now: u64)
        ensures
            final(self)@ == (TunnelView { last_send: later(old(self)@.last_send, now), ..old(self)@ }),
    {
        if now > self.last_send {
            self.last_send = now;
        }
    }

    /// The tunnel endpoint, which all traffic goes to and must come from.
    pub fn get_sock(&self) -> (r: Result<SocketAddress, TunnelError>)
        ensures
            r == active_route(self@),
    {
        match &self.details {
            None => Err(TunnelError::NotConnected),
            Some(d) => self.route_to(d.tunnel_addr),
        }
    }

    /// Appends the tail of `flow` to the payload in `data` and gives the
    /// address to send the result to.
    pub fn send(&self, data: &mut Vec<u8>, flow: UdpFlow) -> (r: Result<SocketAddress, TunnelError>)
        ensures
            final(data)@ == old(data)@ + tail_bytes(flow),
            r == active_route(self@),
    {
        flow.write_to(data);
        self.get_sock()
    }

    /// Classifies the datagram `data` that arrived from `remote` at time
    /// `now`. Only the tunnel endpoint is listened to; an echo of the token
    /// confirms the channel; anything else must end in a flow tail.
    pub fn receive_from(&mut self, data: &[u8], remote: SocketAddress, now: u64) -> (r: Result<
        UdpTunnelRx,
        TunnelError,
    >)
        ensures
            (final(self)@, r) == receive_outcome(old(self)@, data@, remote, now),
    {
        let tunnel_addr = match self.get_sock() {
            Ok(a) => a,
            Err(e) => return Err(e),
        };
        let is_token = match &self.details {
            Some(d) => bytes_eq(data, d.token.as_slice()),
            None => false,
        };
        if remote != tunnel_addr {
            return Err(TunnelError::InvalidData);
        }
        if is_token {
            if now > self.last_confirm {
                self.last_confirm = now;
            }
            return Ok(UdpTunnelRx::ConfirmedConnection);
        }
        if data.len() < V4_LEN {
            return Err(TunnelError::WriteZero);
        }
        match UdpFlow::from_tail(data) {
            None => Err(TunnelError::InvalidData),
            Some(flow) => Ok(UdpTunnelRx::ReceivedPacket { bytes: data.len() - flow.len(), flow }),
        }
    }
}

} // verus!
