use vstd::prelude::*;
use vstd::utf8::encode_utf8;

use crate::alpn::alpn_protocol_ids;
use crate::error::ErrorCode;
use crate::handshake::{answer_poll, poll_answer, status_after_poll, HandshakeOutcome, HandshakeStatus};

verus! {

/// The life cycle of a TLS server resource.
#[derive(Clone, Copy, Debug, PartialEq, Eq, Structural)]
pub enum ServerState {
    Configuring,
    Complete,
    Closed,
}

/// A TLS server as the host keeps it: the handles of its transport streams,
/// its configuration, and how far its handshake has gone.
pub struct HostServer {
    pub transport_input: u32,
    pub transport_output: u32,
    pub identity: Option<u32>,
    pub alpn_protocols: Vec<Vec<u8>>,
    pub client_auth_required: bool,
    pub state: ServerState,
    pub handshake: HandshakeStatus,
}

/// The mathematical value of a [`HostServer`].
pub struct ServerView {
    pub transport_input: u32,
    pub transport_output: u32,
    pub identity: Option<u32>,
    pub alpn_protocols: Seq<Seq<u8>>,
    pub client_auth_required: bool,
    pub state: ServerState,
    pub handshake: HandshakeStatus,
}

impl View for HostServer {
    type V = ServerView;

    open spec fn view(&self) -> ServerView {
        ServerView {
            transport_input: self.transport_input,
            transport_output: self.transport_output,
            identity: self.identity,
            alpn_protocols: self.alpn_protocols@.map_values(|v: Vec<u8>| v@),
            client_auth_required: self.client_auth_required,
            state: self.state,
            handshake: self.handshake,
        }
    }
}

/// What the host does next when the guest calls `finish` on a server.
#[derive(Clone, Copy, Debug, PartialEq, Eq, Structural)]
pub enum ServerFinish {
    /// Answer the guest with this error; nothing else happens.
    Fail(ErrorCode),
    /// Poll the running handshake and hand its outcome to
    /// [`HostServer::handshake_polled`].
    PollHandshake,
    /// Take the transport streams out of the resource table, start
    /// accepting a TLS connection on them, and answer `WouldBlock`.
    StartHandshake { transport_input: u32, transport_output: u32 },
}

/// A new server: refused with `InternalError` when either transport handle
/// is not a live stream; otherwise configuring, with no identity, no ALPN
/// protocols and no client authentication required.
pub open spec fn server_new(
    transport_input: u32,
    transport_output: u32,
    input_live: bool,
    output_live: bool,
) -> Result<ServerView, ErrorCode> {
    if !input_live || !output_live {
        Err(ErrorCode::InternalError)
    } else {
        Ok(
            ServerView {
                transport_input,
                transport_output,
                identity: None,
                alpn_protocols: Seq::empty(),
                client_auth_required: false,
                state: ServerState::Configuring,
                handshake: HandshakeStatus::NotStarted,
            },
        )
    }
}

/// Setting the identity: refused when the handle is not a live identity or
/// the server is not configuring; otherwise it replaces the previous one.
pub open spec fn server_set_identity(s: ServerView, identity: u32, identity_live: bool) -> (
    ServerView,
    Result<(), ()>,
) {
    if !identity_live || s.state != ServerState::Configuring {
        (s, Err(()))
    } else {
        (ServerView { identity: Some(identity), ..s }, Ok(()))
    }
}

/// Setting the ALPN protocols: refused unless configuring and the list is
/// non-empty; otherwise the list replaces the previous one.
pub open spec fn server_set_alpn(s: ServerView, ids: Seq<Seq<u8>>) -> (ServerView, Result<(), ()>) {
    if s.state != ServerState::Configuring || ids.len() == 0 {
        (s, Err(()))
    } else {
        (ServerView { alpn_protocols: ids, ..s }, Ok(()))
    }
}

/// Requiring client authentication: refused unless configuring.
pub open spec fn server_set_client_auth_required(s: ServerView, required: bool) -> (
    ServerView,
    Result<(), ()>,
) {
    if s.state != ServerState::Configuring {
        (s, Err(()))
    } else {
        (ServerView { client_auth_required: required, ..s }, Ok(()))
    }
}

/// `finish`: refused with `InternalError` unless configuring, and with
/// `CertificateInvalid` while the server has no identity; a started
/// handshake is polled; the first call starts accepting on the transport
/// streams, whose handles the server no longer holds.
pub open spec fn server_finish(s: ServerView) -> (ServerView, ServerFinish) {
    if s.state != ServerState::Configuring {
        (s, ServerFinish::Fail(ErrorCode::InternalError))
    } else if s.identity is None {
        (s, ServerFinish::Fail(ErrorCode::CertificateInvalid))
    } else if s.handshake == HandshakeStatus::InProgress {
        (s, ServerFinish::PollHandshake)
    } else if s.handshake == HandshakeStatus::Concluded {
        (s, ServerFinish::Fail(ErrorCode::InternalError))
    } else {
        (
            ServerView {
                transport_input: 0,
                transport_output: 0,
                handshake: HandshakeStatus::InProgress,
                ..s
            },
            ServerFinish::StartHandshake {
                transport_input: s.transport_input,
                transport_output: s.transport_output,
            },
        )
    }
}

/// A poll of the handshake: only a configuring server with a started
/// handshake takes it; an established handshake completes the server.
pub open spec fn server_handshake_polled(s: ServerView, outcome: HandshakeOutcome) -> (
    ServerView,
    Result<(), ErrorCode>,
) {
    if s.state != ServerState::Configuring || s.handshake != HandshakeStatus::InProgress {
        (s, Err(ErrorCode::InternalError))
    } else if outcome == HandshakeOutcome::Established {
        (ServerView { state: ServerState::Complete, handshake: HandshakeStatus::Concluded, ..s }, Ok(()))
    } else {
        (ServerView { handshake: status_after_poll(outcome), ..s }, poll_answer(outcome))
    }
}

impl HostServer {
    /// Creates a server over the given transport streams. `input_live` and
    /// `output_live` tell whether the handles name live input and output
    /// streams.
    pub fn new(transport_input: u32, transport_output: u32, input_live: bool, output_live: bool) -> (res:
        Result<HostServer, ErrorCode>)
        ensures
            match res {
                Ok(s) => server_new(transport_input, transport_output, input_live, output_live) == Ok::<ServerView, ErrorCode>(s@),
                Err(e) => server_new(transport_input, transport_output, input_live, output_live) == Err::<ServerView, ErrorCode>(e),
            },
    {
        if !input_live || !output_live {
            return Err(ErrorCode::InternalError);
        }
        let s = HostServer {
            transport_input,
            transport_output,
            identity: None,
            alpn_protocols: Vec::new(),
            client_auth_required: false,
            state: ServerState::Configuring,
            handshake: HandshakeStatus::NotStarted,
        };
        assert(s.alpn_protocols@.map_values(|v: Vec<u8>| v@) =~= Seq::<Seq<u8>>::empty());
        Ok(s)
    }

    /// Sets the private identity to present; `identity_live` tells whether
    /// the handle names a live private identity.
    pub fn set_identity(&mut self, identity: u32, identity_live: bool) -> (res: Result<(), ()>)
        ensures
            (final(self)@, res) == server_set_identity(old(self)@, identity, identity_live),
    {
        if !identity_live {
            return Err(());
        }
        if self.state != ServerState::Configuring {
            return Err(());
        }
        self.identity = Some(identity);
        Ok(())
    }

    /// Sets the ALPN protocols to accept, each as its UTF-8 bytes.
    pub fn set_alpn_protocols(&mut self, protocols: Vec<String>) -> (res: Result<(), ()>)
        ensures
            (final(self)@, res) == server_set_alpn(
                old(self)@,
                protocols@.map_values(|p: String| encode_utf8(p@)),
            ),
    {
        if self.state != ServerState::Configuring {
            return Err(());
        }
        if protocols.len() == 0 {
            return Err(());
        }
        let ids = alpn_protocol_ids(&protocols);
        self.alpn_protocols = ids;
        Ok(())
    }

    /// Sets whether clients must authenticate.
    pub fn set_client_auth_required(&mut self, required: bool) -> (res: Result<(), ()>)
        ensures
            (final(self)@, res) == server_set_client_auth_required(old(self)@, required),
    {
        if self.state != ServerState::Configuring {
            return Err(());
        }
        self.client_auth_required = required;
        Ok(())
    }

    /// Decides what the host does when the guest calls `finish`.
    pub fn finish(&mut self) -> (res: ServerFinish)
        ensures
            (final(self)@, res) == server_finish(old(self)@),
    {
        if self.state != ServerState::Configuring {
            return ServerFinish::Fail(ErrorCode::InternalError);
        }
        if self.identity.is_none() {
            return ServerFinish::Fail(ErrorCode::CertificateInvalid);
        }
        if self.handshake == HandshakeStatus::InProgress {
            return ServerFinish::PollHandshake;
        }
        if self.handshake == HandshakeStatus::Concluded {
            return ServerFinish::Fail(ErrorCode::InternalError);
        }
        let transport_input = self.transport_input;
        let transport_output = self.transport_output;
        self.transport_input = 0;
        self.transport_output = 0;
        self.handshake = HandshakeStatus::InProgress;
        ServerFinish::StartHandshake { transport_input, transport_output }
    }

    /// Takes the outcome of polling the handshake and answers the guest.
    pub fn handshake_polled(&mut self, outcome: HandshakeOutcome) -> (res: Result<(), ErrorCode>)
        ensures
            (final(self)@, res) == server_handshake_polled(old(self)@, outcome),
    {
        if self.state != ServerState::Configuring || self.handshake != HandshakeStatus::InProgress {
            return Err(ErrorCode::InternalError);
        }
        if outcome == HandshakeOutcome::Established {
            self.state = ServerState::Complete;
            self.handshake = HandshakeStatus::Concluded;
            return Ok(());
        }
        if outcome != HandshakeOutcome::Pending {
            self.handshake = HandshakeStatus::Concluded;
        }
        answer_poll(outcome)
    }
}

/// One guest call on a server, with what the host learned for it.
pub enum ServerCall {
    SetIdentity(u32, bool),
    SetAlpn(Seq<Seq<u8>>),
    SetClientAuthRequired(bool),
    Finish,
    HandshakePolled(HandshakeOutcome),
}

/// The server after one call.
pub open spec fn server_step(s: ServerView, call: ServerCall) -> ServerView {
    match call {
        ServerCall::SetIdentity(identity, live) => server_set_identity(s, identity, live).0,
        ServerCall::SetAlpn(ids) => server_set_alpn(s, ids).0,
        ServerCall::SetClientAuthRequired(required) => server_set_client_auth_required(s, required).0,
        ServerCall::Finish => server_finish(s).0,
        ServerCall::HandshakePolled(outcome) => server_handshake_polled(s, outcome).0,
    }
}

/// Whether the guest's call is refused.
pub open spec fn server_call_refused(s: ServerView, call: ServerCall) -> bool {
    match call {
        ServerCall::SetIdentity(identity, live) => server_set_identity(s, identity, live).1 is Err,
        ServerCall::SetAlpn(ids) => server_set_alpn(s, ids).1 is Err,
        ServerCall::SetClientAuthRequired(required) => server_set_client_auth_required(s, required).1 is Err,
        ServerCall::Finish => server_finish(s).1 is Fail,
        ServerCall::HandshakePolled(outcome) => server_handshake_polled(s, outcome).1 is Err,
    }
}

/// The server after a sequence of calls.
pub open spec fn server_run(s: ServerView, calls: Seq<ServerCall>) -> ServerView
    decreases calls.len(),
{
    if calls.len() == 0 {
        s
    } else {
        server_run(server_step(s, calls[0]), calls.drop_first())
    }
}

/// How many of the calls start a handshake.
pub open spec fn server_handshake_starts(s: ServerView, calls: Seq<ServerCall>) -> nat
    decreases calls.len(),
{
    if calls.len() == 0 {
        0
    } else {
        (if calls[0] is Finish && server_finish(s).1 is StartHandshake {
            1nat
        } else {
            0nat
        }) + server_handshake_starts(server_step(s, calls[0]), calls.drop_first())
    }
}

/// What holds of every server that `new` made, whatever calls followed: a
/// server only starts its handshake, and so only completes, with an
/// identity, and a server whose handshake started holds no transport
/// handle any more.
pub open spec fn server_invariant(s: ServerView) -> bool {
    &&& s.state == ServerState::Complete ==> s.handshake == HandshakeStatus::Concluded
    &&& s.handshake != HandshakeStatus::NotStarted ==> s.identity is Some
    &&& s.handshake != HandshakeStatus::NotStarted ==> s.transport_input == 0 && s.transport_output == 0
    &&& s.state != ServerState::Closed
}

/// A server that `new` accepted meets the invariant.
pub proof fn lemma_server_new_invariant(
    transport_input: u32,
    transport_output: u32,
    input_live: bool,
    output_live: bool,
)
    ensures
        server_new(transport_input, transport_output, input_live, output_live) matches Ok(s) ==> server_invariant(s),
{
}

/// Every call keeps the server invariant: in particular a server never
/// completes without an identity.
pub proof fn lemma_server_run_keeps_invariant(s: ServerView, calls: Seq<ServerCall>)
    requires
        server_invariant(s),
    ensures
        server_invariant(server_run(s, calls)),
        server_run(s, calls).state == ServerState::Complete ==> server_run(s, calls).identity is Some,
    decreases calls.len(),
{
    if calls.len() > 0 {
        lemma_server_run_keeps_invariant(server_step(s, calls[0]), calls.drop_first());
    }
}

/// A server starts its handshake at most once, and never again once it
/// has started.
pub proof fn lemma_server_handshake_starts_at_most_once(s: ServerView, calls: Seq<ServerCall>)
    ensures
        server_handshake_starts(s, calls) <= 1,
        s.handshake != HandshakeStatus::NotStarted ==> server_handshake_starts(s, calls) == 0,
    decreases calls.len(),
{
    if calls.len() > 0 {
        let next = server_step(s, calls[0]);
        assert(s.handshake != HandshakeStatus::NotStarted ==> next.handshake != HandshakeStatus::NotStarted);
        assert(!(calls[0] is Finish && server_finish(s).1 is StartHandshake) ==> (next.handshake == HandshakeStatus::NotStarted
            <==> s.handshake == HandshakeStatus::NotStarted));
        assert(calls[0] is Finish && server_finish(s).1 is StartHandshake ==> next.handshake == HandshakeStatus::InProgress);
        lemma_server_handshake_starts_at_most_once(next, calls.drop_first());
    }
}

/// A complete server is final: every later call is refused and changes
/// nothing.
pub proof fn lemma_server_complete_is_final(s: ServerView, calls: Seq<ServerCall>)
    requires
        s.state == ServerState::Complete,
    ensures
        server_run(s, calls) == s,
        forall|i: int| 0 <= i < calls.len() ==> server_call_refused(s, #[trigger] calls[i]),
    decreases calls.len(),
{
    if calls.len() > 0 {
        assert(server_step(s, calls[0]) == s);
        lemma_server_complete_is_final(s, calls.drop_first());
        assert forall|i: int| 0 <= i < calls.len() implies server_call_refused(s, #[trigger] calls[i]) by {
            if i > 0 {
                assert(calls[i] == calls.drop_first()[i - 1]);
            }
        }
    }
}

/// A server becomes complete only when a poll reports its handshake
/// established.
pub proof fn lemma_server_completes_only_when_established(s: ServerView, calls: Seq<ServerCall>)
    requires
        s.state != ServerState::Complete,
        server_run(s, calls).state == ServerState::Complete,
    ensures
        exists|i: int| 0 <= i < calls.len() && calls[i] == ServerCall::HandshakePolled(HandshakeOutcome::Established),
    decreases calls.len(),
{
    let next = server_step(s, calls[0]);
    if next.state == ServerState::Complete {
        assert(calls[0] == ServerCall::HandshakePolled(HandshakeOutcome::Established));
    } else {
        lemma_server_completes_only_when_established(next, calls.drop_first());
        let i = choose|i: int| 0 <= i < calls.drop_first().len()
            && calls.drop_first()[i] == ServerCall::HandshakePolled(HandshakeOutcome::Established);
        assert(calls[i + 1] == calls.drop_first()[i]);
    }
}

/// Once the handshake outcome of a server that `new` made has been taken
/// (established, failed or found consumed), the handshake is over for
/// good: whatever calls follow, `finish` answers `InternalError`, no
/// handshake starts again, a poll is refused, and the server stays in the
/// state it was in.
pub proof fn lemma_server_concluded_handshake_is_final(s: ServerView, calls: Seq<ServerCall>)
    requires
        server_invariant(s),
        s.handshake == HandshakeStatus::Concluded,
    ensures
        server_run(s, calls).handshake == HandshakeStatus::Concluded,
        server_run(s, calls).state == s.state,
        server_finish(server_run(s, calls)).1 == ServerFinish::Fail(ErrorCode::InternalError),
        forall|outcome: HandshakeOutcome| server_handshake_polled(server_run(s, calls), outcome).1
            == Err::<(), ErrorCode>(ErrorCode::InternalError),
        server_handshake_starts(s, calls) == 0,
    decreases calls.len(),
{
    lemma_server_handshake_starts_at_most_once(s, calls);
    lemma_server_run_keeps_invariant(s, calls);
    if calls.len() > 0 {
        assert(server_invariant(server_step(s, calls[0])));
        lemma_server_concluded_handshake_is_final(server_step(s, calls[0]), calls.drop_first());
    }
}

/// A configuring server that has an identity and whose handshake has not
/// started always starts accepting on `finish`, whether or not it
/// requires client authentication and whatever ALPN protocols it was
/// given: the handshake gets both transport handles, and the server keeps
/// its configuration.
pub proof fn lemma_server_finish_starts_configured_handshake(s: ServerView)
    requires
        s.state == ServerState::Configuring,
        s.identity is Some,
        s.handshake == HandshakeStatus::NotStarted,
    ensures
        server_finish(s).1 == (ServerFinish::StartHandshake {
            transport_input: s.transport_input,
            transport_output: s.transport_output,
        }),
        server_finish(s).0.handshake == HandshakeStatus::InProgress,
        server_finish(s).0.state == ServerState::Configuring,
        server_finish(s).0.identity == s.identity,
        server_finish(s).0.client_auth_required == s.client_auth_required,
        server_finish(s).0.alpn_protocols == s.alpn_protocols,
{
}

/// `finish` refuses a server only when it is no longer configuring, has
/// no identity, or its handshake is over.
pub proof fn lemma_server_finish_refuses_only_when_done(s: ServerView)
    ensures
        server_finish(s).1 is Fail <==> (s.state != ServerState::Configuring || s.identity is None
            || s.handshake == HandshakeStatus::Concluded),
{
}

/// Setting a non-empty list of ALPN protocols on a configuring server
/// succeeds and keeps the whole list: the same number of protocols, each
/// at its position; nothing else about the server changes.
pub proof fn lemma_server_set_alpn_keeps_every_protocol(s: ServerView, ids: Seq<Seq<u8>>)
    requires
        s.state == ServerState::Configuring,
        ids.len() > 0,
    ensures
        server_set_alpn(s, ids).1 == Ok::<(), ()>(()),
        server_set_alpn(s, ids).0.alpn_protocols.len() == ids.len(),
        forall|i: int| 0 <= i < ids.len() ==> #[trigger] server_set_alpn(s, ids).0.alpn_protocols[i] == ids[i],
        server_set_alpn(s, ids).0.identity == s.identity,
        server_set_alpn(s, ids).0.client_auth_required == s.client_auth_required,
        server_set_alpn(s, ids).0.state == s.state,
        server_set_alpn(s, ids).0.handshake == s.handshake,
{
}

} // verus!
