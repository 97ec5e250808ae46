use vstd::prelude::*;
use vstd::utf8::encode_utf8;

use crate::alpn::alpn_protocol_ids;
use crate::error::ErrorCode;
use crate::handshake::{answer_poll, poll_answer, status_after_poll, HandshakeOutcome, HandshakeStatus};

verus! {

/// The life cycle of a TLS client resource.
#[derive(Clone, Copy, Debug, PartialEq, Eq, Structural)]
pub enum ClientState {
    Configuring,
    Complete,
    Closed,
}

/// A TLS client as the host keeps it: the server name it will connect to,
/// the handles of its transport streams, its configuration, and how far its
/// handshake has gone. Resources it refers to are given by their handles.
pub struct HostClient {
    pub server_name: String,
    pub transport_input: u32,
    pub transport_output: u32,
    pub alpn_protocols: Vec<Vec<u8>>,
    pub identity: Option<u32>,
    pub state: ClientState,
    pub handshake: HandshakeStatus,
}

/// The mathematical value of a [`HostClient`].
pub struct ClientView {
    pub server_name: Seq<char>,
    pub transport_input: u32,
    pub transport_output: u32,
    pub alpn_protocols: Seq<Seq<u8>>,
    pub identity: Option<u32>,
    pub state: ClientState,
    pub handshake: HandshakeStatus,
}

impl View for HostClient {
    type V = ClientView;

    open spec fn view(&self) -> ClientView {
        ClientView {
            server_name: self.server_name@,
            transport_input: self.transport_input,
            transport_output: self.transport_output,
            alpn_protocols: self.alpn_protocols@.map_values(|v: Vec<u8>| v@),
            identity: self.identity,
            state: self.state,
            handshake: self.handshake,
        }
    }
}

/// What the host does next when the guest calls `finish` on a client.
pub enum ClientFinish {
    /// Answer the guest with this error; nothing else happens.
    Fail(ErrorCode),
    /// Poll the running handshake and hand its outcome to
    /// [`HostClient::handshake_polled`].
    PollHandshake,
    /// Take the transport streams out of the resource table, start the
    /// handshake with `server_name` on them, and answer `WouldBlock`.
    StartHandshake { server_name: String, transport_input: u32, transport_output: u32 },
}

/// The mathematical value of a [`ClientFinish`].
pub enum ClientFinishView {
    Fail(ErrorCode),
    PollHandshake,
    StartHandshake { server_name: Seq<char>, transport_input: u32, transport_output: u32 },
}

impl View for ClientFinish {
    type V = ClientFinishView;

    open spec fn view(&self) -> ClientFinishView {
        match self {
            ClientFinish::Fail(code) => ClientFinishView::Fail(*code),
            ClientFinish::PollHandshake => ClientFinishView::PollHandshake,
            ClientFinish::StartHandshake { server_name, transport_input, transport_output } =>
                ClientFinishView::StartHandshake {
                    server_name: server_name@,
                    transport_input: *transport_input,
                    transport_output: *transport_output,
                },
        }
    }
}

/// A new client: refused with `HostnameMismatch` for an empty server name,
/// then with `InternalError` when either transport handle is not a live
/// stream; otherwise configuring, with no ALPN protocols and no identity.
pub open spec fn client_new(
    server_name: Seq<char>,
    transport_input: u32,
    transport_output: u32,
    input_live: bool,
    output_live: bool,
) -> Result<ClientView, ErrorCode> {
    if server_name.len() == 0 {
        Err(ErrorCode::HostnameMismatch)
    } else if !input_live || !output_live {
        Err(ErrorCode::InternalError)
    } else {
        Ok(
            ClientView {
                server_name,
                transport_input,
                transport_output,
                alpn_protocols: Seq::empty(),
                identity: None,
                state: ClientState::Configuring,
                handshake: HandshakeStatus::NotStarted,
            },
        )
    }
}

/// Setting the ALPN protocols: refused unless configuring and the list is
/// non-empty; otherwise the list replaces the previous one.
pub open spec fn client_set_alpn(c: ClientView, ids: Seq<Seq<u8>>) -> (ClientView, Result<(), ()>) {
    if c.state != ClientState::Configuring || ids.len() == 0 {
        (c, Err(()))
    } else {
        (ClientView { alpn_protocols: ids, ..c }, Ok(()))
    }
}

/// Setting the identity: refused when the handle is not a live identity or
/// the client is not configuring; otherwise the identity replaces the
/// previous one.
pub open spec fn client_set_identity(c: ClientView, identity: u32, identity_live: bool) -> (
    ClientView,
    Result<(), ()>,
) {
    if !identity_live || c.state != ClientState::Configuring {
        (c, Err(()))
    } else {
        (ClientView { identity: Some(identity), ..c }, Ok(()))
    }
}

/// `finish`: refused unless configuring; a started handshake is polled; the
/// first call starts the handshake, handing over the server name and the
/// transport streams, whose handles the client no longer holds.
pub open spec fn client_finish(c: ClientView) -> (ClientView, ClientFinishView) {
    if c.state != ClientState::Configuring {
        (c, ClientFinishView::Fail(ErrorCode::InternalError))
    } else if c.handshake == HandshakeStatus::InProgress {
        (c, ClientFinishView::PollHandshake)
    } else if c.handshake == HandshakeStatus::Concluded {
        (c, ClientFinishView::Fail(ErrorCode::InternalError))
    } else {
        (
            ClientView {
                transport_input: 0,
                transport_output: 0,
                handshake: HandshakeStatus::InProgress,
                ..c
            },
            ClientFinishView::StartHandshake {
                server_name: c.server_name,
                transport_input: c.transport_input,
                transport_output: c.transport_output,
            },
        )
    }
}

/// A poll of the handshake: only a configuring client with a started
/// handshake takes it; an established handshake completes the client.
pub open spec fn client_handshake_polled(c: ClientView, outcome: HandshakeOutcome) -> (
    ClientView,
    Result<(), ErrorCode>,
) {
    if c.state != ClientState::Configuring || c.handshake != HandshakeStatus::InProgress {
        (c, Err(ErrorCode::InternalError))
    } else if outcome == HandshakeOutcome::Established {
        (ClientView { state: ClientState::Complete, handshake: HandshakeStatus::Concluded, ..c }, Ok(()))
    } else {
        (ClientView { handshake: status_after_poll(outcome), ..c }, poll_answer(outcome))
    }
}

impl HostClient {
    /// Creates a client for `server_name` over the given transport streams.
    /// `input_live` and `output_live` tell whether the handles name live
    /// input and output streams.
    pub fn new(
        server_name: String,
        transport_input: u32,
        transport_output: u32,
        input_live: bool,
        output_live: bool,
    ) -> (res: Result<HostClient, ErrorCode>)
        ensures
            match res {
                Ok(c) => client_new(server_name@, transport_input, transport_output, input_live, output_live) == Ok::<ClientView, ErrorCode>(c@),
                Err(e) => client_new(server_name@, transport_input, transport_output, input_live, output_live) == Err::<ClientView, ErrorCode>(e),
            },
    {
        if server_name.as_str().is_empty() {
            return Err(ErrorCode::HostnameMismatch);
        }
        if !input_live || !output_live {
            return Err(ErrorCode::InternalError);
        }
        let c = HostClient {
            server_name,
            transport_input,
            transport_output,
            alpn_protocols: Vec::new(),
            identity: None,
            state: ClientState::Configuring,
            handshake: HandshakeStatus::NotStarted,
        };
        assert(c.alpn_protocols@.map_values(|v: Vec<u8>| v@) =~= Seq::<Seq<u8>>::empty());
        Ok(c)
    }

    /// Sets the ALPN protocols to offer, each as its UTF-8 bytes.
    pub fn set_alpn_protocols(&mut self, protocols: Vec<String>) -> (res: Result<(), ()>)
        ensures
            (final(self)@, res) == client_set_alpn(
                old(self)@,
                protocols@.map_values(|p: String| encode_utf8(p@)),
            ),
    {
        if self.state != ClientState::Configuring {
            return Err(());
        }
        if protocols.len() == 0 {
            return Err(());
        }
        let ids = alpn_protocol_ids(&protocols);
        self.alpn_protocols = ids;
        Ok(())
    }

    /// Sets the private identity to present; `identity_live` tells whether
    /// the handle names a live private identity.
    pub fn set_identity(&mut self, identity: u32, identity_live: bool) -> (res: Result<(), ()>)
        ensures
            (final(self)@, res) == client_set_identity(old(self)@, identity, identity_live),
    {
        if !identity_live {
            return Err(());
        }
        if self.state != ClientState::Configuring {
            return Err(());
        }
        self.identity = Some(identity);
        Ok(())
    }

    /// Decides what the host does when the guest calls `finish`.
    pub fn finish(&mut self) -> (res: ClientFinish)
        ensures
            (final(self)@, res@) == client_finish(old(self)@),
    {
        if self.state != ClientState::Configuring {
            return ClientFinish::Fail(ErrorCode::InternalError);
        }
        if self.handshake == HandshakeStatus::InProgress {
            return ClientFinish::PollHandshake;
        }
        if self.handshake == HandshakeStatus::Concluded {
            return ClientFinish::Fail(ErrorCode::InternalError);
        }
        let transport_input = self.transport_input;
        let transport_output = self.transport_output;
        self.transport_input = 0;
        self.transport_output = 0;
        self.handshake = HandshakeStatus::InProgress;
        ClientFinish::StartHandshake {
            server_name: self.server_name.clone(),
            transport_input,
            transport_output,
        }
    }

    /// Takes the outcome of polling the handshake and answers the guest.
    pub fn handshake_polled(&mut self, outcome: HandshakeOutcome) -> (res: Result<(), ErrorCode>)
        ensures
            (final(self)@, res) == client_handshake_polled(old(self)@, outcome),
    {
        if self.state != ClientState::Configuring || self.handshake != HandshakeStatus::InProgress {
            return Err(ErrorCode::InternalError);
        }
        if outcome == HandshakeOutcome::Established {
            self.state = ClientState::Complete;
            self.handshake = HandshakeStatus::Concluded;
            return Ok(());
        }
        if outcome != HandshakeOutcome::Pending {
            self.handshake = HandshakeStatus::Concluded;
        }
        answer_poll(outcome)
    }
}

/// One guest call on a client, with what the host learned for it.
pub enum ClientCall {
    SetAlpn(Seq<Seq<u8>>),
    SetIdentity(u32, bool),
    Finish,
    HandshakePolled(HandshakeOutcome),
}

/// The client after one call.
pub open spec fn client_step(c: ClientView, call: ClientCall) -> ClientView {
    match call {
        ClientCall::SetAlpn(ids) => client_set_alpn(c, ids).0,
        ClientCall::SetIdentity(identity, live) => client_set_identity(c, identity, live).0,
        ClientCall::Finish => client_finish(c).0,
        ClientCall::HandshakePolled(outcome) => client_handshake_polled(c, outcome).0,
    }
}

/// Whether the guest's call is refused (answered with an error, or with a
/// `finish` that fails).
pub open spec fn client_call_refused(c: ClientView, call: ClientCall) -> bool {
    match call {
        ClientCall::SetAlpn(ids) => client_set_alpn(c, ids).1 is Err,
        ClientCall::SetIdentity(identity, live) => client_set_identity(c, identity, live).1 is Err,
        ClientCall::Finish => client_finish(c).1 is Fail,
        ClientCall::HandshakePolled(outcome) => client_handshake_polled(c, outcome).1 is Err,
    }
}

/// The client after a sequence of calls.
pub open spec fn client_run(c: ClientView, calls: Seq<ClientCall>) -> ClientView
    decreases calls.len(),
{
    if calls.len() == 0 {
        c
    } else {
        client_run(client_step(c, calls[0]), calls.drop_first())
    }
}

/// How many of the calls start a handshake.
pub open spec fn client_handshake_starts(c: ClientView, calls: Seq<ClientCall>) -> nat
    decreases calls.len(),
{
    if calls.len() == 0 {
        0
    } else {
        (if calls[0] is Finish && client_finish(c).1 is StartHandshake {
            1nat
        } else {
            0nat
        }) + client_handshake_starts(client_step(c, calls[0]), calls.drop_first())
    }
}

/// What holds of every client that `new` made, whatever calls followed: a
/// complete client has handed its transports to a handshake, and a client
/// whose handshake started holds no transport handle any more.
pub open spec fn client_invariant(c: ClientView) -> bool {
    &&& c.state == ClientState::Complete ==> c.handshake == HandshakeStatus::Concluded
    &&& c.handshake != HandshakeStatus::NotStarted ==> c.transport_input == 0 && c.transport_output == 0
    &&& c.state != ClientState::Closed
    &&& c.server_name.len() > 0
}

/// A client that `new` accepted meets the invariant.
pub proof fn lemma_client_new_invariant(
    server_name: Seq<char>,
    transport_input: u32,
    transport_output: u32,
    input_live: bool,
    output_live: bool,
)
    ensures
        client_new(server_name, transport_input, transport_output, input_live, output_live) matches Ok(c) ==> client_invariant(c),
{
}

/// Every call keeps the client invariant, and a client's server name never
/// changes.
pub proof fn lemma_client_run_keeps_invariant(c: ClientView, calls: Seq<ClientCall>)
    requires
        client_invariant(c),
    ensures
        client_invariant(client_run(c, calls)),
        client_run(c, calls).server_name == c.server_name,
    decreases calls.len(),
{
    if calls.len() > 0 {
        lemma_client_run_keeps_invariant(client_step(c, calls[0]), calls.drop_first());
    }
}

/// A client starts its handshake at most once, and never again once it
/// has started.
pub proof fn lemma_client_handshake_starts_at_most_once(c: ClientView, calls: Seq<ClientCall>)
    ensures
        client_handshake_starts(c, calls) <= 1,
        c.handshake != HandshakeStatus::NotStarted ==> client_handshake_starts(c, calls) == 0,
    decreases calls.len(),
{
    if calls.len() > 0 {
        let next = client_step(c, calls[0]);
        assert(c.handshake != HandshakeStatus::NotStarted ==> next.handshake != HandshakeStatus::NotStarted);
        assert(!(calls[0] is Finish && client_finish(c).1 is StartHandshake) ==> (next.handshake == HandshakeStatus::NotStarted
            <==> c.handshake == HandshakeStatus::NotStarted));
        assert(calls[0] is Finish && client_finish(c).1 is StartHandshake ==> next.handshake == HandshakeStatus::InProgress);
        lemma_client_handshake_starts_at_most_once(next, calls.drop_first());
    }
}

/// A complete client is final: every later call is refused and changes
/// nothing.
pub proof fn lemma_client_complete_is_final(c: ClientView, calls: Seq<ClientCall>)
    requires
        c.state == ClientState::Complete,
    ensures
        client_run(c, calls) == c,
        forall|i: int| 0 <= i < calls.len() ==> client_call_refused(c, #[trigger] calls[i]),
    decreases calls.len(),
{
    if calls.len() > 0 {
        assert(client_step(c, calls[0]) == c);
        lemma_client_complete_is_final(c, calls.drop_first());
        assert forall|i: int| 0 <= i < calls.len() implies client_call_refused(c, #[trigger] calls[i]) by {
            if i > 0 {
                assert(calls[i] == calls.drop_first()[i - 1]);
            }
        }
    }
}

/// A client becomes complete only when a poll reports its handshake
/// established.
pub proof fn lemma_client_completes_only_when_established(s: ClientView, calls: Seq<ClientCall>)
    requires
        s.state != ClientState::Complete,
        client_run(s, calls).state == ClientState::Complete,
    ensures
        exists|i: int| 0 <= i < calls.len() && calls[i] == ClientCall::HandshakePolled(HandshakeOutcome::Established),
    decreases calls.len(),
{
    let next = client_step(s, calls[0]);
    if next.state == ClientState::Complete {
        assert(calls[0] == ClientCall::HandshakePolled(HandshakeOutcome::Established));
    } else {
        lemma_client_completes_only_when_established(next, calls.drop_first());
        let i = choose|i: int| 0 <= i < calls.drop_first().len()
            && calls.drop_first()[i] == ClientCall::HandshakePolled(HandshakeOutcome::Established);
        assert(calls[i + 1] == calls.drop_first()[i]);
    }
}

/// Once a client's handshake outcome has been taken (established, failed
/// or found consumed), the handshake is over for good: whatever calls
/// follow, `finish` answers `InternalError`, no handshake starts again, a
/// poll is refused, and the client stays in the state it was in.
pub proof fn lemma_client_concluded_handshake_is_final(c: ClientView, calls: Seq<ClientCall>)
    requires
        c.handshake == HandshakeStatus::Concluded,
    ensures
        client_run(c, calls).handshake == HandshakeStatus::Concluded,
        client_run(c, calls).state == c.state,
        client_finish(client_run(c, calls)).1 == ClientFinishView::Fail(ErrorCode::InternalError),
        forall|outcome: HandshakeOutcome| client_handshake_polled(client_run(c, calls), outcome).1
            == Err::<(), ErrorCode>(ErrorCode::InternalError),
        client_handshake_starts(c, calls) == 0,
    decreases calls.len(),
{
    lemma_client_handshake_starts_at_most_once(c, calls);
    if calls.len() > 0 {
        lemma_client_concluded_handshake_is_final(client_step(c, calls[0]), calls.drop_first());
    }
}

/// A configuring client whose handshake has not started always starts it
/// on `finish`, whatever identity and ALPN protocols it was given: the
/// handshake gets the client's server name and both transport handles,
/// and the client keeps its configuration.
pub proof fn lemma_client_finish_starts_configured_handshake(c: ClientView)
    requires
        c.state == ClientState::Configuring,
        c.handshake == HandshakeStatus::NotStarted,
    ensures
        client_finish(c).1 == (ClientFinishView::StartHandshake {
            server_name: c.server_name,
            transport_input: c.transport_input,
            transport_output: c.transport_output,
        }),
        client_finish(c).0.handshake == HandshakeStatus::InProgress,
        client_finish(c).0.state == ClientState::Configuring,
        client_finish(c).0.identity == c.identity,
        client_finish(c).0.alpn_protocols == c.alpn_protocols,
        client_finish(c).0.server_name == c.server_name,
{
}

/// `finish` refuses a client only when it is no longer configuring or its
/// handshake is over.
pub proof fn lemma_client_finish_refuses_only_when_done(c: ClientView)
    ensures
        client_finish(c).1 is Fail <==> (c.state != ClientState::Configuring || c.handshake
            == HandshakeStatus::Concluded),
        client_finish(c).1 is Fail ==> client_finish(c).1 == ClientFinishView::Fail(ErrorCode::InternalError),
{
}

/// Setting a non-empty list of ALPN protocols on a configuring client
/// succeeds and keeps the whole list: the same number of protocols, each
/// at its position; nothing else about the client changes.
pub proof fn lemma_client_set_alpn_keeps_every_protocol(c: ClientView, ids: Seq<Seq<u8>>)
    requires
        c.state == ClientState::Configuring,
        ids.len() > 0,
    ensures
        client_set_alpn(c, ids).1 == Ok::<(), ()>(()),
        client_set_alpn(c, ids).0.alpn_protocols.len() == ids.len(),
        forall|i: int| 0 <= i < ids.len() ==> #[trigger] client_set_alpn(c, ids).0.alpn_protocols[i] == ids[i],
        client_set_alpn(c, ids).0.identity == c.identity,
        client_set_alpn(c, ids).0.state == c.state,
        client_set_alpn(c, ids).0.handshake == c.handshake,
        client_set_alpn(c, ids).0.server_name == c.server_name,
{
}

} // verus!
