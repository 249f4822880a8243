//! The server's end: negotiation, and what each message of a client leads to.

use crate::protocol::{
    ApplicationServerManifest, ClientRequest, InvalidReason, RtunCommunication, RtunServerNegReq,
    RtunServerNegRes, ServerRequest, SessionID, PROTOCOL_VER,
};
use crate::random::RandomNumbers;
use crate::session::{
    closes, connects, drawn_until_free, law_opening, law_resuming, new_session_id, opens,
    registers, resumes, session_ids, stream_cloned, suspends, ClientInfo, RtunState, SessionStore,
};
use std::collections::hash_map::Entry;
use vstd::prelude::*;
use vstd::slice::{slice_subrange, slice_to_vec};

verus! {

broadcast use vstd::std_specs::hash::group_hash_axioms;

/// A client's connection that has been accepted.
#[derive(Debug)]
pub struct ServerConnection<S> {
    /// The session that the connection serves.
    pub session_id: SessionID,
    /// The session as it was when the connection was accepted.
    pub client_info: ClientInfo<S>,
    /// This connection's own handle on the connection to the application server.
    pub app_stream: Option<S>,
}

/// The request is for a new session, in the version that the server speaks.
pub open spec fn asks_for_new_session(request: RtunServerNegReq) -> bool {
    request == RtunServerNegReq::NewConnection(PROTOCOL_VER)
}

/// The answer to a negotiation request, when a new session would get the number `fresh_id`.
pub open spec fn negotiation_reply<S>(
    store: Map<SessionID, ClientInfo<S>>,
    request: RtunServerNegReq,
    fresh_id: SessionID,
) -> RtunServerNegRes {
    match request {
        RtunServerNegReq::NewConnection(version) => if version != PROTOCOL_VER {
            RtunServerNegRes::ProtocolVersionMismatched
        } else {
            RtunServerNegRes::Established(fresh_id)
        },
        RtunServerNegReq::ResumeConnection(version, id) => if version != PROTOCOL_VER {
            RtunServerNegRes::ProtocolVersionMismatched
        } else if !store.contains_key(id) {
            RtunServerNegRes::InvalidSessionID
        } else if store[id].resumable(id) {
            RtunServerNegRes::Established(id)
        } else {
            RtunServerNegRes::ResumeFailed
        },
    }
}

/// What a negotiation does to the sessions: the one that it establishes is opened or resumed; a
/// refusal changes nothing.
pub open spec fn negotiated<S>(
    before: Map<SessionID, ClientInfo<S>>,
    after: Map<SessionID, ClientInfo<S>>,
    request: RtunServerNegReq,
    reply: RtunServerNegRes,
) -> bool {
    match reply {
        RtunServerNegRes::Established(id) => match request {
            RtunServerNegReq::NewConnection(_) => opens(before, after, id),
            RtunServerNegReq::ResumeConnection(_, _) => resumes(before, after, id),
        },
        _ => after == before,
    }
}

impl<S> ServerConnection<S> {
    /// The connection's session is in the store, and when the session is connected to its
    /// application server, so is this connection.
    pub open spec fn serves(self, store: Map<SessionID, ClientInfo<S>>) -> bool {
        &&& store.contains_key(self.session_id)
        &&& store[self.session_id].application_stream is Some ==> self.app_stream is Some
    }
}

/// The connection for the session `id`, which is `info` in the store.
pub open spec fn connection_for<S: Clone>(
    connection: ServerConnection<S>,
    id: SessionID,
    info: ClientInfo<S>,
) -> bool {
    &&& connection.session_id == id
    &&& connection.client_info.session_id == info.session_id
    &&& connection.client_info.state == info.state
    &&& connection.client_info.manifest == info.manifest
    &&& stream_cloned(info.application_stream, connection.client_info.application_stream)
    &&& stream_cloned(info.application_stream, connection.app_stream)
}

/// A connection comes with every answer that establishes a session, and with no other.
pub open spec fn connected_by<S: Clone>(
    reply: RtunServerNegRes,
    connection: Option<ServerConnection<S>>,
    store: Map<SessionID, ClientInfo<S>>,
) -> bool {
    match reply {
        RtunServerNegRes::Established(id) => {
            &&& connection matches Some(accepted)
            &&& connection_for(accepted, id, store[id])
            &&& accepted.serves(store)
        },
        _ => connection is None,
    }
}

/// Answers a negotiation request, with `fresh_id` as the number for a new session.
///
/// A connection comes with every answer that establishes a session, and with no other.
pub fn negotiate_with<S: Clone>(
    store: &mut SessionStore<S>,
    request: RtunServerNegReq,
    fresh_id: SessionID,
) -> (res: (RtunServerNegRes, Option<ServerConnection<S>>))
    requires
        asks_for_new_session(request) ==> !old(store)@.contains_key(fresh_id),
    ensures
        res.0 == negotiation_reply(old(store)@, request, fresh_id),
        negotiated(old(store)@, final(store)@, request, res.0),
        connected_by(res.0, res.1, final(store)@),
{
    let res: (RtunServerNegRes, Option<ServerConnection<S>>) = match request {
        RtunServerNegReq::NewConnection(version) => {
            if version != PROTOCOL_VER {
                return (RtunServerNegRes::ProtocolVersionMismatched, None);
            }
            let client_info: ClientInfo<S> = ClientInfo::new(fresh_id, RtunState::Established);
            store.insert(fresh_id, client_info.clone());
            (
                RtunServerNegRes::Established(fresh_id),
                Some(ServerConnection { session_id: fresh_id, client_info, app_stream: None }),
            )
        },
        RtunServerNegReq::ResumeConnection(version, id) => {
            if version != PROTOCOL_VER {
                return (RtunServerNegRes::ProtocolVersionMismatched, None);
            }
            match store.entry(id) {
                Entry::Occupied(entry) => {
                    let info: &mut ClientInfo<S> = entry.into_mut();
                    if info.check_resumable(&id) {
                        info.resume();
                        let app_stream: Option<S> = info.application_stream.clone();
                        let client_info: ClientInfo<S> = info.clone();
                        (
                            RtunServerNegRes::Established(id),
                            Some(ServerConnection { session_id: id, client_info, app_stream }),
                        )
                    } else {
                        (RtunServerNegRes::ResumeFailed, None)
                    }
                },
                Entry::Vacant(_) => (RtunServerNegRes::InvalidSessionID, None),
            }
        },
    };
    assert(res.1 is None ==> store@ =~= old(store)@);
    res
}

/// Answers a negotiation request; a new session gets the first of `numbers` that no other session
/// has.
///
/// `None` means that none of `u64::MAX` numbers was free: nothing is answered yet, and the caller
/// calls again.
pub fn negotiate<S: Clone>(
    store: &mut SessionStore<S>,
    request: RtunServerNegReq,
    numbers: &mut RandomNumbers,
) -> (res: Option<(RtunServerNegRes, Option<ServerConnection<S>>)>)
    ensures
        match res {
            None => {
                &&& asks_for_new_session(request)
                &&& drawn_until_free(old(store)@.dom(), old(numbers)@, final(numbers)@, None)
                &&& final(store)@ == old(store)@
            },
            Some((reply, connection)) => {
                &&& asks_for_new_session(request) ==> reply is Established && drawn_until_free(
                    old(store)@.dom(),
                    old(numbers)@,
                    final(numbers)@,
                    Some(reply->Established_0),
                )
                &&& !asks_for_new_session(request) ==> reply == negotiation_reply(
                    old(store)@,
                    request,
                    0,
                ) && final(numbers)@ == old(numbers)@
                &&& negotiated(old(store)@, final(store)@, request, reply)
                &&& connected_by(reply, connection, final(store)@)
            },
        },
{
    let fresh_id: SessionID = match request {
        RtunServerNegReq::NewConnection(version) => if version == PROTOCOL_VER {
            match new_session_id(&session_ids(store), numbers) {
                Some(id) => id,
                None => {
                    return None;
                },
            }
        } else {
            0
        },
        RtunServerNegReq::ResumeConnection(_, _) => 0,
    };
    Some(negotiate_with(store, request, fresh_id))
}

/// A request is answered by the version first. A request for a new session in the right version is
/// granted under the number at hand. A request to resume is granted under the number asked for when
/// the session of that number is there and suspended, and is otherwise refused for what is wrong.
pub proof fn law_answers<S>(
    store: Map<SessionID, ClientInfo<S>>,
    version: u64,
    id: SessionID,
    fresh_id: SessionID,
)
    ensures
        asks_for_new_session(RtunServerNegReq::NewConnection(version)) <==> version == PROTOCOL_VER,
        !asks_for_new_session(RtunServerNegReq::ResumeConnection(version, id)),
        ({
            let reply = negotiation_reply(
                store,
                RtunServerNegReq::NewConnection(version),
                fresh_id,
            );
            &&& version == PROTOCOL_VER ==> reply == RtunServerNegRes::Established(fresh_id)
            &&& version != PROTOCOL_VER ==> reply == RtunServerNegRes::ProtocolVersionMismatched
        }),
        ({
            let reply = negotiation_reply(
                store,
                RtunServerNegReq::ResumeConnection(version, id),
                fresh_id,
            );
            let suspended = store[id].session_id == id && store[id].state == RtunState::Suspended;
            &&& version != PROTOCOL_VER ==> reply == RtunServerNegRes::ProtocolVersionMismatched
            &&& version == PROTOCOL_VER && !store.contains_key(id) ==> reply
                == RtunServerNegRes::InvalidSessionID
            &&& version == PROTOCOL_VER && store.contains_key(id) && !suspended ==> reply
                == RtunServerNegRes::ResumeFailed
            &&& version == PROTOCOL_VER && store.contains_key(id) && suspended ==> reply
                == RtunServerNegRes::Established(id)
        }),
{
}

/// A new session that the server grants is established under the number in the answer, whatever
/// other sessions there are, and has neither a manifest nor an application server yet; the other
/// sessions stay as they were.
pub proof fn law_granted_session_is_established<S>(
    before: Map<SessionID, ClientInfo<S>>,
    after: Map<SessionID, ClientInfo<S>>,
    version: u64,
    id: SessionID,
)
    requires
        negotiated(
            before,
            after,
            RtunServerNegReq::NewConnection(version),
            RtunServerNegRes::Established(id),
        ),
    ensures
        !before.contains_key(id),
        after.contains_key(id),
        after[id].session_id == id,
        after[id].state == RtunState::Established,
        after[id].manifest is None,
        after[id].application_stream is None,
        forall|other: SessionID|
            other != id ==> {
                &&& #[trigger] after.contains_key(other) <==> before.contains_key(other)
                &&& before.contains_key(other) ==> after[other] == before[other]
            },
{
    law_opening(before, after, id);
}

/// A session that the server lets a client resume was suspended and is established again, with the
/// manifest and the application server that it had; the other sessions stay as they were.
pub proof fn law_resumed_session_is_the_same<S>(
    before: Map<SessionID, ClientInfo<S>>,
    after: Map<SessionID, ClientInfo<S>>,
    version: u64,
    asked_for: SessionID,
    id: SessionID,
)
    requires
        negotiated(
            before,
            after,
            RtunServerNegReq::ResumeConnection(version, asked_for),
            RtunServerNegRes::Established(id),
        ),
    ensures
        before.contains_key(id),
        before[id].state == RtunState::Suspended,
        after.contains_key(id),
        after[id].session_id == id,
        after[id].state == RtunState::Established,
        after[id].manifest == before[id].manifest,
        after[id].application_stream == before[id].application_stream,
        forall|other: SessionID|
            other != id ==> {
                &&& #[trigger] after.contains_key(other) <==> before.contains_key(other)
                &&& before.contains_key(other) ==> after[other] == before[other]
            },
{
    law_resuming(before, after, id);
}

/// A connection is for the session that its client was answered with, and knows the session as it
/// is in the store; it has a clone of the session's stream exactly when the session has one. Who
/// was refused gets no connection.
pub proof fn law_accepted_connection<S: Clone>(
    reply: RtunServerNegRes,
    connection: Option<ServerConnection<S>>,
    store: Map<SessionID, ClientInfo<S>>,
)
    requires
        connected_by(reply, connection, store),
    ensures
        connection is Some <==> reply is Established,
        connection matches Some(accepted) ==> {
            let id = reply->Established_0;
            &&& accepted.session_id == id
            &&& store.contains_key(id)
            &&& accepted.client_info.session_id == store[id].session_id
            &&& accepted.client_info.state == store[id].state
            &&& accepted.client_info.manifest == store[id].manifest
            &&& accepted.app_stream is Some <==> store[id].application_stream is Some
            &&& store[id].application_stream matches Some(stream) ==> {
                &&& cloned(stream, accepted.app_stream->0)
                &&& accepted.client_info.application_stream matches Some(copy) && cloned(
                    stream,
                    copy,
                )
            }
        },
{
}

/// A connection serves a server whose store has its session, unless the session is connected to its
/// application server and the connection is not.
pub proof fn law_serving<S>(
    connection: ServerConnection<S>,
    store: Map<SessionID, ClientInfo<S>>,
)
    ensures
        connection.serves(store) <==> store.contains_key(connection.session_id) && (
        connection.app_stream is Some || store[connection.session_id].application_stream is None),
{
}

/// What a message of the client, or its absence, means for the connection.
#[derive(Debug, PartialEq, Eq)]
pub enum ServerEvent {
    /// No message could be read.
    ConnectionLost,
    /// The message is for another session, or is none that a server acts on.
    Ignored,
    /// The client is alive.
    Heartbeat,
    /// Data for the application server.
    Packet(Vec<u8>),
    /// Where the application server is.
    Manifest(ApplicationServerManifest),
    /// The application at the client's end is gone.
    SrcClosed,
}

/// What `message` means for a connection that serves the session `session_id`.
pub open spec fn server_event(session_id: SessionID, message: RtunCommunication) -> ServerEvent {
    match message {
        RtunCommunication::Heartbeat(id) if id == session_id => ServerEvent::Heartbeat,
        RtunCommunication::Packet(id, payload) if id == session_id => ServerEvent::Packet(payload),
        RtunCommunication::ServerRequest(
            id,
            ServerRequest::RegisterManifest(manifest),
        ) if id == session_id => ServerEvent::Manifest(manifest),
        RtunCommunication::ServerRequest(
            id,
            ServerRequest::SrcApplicationIsClosed,
        ) if id == session_id => ServerEvent::SrcClosed,
        _ => ServerEvent::Ignored,
    }
}

/// How the connection goes on once an event has been dealt with.
#[derive(Debug, Clone, Copy, PartialEq, Eq, Structural)]
pub enum LoopControl {
    /// Read the next message.
    ReadOn,
    /// Stop the heartbeat, and read the next message.
    StopHeartbeatAndReadOn,
    /// Stop the heartbeat, and leave the connection.
    StopHeartbeatAndLeave,
}

/// How the connection goes on after `event`.
pub open spec fn control_after(event: ServerEvent) -> LoopControl {
    match event {
        ServerEvent::ConnectionLost => LoopControl::StopHeartbeatAndLeave,
        ServerEvent::SrcClosed => LoopControl::StopHeartbeatAndReadOn,
        _ => LoopControl::ReadOn,
    }
}

impl ServerEvent {
    /// How the connection goes on once the event has been dealt with: a lost connection ends, and
    /// a closed session needs no heartbeat any more.
    pub fn control(&self) -> (control: LoopControl)
        ensures
            control == control_after(*self),
    {
        match self {
            ServerEvent::ConnectionLost => LoopControl::StopHeartbeatAndLeave,
            ServerEvent::SrcClosed => LoopControl::StopHeartbeatAndReadOn,
            _ => LoopControl::ReadOn,
        }
    }
}

/// What to do with data for the application server.
#[derive(Debug, PartialEq, Eq)]
pub enum PacketAction {
    /// Write the data to the application server.
    Forward(Vec<u8>),
    /// Connect to the application server at the address; then write the data to it.
    Connect(String, Vec<u8>),
    /// Send the message to the client.
    Refuse(RtunCommunication),
}

/// `action` is what to do with `payload` in the session `info`.
pub open spec fn packet_action<S>(
    info: ClientInfo<S>,
    payload: Vec<u8>,
    action: PacketAction,
) -> bool {
    if info.application_stream is Some {
        action == PacketAction::Forward(payload)
    } else {
        match info.manifest {
            Some(manifest) => {
                &&& action matches PacketAction::Connect(address, data)
                &&& address@ == manifest.address_chars()
                &&& data == payload
            },
            None => action == PacketAction::Refuse(
                RtunCommunication::InvalidRequest(InvalidReason::PleaseRegisterManifestAtFirst),
            ),
        }
    }
}

/// What is left to do once an event has been applied to the sessions.
#[derive(Debug, PartialEq, Eq)]
pub enum ServerAction {
    Nothing,
    /// Send the message to the client.
    Send(RtunCommunication),
    /// Pass data on to the application server, or refuse it.
    Deliver(PacketAction),
    /// Shut down the session's connection to the application server in both directions.
    ShutDown,
}

/// The message that answers `event` before it is applied to the sessions.
pub open spec fn first_answer(session_id: SessionID, event: ServerEvent) -> Option<
    RtunCommunication,
> {
    match event {
        ServerEvent::SrcClosed => Some(
            RtunCommunication::ClientRequest(session_id, ClientRequest::SrcApplicationIsClosed),
        ),
        _ => None,
    }
}

/// What `event` does to the sessions when it comes over a connection of the session `id`: a lost
/// connection suspends the session, the end of the client's application closes it, and a manifest
/// is registered if there is none yet; nothing else changes.
pub open spec fn event_effect<S>(
    before: Map<SessionID, ClientInfo<S>>,
    after: Map<SessionID, ClientInfo<S>>,
    id: SessionID,
    event: ServerEvent,
) -> bool {
    match event {
        ServerEvent::ConnectionLost => suspends(before, after, id),
        ServerEvent::SrcClosed => closes(before, after, id),
        ServerEvent::Manifest(manifest) => if before[id].manifest is None {
            registers(before, after, id, manifest)
        } else {
            after == before
        },
        ServerEvent::Ignored | ServerEvent::Heartbeat | ServerEvent::Packet(_) => after == before,
    }
}

/// `action` is what is left to do after `event` in the session that was `info` before it.
pub open spec fn event_action<S>(
    info: ClientInfo<S>,
    event: ServerEvent,
    action: ServerAction,
) -> bool {
    match event {
        ServerEvent::Packet(payload) => {
            &&& action matches ServerAction::Deliver(delivery)
            &&& packet_action(info, payload, delivery)
        },
        ServerEvent::Manifest(_) => action == if info.manifest is None {
            ServerAction::Nothing
        } else {
            ServerAction::Send(
                RtunCommunication::InvalidRequest(InvalidReason::CanNotChangeManifest),
            )
        },
        ServerEvent::SrcClosed => action == if info.application_stream is Some {
            ServerAction::ShutDown
        } else {
            ServerAction::Nothing
        },
        ServerEvent::ConnectionLost | ServerEvent::Ignored | ServerEvent::Heartbeat => action
            == ServerAction::Nothing,
    }
}

/// A message means something exactly when it names the session of the connection and is a heartbeat,
/// a packet, a manifest or the end of the client's application; what it carries is kept. No message
/// means that the connection is lost.
pub proof fn law_messages_are_understood(
    session_id: SessionID,
    message: RtunCommunication,
    payload: Vec<u8>,
    manifest: ApplicationServerManifest,
)
    ensures
        server_event(session_id, message) == ServerEvent::Heartbeat <==> message
            == RtunCommunication::Heartbeat(session_id),
        server_event(session_id, message) == ServerEvent::Packet(payload) <==> message
            == RtunCommunication::Packet(session_id, payload),
        server_event(session_id, message) == ServerEvent::Manifest(manifest) <==> message
            == RtunCommunication::ServerRequest(
            session_id,
            ServerRequest::RegisterManifest(manifest),
        ),
        server_event(session_id, message) == ServerEvent::SrcClosed <==> message
            == RtunCommunication::ServerRequest(session_id, ServerRequest::SrcApplicationIsClosed),
        server_event(session_id, message) !is ConnectionLost,
{
}

/// Exactly a lost connection is left, and exactly a lost connection and the end of the client's
/// application stop the heartbeat.
pub proof fn law_going_on(event: ServerEvent)
    ensures
        control_after(event) == LoopControl::StopHeartbeatAndLeave <==> event is ConnectionLost,
        control_after(event) == LoopControl::StopHeartbeatAndReadOn <==> event is SrcClosed,
{
}

/// Exactly the end of the client's application is answered before anything else, and the answer
/// tells the client of the same session that its application is closed.
pub proof fn law_first_answer(session_id: SessionID, event: ServerEvent)
    ensures
        first_answer(session_id, event) is Some <==> event is SrcClosed,
        first_answer(session_id, event) matches Some(message) ==> message
            == RtunCommunication::ClientRequest(session_id, ClientRequest::SrcApplicationIsClosed),
{
}

/// In a session that is connected to its application server, every packet is written to that
/// connection as it came. The application server is connected to only when there is no connection
/// yet, at the address of the manifest. Without either, the client is asked for a manifest.
pub proof fn law_packets<S>(info: ClientInfo<S>, payload: Vec<u8>, action: PacketAction)
    requires
        packet_action(info, payload, action),
    ensures
        info.application_stream is Some ==> action == PacketAction::Forward(payload),
        action is Forward ==> info.application_stream is Some,
        action is Connect <==> info.application_stream is None && info.manifest is Some,
        action matches PacketAction::Connect(address, data) ==> {
            &&& data == payload
            &&& address@ == info.manifest->0.address_chars()
        },
        action is Refuse <==> info.application_stream is None && info.manifest is None,
        action matches PacketAction::Refuse(message) ==> message
            == RtunCommunication::InvalidRequest(InvalidReason::PleaseRegisterManifestAtFirst),
{
}

/// What an event does to the sessions. A lost connection changes the state of the session from
/// established to suspended. The end of the client's application changes it to closed. A manifest is
/// taken when there is none, and else the one that is there stays. In everything else, and under any
/// other event, the session stays as it was, and so do all other sessions in any case.
pub proof fn law_event_changes<S>(
    before: Map<SessionID, ClientInfo<S>>,
    after: Map<SessionID, ClientInfo<S>>,
    id: SessionID,
    event: ServerEvent,
)
    requires
        before.contains_key(id),
        event_effect(before, after, id, event),
    ensures
        after.contains_key(id),
        after[id].session_id == before[id].session_id,
        after[id].application_stream == before[id].application_stream,
        event is ConnectionLost ==> before[id].state == RtunState::Established && after[id].state
            == RtunState::Suspended,
        event is SrcClosed ==> after[id].state == RtunState::Closed,
        event !is ConnectionLost && event !is SrcClosed ==> after[id].state == before[id].state,
        before[id].manifest is Some ==> after[id].manifest == before[id].manifest,
        event !is Manifest ==> after[id].manifest == before[id].manifest,
        event matches ServerEvent::Manifest(manifest) ==> before[id].manifest is None
            ==> after[id].manifest == Some(manifest),
        forall|other: SessionID|
            other != id ==> {
                &&& #[trigger] after.contains_key(other) <==> before.contains_key(other)
                &&& before.contains_key(other) ==> after[other] == before[other]
            },
{
}

/// What is left to do after an event. The connection to the application server is shut down exactly
/// when the client's application has ended and there is such a connection, whatever else the session
/// holds. A message is sent exactly when a second manifest came, and it says that the manifest
/// cannot be changed. Data is delivered exactly when it came, as the session has it.
pub proof fn law_event_leaves_to_do<S>(
    info: ClientInfo<S>,
    event: ServerEvent,
    action: ServerAction,
)
    requires
        event_action(info, event, action),
    ensures
        action is ShutDown <==> event is SrcClosed && info.application_stream is Some,
        action is Send <==> event is Manifest && info.manifest is Some,
        action matches ServerAction::Send(message) ==> message
            == RtunCommunication::InvalidRequest(InvalidReason::CanNotChangeManifest),
        action is Deliver <==> event is Packet,
        action matches ServerAction::Deliver(delivery) ==> {
            let payload = event->Packet_0;
            &&& info.application_stream is Some ==> delivery == PacketAction::Forward(payload)
            &&& info.application_stream is None && info.manifest is Some ==> {
                &&& delivery matches PacketAction::Connect(address, data)
                &&& data == payload
                &&& address@ == info.manifest->0.address_chars()
            }
            &&& info.application_stream is None && info.manifest is None ==> delivery
                == PacketAction::Refuse(
                RtunCommunication::InvalidRequest(InvalidReason::PleaseRegisterManifestAtFirst),
            )
        },
{
}

impl<S> ServerConnection<S> {
    /// What it means that `received` came from the client, or that nothing could be read.
    pub fn receive(&self, received: Option<RtunCommunication>) -> (event: ServerEvent)
        ensures
            event == match received {
                Some(message) => server_event(self.session_id, message),
                None => ServerEvent::ConnectionLost,
            },
    {
        match received {
            Some(RtunCommunication::Heartbeat(id)) => {
                if id == self.session_id {
                    ServerEvent::Heartbeat
                } else {
                    ServerEvent::Ignored
                }
            },
            Some(RtunCommunication::Packet(id, payload)) => {
                if id == self.session_id {
                    ServerEvent::Packet(payload)
                } else {
                    ServerEvent::Ignored
                }
            },
            Some(RtunCommunication::ServerRequest(id, request)) => {
                if id == self.session_id {
                    match request {
                        ServerRequest::RegisterManifest(manifest) => ServerEvent::Manifest(
                            manifest,
                        ),
                        ServerRequest::SrcApplicationIsClosed => ServerEvent::SrcClosed,
                    }
                } else {
                    ServerEvent::Ignored
                }
            },
            Some(RtunCommunication::InvalidRequest(_)) => ServerEvent::Ignored,
            Some(RtunCommunication::ClientRequest(_, _)) => ServerEvent::Ignored,
            None => ServerEvent::ConnectionLost,
        }
    }

    /// Decides what to do with data for the application server.
    pub fn on_packet(&self, store: &SessionStore<S>, payload: Vec<u8>) -> (action: PacketAction)
        requires
            self.serves(store@),
        ensures
            packet_action(store@[self.session_id], payload, action),
            action is Forward ==> self.app_stream is Some,
    {
        match store.get(&self.session_id) {
            Some(info) => {
                if info.application_stream.is_some() {
                    PacketAction::Forward(payload)
                } else {
                    match &info.manifest {
                        Some(manifest) => PacketAction::Connect(manifest.address(), payload),
                        None => PacketAction::Refuse(
                            RtunCommunication::InvalidRequest(
                                InvalidReason::PleaseRegisterManifestAtFirst,
                            ),
                        ),
                    }
                }
            },
            None => PacketAction::Forward(payload),
        }
    }

    /// Takes note that the application server was connected to, and hands out a clone of the
    /// stream for the one who reads from it.
    pub fn on_application_connected(&mut self, store: &mut SessionStore<S>, stream: S) -> (reader:
        S) where S: Clone
        requires
            old(store)@.contains_key(old(self).session_id),
            old(store)@[old(self).session_id].application_stream is None,
        ensures
            connects(old(store)@, final(store)@, old(self).session_id, stream),
            cloned(stream, reader),
            final(self).session_id == old(self).session_id,
            final(self).client_info == old(self).client_info,
            final(self).app_stream matches Some(own) && cloned(stream, own),
            final(self).serves(final(store)@),
    {
        self.app_stream = Some(stream.clone());
        let reader: S = stream.clone();
        match store.entry(self.session_id) {
            Entry::Occupied(entry) => {
                let info: &mut ClientInfo<S> = entry.into_mut();
                info.application_stream = Some(stream);
            },
            Entry::Vacant(_) => {},
        }
        reader
    }

    /// The message to the client when the application server cannot be connected to.
    pub fn on_application_unreachable(&self) -> (message: RtunCommunication)
        ensures
            message == RtunCommunication::InvalidRequest(
                InvalidReason::FailedToConnectApplicationServer,
            ),
    {
        RtunCommunication::InvalidRequest(InvalidReason::FailedToConnectApplicationServer)
    }

    /// Notes where the application server is; when that is already known, it stays as it is and
    /// the message to the client is returned.
    pub fn on_manifest(
        &self,
        store: &mut SessionStore<S>,
        manifest: ApplicationServerManifest,
    ) -> (message: Option<RtunCommunication>)
        requires
            old(store)@.contains_key(self.session_id),
        ensures
            match old(store)@[self.session_id].manifest {
                None => {
                    &&& message is None
                    &&& registers(old(store)@, final(store)@, self.session_id, manifest)
                },
                Some(_) => {
                    &&& message == Some(
                        RtunCommunication::InvalidRequest(InvalidReason::CanNotChangeManifest),
                    )
                    &&& final(store)@ == old(store)@
                },
            },
    {
        let message: Option<RtunCommunication> = match store.entry(self.session_id) {
            Entry::Occupied(entry) => {
                let info: &mut ClientInfo<S> = entry.into_mut();
                if info.manifest.is_none() {
                    info.manifest = Some(manifest);
                    None
                } else {
                    Some(RtunCommunication::InvalidRequest(InvalidReason::CanNotChangeManifest))
                }
            },
            Entry::Vacant(_) => None,
        };
        assert(message is Some ==> store@ =~= old(store)@);
        message
    }

    /// The message to the client that is sent before `event` is applied: a client whose
    /// application is gone is told so before its session is closed.
    pub fn answer_first(&self, event: &ServerEvent) -> (message: Option<RtunCommunication>)
        ensures
            message == first_answer(self.session_id, *event),
    {
        match event {
            ServerEvent::SrcClosed => Some(
                RtunCommunication::ClientRequest(
                    self.session_id,
                    ClientRequest::SrcApplicationIsClosed,
                ),
            ),
            _ => None,
        }
    }

    /// Closes the session, and hands out the connection to the application server, if there is
    /// one, to be shut down in both directions.
    pub fn close_session<'a>(&self, store: &'a mut SessionStore<S>) -> (stream: Option<&'a S>)
        requires
            old(store)@.contains_key(self.session_id),
        ensures
            closes(old(store)@, final(store)@, self.session_id),
            match old(store)@[self.session_id].application_stream {
                Some(s) => stream matches Some(r) && *r == s,
                None => stream is None,
            },
    {
        match store.entry(self.session_id) {
            Entry::Occupied(entry) => entry.into_mut().close(),
            Entry::Vacant(_) => None,
        }
    }

    /// Suspends the session after the connection was lost.
    pub fn on_connection_lost(&self, store: &mut SessionStore<S>)
        requires
            old(store)@.contains_key(self.session_id),
            old(store)@[self.session_id].state == RtunState::Established,
        ensures
            suspends(old(store)@, final(store)@, self.session_id),
    {
        match store.entry(self.session_id) {
            Entry::Occupied(entry) => {
                entry.into_mut().suspend();
            },
            Entry::Vacant(_) => {},
        }
    }

    /// Applies `event` to the sessions, and says what is left to do.
    pub fn apply(&self, store: &mut SessionStore<S>, event: ServerEvent) -> (action: ServerAction)
        requires
            old(store)@.contains_key(self.session_id),
            event is Packet ==> self.serves(old(store)@),
            event is ConnectionLost ==> old(store)@[self.session_id].state
                == RtunState::Established,
        ensures
            event_effect(old(store)@, final(store)@, self.session_id, event),
            event_action(old(store)@[self.session_id], event, action),
            action matches ServerAction::Deliver(PacketAction::Forward(_))
                ==> self.app_stream is Some,
            self.serves(old(store)@) ==> self.serves(final(store)@),
    {
        match event {
            ServerEvent::ConnectionLost => {
                self.on_connection_lost(store);
                ServerAction::Nothing
            },
            ServerEvent::Packet(payload) => ServerAction::Deliver(self.on_packet(store, payload)),
            ServerEvent::Manifest(manifest) => match self.on_manifest(store, manifest) {
                Some(message) => ServerAction::Send(message),
                None => ServerAction::Nothing,
            },
            ServerEvent::SrcClosed => {
                if self.close_session(store).is_some() {
                    ServerAction::ShutDown
                } else {
                    ServerAction::Nothing
                }
            },
            ServerEvent::Ignored | ServerEvent::Heartbeat => ServerAction::Nothing,
        }
    }
}

/// The next heartbeat to send; `None` when the one who sends heartbeats was told to stop.
pub fn next_heartbeat(session_id: SessionID, told_to_stop: bool) -> (message: Option<
    RtunCommunication,
>)
    ensures
        message == if told_to_stop {
            None
        } else {
            Some(RtunCommunication::Heartbeat(session_id))
        },
{
    if told_to_stop {
        None
    } else {
        Some(RtunCommunication::Heartbeat(session_id))
    }
}

/// What to do after reading from the application server.
#[derive(Debug, PartialEq, Eq)]
pub enum ApplicationAction {
    /// Send the message and read on.
    Send(RtunCommunication),
    /// Stop reading: the application server is gone.
    Stop,
    /// Read again after a pause.
    TryAgain,
}

/// `action` is what to do after `read` came from the application server, or after the read failed.
pub open spec fn application_action(
    session_id: SessionID,
    read: Option<Seq<u8>>,
    action: ApplicationAction,
) -> bool {
    match read {
        None => action == ApplicationAction::TryAgain,
        Some(data) => if data.len() == 0 {
            action == ApplicationAction::Stop
        } else {
            &&& action matches ApplicationAction::Send(RtunCommunication::Packet(id, payload))
            &&& id == session_id
            &&& payload@ == data
        },
    }
}

/// Decides what to do after reading from the application server: `read` is how many bytes came,
/// the first ones of `buf`, or `None` when the read failed. Nothing read means that the application
/// server is gone; a failed read means nothing.
pub fn on_application_data(session_id: SessionID, buf: &[u8], read: Option<usize>) -> (action:
    ApplicationAction)
    requires
        read matches Some(n) ==> n <= buf@.len(),
    ensures
        match read {
            None => action == ApplicationAction::TryAgain,
            Some(0) => action == ApplicationAction::Stop,
            Some(n) => {
                &&& action matches ApplicationAction::Send(RtunCommunication::Packet(id, payload))
                &&& id == session_id
                &&& payload@ == buf@.take(n as int)
            },
        },
        application_action(
            session_id,
            match read {
                Some(n) => Some(buf@.take(n as int)),
                None => None,
            },
            action,
        ),
{
    match read {
        None => ApplicationAction::TryAgain,
        Some(n) => {
            if n == 0 {
                ApplicationAction::Stop
            } else {
                ApplicationAction::Send(
                    RtunCommunication::Packet(
                        session_id,
                        slice_to_vec(slice_subrange(buf, 0, n)),
                    ),
                )
            }
        },
    }
}

} // verus!
