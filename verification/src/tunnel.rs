//! What holds of a client and a server together.

use crate::client::{
    client_hears_nothing, client_receives, client_round, connection_request_for,
    negotiation_result, opening_for, round_needs_time, session_after, silence_limit, src_action,
    ClientAction, ClientSession, ConnectionBreakReason, SrcAction,
};
use crate::clock::Timestamp;
use crate::protocol::{
    ApplicationServerManifest, ClientRequest, RtunCommunication, RtunServerNegReq,
    RtunServerNegRes, ServerRequest, SessionID, HEARTBEAT_INTERVAL_MILLIS, PROTOCOL_VER,
    RTUN_COM_TIMEOUT_MILLIS,
};
use crate::server::{
    application_action, control_after, event_action, event_effect, first_answer, negotiated,
    negotiation_reply, packet_action, server_event, ApplicationAction, LoopControl, PacketAction,
    ServerAction, ServerConnection, ServerEvent,
};
use crate::session::{
    connects, law_resume_undoes_suspend, law_run_progresses, opens, registers, session_step,
    store_run, store_step, store_wf, suspends, ClientInfo, RtunState,
};
use vstd::prelude::*;

verus! {

/// A client without a session gets the new session that the server opens for it.
pub proof fn law_new_client_gets_a_session<S>(
    before: Map<SessionID, ClientInfo<S>>,
    after: Map<SessionID, ClientInfo<S>>,
    fresh_id: SessionID,
)
    requires
        !before.contains_key(fresh_id),
        negotiated(
            before,
            after,
            connection_request_for(None),
            negotiation_reply(before, connection_request_for(None), fresh_id),
        ),
    ensures
        negotiation_result(negotiation_reply(before, connection_request_for(None), fresh_id))
            == Ok::<_, crate::client::NegotiationError>(fresh_id),
        opens(before, after, fresh_id),
{
}

/// A lost connection is resumed. A client that can no longer send, or that has heard nothing for six
/// seconds after a heartbeat, leaves the connection; its next request asks for the session that it
/// was in; and when the server has suspended that session, the request is granted, and the server's
/// sessions are as they were before the loss.
pub proof fn law_lost_connection_is_resumed<S>(
    session: ClientSession,
    is_active: bool,
    received: Option<RtunCommunication>,
    now: Timestamp,
    asked_before: Option<SessionID>,
    before: Map<SessionID, ClientInfo<S>>,
    suspended: Map<SessionID, ClientInfo<S>>,
    after: Map<SessionID, ClientInfo<S>>,
    fresh_id: SessionID,
)
    requires
        store_wf(before),
        suspends(before, suspended, session.session_id),
        !is_active || (received is None && session.last_hb_recv is Some && now.since(
            session.last_hb_recv->0,
        ) >= 6_000_000_000),
        ({
            let request = connection_request_for(Some(session.session_id));
            negotiated(
                suspended,
                after,
                request,
                negotiation_reply(suspended, request, fresh_id),
            )
        }),
    ensures
        client_round(session, is_active, received, now).0 == session,
        client_round(session, is_active, received, now).1 == ClientAction::Disconnect(
            ConnectionBreakReason::RtunServerTimeout(session.session_id),
        ),
        session_after(
            asked_before,
            ConnectionBreakReason::RtunServerTimeout(session.session_id),
        ) == Some(session.session_id),
        connection_request_for(Some(session.session_id)) == RtunServerNegReq::ResumeConnection(
            PROTOCOL_VER,
            session.session_id,
        ),
        ({
            let request = connection_request_for(Some(session.session_id));
            negotiation_result(negotiation_reply(suspended, request, fresh_id)) == Ok::<
                _,
                crate::client::NegotiationError,
            >(session.session_id)
        }),
        after == before,
{
    law_resume_undoes_suspend(before, suspended, after, session.session_id);
}

/// A session just opened survives the loss of its connection: the server suspends it, the request to
/// resume it is granted, and it is again as it was opened, whatever other sessions there are.
pub proof fn law_new_session_survives_a_loss<S>(
    before: Map<SessionID, ClientInfo<S>>,
    opened: Map<SessionID, ClientInfo<S>>,
    lost: Map<SessionID, ClientInfo<S>>,
    after: Map<SessionID, ClientInfo<S>>,
    id: SessionID,
    fresh_id: SessionID,
)
    requires
        negotiated(
            before,
            opened,
            connection_request_for(None),
            RtunServerNegRes::Established(id),
        ),
        event_effect(opened, lost, id, ServerEvent::ConnectionLost),
        negotiated(
            lost,
            after,
            connection_request_for(Some(id)),
            negotiation_reply(lost, connection_request_for(Some(id)), fresh_id),
        ),
    ensures
        opened[id].state == RtunState::Established,
        lost[id].state == RtunState::Suspended,
        negotiation_reply(lost, connection_request_for(Some(id)), fresh_id)
            == RtunServerNegRes::Established(id),
        after == opened,
{
    law_resume_undoes_suspend(opened, lost, after, id);
}

/// Once a session is connected to its application server, every later packet of it is written to
/// that connection, unchanged, and the connection is never exchanged for another, whatever happens
/// to the server in between.
pub proof fn law_connected_session_forwards<S>(
    trace: Seq<Map<SessionID, ClientInfo<S>>>,
    from: int,
    to: int,
    id: SessionID,
    stream: S,
    payload: Vec<u8>,
    action: ServerAction,
)
    requires
        store_run(trace),
        0 <= from < to < trace.len(),
        connects(trace[from], trace[from + 1], id, stream),
        event_action(trace[to][id], ServerEvent::Packet(payload), action),
    ensures
        trace[to][id].application_stream == Some(stream),
        action == ServerAction::Deliver(PacketAction::Forward(payload)),
{
    law_run_progresses(trace, from + 1, to, id);
}

/// When the client's application ends, a session that was ever connected to its application server
/// has that connection shut down, whatever happened to the server in between.
pub proof fn law_end_shuts_down<S>(
    trace: Seq<Map<SessionID, ClientInfo<S>>>,
    from: int,
    to: int,
    id: SessionID,
    stream: S,
    action: ServerAction,
)
    requires
        store_run(trace),
        0 <= from < to < trace.len(),
        connects(trace[from], trace[from + 1], id, stream),
        event_action(trace[to][id], ServerEvent::SrcClosed, action),
    ensures
        trace[to][id].application_stream == Some(stream),
        action == ServerAction::ShutDown,
{
    law_run_progresses(trace, from + 1, to, id);
}

/// What the client's application writes reaches the application server: the client sends it, the
/// server understands it, and what the server delivers is what was written.
pub proof fn law_src_data_is_delivered<S>(
    session_id: SessionID,
    data: Seq<u8>,
    sent: SrcAction,
    info: ClientInfo<S>,
    action: ServerAction,
)
    requires
        data.len() > 0,
        src_action(session_id, data, sent),
        sent is Send ==> event_action(info, server_event(session_id, sent->Send_0), action),
    ensures
        sent is Send,
        info.application_stream is Some ==> (action matches ServerAction::Deliver(
            PacketAction::Forward(payload),
        ) && payload@ == data),
        info.application_stream is None && info.manifest is Some ==> (
        action matches ServerAction::Deliver(PacketAction::Connect(_, payload)) && payload@ == data
        ),
{
}

/// What the application server writes reaches the client's application: the server sends it, and
/// the client writes it out as it was written. A failed read sends nothing and ends nothing; the
/// end of the data sends nothing and ends the reading.
pub proof fn law_application_data_is_delivered(
    session: ClientSession,
    read: Option<Seq<u8>>,
    sent: ApplicationAction,
    now: Timestamp,
)
    requires
        application_action(session.session_id, read, sent),
    ensures
        sent is TryAgain <==> read is None,
        sent is Stop <==> read == Some(Seq::<u8>::empty()),
        sent matches ApplicationAction::Send(message) ==> {
            let (after, action) = client_round(session, true, Some(message), now);
            &&& after == session
            &&& action matches ClientAction::WriteToSrc(payload)
            &&& Some(payload@) == read
        },
{
    if let Some(data) = read {
        if data.len() == 0 {
            assert(data =~= Seq::empty());
        }
    }
}

/// The end of the client's application is told to the server, which takes it for just that, and
/// nothing more is read from the application.
pub proof fn law_src_end_is_told(session_id: SessionID, sent: SrcAction)
    requires
        src_action(session_id, Seq::empty(), sent),
    ensures
        sent matches SrcAction::SendAndStop(message) && server_event(session_id, message)
            == ServerEvent::SrcClosed,
{
}

/// The message that opens a session has its manifest registered: the server understands it, and the
/// session then has that manifest.
pub proof fn law_opening_registers<S>(
    before: Map<SessionID, ClientInfo<S>>,
    after: Map<SessionID, ClientInfo<S>>,
    id: SessionID,
    manifest: ApplicationServerManifest,
)
    requires
        before.contains_key(id),
        before[id].manifest is None,
        opening_for(id, None, manifest) is Some,
        event_effect(
            before,
            after,
            id,
            server_event(id, opening_for(id, None, manifest)->0),
        ),
    ensures
        after[id].manifest == Some(manifest),
{
}

/// A refused negotiation changes nothing at the server, and the client learns of the refusal.
pub proof fn law_refusal_changes_nothing<S>(
    before: Map<SessionID, ClientInfo<S>>,
    after: Map<SessionID, ClientInfo<S>>,
    request: RtunServerNegReq,
    reply: RtunServerNegRes,
)
    requires
        negotiated(before, after, request, reply),
        reply !is Established,
    ensures
        after == before,
        negotiation_result(reply) is Err,
{
}

/// A request for a new session is refused for the version alone. A request to resume is refused
/// for the version first, then for an unknown session, then for a session that is not suspended.
pub proof fn law_refusals<S>(
    store: Map<SessionID, ClientInfo<S>>,
    version: u64,
    id: SessionID,
    fresh_id: SessionID,
)
    requires
        store_wf(store),
    ensures
        ({
            let reply = negotiation_reply(
                store,
                RtunServerNegReq::NewConnection(version),
                fresh_id,
            );
            &&& reply == RtunServerNegRes::ProtocolVersionMismatched <==> version != PROTOCOL_VER
            &&& reply == RtunServerNegRes::Established(fresh_id) <==> version == PROTOCOL_VER
        }),
        ({
            let reply = negotiation_reply(
                store,
                RtunServerNegReq::ResumeConnection(version, id),
                fresh_id,
            );
            let known = store.contains_key(id);
            &&& reply == RtunServerNegRes::ProtocolVersionMismatched <==> version != PROTOCOL_VER
            &&& reply == RtunServerNegRes::InvalidSessionID <==> version == PROTOCOL_VER && !known
            &&& reply == RtunServerNegRes::ResumeFailed <==> version == PROTOCOL_VER && known
                && store[id].state != RtunState::Suspended
            &&& reply == RtunServerNegRes::Established(id) <==> version == PROTOCOL_VER && known
                && store[id].state == RtunState::Suspended
        }),
{
}

/// Every negotiation is one step of the server's sessions, or none.
pub proof fn law_negotiation_is_a_step<S>(
    before: Map<SessionID, ClientInfo<S>>,
    after: Map<SessionID, ClientInfo<S>>,
    request: RtunServerNegReq,
    reply: RtunServerNegRes,
)
    requires
        negotiated(before, after, request, reply),
    ensures
        store_step(before, after),
{
    if let RtunServerNegRes::Established(id) = reply {
        assert(session_step(before, after, id));
    }
}

/// Every event of a connection is one step of the server's sessions, or none, and leaves the other
/// sessions alone. Only a lost connection, a first manifest and the end of the client's application
/// change anything at all.
pub proof fn law_event_is_a_step<S>(
    before: Map<SessionID, ClientInfo<S>>,
    after: Map<SessionID, ClientInfo<S>>,
    id: SessionID,
    event: ServerEvent,
)
    requires
        before.contains_key(id),
        event_effect(before, after, id, event),
    ensures
        store_step(before, after),
        after.remove(id) == before.remove(id),
        after != before ==> match event {
            ServerEvent::ConnectionLost | ServerEvent::SrcClosed => true,
            ServerEvent::Manifest(_) => before[id].manifest is None,
            _ => false,
        },
{
    if after != before {
        assert(session_step(before, after, id));
    }
    assert(after.remove(id) =~= before.remove(id));
}

/// What a client sends for another session, and what is no message for a server, changes nothing at
/// the server and asks for nothing.
pub proof fn law_ignored_messages_have_no_effect<S>(
    before: Map<SessionID, ClientInfo<S>>,
    after: Map<SessionID, ClientInfo<S>>,
    id: SessionID,
    message: RtunCommunication,
    action: ServerAction,
)
    requires
        match message {
            RtunCommunication::Heartbeat(other) => other != id,
            RtunCommunication::Packet(other, _) => other != id,
            RtunCommunication::ServerRequest(other, _) => other != id,
            RtunCommunication::ClientRequest(_, _) => true,
            RtunCommunication::InvalidRequest(_) => true,
        },
        event_effect(before, after, id, server_event(id, message)),
        event_action(before[id], server_event(id, message), action),
    ensures
        after == before,
        action is Nothing,
        first_answer(id, server_event(id, message)) is None,
        control_after(server_event(id, message)) == LoopControl::ReadOn,
{
}

/// A lost connection can be resumed: the event that tells the server of the loss leaves the session
/// in a state in which the request of its client to resume is granted.
pub proof fn law_loss_leaves_session_resumable<S>(
    before: Map<SessionID, ClientInfo<S>>,
    after: Map<SessionID, ClientInfo<S>>,
    id: SessionID,
    fresh_id: SessionID,
)
    requires
        store_wf(before),
        event_effect(before, after, id, ServerEvent::ConnectionLost),
    ensures
        negotiation_reply(after, connection_request_for(Some(id)), fresh_id)
            == RtunServerNegRes::Established(id),
{
}

/// A session that was closed is never resumed, whatever happens to the server afterwards.
pub proof fn law_closed_session_is_not_resumed<S>(
    trace: Seq<Map<SessionID, ClientInfo<S>>>,
    from: int,
    to: int,
    id: SessionID,
    fresh_id: SessionID,
)
    requires
        store_run(trace),
        0 <= from <= to < trace.len(),
        trace[from].contains_key(id),
        trace[from][id].state == RtunState::Closed,
    ensures
        negotiation_reply(trace[to], connection_request_for(Some(id)), fresh_id)
            == RtunServerNegRes::ResumeFailed,
{
    law_run_progresses(trace, from, to, id);
}

/// Once a session has a manifest, its data is never refused for want of one, and a connection that
/// is made goes to that manifest's address, whatever happens to the server in between.
pub proof fn law_registered_manifest_is_used<S>(
    trace: Seq<Map<SessionID, ClientInfo<S>>>,
    from: int,
    to: int,
    id: SessionID,
    manifest: ApplicationServerManifest,
    payload: Vec<u8>,
    action: PacketAction,
)
    requires
        store_run(trace),
        0 <= from < to < trace.len(),
        registers(trace[from], trace[from + 1], id, manifest),
        packet_action(trace[to][id], payload, action),
    ensures
        action !is Refuse,
        action matches PacketAction::Connect(address, data) ==> address@
            == manifest.address_chars() && data == payload,
        action matches PacketAction::Forward(data) ==> data == payload,
{
    law_run_progresses(trace, from + 1, to, id);
}

/// Data passes unchanged to the other end in both directions.
pub proof fn law_data_passes(session: ClientSession, payload: Vec<u8>, now: Timestamp)
    ensures
        server_event(
            session.session_id,
            RtunCommunication::Packet(session.session_id, payload),
        ) == ServerEvent::Packet(payload),
        client_receives(
            session,
            RtunCommunication::Packet(session.session_id, payload),
            now,
        ) == (session, ClientAction::WriteToSrc(payload)),
{
}

/// Neither end acts on a message of another session.
pub proof fn law_other_sessions_are_ignored(
    session: ClientSession,
    other: SessionID,
    payload: Vec<u8>,
    request: ServerRequest,
    now: Timestamp,
)
    requires
        other != session.session_id,
    ensures
        server_event(session.session_id, RtunCommunication::Heartbeat(other))
            == ServerEvent::Ignored,
        server_event(session.session_id, RtunCommunication::Packet(other, payload))
            == ServerEvent::Ignored,
        server_event(session.session_id, RtunCommunication::ServerRequest(other, request))
            == ServerEvent::Ignored,
        client_receives(session, RtunCommunication::Heartbeat(other), now) == (
            session,
            ClientAction::Continue,
        ),
        client_receives(session, RtunCommunication::Packet(other, payload), now) == (
            session,
            ClientAction::Continue,
        ),
        client_receives(
            session,
            RtunCommunication::ClientRequest(other, ClientRequest::SrcApplicationIsClosed),
            now,
        ) == (session, ClientAction::Continue),
{
}

/// The end of the application reaches the server, and the server's answer to it ends the client's
/// connection; once the server has applied it, the session is closed.
pub proof fn law_closing_handshake<S>(
    session: ClientSession,
    now: Timestamp,
    before: Map<SessionID, ClientInfo<S>>,
    after: Map<SessionID, ClientInfo<S>>,
)
    requires
        event_effect(before, after, session.session_id, ServerEvent::SrcClosed),
    ensures
        ({
            let event = server_event(
                session.session_id,
                RtunCommunication::ServerRequest(
                    session.session_id,
                    ServerRequest::SrcApplicationIsClosed,
                ),
            );
            &&& event == ServerEvent::SrcClosed
            &&& first_answer(session.session_id, event) matches Some(answer)
            &&& client_receives(session, answer, now) == (
                session,
                ClientAction::Disconnect(ConnectionBreakReason::SrcIsClosed),
            )
        }),
        after[session.session_id].state == RtunState::Closed,
{
}

/// The time makes no difference to a round that does not rest on it.
pub proof fn law_time_matters_only_when_needed(
    session: ClientSession,
    is_active: bool,
    received: Option<RtunCommunication>,
    a: Timestamp,
    b: Timestamp,
)
    requires
        !round_needs_time(session, is_active, received),
    ensures
        client_round(session, is_active, received, a) == client_round(
            session,
            is_active,
            received,
            b,
        ),
{
}

/// A client that could not reach the server asks for the same thing next time.
pub proof fn law_unreachable_server_is_asked_again(session_id: Option<SessionID>)
    ensures
        connection_request_for(
            session_after(session_id, ConnectionBreakReason::RtunServerUnreachable),
        ) == connection_request_for(session_id),
{
}

/// A client whose heartbeats get through leaves a silent server exactly when the last heartbeat is
/// at least the time limit old; without any heartbeat it waits for ever.
pub proof fn law_patience(session: ClientSession, now: Timestamp)
    ensures
        client_round(session, true, None, now).0 == session,
        client_round(session, true, None, now).1 == ClientAction::Disconnect(
            ConnectionBreakReason::RtunServerTimeout(session.session_id),
        ) <==> session.last_hb_recv is Some && now.since(session.last_hb_recv->0)
            >= silence_limit(),
        client_round(session, true, None, now).1 == ClientAction::ClockWentBack
            <==> session.last_hb_recv is Some && now.since(session.last_hb_recv->0) < 0,
{
}

/// A heartbeat starts the client's patience anew.
pub proof fn law_heartbeat_renews_patience(
    session: ClientSession,
    heard: Timestamp,
    now: Timestamp,
)
    requires
        0 <= now.since(heard) < silence_limit(),
    ensures
        client_hears_nothing(
            client_receives(
                session,
                RtunCommunication::Heartbeat(session.session_id),
                heard,
            ).0,
            now,
        ) == ClientAction::Continue,
{
}

/// Four heartbeat intervals make up the time after which an end counts as silent.
pub proof fn law_heartbeat_interval()
    ensures
        4 * HEARTBEAT_INTERVAL_MILLIS == RTUN_COM_TIMEOUT_MILLIS,
{
}

/// A connection keeps serving its session, whatever happens to the server, as long as no other
/// connection connects the session to its application server.
pub proof fn law_connection_keeps_serving<S>(
    connection: ServerConnection<S>,
    before: Map<SessionID, ClientInfo<S>>,
    after: Map<SessionID, ClientInfo<S>>,
)
    requires
        connection.serves(before),
        store_step(before, after),
        forall|stream: S| !connects(before, after, connection.session_id, stream),
    ensures
        connection.serves(after),
{
}

} // verus!
