use rtun::server::{
    negotiate, negotiate_with, next_heartbeat, on_application_data, ApplicationAction, LoopControl,
    PacketAction, ServerAction, ServerConnection, ServerEvent,
};
use rtun::{
    ApplicationServerManifest, ClientInfo, ClientRequest, InvalidReason, RandomNumbers,
    RtunCommunication, RtunServerNegReq, RtunServerNegRes, RtunState, ServerRequest, SessionStore, PROTOCOL_VER,
};

fn manifest(port: u16) -> ApplicationServerManifest {
    ApplicationServerManifest { ipaddr: "127.0.0.1".to_string(), port }
}

/// Negotiates with numbers of a new source.
fn negotiated(
    store: &mut SessionStore<u32>,
    request: RtunServerNegReq,
) -> (RtunServerNegRes, Option<ServerConnection<u32>>) {
    negotiate(store, request, &mut RandomNumbers::new()).unwrap()
}

/// A server with the established session 42 and its connection.
fn established() -> (SessionStore<u32>, ServerConnection<u32>) {
    let mut store = SessionStore::new();
    let request = RtunServerNegReq::NewConnection(PROTOCOL_VER);
    let (reply, connection) = negotiate_with(&mut store, request, 42);
    assert_eq!(reply, RtunServerNegRes::Established(42));
    (store, connection.unwrap())
}

#[test]
fn new_connection_opens_a_session() {
    let mut store: SessionStore<u32> = SessionStore::new();
    let request = RtunServerNegReq::NewConnection(PROTOCOL_VER);
    let (reply, connection) = negotiated(&mut store, request);
    let connection = connection.unwrap();
    let id = connection.session_id;
    assert_eq!(reply, RtunServerNegRes::Established(id));
    assert_eq!(store.len(), 1);
    assert_eq!(store[&id].session_id, id);
    assert_eq!(store[&id].state, RtunState::Established);
    assert!(store[&id].manifest.is_none());
    assert!(connection.app_stream.is_none());
}

#[test]
fn new_connections_get_different_sessions() {
    let mut store: SessionStore<u32> = SessionStore::new();
    for _ in 0..100 {
        negotiated(&mut store, RtunServerNegReq::NewConnection(PROTOCOL_VER));
    }
    assert_eq!(store.len(), 100);
}

#[test]
fn wrong_version_is_refused() {
    let (mut store, connection) = established();
    connection.on_connection_lost(&mut store);
    for request in [
        RtunServerNegReq::NewConnection(PROTOCOL_VER + 1),
        RtunServerNegReq::NewConnection(0),
        RtunServerNegReq::ResumeConnection(PROTOCOL_VER + 1, 42),
        RtunServerNegReq::ResumeConnection(0, 1),
    ] {
        let (reply, connection) = negotiated(&mut store, request);
        assert_eq!(reply, RtunServerNegRes::ProtocolVersionMismatched);
        assert!(connection.is_none());
    }
    assert_eq!(store.len(), 1);
    assert_eq!(store[&42].state, RtunState::Suspended);
}

#[test]
fn unknown_session_is_refused() {
    let (mut store, _) = established();
    let (reply, connection) =
        negotiated(&mut store, RtunServerNegReq::ResumeConnection(PROTOCOL_VER, 43));
    assert_eq!(reply, RtunServerNegRes::InvalidSessionID);
    assert!(connection.is_none());
    assert_eq!(store.len(), 1);
}

#[test]
fn established_session_is_not_taken_over() {
    let (mut store, _) = established();
    let (reply, connection) =
        negotiated(&mut store, RtunServerNegReq::ResumeConnection(PROTOCOL_VER, 42));
    assert_eq!(reply, RtunServerNegRes::ResumeFailed);
    assert!(connection.is_none());
    assert_eq!(store[&42].state, RtunState::Established);
}

#[test]
fn lost_session_is_resumed_with_its_stream() {
    let (mut store, mut connection) = established();
    connection.on_manifest(&mut store, manifest(5000));
    connection.on_application_connected(&mut store, 7);
    connection.on_connection_lost(&mut store);
    assert_eq!(store[&42].state, RtunState::Suspended);
    let (reply, resumed) =
        negotiated(&mut store, RtunServerNegReq::ResumeConnection(PROTOCOL_VER, 42));
    assert_eq!(reply, RtunServerNegRes::Established(42));
    let resumed = resumed.unwrap();
    assert_eq!(resumed.session_id, 42);
    assert_eq!(resumed.app_stream, Some(7));
    assert_eq!(resumed.client_info.manifest, Some(manifest(5000)));
    assert_eq!(store[&42].state, RtunState::Established);
    assert_eq!(store[&42].application_stream, Some(7));
    assert_eq!(resumed.on_packet(&store, vec![1]), PacketAction::Forward(vec![1]));
}

#[test]
fn closed_session_is_never_resumed() {
    let (mut store, connection) = established();
    assert!(connection.close_session(&mut store).is_none());
    assert_eq!(store[&42].state, RtunState::Closed);
    let (reply, _) = negotiated(&mut store, RtunServerNegReq::ResumeConnection(PROTOCOL_VER, 42));
    assert_eq!(reply, RtunServerNegRes::ResumeFailed);
    assert_eq!(store[&42].state, RtunState::Closed);
}

#[test]
fn only_the_own_session_is_touched() {
    let (mut store, connection) = established();
    store.insert(1, ClientInfo::new(1, RtunState::Suspended));
    connection.on_manifest(&mut store, manifest(5000));
    connection.on_connection_lost(&mut store);
    assert_eq!(store[&1].state, RtunState::Suspended);
    assert!(store[&1].manifest.is_none());
    assert_eq!(store[&42].state, RtunState::Suspended);
}

#[test]
fn messages_of_the_session_are_events() {
    let (_, connection) = established();
    assert_eq!(connection.receive(Some(RtunCommunication::Heartbeat(42))), ServerEvent::Heartbeat);
    assert_eq!(
        connection.receive(Some(RtunCommunication::Packet(42, vec![1, 2]))),
        ServerEvent::Packet(vec![1, 2])
    );
    let register = ServerRequest::RegisterManifest(manifest(80));
    assert_eq!(
        connection.receive(Some(RtunCommunication::ServerRequest(42, register))),
        ServerEvent::Manifest(manifest(80))
    );
    assert_eq!(
        connection.receive(Some(RtunCommunication::ServerRequest(
            42,
            ServerRequest::SrcApplicationIsClosed
        ))),
        ServerEvent::SrcClosed
    );
}

#[test]
fn other_messages_are_ignored() {
    let (_, connection) = established();
    for message in [
        RtunCommunication::Heartbeat(41),
        RtunCommunication::Packet(41, vec![1]),
        RtunCommunication::ServerRequest(41, ServerRequest::SrcApplicationIsClosed),
        RtunCommunication::ServerRequest(41, ServerRequest::RegisterManifest(manifest(80))),
        RtunCommunication::ClientRequest(42, ClientRequest::SrcApplicationIsClosed),
        RtunCommunication::InvalidRequest(InvalidReason::CanNotChangeManifest),
    ] {
        assert_eq!(connection.receive(Some(message)), ServerEvent::Ignored);
    }
}

#[test]
fn unreadable_stream_is_a_lost_connection() {
    let (_, connection) = established();
    assert_eq!(connection.receive(None), ServerEvent::ConnectionLost);
}

#[test]
fn only_the_ends_stop_the_heartbeat() {
    assert_eq!(ServerEvent::ConnectionLost.control(), LoopControl::StopHeartbeatAndLeave);
    assert_eq!(ServerEvent::SrcClosed.control(), LoopControl::StopHeartbeatAndReadOn);
    assert_eq!(ServerEvent::Ignored.control(), LoopControl::ReadOn);
    assert_eq!(ServerEvent::Heartbeat.control(), LoopControl::ReadOn);
    assert_eq!(ServerEvent::Packet(vec![1]).control(), LoopControl::ReadOn);
    assert_eq!(ServerEvent::Manifest(manifest(80)).control(), LoopControl::ReadOn);
}

#[test]
fn packet_without_manifest_is_refused() {
    let (store, connection) = established();
    assert_eq!(
        connection.on_packet(&store, vec![1]),
        PacketAction::Refuse(RtunCommunication::InvalidRequest(
            InvalidReason::PleaseRegisterManifestAtFirst
        ))
    );
}

#[test]
fn first_packet_connects_and_later_ones_are_forwarded() {
    let (mut store, mut connection) = established();
    assert!(connection.on_manifest(&mut store, manifest(5000)).is_none());
    assert_eq!(
        connection.on_packet(&store, vec![1]),
        PacketAction::Connect("127.0.0.1:5000".to_string(), vec![1])
    );
    assert_eq!(connection.on_application_connected(&mut store, 7), 7);
    assert_eq!(connection.app_stream, Some(7));
    assert_eq!(store[&42].application_stream, Some(7));
    assert_eq!(connection.on_packet(&store, vec![2]), PacketAction::Forward(vec![2]));
}

#[test]
fn unreachable_application_server_is_reported() {
    let (_, connection) = established();
    assert_eq!(
        connection.on_application_unreachable(),
        RtunCommunication::InvalidRequest(InvalidReason::FailedToConnectApplicationServer)
    );
}

#[test]
fn manifest_cannot_be_changed() {
    let (mut store, connection) = established();
    assert_eq!(connection.on_manifest(&mut store, manifest(5000)), None);
    assert_eq!(
        connection.on_manifest(&mut store, manifest(6000)),
        Some(RtunCommunication::InvalidRequest(InvalidReason::CanNotChangeManifest))
    );
    assert_eq!(store[&42].manifest, Some(manifest(5000)));
}

#[test]
fn closing_answers_the_client_and_hands_out_the_stream() {
    let (mut store, mut connection) = established();
    connection.on_application_connected(&mut store, 7);
    assert_eq!(
        connection.answer_first(&ServerEvent::SrcClosed),
        Some(RtunCommunication::ClientRequest(42, ClientRequest::SrcApplicationIsClosed))
    );
    assert_eq!(store[&42].state, RtunState::Established);
    assert_eq!(connection.close_session(&mut store), Some(&7));
    assert_eq!(store[&42].state, RtunState::Closed);
}

#[test]
fn heartbeats_go_on_until_told_to_stop() {
    assert_eq!(next_heartbeat(42, false), Some(RtunCommunication::Heartbeat(42)));
    assert_eq!(next_heartbeat(42, true), None);
}

#[test]
fn application_data_becomes_a_packet() {
    let buf = [1, 2, 3, 0, 0];
    assert_eq!(
        on_application_data(42, &buf, Some(3)),
        ApplicationAction::Send(RtunCommunication::Packet(42, vec![1, 2, 3]))
    );
    assert_eq!(
        on_application_data(42, &buf, Some(5)),
        ApplicationAction::Send(RtunCommunication::Packet(42, vec![1, 2, 3, 0, 0]))
    );
    assert_eq!(on_application_data(42, &buf, Some(0)), ApplicationAction::Stop);
    assert_eq!(on_application_data(42, &buf, None), ApplicationAction::TryAgain);
}

#[test]
fn only_the_end_of_the_application_is_answered_first() {
    let (_, connection) = established();
    for event in [
        ServerEvent::ConnectionLost,
        ServerEvent::Ignored,
        ServerEvent::Heartbeat,
        ServerEvent::Packet(vec![1]),
        ServerEvent::Manifest(manifest(80)),
    ] {
        assert_eq!(connection.answer_first(&event), None);
    }
}

#[test]
fn lost_connection_suspends() {
    let (mut store, connection) = established();
    store.insert(1, ClientInfo::new(1, RtunState::Established));
    assert_eq!(connection.apply(&mut store, ServerEvent::ConnectionLost), ServerAction::Nothing);
    assert_eq!(store[&42].state, RtunState::Suspended);
    assert_eq!(store[&1].state, RtunState::Established);
    let (reply, _) = negotiated(&mut store, RtunServerNegReq::ResumeConnection(PROTOCOL_VER, 42));
    assert_eq!(reply, RtunServerNegRes::Established(42));
}

#[test]
fn manifest_is_registered_once() {
    let (mut store, connection) = established();
    assert_eq!(
        connection.apply(&mut store, ServerEvent::Manifest(manifest(5000))),
        ServerAction::Nothing
    );
    assert_eq!(
        connection.apply(&mut store, ServerEvent::Manifest(manifest(6000))),
        ServerAction::Send(RtunCommunication::InvalidRequest(InvalidReason::CanNotChangeManifest))
    );
    assert_eq!(store[&42].manifest, Some(manifest(5000)));
    assert_eq!(store[&42].state, RtunState::Established);
}

#[test]
fn end_of_the_application_closes() {
    let (mut store, mut connection) = established();
    connection.on_application_connected(&mut store, 7);
    assert_eq!(connection.apply(&mut store, ServerEvent::SrcClosed), ServerAction::ShutDown);
    assert_eq!(store[&42].state, RtunState::Closed);
    assert_eq!(store[&42].application_stream, Some(7));

    let (mut store, connection) = established();
    assert_eq!(connection.apply(&mut store, ServerEvent::SrcClosed), ServerAction::Nothing);
    assert_eq!(store[&42].state, RtunState::Closed);
}

#[test]
fn packets_are_delivered_or_refused() {
    let (mut store, mut connection) = established();
    assert_eq!(
        connection.apply(&mut store, ServerEvent::Packet(vec![1])),
        ServerAction::Deliver(PacketAction::Refuse(RtunCommunication::InvalidRequest(
            InvalidReason::PleaseRegisterManifestAtFirst
        )))
    );
    connection.apply(&mut store, ServerEvent::Manifest(manifest(5000)));
    assert_eq!(
        connection.apply(&mut store, ServerEvent::Packet(vec![2])),
        ServerAction::Deliver(PacketAction::Connect("127.0.0.1:5000".to_string(), vec![2]))
    );
    connection.on_application_connected(&mut store, 7);
    assert_eq!(
        connection.apply(&mut store, ServerEvent::Packet(vec![3])),
        ServerAction::Deliver(PacketAction::Forward(vec![3]))
    );
}

#[test]
fn heartbeats_and_ignored_messages_change_nothing() {
    let (mut store, connection) = established();
    for event in [ServerEvent::Heartbeat, ServerEvent::Ignored] {
        assert_eq!(connection.apply(&mut store, event), ServerAction::Nothing);
    }
    assert_eq!(store.len(), 1);
    assert_eq!(store[&42].state, RtunState::Established);
    assert!(store[&42].manifest.is_none());
}
