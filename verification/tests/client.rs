use rtun::client::{
    connection_request, heartbeat, next_session, on_negotiation_reply, on_src_data,
    opening_message, request_after_dialling, ClientAction, ClientSession, ConnectionBreakReason,
    NegotiationError, SrcAction, CONNECT_PORT,
};
use rtun::clock::{Clock, Timestamp};
use rtun::server::{negotiate, ServerAction, ServerEvent};
use rtun::{
    ApplicationServerManifest, ClientRequest, InvalidReason, RandomNumbers, RtunCommunication,
    RtunServerNegReq, RtunServerNegRes, RtunState, ServerRequest, SessionStore, HEARTBEAT_INTERVAL_MILLIS,
    PROTOCOL_VER, RTUN_COM_TIMEOUT_MILLIS, RTUN_NEG_TIMEOUT_MILLIS, SERVER_PORT,
};
use std::time::{SystemTime, UNIX_EPOCH};

fn at(secs: i64, nanos: u32) -> Timestamp {
    Timestamp { secs, nanos }
}

fn manifest() -> ApplicationServerManifest {
    ApplicationServerManifest { ipaddr: "127.0.0.1".to_string(), port: 5000 }
}

#[test]
fn fixed_parameters() {
    assert_eq!(SERVER_PORT, 32540);
    assert_eq!(CONNECT_PORT, 32539);
    assert_eq!(PROTOCOL_VER, 1);
    assert_eq!(RTUN_NEG_TIMEOUT_MILLIS, 1000);
    assert_eq!(RTUN_COM_TIMEOUT_MILLIS, 6000);
    assert_eq!(HEARTBEAT_INTERVAL_MILLIS, 1500);
}

#[test]
fn request_depends_on_the_session() {
    assert_eq!(connection_request(None), RtunServerNegReq::NewConnection(1));
    assert_eq!(connection_request(Some(9)), RtunServerNegReq::ResumeConnection(1, 9));
}

#[test]
fn replies_establish_or_refuse() {
    assert_eq!(on_negotiation_reply(RtunServerNegRes::Established(9)), Ok(9));
    assert_eq!(
        on_negotiation_reply(RtunServerNegRes::InvalidSessionID),
        Err(NegotiationError::InvalidSessionID)
    );
    assert_eq!(
        on_negotiation_reply(RtunServerNegRes::ResumeFailed),
        Err(NegotiationError::ResumeFailed)
    );
    assert_eq!(
        on_negotiation_reply(RtunServerNegRes::ProtocolVersionMismatched),
        Err(NegotiationError::ProtocolVersionMismatched)
    );
}

#[test]
fn only_a_new_session_registers_its_manifest() {
    assert_eq!(
        opening_message(9, None, &manifest()),
        Some(RtunCommunication::ServerRequest(
            9,
            ServerRequest::RegisterManifest(manifest())
        ))
    );
    assert_eq!(opening_message(9, Some(9), &manifest()), None);
}

#[test]
fn src_data_becomes_a_packet() {
    let buf = [4, 5, 6];
    assert_eq!(
        on_src_data(9, &buf, 2),
        SrcAction::Send(RtunCommunication::Packet(9, vec![4, 5]))
    );
    assert_eq!(
        on_src_data(9, &buf, 0),
        SrcAction::SendAndStop(RtunCommunication::ServerRequest(
            9,
            ServerRequest::SrcApplicationIsClosed
        ))
    );
}

#[test]
fn heartbeats_name_the_session() {
    assert_eq!(heartbeat(9), RtunCommunication::Heartbeat(9));
}

#[test]
fn packets_are_written_to_the_application() {
    let mut session = ClientSession::new(9);
    let own = RtunCommunication::Packet(9, vec![1]);
    assert_eq!(session.round(&mut Clock::new(), true, Some(own)), ClientAction::WriteToSrc(vec![1]));
    let other = RtunCommunication::Packet(8, vec![1]);
    assert_eq!(session.round(&mut Clock::new(), true, Some(other)), ClientAction::Continue);
}

#[test]
fn refused_requests_are_reported() {
    let mut session = ClientSession::new(9);
    let refused = RtunCommunication::InvalidRequest(InvalidReason::CanNotChangeManifest);
    assert_eq!(
        session.round(&mut Clock::new(), true, Some(refused)),
        ClientAction::Rejected(InvalidReason::CanNotChangeManifest)
    );
}

#[test]
fn closing_ends_the_connection() {
    let mut session = ClientSession::new(9);
    let other = RtunCommunication::ClientRequest(8, ClientRequest::SrcApplicationIsClosed);
    assert_eq!(session.round(&mut Clock::new(), true, Some(other)), ClientAction::Continue);
    let own = RtunCommunication::ClientRequest(9, ClientRequest::SrcApplicationIsClosed);
    assert_eq!(
        session.round(&mut Clock::new(), true, Some(own)),
        ClientAction::Disconnect(ConnectionBreakReason::SrcIsClosed)
    );
}

#[test]
fn server_requests_are_not_for_the_client() {
    let mut session = ClientSession::new(9);
    let message = RtunCommunication::ServerRequest(9, ServerRequest::SrcApplicationIsClosed);
    assert_eq!(session.round(&mut Clock::new(), true, Some(message)), ClientAction::Continue);
}

#[test]
fn inactive_client_leaves() {
    let mut session = ClientSession::new(9);
    let message = RtunCommunication::Packet(9, vec![1]);
    let timeout = ClientAction::Disconnect(ConnectionBreakReason::RtunServerTimeout(9));
    assert_eq!(session.round(&mut Clock::new(), false, Some(message)), timeout);
    assert_eq!(session.round(&mut Clock::new(), false, None), timeout);
}

#[test]
fn silence_is_measured_from_the_last_heartbeat() {
    let mut session = ClientSession::new(9);
    let beat = || Some(RtunCommunication::Heartbeat(9));
    assert_eq!(session.round_at(true, beat(), at(100, 500)), ClientAction::Continue);
    assert_eq!(session.round_at(true, None, at(106, 499)), ClientAction::Continue);
    assert_eq!(
        session.round_at(true, None, at(106, 500)),
        ClientAction::Disconnect(ConnectionBreakReason::RtunServerTimeout(9))
    );
    assert_eq!(session.round_at(true, beat(), at(103, 0)), ClientAction::Continue);
    assert_eq!(session.round_at(true, None, at(106, 500)), ClientAction::Continue);
    assert_eq!(session.round_at(true, None, at(102, 999_999_999)), ClientAction::ClockWentBack);
}

#[test]
fn client_waits_for_the_first_heartbeat() {
    let mut session = ClientSession::new(9);
    assert_eq!(session.round_at(true, None, at(i64::MAX, 0)), ClientAction::Continue);
    let other = Some(RtunCommunication::Heartbeat(8));
    assert_eq!(session.round_at(true, other, at(1, 0)), ClientAction::Continue);
    assert_eq!(session.last_hb_recv, None);
}

#[test]
fn elapsed_time_is_exact() {
    assert_eq!(at(2, 5).elapsed_since(&at(1, 6)), Some(999_999_999));
    assert_eq!(at(1, 6).elapsed_since(&at(1, 6)), Some(0));
    assert_eq!(at(1, 5).elapsed_since(&at(1, 6)), None);
    assert_eq!(
        at(i64::MAX, 0).elapsed_since(&at(i64::MIN, 0)),
        Some(u64::MAX as u128 * 1_000_000_000)
    );
}

#[test]
fn heartbeat_is_noted_at_the_current_time() {
    let before = SystemTime::now().duration_since(UNIX_EPOCH).unwrap().as_secs() as i64;
    let mut session = ClientSession::new(9);
    let action = session.round(&mut Clock::new(), true, Some(RtunCommunication::Heartbeat(9)));
    let after = SystemTime::now().duration_since(UNIX_EPOCH).unwrap().as_secs() as i64;
    assert_eq!(action, ClientAction::Continue);
    let noted = session.last_hb_recv.unwrap();
    assert!(before <= noted.secs && noted.secs <= after);
    assert!(noted.nanos < 1_000_000_000);
    assert_eq!(session.round(&mut Clock::new(), true, None), ClientAction::Continue);
}

#[test]
fn lost_session_is_asked_for_again() {
    assert_eq!(next_session(None, ConnectionBreakReason::RtunServerTimeout(9)), Some(9));
    assert_eq!(next_session(Some(8), ConnectionBreakReason::RtunServerTimeout(9)), Some(9));
    assert_eq!(next_session(Some(8), ConnectionBreakReason::SrcIsClosed), Some(8));
    assert_eq!(next_session(None, ConnectionBreakReason::RtunServerUnreachable), None);
}

#[test]
fn client_and_server_survive_a_lost_connection() {
    let mut store: SessionStore<u32> = SessionStore::new();
    let (reply, connection) =
        negotiate(&mut store, connection_request(None), &mut RandomNumbers::new()).unwrap();
    let connection = connection.unwrap();
    let id = on_negotiation_reply(reply).unwrap();
    assert_eq!(connection.session_id, id);

    let event = connection.receive(opening_message(id, None, &manifest()));
    assert_eq!(event, ServerEvent::Manifest(manifest()));
    assert_eq!(connection.apply(&mut store, event), ServerAction::Nothing);

    let event = connection.receive(None);
    assert_eq!(connection.apply(&mut store, event), ServerAction::Nothing);
    let mut session = ClientSession::new(id);
    let reason = match session.round(&mut Clock::new(), false, None) {
        ClientAction::Disconnect(reason) => reason,
        _ => panic!("the client did not leave"),
    };
    let wanted = next_session(None, reason);
    assert_eq!(wanted, Some(id));
    let (reply, resumed) =
        negotiate(&mut store, connection_request(wanted), &mut RandomNumbers::new()).unwrap();
    assert_eq!(on_negotiation_reply(reply), Ok(id));
    assert_eq!(resumed.unwrap().session_id, id);
    assert_eq!(store[&id].state, RtunState::Established);
    assert_eq!(store[&id].manifest, Some(manifest()));
}

#[test]
fn closing_handshake() {
    let mut store: SessionStore<u32> = SessionStore::new();
    let (reply, connection) =
        negotiate(&mut store, connection_request(None), &mut RandomNumbers::new()).unwrap();
    let connection = connection.unwrap();
    let id = on_negotiation_reply(reply).unwrap();
    let goodbye = match on_src_data(id, &[], 0) {
        SrcAction::SendAndStop(message) => message,
        _ => panic!("the client reads on"),
    };
    let event = connection.receive(Some(goodbye));
    assert_eq!(event, ServerEvent::SrcClosed);
    let answer = connection.answer_first(&event);
    assert_eq!(connection.apply(&mut store, event), ServerAction::Nothing);
    assert_eq!(store[&id].state, RtunState::Closed);
    let mut session = ClientSession::new(id);
    assert_eq!(
        session.round(&mut Clock::new(), true, answer),
        ClientAction::Disconnect(ConnectionBreakReason::SrcIsClosed)
    );
}

#[test]
fn unreachable_server_ends_the_attempt() {
    let unreachable = ConnectionBreakReason::RtunServerUnreachable;
    assert_eq!(request_after_dialling(None, false), Err(unreachable));
    assert_eq!(request_after_dialling(Some(9), false), Err(unreachable));
    assert_eq!(request_after_dialling(None, true), Ok(RtunServerNegReq::NewConnection(1)));
    assert_eq!(
        request_after_dialling(Some(9), true),
        Ok(RtunServerNegReq::ResumeConnection(1, 9))
    );
    assert_eq!(connection_request(next_session(Some(9), unreachable)), connection_request(Some(9)));
}

#[test]
fn time_is_needed_for_own_heartbeats_and_for_silence_after_one() {
    let mut session = ClientSession::new(9);
    let own = Some(RtunCommunication::Heartbeat(9));
    let other = Some(RtunCommunication::Heartbeat(8));
    let packet = Some(RtunCommunication::Packet(9, vec![1]));
    assert!(session.needs_time(true, &own));
    assert!(!session.needs_time(true, &other));
    assert!(!session.needs_time(true, &packet));
    assert!(!session.needs_time(true, &None));
    assert!(!session.needs_time(false, &own));
    session.last_hb_recv = Some(at(1, 0));
    assert!(session.needs_time(true, &None));
    assert!(!session.needs_time(true, &packet));
    assert!(!session.needs_time(false, &None));
}

#[test]
fn server_silent_by_the_clock_is_left() {
    let mut clock = Clock::new();
    let mut session = ClientSession::new(9);
    session.last_hb_recv = Some(at(clock.read().secs - 3600, 0));
    assert_eq!(
        session.round(&mut clock, true, None),
        ClientAction::Disconnect(ConnectionBreakReason::RtunServerTimeout(9))
    );
    session.last_hb_recv = Some(at(clock.read().secs + 3600, 0));
    assert_eq!(session.round(&mut clock, true, None), ClientAction::ClockWentBack);
}
