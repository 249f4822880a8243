//! The client's end: what it asks for, what it sends, and what each message of the server, or
//! its absence, leads to.

use crate::clock::{Clock, Timestamp, NANOS_PER_MILLI};
use crate::protocol::{
    ApplicationServerManifest, ClientRequest, InvalidReason, RtunCommunication, RtunServerNegReq,
    RtunServerNegRes, ServerRequest, SessionID, PROTOCOL_VER, RTUN_COM_TIMEOUT_MILLIS, SERVER_PORT,
};
use vstd::prelude::*;
use vstd::slice::{slice_subrange, slice_to_vec};

verus! {

/// The port that the client connects to, one below the port that the server listens on.
pub const CONNECT_PORT: u16 = SERVER_PORT - 1;

/// Why a connection to the server ended.
#[derive(Debug, Clone, Copy, PartialEq, Eq, Structural)]
pub enum ConnectionBreakReason {
    SrcIsClosed,
    RtunServerTimeout(SessionID),
    RtunServerUnreachable,
}

/// How the server refused a connection.
#[derive(Debug, Clone, Copy, PartialEq, Eq, Structural)]
pub enum NegotiationError {
    InvalidSessionID,
    ResumeFailed,
    ProtocolVersionMismatched,
}

/// What a client that has been in the session `session_id`, or in none, asks of the server.
pub open spec fn connection_request_for(session_id: Option<SessionID>) -> RtunServerNegReq {
    match session_id {
        Some(id) => RtunServerNegReq::ResumeConnection(PROTOCOL_VER, id),
        None => RtunServerNegReq::NewConnection(PROTOCOL_VER),
    }
}

/// The request to send after connecting: to resume the session `session_id`, or for a new one.
pub fn connection_request(session_id: Option<SessionID>) -> (request: RtunServerNegReq)
    ensures
        request == connection_request_for(session_id),
{
    match session_id {
        Some(id) => RtunServerNegReq::ResumeConnection(PROTOCOL_VER, id),
        None => RtunServerNegReq::NewConnection(PROTOCOL_VER),
    }
}

/// The request to send once the server has been dialled; a server that did not answer ends the
/// attempt.
pub fn request_after_dialling(session_id: Option<SessionID>, connected: bool) -> (res: Result<
    RtunServerNegReq,
    ConnectionBreakReason,
>)
    ensures
        res == if connected {
            Ok(connection_request_for(session_id))
        } else {
            Err(ConnectionBreakReason::RtunServerUnreachable)
        },
{
    if connected {
        Ok(connection_request(session_id))
    } else {
        Err(ConnectionBreakReason::RtunServerUnreachable)
    }
}

/// What the server's answer means for the client.
pub open spec fn negotiation_result(reply: RtunServerNegRes) -> Result<
    SessionID,
    NegotiationError,
> {
    match reply {
        RtunServerNegRes::Established(id) => Ok(id),
        RtunServerNegRes::InvalidSessionID => Err(NegotiationError::InvalidSessionID),
        RtunServerNegRes::ResumeFailed => Err(NegotiationError::ResumeFailed),
        RtunServerNegRes::ProtocolVersionMismatched => Err(
            NegotiationError::ProtocolVersionMismatched,
        ),
    }
}

/// The session that the server's answer establishes, or how the server refused.
pub fn on_negotiation_reply(reply: RtunServerNegRes) -> (res: Result<SessionID, NegotiationError>)
    ensures
        res == negotiation_result(reply),
{
    match reply {
        RtunServerNegRes::Established(id) => Ok(id),
        RtunServerNegRes::InvalidSessionID => Err(NegotiationError::InvalidSessionID),
        RtunServerNegRes::ResumeFailed => Err(NegotiationError::ResumeFailed),
        RtunServerNegRes::ProtocolVersionMismatched => Err(
            NegotiationError::ProtocolVersionMismatched,
        ),
    }
}

/// The message that opens the session `session_id` after `asked_for` was asked for.
pub open spec fn opening_for(
    session_id: SessionID,
    asked_for: Option<SessionID>,
    manifest: ApplicationServerManifest,
) -> Option<RtunCommunication> {
    match asked_for {
        Some(_) => None,
        None => Some(
            RtunCommunication::ServerRequest(session_id, ServerRequest::RegisterManifest(manifest)),
        ),
    }
}

/// The message that opens a session: where the application server is. A session that was asked for,
/// to be resumed, needs none.
pub fn opening_message(
    session_id: SessionID,
    asked_for: Option<SessionID>,
    manifest: &ApplicationServerManifest,
) -> (message: Option<RtunCommunication>)
    ensures
        message == if asked_for is Some {
            None
        } else {
            Some(
                RtunCommunication::ServerRequest(
                    session_id,
                    ServerRequest::RegisterManifest(*manifest),
                ),
            )
        },
        message == opening_for(session_id, asked_for, *manifest),
{
    if asked_for.is_some() {
        None
    } else {
        Some(
            RtunCommunication::ServerRequest(
                session_id,
                ServerRequest::RegisterManifest(manifest.clone()),
            ),
        )
    }
}

/// A heartbeat of the session.
pub fn heartbeat(session_id: SessionID) -> (message: RtunCommunication)
    ensures
        message == RtunCommunication::Heartbeat(session_id),
{
    RtunCommunication::Heartbeat(session_id)
}

/// What to do after reading from the application at this end.
#[derive(Debug, PartialEq, Eq)]
pub enum SrcAction {
    /// Send the message and read on.
    Send(RtunCommunication),
    /// Send the message and stop reading.
    SendAndStop(RtunCommunication),
}

/// `action` is what to do after `data` was read from the application at this end.
pub open spec fn src_action(session_id: SessionID, data: Seq<u8>, action: SrcAction) -> bool {
    if data.len() == 0 {
        action == SrcAction::SendAndStop(
            RtunCommunication::ServerRequest(session_id, ServerRequest::SrcApplicationIsClosed),
        )
    } else {
        &&& action matches SrcAction::Send(RtunCommunication::Packet(id, payload))
        &&& id == session_id
        &&& payload@ == data
    }
}

/// Decides what to do after the application wrote the first `n` bytes of `buf`. Nothing read means
/// that the application is gone.
pub fn on_src_data(session_id: SessionID, buf: &[u8], n: usize) -> (action: SrcAction)
    requires
        n <= buf@.len(),
    ensures
        n == 0 ==> action == SrcAction::SendAndStop(
            RtunCommunication::ServerRequest(session_id, ServerRequest::SrcApplicationIsClosed),
        ),
        n > 0 ==> {
            &&& action matches SrcAction::Send(RtunCommunication::Packet(id, payload))
            &&& id == session_id
            &&& payload@ == buf@.take(n as int)
        },
        src_action(session_id, buf@.take(n as int), action),
{
    if n == 0 {
        SrcAction::SendAndStop(
            RtunCommunication::ServerRequest(session_id, ServerRequest::SrcApplicationIsClosed),
        )
    } else {
        SrcAction::Send(
            RtunCommunication::Packet(session_id, slice_to_vec(slice_subrange(buf, 0, n))),
        )
    }
}

/// What to do after listening to the server.
#[derive(Debug, PartialEq, Eq)]
pub enum ClientAction {
    /// Listen on.
    Continue,
    /// Write the data to the application, and listen on.
    WriteToSrc(Vec<u8>),
    /// Give up: the server refused a request.
    Rejected(InvalidReason),
    /// Give up: the clock was set back, so the server's silence cannot be measured.
    ClockWentBack,
    /// Leave the connection.
    Disconnect(ConnectionBreakReason),
}

/// The session that a client takes part in, and when the server's last heartbeat came.
#[derive(Debug, Clone, Copy, PartialEq, Eq, Structural)]
pub struct ClientSession {
    pub session_id: SessionID,
    pub last_hb_recv: Option<Timestamp>,
}

/// How long the server may be silent, in nanoseconds.
pub open spec fn silence_limit() -> int {
    RTUN_COM_TIMEOUT_MILLIS * NANOS_PER_MILLI
}

/// What a client does about `message`, received at the time `now`.
pub open spec fn client_receives(
    session: ClientSession,
    message: RtunCommunication,
    now: Timestamp,
) -> (ClientSession, ClientAction) {
    match message {
        RtunCommunication::Heartbeat(id) if id == session.session_id => (
            ClientSession { last_hb_recv: Some(now), ..session },
            ClientAction::Continue,
        ),
        RtunCommunication::Packet(id, payload) if id == session.session_id => (
            session,
            ClientAction::WriteToSrc(payload),
        ),
        RtunCommunication::ClientRequest(
            id,
            ClientRequest::SrcApplicationIsClosed,
        ) if id == session.session_id => (
            session,
            ClientAction::Disconnect(ConnectionBreakReason::SrcIsClosed),
        ),
        RtunCommunication::InvalidRequest(reason) => (session, ClientAction::Rejected(reason)),
        _ => (session, ClientAction::Continue),
    }
}

/// What a client does when nothing has come by the time `now`.
pub open spec fn client_hears_nothing(session: ClientSession, now: Timestamp) -> ClientAction {
    match session.last_hb_recv {
        Some(last) => if now.since(last) < 0 {
            ClientAction::ClockWentBack
        } else if now.since(last) >= silence_limit() {
            ClientAction::Disconnect(ConnectionBreakReason::RtunServerTimeout(session.session_id))
        } else {
            ClientAction::Continue
        },
        None => ClientAction::Continue,
    }
}

/// One round of a client at the time `now`: `is_active` is false once its heartbeats cannot be
/// sent any more, and `received` is what came from the server, if anything did.
pub open spec fn client_round(
    session: ClientSession,
    is_active: bool,
    received: Option<RtunCommunication>,
    now: Timestamp,
) -> (ClientSession, ClientAction) {
    if !is_active {
        (
            session,
            ClientAction::Disconnect(ConnectionBreakReason::RtunServerTimeout(session.session_id)),
        )
    } else {
        match received {
            Some(message) => client_receives(session, message, now),
            None => (session, client_hears_nothing(session, now)),
        }
    }
}

/// A round rests on the time when a heartbeat of the session comes, whose time is noted, and when
/// nothing comes after an earlier heartbeat.
pub open spec fn round_needs_time(
    session: ClientSession,
    is_active: bool,
    received: Option<RtunCommunication>,
) -> bool {
    is_active && match received {
        Some(RtunCommunication::Heartbeat(id)) => id == session.session_id,
        Some(_) => false,
        None => session.last_hb_recv is Some,
    }
}

/// A client whose heartbeats can no longer be sent leaves the connection as lost and keeps its
/// session, whatever came, whenever it is, and whether or not a heartbeat came before.
pub proof fn law_broken_connection_is_left(
    session: ClientSession,
    received: Option<RtunCommunication>,
    now: Timestamp,
)
    ensures
        client_round(session, false, received, now).0 == session,
        client_round(session, false, received, now).1 == ClientAction::Disconnect(
            ConnectionBreakReason::RtunServerTimeout(session.session_id),
        ),
{
}

/// What a message does to a client that can still send. Only data of the session is written to the
/// application, only the end of the session's application ends the connection, and only a refusal is
/// reported; everything else is passed over. A heartbeat of the session is noted with its time, and
/// that is all that changes.
pub proof fn law_client_hears(
    session: ClientSession,
    message: RtunCommunication,
    now: Timestamp,
    payload: Vec<u8>,
    reason: InvalidReason,
)
    ensures
        ({
            let (after, action) = client_round(session, true, Some(message), now);
            &&& after.session_id == session.session_id
            &&& message == RtunCommunication::Heartbeat(session.session_id) ==> after.last_hb_recv
                == Some(now)
            &&& message != RtunCommunication::Heartbeat(session.session_id) ==> after.last_hb_recv
                == session.last_hb_recv
            &&& action == ClientAction::WriteToSrc(payload) <==> message
                == RtunCommunication::Packet(session.session_id, payload)
            &&& action == ClientAction::Rejected(reason) <==> message
                == RtunCommunication::InvalidRequest(reason)
            &&& action is Disconnect <==> message == RtunCommunication::ClientRequest(
                session.session_id,
                ClientRequest::SrcApplicationIsClosed,
            )
            &&& action is Disconnect ==> action->Disconnect_0 == ConnectionBreakReason::SrcIsClosed
            &&& action !is ClockWentBack
        }),
{
}

/// What silence does to a client that can still send. It leaves the connection as lost exactly when
/// six seconds or more have gone by since the last heartbeat, gives up exactly when the clock shows a
/// time before that heartbeat, and listens on otherwise; its session stays as it is.
pub proof fn law_client_hears_nothing(session: ClientSession, now: Timestamp)
    ensures
        ({
            let (after, action) = client_round(session, true, None, now);
            let last = session.last_hb_recv->0;
            let elapsed = (now.secs - last.secs) * 1_000_000_000 + (now.nanos - last.nanos);
            &&& after == session
            &&& session.last_hb_recv is None ==> action is Continue
            &&& session.last_hb_recv is Some ==> {
                &&& elapsed < 0 ==> action is ClockWentBack
                &&& 0 <= elapsed < 6_000_000_000 ==> action is Continue
                &&& 6_000_000_000 <= elapsed ==> action == ClientAction::Disconnect(
                    ConnectionBreakReason::RtunServerTimeout(session.session_id),
                )
            }
        }),
{
}

/// The time is needed exactly by a client that can still send, to note a heartbeat of its session
/// and to measure a silence since one.
pub proof fn law_time_is_needed(
    session: ClientSession,
    is_active: bool,
    received: Option<RtunCommunication>,
)
    ensures
        round_needs_time(session, is_active, received) <==> is_active && (received == Some(
            RtunCommunication::Heartbeat(session.session_id),
        ) || (received is None && session.last_hb_recv is Some)),
{
}

/// A client asks to resume exactly when it has been in a session, and then for that session; it
/// always names the version that it speaks.
pub proof fn law_requests(session_id: Option<SessionID>)
    ensures
        match connection_request_for(session_id) {
            RtunServerNegReq::NewConnection(version) => version == PROTOCOL_VER && session_id
                is None,
            RtunServerNegReq::ResumeConnection(version, id) => version == PROTOCOL_VER
                && session_id == Some(id),
        },
{
}

/// An answer that establishes a session is taken for that session, and each refusal for itself.
pub proof fn law_answers_are_understood(reply: RtunServerNegRes, id: SessionID)
    ensures
        negotiation_result(reply) == Ok::<_, NegotiationError>(id) <==> reply
            == RtunServerNegRes::Established(id),
        negotiation_result(reply) == Err::<SessionID, _>(NegotiationError::InvalidSessionID)
            <==> reply is InvalidSessionID,
        negotiation_result(reply) == Err::<SessionID, _>(NegotiationError::ResumeFailed) <==> reply
            is ResumeFailed,
        negotiation_result(reply) == Err::<SessionID, _>(
            NegotiationError::ProtocolVersionMismatched,
        ) <==> reply is ProtocolVersionMismatched,
{
}

/// Only a client that has not asked for a session names its application server, once, in the session
/// that it was given.
pub proof fn law_opening_message(
    session_id: SessionID,
    asked_for: Option<SessionID>,
    manifest: ApplicationServerManifest,
)
    ensures
        opening_for(session_id, asked_for, manifest) is Some <==> asked_for is None,
        opening_for(session_id, asked_for, manifest) matches Some(message) ==> message
            == RtunCommunication::ServerRequest(
            session_id,
            ServerRequest::RegisterManifest(manifest),
        ),
{
}

impl ClientSession {
    /// A session just established, without a heartbeat of the server yet.
    pub fn new(session_id: SessionID) -> (res: Self)
        ensures
            res == (ClientSession { session_id, last_hb_recv: None }),
    {
        ClientSession { session_id, last_hb_recv: None }
    }

    /// Decides one round at the time `now`.
    pub fn round_at(
        &mut self,
        is_active: bool,
        received: Option<RtunCommunication>,
        now: Timestamp,
    ) -> (action: ClientAction)
        ensures
            (*final(self), action) == client_round(*old(self), is_active, received, now),
    {
        if !is_active {
            return ClientAction::Disconnect(
                ConnectionBreakReason::RtunServerTimeout(self.session_id),
            );
        }
        match received {
            Some(RtunCommunication::Heartbeat(id)) => {
                if id == self.session_id {
                    self.last_hb_recv = Some(now);
                }
                ClientAction::Continue
            },
            Some(RtunCommunication::Packet(id, payload)) => {
                if id == self.session_id {
                    ClientAction::WriteToSrc(payload)
                } else {
                    ClientAction::Continue
                }
            },
            Some(RtunCommunication::InvalidRequest(reason)) => ClientAction::Rejected(reason),
            Some(RtunCommunication::ClientRequest(id, request)) => {
                if id == self.session_id {
                    match request {
                        ClientRequest::SrcApplicationIsClosed => ClientAction::Disconnect(
                            ConnectionBreakReason::SrcIsClosed,
                        ),
                    }
                } else {
                    ClientAction::Continue
                }
            },
            Some(RtunCommunication::ServerRequest(_, _)) => ClientAction::Continue,
            None => match self.last_hb_recv {
                Some(last) => match now.elapsed_since(&last) {
                    Some(nanos) => {
                        let limit: u64 = RTUN_COM_TIMEOUT_MILLIS * NANOS_PER_MILLI as u64;
                        if nanos >= limit as u128 {
                            ClientAction::Disconnect(
                                ConnectionBreakReason::RtunServerTimeout(self.session_id),
                            )
                        } else {
                            ClientAction::Continue
                        }
                    },
                    None => ClientAction::ClockWentBack,
                },
                None => ClientAction::Continue,
            },
        }
    }

    /// Whether a round rests on the time.
    pub fn needs_time(&self, is_active: bool, received: &Option<RtunCommunication>) -> (res: bool)
        ensures
            res == round_needs_time(*self, is_active, *received),
    {
        is_active && match received {
            Some(RtunCommunication::Heartbeat(id)) => *id == self.session_id,
            Some(_) => false,
            None => self.last_hb_recv.is_some(),
        }
    }

    /// Decides one round, at the time that `clock` shows if the round rests on the time; otherwise
    /// the clock is not read.
    pub fn round(
        &mut self,
        clock: &mut Clock,
        is_active: bool,
        received: Option<RtunCommunication>,
    ) -> (action: ClientAction)
        ensures
            if round_needs_time(*old(self), is_active, received) {
                let now = final(clock)@.last();
                &&& final(clock)@ == old(clock)@.push(now)
                &&& now.nanos < 1_000_000_000
                &&& (*final(self), action) == client_round(*old(self), is_active, received, now)
            } else {
                &&& final(clock)@ == old(clock)@
                &&& forall|now: Timestamp|
                    (*final(self), action) == #[trigger] client_round(
                        *old(self),
                        is_active,
                        received,
                        now,
                    )
            },
    {
        let now: Timestamp = if self.needs_time(is_active, &received) {
            clock.read()
        } else {
            // Any time leads to the same result.
            Timestamp { secs: 0, nanos: 0 }
        };
        self.round_at(is_active, received, now)
    }
}

/// The session to ask for next time, after a connection ended for `reason`.
pub open spec fn session_after(
    session_id: Option<SessionID>,
    reason: ConnectionBreakReason,
) -> Option<SessionID> {
    match reason {
        ConnectionBreakReason::RtunServerTimeout(id) => Some(id),
        _ => session_id,
    }
}

/// After a lost connection the client asks for the session that was lost, and otherwise for the
/// same as before.
pub proof fn law_asks_for_the_lost_session(
    session_id: Option<SessionID>,
    reason: ConnectionBreakReason,
    lost: SessionID,
)
    ensures
        reason == ConnectionBreakReason::RtunServerTimeout(lost) ==> session_after(
            session_id,
            reason,
        ) == Some(lost),
        reason !is RtunServerTimeout ==> session_after(session_id, reason) == session_id,
{
}

/// The session to ask for next time, after a connection ended for `reason`: the one that was lost,
/// or else the same as before.
pub fn next_session(session_id: Option<SessionID>, reason: ConnectionBreakReason) -> (res: Option<
    SessionID,
>)
    ensures
        res == session_after(session_id, reason),
{
    match reason {
        ConnectionBreakReason::RtunServerTimeout(id) => Some(id),
        ConnectionBreakReason::SrcIsClosed => session_id,
        ConnectionBreakReason::RtunServerUnreachable => session_id,
    }
}

} // verus!
