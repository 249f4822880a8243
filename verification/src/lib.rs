//! The protocol of a resumable TCP tunnel: framing, sessions and the decisions of both ends.

pub mod client;
pub mod clock;
pub mod frame;
pub mod little_endian;
pub mod protocol;
pub mod random;
pub mod server;
pub mod session;
pub mod tunnel;

pub use frame::{FrameError, SerializedDataContainer};
pub use protocol::{
    ApplicationServerManifest, ClientRequest, InvalidReason, ProtocolVer, RtunCommunication,
    RtunServerNegReq, RtunServerNegRes, ServerRequest, SessionID, HEARTBEAT_INTERVAL_MILLIS,
    PROTOCOL_VER, RTUN_COM_TIMEOUT_MILLIS, RTUN_NEG_TIMEOUT_MILLIS, SERVER_PORT,
};
pub use random::RandomNumbers;
pub use session::{new_session_id, ClientInfo, RtunState, SessionStore};
