//! Server core for a peer-directory and chat protocol: a binary codec, an
//! opcode catalog, a dispatcher and the directory of live sessions.
pub mod catalog;
pub mod codec;
pub mod connection;
pub mod dispatch;
pub mod messages;
pub mod sessions;
pub mod store;

pub use codec::{BufferReader, BufferWriter, ServerError};
pub use connection::{Action, Event, PeerConnection, Phase, HEADER_LEN};
pub use dispatch::{frame, parse_message, Dispatch};
pub use messages::{ServerMessage, UserStatus};
pub use sessions::{ConnectedUsers, PeerAddr};
pub use store::{setup_db, Db};
