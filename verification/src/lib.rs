//! Commands of a room and topic messaging service.
//!
//! - `primitives`: the identifier and payload types;
//! - `command`: the commands, and the text of a login for logs;
//! - `buffer`: the pending commands of a session;
//! - `record` and `codec`: the commands as records on the wire;
//! - `topics`: what the commands do to the content of the topics.

pub mod buffer;
pub mod codec;
pub mod command;
pub mod primitives;
pub mod record;
pub mod topics;

pub use buffer::Commands;
pub use codec::{DecodeError, FieldKey};
pub use command::{Command, CommandView, EntranceCommand, Login, RoomVisibility};
pub use primitives::{Bytes, RoomId, RoomLocalUserId, RoomName, Token, Topic};
pub use record::{Field, Record, Value};
pub use topics::TopicStore;
