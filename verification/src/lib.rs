//! The core of a clipboard that is shared between machines: the wire protocol, the
//! life of a connection and the rules by which clipboard contents move.
pub mod error;
pub mod options;
pub mod timestamp;
pub mod wire;
pub mod message;
pub mod picture;
pub mod proto;
pub mod session;
pub mod session_laws;
pub mod endpoint;
pub mod clipboard;
pub mod listener;
pub mod listener_laws;
