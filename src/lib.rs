//! An append-only, shared message log with independent readers, each of which
//! tracks its own position and can wait for the next message.
pub mod external;
pub mod laws;
pub mod log;
pub mod stream;

pub use log::{wake_all, LogView, MsgStream};
pub use stream::{msg_stream, MsgStreamHandle, MsgStreamReader, StreamError};
