//! One game room: its messages, its board and its hub.

pub mod conn;
pub mod protocol;
pub mod server;
pub mod state;
pub mod wire;
