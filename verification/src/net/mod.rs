//! The client's side of the game protocol: commands, their frames on the
//! wire, and the state of the connection.

pub mod codec;
pub mod command;
pub mod status;
