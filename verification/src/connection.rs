//! The protocol between the driver and the user interface: the commands
//! they exchange and the framing of messages on the socket.

pub mod command;
pub mod frame;
pub mod interface;
