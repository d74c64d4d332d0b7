//! Verified core of a configuration tool for programmable mice: the macro
//! tokenizer, the driver's report mapper, the wire protocol between the
//! driver and the user interface, and the interface's decision logic.

pub mod connection;
pub mod mmo7;
pub mod thread;
pub mod time;
pub mod tokenizer;
pub mod ui;
pub mod window;
