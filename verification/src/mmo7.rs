//! The MMO7 mouse driver: button profiles and the mapping of the mouse's
//! reports to emulated input.

pub mod buttons;
pub mod devices;
pub mod driver;
pub mod mapper;
pub mod profiles;
