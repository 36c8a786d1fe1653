//! Input translation and state handling of an in-game overlay driver.

pub mod key_code;
pub mod winuser;
pub mod utf16;
pub mod input_event;
pub mod message_hook;
pub mod client;
pub mod overlay;
