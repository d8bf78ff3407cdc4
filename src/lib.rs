//! RGB backlight control for the Magi96 keyboard over its raw HID
//! configuration channel.
pub mod rgb;
pub mod text;
pub mod error;
pub mod report;
pub mod discovery;
mod hid;
pub mod driver;
