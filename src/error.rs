use vstd::prelude::*;

verus! {

/// What can go wrong when talking to the keyboard.
#[derive(Debug, PartialEq, Eq)]
pub enum DriverError {
    /// No HID interface matched the keyboard's vendor, product and usage page.
    DeviceNotFound,
    /// The interface exists but could not be opened; carries the system's message.
    OpenFailed(String),
    /// A numeric setting was outside its range; carries a description.
    InvalidArgument(String),
    /// The system refused the write; carries its message.
    WriteFailed(String),
    /// The device took fewer bytes than the report holds.
    ShortWrite { expected: usize, written: usize },
    /// The interface's descriptor strings could not be read; carries the system's message.
    InfoUnavailable(String),
}

} // verus!
