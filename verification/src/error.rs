//! Failure taxonomy shared by every layer of the crate.

use vstd::prelude::*;
use crate::protocol::DeviceError;

verus! {

/// Every way a call into this crate can fail.
///
/// Transport failures (`Usb`, `Bluetooth`, `Io`, `Write`), parse and
/// serialisation failures, the device-reported conditions
/// (`Device`), and the protocol-consistency failure (`ReplyMismatch`)
/// are distinct kinds and are never merged into one another.
#[derive(Debug)]
pub enum Error {
    /// No brick was found during discovery.
    NoBrick,
    /// The USB stack reported a failure; the message comes from it.
    Usb(String),
    /// The Bluetooth stack reported a failure; the message comes from it.
    Bluetooth(String),
    /// The device reported a recognised non-success status byte.
    Device(DeviceError),
    /// Incoming bytes could not be decoded.
    Parse(&'static str),
    /// Outgoing data could not be encoded.
    Serialise(&'static str),
    /// The underlying channel reported an I/O failure.
    Io(String),
    /// A send moved fewer bytes than the serialised packet holds.
    Write,
    /// The reply's opcode does not match the request's opcode.
    ReplyMismatch,
    /// Incoming text bytes are not valid UTF-8.
    InvalidString,
    /// An integer did not fit the width the wire format gives it.
    IntOutOfRange,
}

/// Converts an `Option` into a `Result`, reading `None` as running out
/// of input bytes.
pub trait ErrWrap<T>: Sized {
    /// Convert `self` into a `Result`.
    fn wrap(self) -> (r: Result<T, Error>);
}

impl<T> ErrWrap<T> for Option<T> {
    fn wrap(self) -> (r: Result<T, Error>)
        ensures
            match self {
                Some(t) => r matches Ok(v) && v == t,
                None => r matches Err(e) && e matches Error::Parse(_),
            },
    {
        match self {
            Some(t) => Ok(t),
            None => Err(Error::Parse("Reached end of input")),
        }
    }
}

} // verus!
