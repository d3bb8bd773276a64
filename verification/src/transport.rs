//! The transport abstraction, and the framing rules for stream
//! transports.
//!
//! A transport moves opaque byte messages.  A bulk-transfer link keeps
//! message boundaries by itself: one send is one transfer, one receive
//! is one transfer.  A serial stream has no inherent boundaries, so a
//! stream transport carries every message behind a 2-byte
//! little-endian length prefix; the framing arithmetic stands here,
//! verified, and an implementation only moves the framed bytes.

use vstd::prelude::*;
use crate::error::Error;
use crate::wire::{le16, u16_le};

verus! {

/// A channel to one brick.  The embedding program implements this for
/// its USB or Bluetooth links; the request/reply engine only ever
/// depends on this interface.
///
/// A call either completes with data, or fails after its timeout or
/// I/O error; nothing here retries.
pub trait Socket {
    /// Send the given bytes as one message, returning how many bytes
    /// of it were moved.
    fn send(&mut self, data: &[u8]) -> (r: Result<usize, Error>);

    /// Receive one message.
    fn recv(&mut self) -> (r: Result<Vec<u8>, Error>);
}

/// Frame a message for a stream transport: a 2-byte little-endian
/// length prefix, then the message.  Fails when the message is too
/// long for the prefix to state its length.
pub fn frame_message(data: &[u8]) -> (r: Result<Vec<u8>, Error>)
    ensures
        r is Ok <==> data@.len() <= u16::MAX,
        match r {
            Ok(v) => v@ == u16_le(data@.len() as u16) + data@,
            Err(e) => e matches Error::IntOutOfRange,
        },
{
    if data.len() > 0xFFFF {
        return Err(Error::IntOutOfRange);
    }
    let len = data.len() as u16;
    let mut out: Vec<u8> = Vec::new();
    out.push((len % 0x100) as u8);
    out.push((len / 0x100) as u8);
    let mut i: usize = 0;
    while i < data.len()
        invariant
            i <= data@.len(),
            data@.len() <= u16::MAX,
            out@ == u16_le(data@.len() as u16) + data@.take(i as int),
        decreases data@.len() - i,
    {
        out.push(data[i]);
        proof {
            assert(out@ =~= u16_le(data@.len() as u16) + data@.take(i + 1));
        }
        i = i + 1;
    }
    proof {
        assert(u16_le(data@.len() as u16) + data@.take(data@.len() as int) =~= u16_le(
            data@.len() as u16,
        ) + data@);
    }
    Ok(out)
}

/// Read the length a stream frame's 2-byte prefix declares, checked
/// against the capacity of the receiver's buffer: a declared length
/// beyond the buffer is a parse failure, not a partial read.
pub fn parse_length_prefix(b0: u8, b1: u8, capacity: usize) -> (r: Result<usize, Error>)
    ensures
        r is Ok <==> le16(b0, b1) <= capacity,
        match r {
            Ok(n) => n == le16(b0, b1),
            Err(e) => e matches Error::Parse(_),
        },
{
    let n = b0 as usize + b1 as usize * 0x100;
    if n > capacity {
        return Err(Error::Parse("Data too long for buffer"));
    }
    Ok(n)
}

} // verus!
