//! Protocol client for the NXT programmable brick.
//!
//! The brick speaks a fixed-layout binary protocol over either a USB
//! bulk-transfer link or a Bluetooth serial link.  This crate holds the
//! verified core: the packet codec, the closed opcode and status tables,
//! the stream-framing rules, and the request/reply engine.  Moving bytes
//! over an actual USB or Bluetooth channel is left to implementations of
//! the [`Socket`] trait supplied by the embedding program.

pub mod error;
pub mod wire;
pub mod protocol;
pub mod motor;
pub mod sensor;
pub mod system;
pub mod transport;
pub mod brick;

pub use error::Error;
pub use brick::Nxt;
pub use transport::Socket;
