//! Command framing for the PET IEEE-488 loader.
//!
//! A loader resident on a Commodore PET listens on the IEEE-488 bus for three
//! commands: load a block of bytes at an address, execute machine code at an
//! address, and run the BASIC program in memory. This crate turns a request
//! into the exact bytes to put on the bus, and rejects every request that the
//! loader could not act on before a single byte is sent.
//!
//! The way of a request through the crate:
//!
//! 1. [`request::validate`] checks what was typed and makes a plan.
//! 2. The caller reads the file of a load, and
//!    [`request::Command::into_operation`] makes the operation.
//! 3. [`operation::encode`] builds the frames.
//! 4. [`session::Session`] says, step by step, what to do on the bus; the
//!    caller does it.
//!
//! The crate reads no file and touches no bus. All of it is verified with
//! Verus, but for the two calls into the bus driver in [`transport`].

pub mod address;
pub mod device;
pub mod error;
pub mod frame;
pub mod load;
pub mod operation;
pub mod request;
pub mod session;
pub mod text;
pub mod transport;
pub mod wire;
