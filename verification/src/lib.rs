//! The core of a peer-to-peer messaging node: the wire frames, the
//! identity handshake, the per-peer conversations, the decisions of the
//! network loop, what is kept in the store, and what the window does with
//! each message; each with a machine-checked contract.
//!
//! The library performs no input or output. For an operation that depends
//! on the network it names the calls on the transport and takes their
//! outcomes as arguments; for one that depends on the store it takes the
//! rows that were read and returns the statements to run.

pub mod backend;
pub mod error;
pub mod frontend;
pub mod hexadecimal;
pub mod networking;
pub mod text;
