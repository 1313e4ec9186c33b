//! A lifecycle bridge between an asynchronous anonymity-network client and a
//! caller that only understands opaque handles and synchronous calls.
//!
//! The crate holds the rules of that bridge: which handle is handed out when,
//! which call consumes a handle and which preserves it, how a start-up
//! sequence proceeds and fails, and how the last failure of a calling thread
//! is kept and read. The work that needs a network, an executor or a foreign
//! caller is performed around the crate and reported to it as events.

pub mod bridge;
pub mod client;
pub mod error;
pub mod handle;
pub mod progress;
pub mod proxy;
pub mod start;
pub mod text;
