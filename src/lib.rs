//! A duplex relay for a length-framed local IPC channel.
//!
//! The library holds the decisions of the relay: how frames are delimited on
//! the wire, how a buffer is filled or drained through non-blocking
//! primitives, how a one-directional pump moves whole frames, how the accept
//! loop reacts to each outcome, how a named-pipe listener stays open, and where
//! the configuration files live. The sockets, the waiting and the task spawning are driven from
//! outside through the small traits and state machines defined here.

pub mod frame;
pub mod transfer;
pub mod pump;
pub mod serve;
pub mod pipe;
pub mod config;

use vstd::prelude::*;

verus! {

/// Port used when none is configured.
pub const DEFAULT_PORT: u16 = 49131;

} // verus!
