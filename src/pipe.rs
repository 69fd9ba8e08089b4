//! Named-pipe bookkeeping.
//!
//! A named pipe serves one client per instance. The listener therefore holds
//! exactly one waiting instance at all times: when a client connects to it,
//! the connected instance is handed out and a fresh one, created at the same
//! name, takes its place, so that later clients find the name open without a
//! new bind. A client that finds every instance busy waits briefly and tries
//! again.

use vstd::prelude::*;

verus! {

/// The operating system's error code for a pipe whose instances are all busy.
pub const ERROR_PIPE_BUSY: i32 = 231;

/// Milliseconds a client waits before it tries a busy pipe again.
pub const PIPE_BUSY_DELAY_MS: u64 = 50;

/// Whether a failed attempt to open a pipe, which failed with the raw OS
/// error `raw_os_error`, is to be tried again after the delay; any other
/// failure is final.
pub fn retry_pipe_open(raw_os_error: Option<i32>) -> (r: bool)
    ensures
        r <==> raw_os_error == Some(ERROR_PIPE_BUSY),
{
    match raw_os_error {
        Some(code) => code == ERROR_PIPE_BUSY,
        None => false,
    }
}

/// The single waiting instance of a named-pipe listener.
pub struct PipeSlot<P> {
    waiting: P,
}

impl<P> PipeSlot<P> {
    /// The instance that clients connect to now.
    pub closed spec fn instance(&self) -> P {
        self.waiting
    }

    /// A slot holding the first instance created at bind time.
    pub fn new(first: P) -> (r: Self)
        ensures
            r.instance() == first,
    {
        PipeSlot { waiting: first }
    }

    /// The instance that clients connect to now.
    pub fn waiting(&self) -> (r: &P)
        ensures
            *r == self.instance(),
    {
        &self.waiting
    }

    /// Once a client has connected to the waiting instance, installs `fresh`
    /// in its place and hands the connected instance out.
    pub fn hand_over(&mut self, fresh: P) -> (connected: P)
        ensures
            connected == old(self).instance(),
            final(self).instance() == fresh,
    {
        let mut connected = fresh;
        core::mem::swap(&mut self.waiting, &mut connected);
        connected
    }
}

} // verus!
