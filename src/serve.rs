//! The accept loop's decisions and the bookkeeping of each connection.
//!
//! The loop binds a listener once, then accepts connections one after the
//! other; for each it connects upstream and starts one pump per direction. A
//! failure to bind, to accept or to connect upstream ends the whole loop; a
//! failed upstream connection first hands the configured hook out, once.

use vstd::prelude::*;

verus! {

/// Optional callbacks of the accept loop.
pub struct ServeHooks<F> {
    /// Run with the error when connecting upstream fails.
    pub on_stream_connect_fail: Option<F>,
}

impl<F> ServeHooks<F> {
    /// These hooks, with `run` as the upstream-connect failure hook.
    pub fn on_stream_connect_fail(self, run: F) -> (r: Self)
        ensures
            r.on_stream_connect_fail == Some(run),
    {
        ServeHooks { on_stream_connect_fail: Some(run) }
    }
}

impl<F> Default for ServeHooks<F> {
    fn default() -> (r: Self)
        ensures
            r.on_stream_connect_fail is None,
    {
        ServeHooks { on_stream_connect_fail: None }
    }
}

/// Where the accept loop stands.
#[derive(Clone, Copy, Debug, PartialEq, Eq, Structural)]
pub enum LoopState {
    /// The listener is being bound.
    Binding,
    /// Waiting for the next connection.
    Accepting,
    /// A connection was accepted; its upstream connection is being made.
    Connecting,
    /// The loop ended on a fatal error.
    Stopped,
}

/// The failure that ended the accept loop.
pub enum ServeError<E> {
    /// The listener could not be bound.
    Bind(E),
    /// Accepting a connection failed.
    Accept(E),
    /// Connecting upstream failed.
    Connect(E),
}

/// The two directions of a connection.
#[derive(Clone, Copy, Debug, PartialEq, Eq, Structural)]
pub enum Direction {
    /// From the accepted client to the upstream stream.
    ClientToStream,
    /// From the upstream stream to the accepted client.
    StreamToClient,
}

/// The completion bookkeeping of one connection: one signal per direction.
pub struct Connection {
    client_to_stream_done: bool,
    stream_to_client_done: bool,
}

impl Connection {
    pub closed spec fn done(&self, d: Direction) -> bool {
        match d {
            Direction::ClientToStream => self.client_to_stream_done,
            Direction::StreamToClient => self.stream_to_client_done,
        }
    }

    /// Both directions have finished.
    pub open spec fn closed(&self) -> bool {
        self.done(Direction::ClientToStream) && self.done(Direction::StreamToClient)
    }

    /// A connection whose two directions are both still running.
    pub fn new() -> (r: Connection)
        ensures
            !r.done(Direction::ClientToStream),
            !r.done(Direction::StreamToClient),
    {
        Connection { client_to_stream_done: false, stream_to_client_done: false }
    }

    /// Records that direction `d` has stopped for good; tells whether the
    /// connection is now closed, that is whether both directions have.
    pub fn finish(&mut self, d: Direction) -> (closed: bool)
        ensures
            final(self).done(d),
            forall|o: Direction| o != d ==> final(self).done(o) == old(self).done(o),
            closed == final(self).closed(),
    {
        match d {
            Direction::ClientToStream => self.client_to_stream_done = true,
            Direction::StreamToClient => self.stream_to_client_done = true,
        }
        self.client_to_stream_done && self.stream_to_client_done
    }

    /// Whether both directions have finished.
    pub fn is_closed(&self) -> (r: bool)
        ensures
            r == self.closed(),
    {
        self.client_to_stream_done && self.stream_to_client_done
    }
}

/// The accept loop: its state and its hooks.
pub struct Server<F> {
    state: LoopState,
    hooks: ServeHooks<F>,
}

impl<F> Server<F> {
    pub closed spec fn state(&self) -> LoopState {
        self.state
    }

    /// The upstream-connect failure hook the server still holds.
    pub closed spec fn connect_fail_hook(&self) -> Option<F> {
        self.hooks.on_stream_connect_fail
    }

    /// A server about to bind its listener.
    pub fn new(hooks: ServeHooks<F>) -> (r: Self)
        ensures
            r.state() == LoopState::Binding,
            r.connect_fail_hook() == hooks.on_stream_connect_fail,
    {
        Server { state: LoopState::Binding, hooks }
    }

    /// Where the loop stands.
    pub fn loop_state(&self) -> (r: LoopState)
        ensures
            r == self.state(),
    {
        self.state
    }

    /// Takes the outcome of binding the listener: on success the loop starts
    /// accepting, on failure it stops.
    pub fn bound<T, E>(&mut self, outcome: Result<T, E>) -> (r: Result<T, ServeError<E>>)
        requires
            old(self).state() == LoopState::Binding,
        ensures
            final(self).connect_fail_hook() == old(self).connect_fail_hook(),
            outcome matches Ok(l) ==> r == Ok::<T, ServeError<E>>(l) && final(self).state()
                == LoopState::Accepting,
            outcome matches Err(e) ==> r == Err::<T, ServeError<E>>(ServeError::Bind(e))
                && final(self).state() == LoopState::Stopped,
    {
        match outcome {
            Ok(l) => {
                self.state = LoopState::Accepting;
                Ok(l)
            },
            Err(e) => {
                self.state = LoopState::Stopped;
                Err(ServeError::Bind(e))
            },
        }
    }

    /// Takes the outcome of accepting a connection: on success the loop goes
    /// on to connect upstream, on failure it stops.
    pub fn accepted<T, E>(&mut self, outcome: Result<T, E>) -> (r: Result<T, ServeError<E>>)
        requires
            old(self).state() == LoopState::Accepting,
        ensures
            final(self).connect_fail_hook() == old(self).connect_fail_hook(),
            outcome matches Ok(c) ==> r == Ok::<T, ServeError<E>>(c) && final(self).state()
                == LoopState::Connecting,
            outcome matches Err(e) ==> r == Err::<T, ServeError<E>>(ServeError::Accept(e))
                && final(self).state() == LoopState::Stopped,
    {
        match outcome {
            Ok(c) => {
                self.state = LoopState::Connecting;
                Ok(c)
            },
            Err(e) => {
                self.state = LoopState::Stopped;
                Err(ServeError::Accept(e))
            },
        }
    }

    /// Takes the outcome of connecting upstream. On success the loop returns
    /// to accepting, and the connection gets fresh completion bookkeeping. On
    /// failure the loop stops, and the failure hook, if one is still held, is
    /// handed out to be run with the error; the server holds no hook after
    /// that, so the hook is handed out at most once.
    pub fn connected<T, E>(&mut self, outcome: Result<T, E>) -> (r: Result<
        (T, Connection),
        (Option<F>, ServeError<E>),
    >)
        requires
            old(self).state() == LoopState::Connecting,
        ensures
            outcome matches Ok(s) ==> r matches Ok((s2, c)) && s2 == s && !c.done(
                Direction::ClientToStream,
            ) && !c.done(Direction::StreamToClient) && final(self).state() == LoopState::Accepting
                && final(self).connect_fail_hook() == old(self).connect_fail_hook(),
            outcome matches Err(e) ==> r matches Err((h, err)) && h == old(
                self,
            ).connect_fail_hook() && err == ServeError::Connect(e) && final(self).state()
                == LoopState::Stopped && final(self).connect_fail_hook() is None,
    {
        match outcome {
            Ok(s) => {
                self.state = LoopState::Accepting;
                Ok((s, Connection::new()))
            },
            Err(e) => {
                self.state = LoopState::Stopped;
                let hook = self.hooks.on_stream_connect_fail.take();
                Err((hook, ServeError::Connect(e)))
            },
        }
    }
}

} // verus!
