//! What the acceptor hands over once a session has been negotiated.

use vstd::prelude::*;

verus! {

/// How far the connection that a handoff wraps has come.
#[derive(Clone, Copy, PartialEq, Eq, Debug, Structural)]
pub enum TlsState {
    /// Handshake records may still have to be exchanged.
    HandshakeInProgress,
    /// The handshake is complete.
    Established,
}

/// A negotiated session together with the transport it runs over, to be
/// driven to completion by whoever receives it.
pub struct Accept<IO> {
    session: rustls::ServerConnection,
    io: IO,
    state: TlsState,
}

impl<IO> Accept<IO> {
    /// The negotiated session.
    pub closed spec fn session(&self) -> rustls::ServerConnection {
        self.session
    }

    /// The transport, now owned.
    pub closed spec fn transport(&self) -> IO {
        self.io
    }

    /// The state tag.
    pub closed spec fn spec_state(&self) -> TlsState {
        self.state
    }

    /// Wraps a session and a transport under the given tag.
    pub(crate) fn wrap(session: rustls::ServerConnection, io: IO, state: TlsState) -> (handoff:
        Self)
        ensures
            handoff.session() == session,
            handoff.transport() == io,
            handoff.spec_state() == state,
    {
        Accept { session, io, state }
    }

    /// The state tag.
    #[verifier::when_used_as_spec(spec_state)]
    pub fn state(&self) -> (state: TlsState)
        ensures
            state == self.spec_state(),
    {
        self.state
    }

    /// Takes the handoff apart: the session, the transport and the tag.
    pub fn into_parts(self) -> (parts: (rustls::ServerConnection, IO, TlsState))
        ensures
            parts.0 == self.session(),
            parts.1 == self.transport(),
            parts.2 == self.spec_state(),
    {
        (self.session, self.io, self.state)
    }
}

} // verus!
