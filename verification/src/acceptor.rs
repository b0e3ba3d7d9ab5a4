//! The acceptor and its two resumable operations.
//!
//! The acceptor owns the engine and borrows the transport. Each operation is
//! made afresh for one attempt and borrows from the acceptor for as long as it
//! lives; it keeps nothing of its own. What has been accumulated therefore
//! survives a suspended or abandoned operation: it lives in the acceptor.

use vstd::prelude::*;
use crate::engine::{engine_accept, engine_default};
use crate::handoff::{Accept, TlsState};
use vstd::string::*;
use crate::engine::{engine_answer, engine_left};
use crate::io_error::{io_kind, kind_of, new_other_error, other_error, IoKind};
use crate::outcome::{accept_error_prefix, read_outcome, AcceptOutcome, Outcome, ReadOutcome};
use crate::reader::StdReader;

verus! {

/// Whether `out` is what a classification makes of the engine's answer,
/// once a rejection has been put into words.
///
/// The answer is `Ok(Some(..))` for a classified handshake, `Ok(None)` while
/// the engine has too little data, and `Err(..)` with the engine's diagnostic
/// when the handshake was rejected. A rejection fails the operation with the
/// error of kind `Other` whose message is the diagnostic behind the fixed
/// prefix.
pub open spec fn accept_answers(
    answer: Result<Option<rustls::server::Accepted>, String>,
    out: AcceptOutcome,
) -> bool {
    match answer {
        Ok(Some(classified)) => out == Outcome::<rustls::server::Accepted, std::io::Error>::Ready(
            classified,
        ),
        Ok(None) => out is Pending,
        Err(diagnostic) => {
            &&& out is Failed
            &&& out->Failed_0 == other_error(accept_error_prefix() + diagnostic@)
            &&& kind_of(out->Failed_0) is Other
        },
    }
}

/// Whether `out` is what a classification makes of the engine's answer as
/// the engine gave it: the diagnostic of a rejection is the text that the
/// engine's error displays as, and its alert is dropped.
pub open spec fn poll_outcome(
    answer: Result<
        Option<rustls::server::Accepted>,
        (rustls::Error, rustls::server::AcceptedAlert),
    >,
    out: AcceptOutcome,
) -> bool {
    match answer {
        Ok(found) => accept_answers(Ok::<Option<rustls::server::Accepted>, String>(found), out),
        Err(rejected) => exists|text: String| #[trigger]
            to_string_from_display_ensures::<rustls::Error>(&rejected.0, text)
                && accept_answers(Err::<Option<rustls::server::Accepted>, String>(text), out),
    }
}

/// Accepts one inbound connection: owns the engine that accumulates the
/// handshake, and borrows the transport for as long as it lives.
pub struct HandshakeAcceptor<'a, IO> {
    io: &'a mut IO,
    acceptor: rustls::server::Acceptor,
}

/// One attempt to pull more bytes from the transport into the engine.
pub struct ReadTls<'a, IO> {
    io: &'a mut IO,
    acceptor: &'a mut rustls::server::Acceptor,
}

/// One attempt to classify the handshake from what the engine holds.
pub struct Accepting<'a> {
    acceptor: &'a mut rustls::server::Acceptor,
}

impl<'a, IO> HandshakeAcceptor<'a, IO> {
    /// The borrowed transport.
    pub closed spec fn transport(&self) -> &'a mut IO {
        self.io
    }

    /// The engine, with all it has accumulated.
    pub closed spec fn engine(&self) -> rustls::server::Acceptor {
        self.acceptor
    }

    /// Borrows the transport and starts with a new engine, which has nothing
    /// to classify yet. The transport is not touched.
    pub fn new(io: &'a mut IO) -> (acceptor: Self)
        ensures
            *acceptor.transport() == *old(io),
            *final(acceptor.transport()) == *final(io),
            engine_answer(acceptor.engine()) matches Ok(None),
    {
        HandshakeAcceptor { io, acceptor: engine_default() }
    }

    /// Makes a read operation on the acceptor's transport and engine.
    ///
    /// The operation starts from the engine and the transport as they are,
    /// and what it leaves of them is what the acceptor holds afterwards: an
    /// operation that is dropped before it did anything changes nothing.
    pub fn read_tls(&mut self) -> (op: ReadTls<'_, IO>)
        ensures
            *op.engine() == old(self).engine(),
            *final(op.engine()) == final(self).engine(),
            *op.transport() == *old(self).transport(),
            *final(op.transport()) == *final(self).transport(),
            *final(final(self).transport()) == *final(old(self).transport()),
    {
        ReadTls { io: &mut *self.io, acceptor: &mut self.acceptor }
    }

    /// Makes a classification operation on the acceptor's engine.
    ///
    /// The operation starts from the engine as it is, and what it leaves of
    /// it is what the acceptor holds afterwards. The transport is out of its
    /// reach.
    pub fn accept(&mut self) -> (op: Accepting<'_>)
        ensures
            *op.engine() == old(self).engine(),
            *final(op.engine()) == final(self).engine(),
            final(self).transport() == old(self).transport(),
    {
        Accepting { acceptor: &mut self.acceptor }
    }

    /// Wraps a negotiated session and the transport it is to run over, tagged
    /// as still in its handshake. Nothing is read or written.
    pub fn from_srvconn(conn: rustls::ServerConnection, stream: IO) -> (handoff: Accept<IO>)
        ensures
            handoff.session() == conn,
            handoff.transport() == stream,
            handoff.spec_state() == TlsState::HandshakeInProgress,
    {
        Accept::wrap(conn, stream, TlsState::HandshakeInProgress)
    }
}

impl<'a, IO> ReadTls<'a, IO> {
    /// The borrowed transport.
    pub closed spec fn transport(&self) -> &'a mut IO {
        self.io
    }

    /// The borrowed engine.
    pub closed spec fn engine(&self) -> &'a mut rustls::server::Acceptor {
        self.acceptor
    }

    /// Binds a reader to the transport and the given suspension context, and
    /// lends it out with the engine that is to pull through it.
    pub fn reader<'r, 'c>(&'r mut self, cx: &'r mut std::task::Context<'c>) -> (lent: (
        StdReader<'r, 'c, IO>,
        &'r mut rustls::server::Acceptor,
    ))
        ensures
            *lent.0.transport() == *old(self).transport(),
            *final(lent.0.transport()) == *final(self).transport(),
            *final(final(self).transport()) == *final(old(self).transport()),
            *lent.0.context() == *old(cx),
            *final(lent.0.context()) == *final(cx),
            *lent.1 == *old(self).engine(),
            *final(lent.1) == *final(self).engine(),
            *final(final(self).engine()) == *final(old(self).engine()),
    {
        (StdReader::new(&mut *self.io, cx), &mut *self.acceptor)
    }

    /// Decides how the operation ends, from the engine's answer to the pull.
    pub fn settle(&self, pulled: Result<usize, std::io::Error>) -> (out: ReadOutcome)
        ensures
            out == read_outcome(pulled),
    {
        match pulled {
            Ok(n) => Outcome::Ready(n),
            Err(error) => match io_kind(&error) {
                IoKind::WouldBlock => Outcome::Pending,
                _ => Outcome::Failed(error),
            },
        }
    }
}

/// An acceptor that will not be used again leaves the transport as it is
/// now.
pub proof fn lemma_acceptor_dropped<IO>(acceptor: HandshakeAcceptor<'_, IO>)
    requires
        has_resolved(acceptor),
    ensures
        *final(acceptor.transport()) == *acceptor.transport(),
{
}

/// An operation that will not be resumed again leaves the engine and the
/// transport as they are now.
pub proof fn lemma_read_dropped<IO>(op: ReadTls<'_, IO>)
    requires
        has_resolved(op),
    ensures
        *final(op.engine()) == *op.engine(),
        *final(op.transport()) == *op.transport(),
{
}

/// An operation that will not be resumed again leaves the engine as it is
/// now.
pub proof fn lemma_accept_dropped(op: Accepting<'_>)
    requires
        has_resolved(op),
    ensures
        *final(op.engine()) == *op.engine(),
{
}

impl<'a> Accepting<'a> {
    /// The borrowed engine.
    pub closed spec fn engine(&self) -> &'a mut rustls::server::Acceptor {
        self.acceptor
    }

    /// Decides how the operation ends, from the engine's answer with a
    /// rejection already put into words.
    pub fn settle(answer: Result<Option<rustls::server::Accepted>, String>) -> (out:
        AcceptOutcome)
        ensures
            accept_answers(answer, out),
    {
        match answer {
            Ok(Some(classified)) => Outcome::Ready(classified),
            Ok(None) => Outcome::Pending,
            Err(diagnostic) => {
                let message = String::from_str("accepted err").concat(diagnostic.as_str());
                Outcome::Failed(new_other_error(message))
            },
        }
    }

    /// Asks the engine to classify the handshake now.
    ///
    /// The outcome is what the engine's answer makes it, and the engine is
    /// left as the engine leaves itself; the operation goes on borrowing that
    /// same engine. The engine's alert is dropped: nothing is sent.
    pub fn poll(&mut self) -> (out: AcceptOutcome)
        ensures
            poll_outcome(engine_answer(*old(self).engine()), out),
            *final(self).engine() == engine_left(*old(self).engine()),
            *final(final(self).engine()) == *final(old(self).engine()),
    {
        let answer = match engine_accept(self.acceptor) {
            Ok(found) => Ok(found),
            Err((error, _alert)) => Err(error.to_string()),
        };
        Self::settle(answer)
    }
}

} // verus!
