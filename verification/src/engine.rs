//! The TLS protocol engine, as far as the bridge touches it.
//!
//! The engine is `rustls`. What it parses and how it decides is not modelled
//! here: its values are opaque. Its answer to a classification, and what it
//! holds afterwards, depend on nothing but the engine itself, so both have a
//! name, and the bridge is verified against those names for every answer the
//! engine can give. The one thing claimed beyond that is that an engine that
//! was given no bytes has nothing to classify.
//!
//! The engine trusts its readers: it takes the count a read call returns as
//! the number of bytes now in its buffer. The reader of this crate never
//! returns more than the buffer it was offered had room for.

use vstd::prelude::*;

verus! {

/// `rustls::server::Acceptor`: the state machine that accumulates the bytes
/// of an incoming handshake until it can be classified.
#[verifier::external_type_specification]
#[verifier::external_body]
pub struct ExEngine(rustls::server::Acceptor);

/// `rustls::server::Accepted`: a classified handshake, exposing what the
/// client offered.
#[verifier::external_type_specification]
#[verifier::external_body]
pub struct ExClassified(rustls::server::Accepted);

/// `rustls::server::AcceptedAlert`: the alert the engine prepared for a
/// handshake it rejected.
#[verifier::external_type_specification]
#[verifier::external_body]
pub struct ExAlert(rustls::server::AcceptedAlert);

/// `rustls::Error`: why the engine rejected a handshake.
#[verifier::external_type_specification]
#[verifier::external_body]
pub struct ExEngineError(rustls::Error);

/// `rustls::ServerConnection`: a session negotiated from a classified
/// handshake and a server configuration.
#[verifier::external_type_specification]
#[verifier::external_body]
pub struct ExSession(rustls::ServerConnection);

/// What `rustls::server::Acceptor::accept` returns when called on `engine`.
pub uninterp spec fn engine_answer(engine: rustls::server::Acceptor) -> Result<
    Option<rustls::server::Accepted>,
    (rustls::Error, rustls::server::AcceptedAlert),
>;

/// What `rustls::server::Acceptor::accept` leaves of `engine`.
pub uninterp spec fn engine_left(engine: rustls::server::Acceptor) -> rustls::server::Acceptor;

/// Calls `Default::default` of `rustls::server::Acceptor`, which returns an
/// engine that has been given no bytes. Trusted: asked to classify, such an
/// engine answers that it has too little data.
#[verifier::external_body]
pub(crate) fn engine_default() -> (engine: rustls::server::Acceptor)
    ensures
        engine_answer(engine) matches Ok(None),
{
    rustls::server::Acceptor::default()
}

/// Calls `rustls::server::Acceptor::accept`. It returns `Ok(Some(..))` once
/// the client's first message is complete and well formed, `Ok(None)` while
/// it is incomplete, and an error with an alert when it cannot be accepted.
/// Trusted: the answer and the engine afterwards are those that the two
/// names give for the engine before the call, which is to say that they
/// depend on nothing else.
#[verifier::external_body]
pub(crate) fn engine_accept(engine: &mut rustls::server::Acceptor) -> (answer: Result<
    Option<rustls::server::Accepted>,
    (rustls::Error, rustls::server::AcceptedAlert),
>)
    ensures
        answer == engine_answer(*old(engine)),
        *final(engine) == engine_left(*old(engine)),
{
    engine.accept()
}

} // verus!
