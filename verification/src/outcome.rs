//! How one resumption of an operation ends.

use vstd::prelude::*;
use crate::io_error::would_block;

verus! {

/// The result of resuming an operation once: it completed with a value, it
/// completed with a failure, or it has to wait for the transport.
pub enum Outcome<T, E> {
    /// The operation completed.
    Ready(T),
    /// The operation completed with a failure. Nothing is retried.
    Failed(E),
    /// The operation yields to the scheduler and is to be resumed later.
    Pending,
}

/// The outcome of pulling bytes into the engine: a byte count, the error
/// that ended the pull, or suspension.
pub type ReadOutcome = Outcome<usize, std::io::Error>;

/// The outcome of asking the engine to classify the handshake: the
/// classified handshake, an error of kind `Other` that describes why it was
/// rejected, or suspension.
pub type AcceptOutcome = Outcome<rustls::server::Accepted, std::io::Error>;

/// What a read operation makes of the engine's answer to one pull.
///
/// A byte count, zero included, completes the operation. An error completes
/// it too and is handed on as it is, unless it is the would-block signal:
/// that one is never shown to the caller and suspends the operation instead.
pub open spec fn read_outcome(pulled: Result<usize, std::io::Error>) -> ReadOutcome {
    match pulled {
        Ok(n) => Outcome::Ready(n),
        Err(error) => if would_block(error) {
            Outcome::Pending
        } else {
            Outcome::Failed(error)
        },
    }
}

/// The text that the message of every classification failure starts with.
pub open spec fn accept_error_prefix() -> Seq<char> {
    "accepted err"@
}

} // verus!
