//! What this crate reads from, and puts into, a `std::io::Error`.
//!
//! A synchronous reader has no way to say "not ready yet" other than to fail
//! with an error of kind `WouldBlock`. The bridge produces that signal in the
//! reader and recognises it again once the protocol engine has handed it
//! back. A rejected handshake leaves the bridge as an error of kind `Other`
//! that carries a message. Both directions are declared here, side by side.

use vstd::prelude::*;

verus! {

/// `std::io::Error`, carried through this crate without looking inside.
#[verifier::external_type_specification]
#[verifier::external_body]
pub struct ExIoError(std::io::Error);

/// The kinds of `std::io::ErrorKind` that the bridge tells apart.
#[derive(Clone, Copy, PartialEq, Eq, Debug, Structural)]
pub enum IoKind {
    /// `ErrorKind::WouldBlock`: the transient signal.
    WouldBlock,
    /// `ErrorKind::Other`.
    Other,
    /// Every other kind.
    Unlisted,
}

/// What `std::io::Error::kind` returns for `error`, as far as the bridge
/// tells kinds apart.
pub uninterp spec fn kind_of(error: std::io::Error) -> IoKind;

/// The error that `std::io::Error::new` makes of `ErrorKind::Other` and a
/// message.
pub uninterp spec fn other_error(message: Seq<char>) -> std::io::Error;

/// Whether `error` is the transient would-block signal.
pub open spec fn would_block(error: std::io::Error) -> bool {
    kind_of(error) is WouldBlock
}

/// Calls `std::io::Error::kind` and tells the two kinds that matter apart
/// from the rest. Trusted: the answer is `kind_of` the error.
#[verifier::external_body]
pub(crate) fn io_kind(error: &std::io::Error) -> (kind: IoKind)
    ensures
        kind == kind_of(*error),
{
    match error.kind() {
        std::io::ErrorKind::WouldBlock => IoKind::WouldBlock,
        std::io::ErrorKind::Other => IoKind::Other,
        _ => IoKind::Unlisted,
    }
}

/// Calls `From<ErrorKind> for std::io::Error` on `ErrorKind::WouldBlock`.
/// Trusted: the error so made reports the kind it was made from.
#[verifier::external_body]
pub(crate) fn would_block_error() -> (error: std::io::Error)
    ensures
        kind_of(error) is WouldBlock,
{
    std::io::Error::from(std::io::ErrorKind::WouldBlock)
}

/// Calls `std::io::Error::new` with `ErrorKind::Other` and the message as
/// payload. Trusted: the same message gives the same error, and the error
/// reports the kind it was made with.
#[verifier::external_body]
pub(crate) fn new_other_error(message: String) -> (error: std::io::Error)
    ensures
        error == other_error(message@),
        kind_of(error) is Other,
{
    std::io::Error::new(std::io::ErrorKind::Other, message)
}

} // verus!
