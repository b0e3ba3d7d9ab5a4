//! The reader that makes a polled transport look like a blocking byte source.
//!
//! The engine pulls bytes with one synchronous read call. The reader answers
//! that call from exactly one poll attempt on the transport, and never waits:
//! a transport that is not ready comes back as the would-block error, which
//! the engine hands on untouched.

use vstd::prelude::*;
use crate::io_error::{would_block, would_block_error};

verus! {

/// `std::task::Context`: the suspension context of the task being resumed.
#[verifier::external_type_specification]
#[verifier::external_body]
pub struct ExContext<'a>(std::task::Context<'a>);

/// `tokio::io::ReadBuf`: the buffer a transport fills when it is polled.
#[verifier::external_type_specification]
#[verifier::external_body]
pub struct ExReadBuf<'a>(tokio::io::ReadBuf<'a>);

/// The bytes that `buf` holds as filled, in order.
pub uninterp spec fn filled(buf: tokio::io::ReadBuf<'_>) -> Seq<u8>;

/// The number of bytes that `buf` has room for, filled ones included.
pub uninterp spec fn room(buf: tokio::io::ReadBuf<'_>) -> nat;

/// Calls `tokio::io::ReadBuf::new`. Trusted: the buffer made of a slice has
/// room for as many bytes as the slice is long, and none of them is filled.
#[verifier::external_body]
pub(crate) fn read_buf_new<'a>(buf: &'a mut [u8]) -> (rbf: tokio::io::ReadBuf<'a>)
    ensures
        filled(rbf) == Seq::<u8>::empty(),
        room(rbf) == old(buf)@.len(),
{
    tokio::io::ReadBuf::new(buf)
}

/// Calls `tokio::io::ReadBuf::filled`. Trusted: the slice it returns holds
/// the filled bytes, which are never more than the buffer has room for.
#[verifier::external_body]
pub(crate) fn read_buf_filled<'a>(rbf: &'a tokio::io::ReadBuf<'_>) -> (bytes: &'a [u8])
    ensures
        bytes@ == filled(*rbf),
        bytes@.len() <= room(*rbf),
{
    rbf.filled()
}

/// What one poll attempt on the transport reported. How many bytes a ready
/// transport delivered is not part of the report: the buffer knows.
pub enum Polled {
    /// Data was available and has been placed in the buffer. No data at all
    /// means the stream has ended.
    Ready,
    /// The transport failed.
    Failed(std::io::Error),
    /// The transport has nothing to read yet.
    NotReady,
}

/// Whether `read` is the answer to a synchronous read call that one poll
/// attempt allows, when it reported `polled` and left `count` bytes filled.
///
/// A ready transport gives the count and a failure is passed on as it is.
/// A transport that is not ready gives an error too, the would-block one;
/// which error value that is, beyond its kind, is left open.
pub open spec fn read_answers(polled: Polled, count: nat, read: Result<usize, std::io::Error>) -> bool {
    match polled {
        Polled::Ready => read is Ok && read->Ok_0 == count,
        Polled::Failed(error) => read == Err::<usize, std::io::Error>(error),
        Polled::NotReady => read is Err && would_block(read->Err_0),
    }
}

/// A transport and the suspension context to poll it with, borrowed for the
/// duration of one read call of the engine.
pub struct StdReader<'a, 'b, T> {
    io: &'a mut T,
    cx: &'a mut std::task::Context<'b>,
}

impl<'a, 'b, T> StdReader<'a, 'b, T> {
    /// The borrowed transport.
    pub closed spec fn transport(&self) -> &'a mut T {
        self.io
    }

    /// The borrowed suspension context.
    pub closed spec fn context(&self) -> &'a mut std::task::Context<'b> {
        self.cx
    }

    /// Binds a reader to a transport and the current suspension context.
    /// Neither is touched.
    pub fn new(io: &'a mut T, cx: &'a mut std::task::Context<'b>) -> (reader: Self)
        ensures
            *reader.transport() == *old(io),
            *final(reader.transport()) == *final(io),
            *reader.context() == *old(cx),
            *final(reader.context()) == *final(cx),
    {
        Self { io, cx }
    }

    /// Wraps the slice that a read call was given into the buffer that the
    /// transport is to fill: as much room as the slice is long, nothing
    /// filled yet.
    pub fn buffer<'s>(&self, buf: &'s mut [u8]) -> (rbf: tokio::io::ReadBuf<'s>)
        ensures
            filled(rbf) == Seq::<u8>::empty(),
            room(rbf) == old(buf)@.len(),
    {
        read_buf_new(buf)
    }

    /// Lends out the transport and the context for the one poll attempt that
    /// a read call makes. Whatever the poll does to them is what the reader
    /// holds afterwards.
    pub fn parts(&mut self) -> (lent: (&mut T, &mut std::task::Context<'b>))
        ensures
            *lent.0 == *old(self).transport(),
            *final(lent.0) == *final(self).transport(),
            *final(final(self).transport()) == *final(old(self).transport()),
            *lent.1 == *old(self).context(),
            *final(lent.1) == *final(self).context(),
            *final(final(self).context()) == *final(old(self).context()),
    {
        (&mut *self.io, &mut *self.cx)
    }

    /// Answers one synchronous read call from what the one poll attempt
    /// reported and left in the buffer. There is no second attempt and no
    /// waiting, and the count is never more than the buffer had room for.
    pub fn read(&self, polled: Polled, rbf: &tokio::io::ReadBuf<'_>) -> (read: Result<
        usize,
        std::io::Error,
    >)
        ensures
            read_answers(polled, filled(*rbf).len(), read),
            read matches Ok(n) ==> n <= room(*rbf),
    {
        match polled {
            Polled::Ready => Ok(read_buf_filled(rbf).len()),
            Polled::Failed(error) => Err(error),
            Polled::NotReady => Err(would_block_error()),
        }
    }
}

/// A reader that will not be used again leaves the transport and the context
/// as they are now.
pub proof fn lemma_reader_dropped<T>(reader: StdReader<'_, '_, T>)
    requires
        has_resolved(reader),
    ensures
        *final(reader.transport()) == *reader.transport(),
        *final(reader.context()) == *reader.context(),
{
}

} // verus!
