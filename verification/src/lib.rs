//! Accept-side bridge between a synchronous TLS handshake engine and a
//! transport that is polled rather than blocked on.
//!
//! The engine wants a reader it can call until it has enough bytes; the
//! transport can only be asked whether it has any right now. This crate holds
//! the decisions that join the two, and none of the waiting:
//!
//! * [`acceptor::HandshakeAcceptor`] owns the engine, borrows the transport
//!   and makes the two operations, [`acceptor::ReadTls`] and
//!   [`acceptor::Accepting`];
//! * [`reader::StdReader`] answers one read call of the engine from one poll
//!   attempt on the transport;
//! * [`outcome::Outcome`] is how one resumption of an operation ends;
//! * [`handoff::Accept`] is what leaves the acceptor once a session exists;
//! * [`trace`] states what holds of whole runs of read operations.
//!
//! The crate never touches the transport itself. Whoever drives an operation
//! makes the poll attempt on what [`reader::StdReader::parts`] lends out,
//! reports it as a [`reader::Polled`], and lets the engine pull through the
//! reader; the crate says what each party is to make of the other's answer.
//! Classification needs no transport and is done here in full.

pub mod acceptor;
pub mod engine;
pub mod handoff;
pub mod io_error;
pub mod outcome;
pub mod reader;
pub mod trace;
