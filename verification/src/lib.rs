//! Bookkeeping core of a desktop terminal-session manager.
//!
//! The application opens interactive sessions, a local shell or a remote
//! session over the system's secure-shell client, each on a pseudo-terminal.
//! This crate holds what the application decides, as verified functions on
//! plain values; pseudo-terminals, processes, threads, the event sink and the
//! database stay with the caller, who performs what is decided here.
//!
//! - `terminal::registry`: which sessions are tracked and what is recorded of
//!   each; the operations write, resize, close and finalize.
//! - `terminal::lifecycle`: the operations as a state machine, and what holds
//!   of every sequence of them (one exit notification for a natural exit,
//!   none after a close, writes handed on in order).
//! - `terminal::provenance`: which writes are remembered as the last
//!   command, and in what form.
//! - `terminal::pump`: what the output loop does with each read.
//! - `terminal::launch`: the spawn specification of a local and of a remote
//!   session, and the arguments of the secure-shell client.
//! - `arch`: the choice of shell and secure-shell client among what the
//!   platform offers; the secret vault.
//! - `db`: the stored records and the rules by which rows become values.
//! - `text`, `ident`: strings as sequences of characters; fresh identifiers.

pub mod arch;
pub mod db;
pub mod ident;
pub mod terminal;
pub mod text;
