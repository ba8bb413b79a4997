//! An embeddable interactive command line for terminal programs.
//!
//! The crate keeps a typed line buffer with command history, an append-only
//! scrollback log with render-time wrapping and windowing, a pollable event
//! queue that a background input task feeds, and a dispatch cycle that hands
//! tokenized commands to a `clap` command definition and routes each outcome
//! (matches, help, version, usage error, internal format error) to a
//! non-fatal, user-visible result.

pub mod dispatch;
pub mod events;
pub mod input;
pub mod output;
pub mod text;
