//! Interpreter for line-oriented WebSocket test scripts.
//!
//! A script is a list of lines, each a one-character command, a colon and a
//! payload: `S` sends the payload as a text frame, `E`, `R` and `J` await a
//! text frame and hold it against the payload (as a text, a regular
//! expression or a JSON document), and `#` begins a comment. The first line
//! that fails ends the script.
//!
//! The library decides; it does not talk to a server. [`interpreter`] names
//! the action to perform next and takes the event that came of it, so the
//! caller owns the transport. [`matcher`] holds the structural comparison of
//! JSON values behind `J`, [`document`] and [`pattern`] read JSON documents
//! and regular expressions with the `json` and `regex` crates, [`script`]
//! splits lines, [`failure`] names what can go wrong, and [`runner`] writes
//! the report on a run over several scripts.

pub mod document;
pub mod failure;
pub mod frame;
pub mod interpreter;
pub mod matcher;
pub mod number;
pub mod pattern;
pub mod runner;
pub mod script;
pub mod text;
