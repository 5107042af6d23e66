//! An incremental parser for terminal control sequences.
//!
//! Bytes arrive in arbitrary fragments. The parser classifies each byte, walks
//! a fixed state machine and turns complete sequences into typed events:
//! printable data, C0 controls, escape sequences, control sequences with their
//! graphic-rendition attributes, operating system commands with hyperlinks, and
//! device control strings. Events that are produced inside a synchronized update
//! wait until the update ends.
//!
//! Every executable function carries a contract over a mathematical model of
//! the parser.
//!
//! - [`tables`]: byte classes, states, actions and the transition relation.
//! - [`definitions`]: the events and the values they carry.
//! - [`text`]: searching, decimal numbers and UTF-8.
//! - [`model`]: the model: the machine, the sink of its events and the parser.
//! - [`osc`]: operating system commands.
//! - [`parser`]: the parser itself.
//! - [`laws`]: what holds of whole runs of the machine.
//!
//! Some choices that a user may want to know:
//!
//! - An operating system command without a `;` has the command number 0 and
//!   all its bytes as payload, also where the bytes are digits.
//! - A `?` among the parameter bytes of a sequence is kept as an intermediate.
//!   A private-mode sequence is recognised by it, and the same parameters
//!   without it set no mode.
//! - `CSI 1 K` gives `Backspace`.
//! - Printable bytes that wait at the end of a chunk are emitted with the
//!   chunk, so that a chunk that ends inside a run of text splits the run.
//! - The number of open synchronized updates stops at the largest `usize`.
//! - Unknown sequences give no event and are not reported in any other way.

pub mod definitions;
pub mod laws;
pub mod model;
pub mod osc;
pub mod parser;
pub mod tables;
pub mod text;

pub use definitions::{
    CharsetIndex, CursorShape, Event, FormatTag, Mode, ModeView, SelectGraphicRendition,
    StandardCharset, TerminalOutput,
};
pub use model::{Machine, ParserModel, Pushed, Sink, Step};
pub use parser::AnsiParser;
pub use tables::{Action, ByteClass, State, TableEntry};
