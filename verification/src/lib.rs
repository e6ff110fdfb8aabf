//! Unit-level driver that writes one lowered compilation unit as textual IR.
//!
//! The driver checks the unit's fatal marker, writes the source-language
//! header, hands every function in unit order to a [`emitter::FunctionEmitter`]
//! and closes with one declaration per external symbol the emitter reported.
//! Every function here is verified; contracts are stated over `Seq<char>`.

pub mod decimal;
pub mod emitter;
pub mod error;
pub mod fatal;
pub mod registry;
pub mod scripted;
pub mod sink;
pub mod text;
pub mod textual;
pub mod unit;
pub mod writer;
