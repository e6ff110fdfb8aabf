//! The sink that takes the emitted text.

use vstd::prelude::*;
use vstd::string::StringExecFns;

verus! {

/// The sink rejected a write. What it holds after that is not defined.
#[derive(Clone, Copy, Debug, PartialEq, Eq)]
pub struct SinkWriteFailure;

/// A place to which text is appended, piece after piece.
///
/// A type of sinks is either reliable or held to nothing. A reliable sink
/// takes every text, and `written` tells what it holds. A type that does
/// not declare itself reliable, such as one that writes to a device, may
/// reject a write, and nothing is said of what it holds.
pub trait Sink {
    /// Sinks of this type reject no write and hold what `written` tells.
    open spec fn reliable() -> bool {
        false
    }

    /// Everything a reliable sink has taken so far.
    open spec fn written(&self) -> Seq<char> {
        Seq::empty()
    }

    /// Appends `text`.
    fn write_text(&mut self, text: &str) -> (r: Result<(), SinkWriteFailure>)
        ensures
            Self::reliable() ==> r is Ok && final(self).written() == old(self).written() + text@,
    ;
}

/// A `String` is a reliable sink: it holds what was written to it.
impl Sink for String {
    open spec fn reliable() -> bool {
        true
    }

    open spec fn written(&self) -> Seq<char> {
        self@
    }

    fn write_text(&mut self, text: &str) -> (r: Result<(), SinkWriteFailure>) {
        self.append(text);
        Ok(())
    }
}

} // verus!
