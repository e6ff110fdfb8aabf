//! The collaborator that lowers one function to text.

use vstd::prelude::*;
use crate::error::EmitError;
use crate::registry::ExternalRegistry;
use crate::sink::Sink;

verus! {

/// Lowers one function at a time. The driver calls `emit_function` once for
/// every function of a unit, in unit order, always with the same registry.
///
/// An emitter is either described or held to nothing. What a described
/// emitter does with a function is a matter of the function alone: `text`
/// is what it writes, `references` the external symbols it registers and
/// `failure` the error with which it gives the function up. Of an emitter
/// that does not declare itself described the driver knows only whether a
/// call succeeded.
pub trait FunctionEmitter {
    /// The emitter's representation of a function.
    type Function;

    /// `text`, `references` and `failure` describe what this emitter does.
    open spec fn described(&self) -> bool {
        false
    }

    /// The text that this emitter writes for `function`.
    open spec fn text(&self, function: &Self::Function) -> Seq<char> {
        Seq::empty()
    }

    /// The symbols that `function` references and the unit does not define,
    /// in the order in which the emitter comes across them. A symbol may
    /// occur more than once.
    open spec fn references(&self, function: &Self::Function) -> Seq<Seq<char>> {
        Seq::empty()
    }

    /// The message of this emitter's own error for `function`, if it cannot
    /// lower it.
    open spec fn failure(&self, function: &Self::Function) -> Option<Seq<char>> {
        None
    }

    /// Writes the text of `function` to `sink` and registers every symbol
    /// that it references with `registry`.
    ///
    /// A described emitter succeeds only on a function that it can lower,
    /// and has then registered the function's references, in their order.
    /// On a reliable sink it succeeds on every such function and has
    /// appended the function's text; on any other function it fails with
    /// its own error, and what the sink held before stays in front.
    fn emit_function<W: Sink>(
        &self,
        sink: &mut W,
        registry: &mut ExternalRegistry,
        function: &Self::Function,
    ) -> (r: Result<(), EmitError>)
        ensures
            self.described() ==> {
                &&& r is Ok ==> {
                    &&& self.failure(function) is None
                    &&& final(registry)@ == crate::registry::register_all(
                        old(registry)@,
                        self.references(function),
                    )
                }
                &&& W::reliable() ==> match self.failure(function) {
                    None => r is Ok && final(sink).written() == old(sink).written() + self.text(
                        function,
                    ),
                    Some(message) => {
                        &&& r matches Err(e) && e@ == message
                        &&& old(sink).written().is_prefix_of(final(sink).written())
                    },
                }
            },
    ;
}

} // verus!
