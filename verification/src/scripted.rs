//! An emitter for functions that were lowered ahead of time.

use vstd::prelude::*;
use vstd::string::StringExecFns;
use crate::emitter::FunctionEmitter;
use crate::error::EmitError;
use crate::registry::ExternalRegistry;
use crate::sink::Sink;

verus! {

/// A function together with the outcome of lowering it: the text of its
/// body and the external symbols it references, or the error that lowering
/// it gave.
#[derive(Clone, Debug, PartialEq, Eq)]
pub struct ScriptedFunction {
    pub text: String,
    pub externals: Vec<String>,
    pub failure: Option<EmitError>,
}

/// Replays [`ScriptedFunction`]s: it writes the recorded text and registers
/// the recorded symbols, or fails with the recorded error and writes nothing.
#[derive(Clone, Copy, Debug)]
pub struct ScriptedEmitter;

impl FunctionEmitter for ScriptedEmitter {
    type Function = ScriptedFunction;

    open spec fn described(&self) -> bool {
        true
    }

    open spec fn text(&self, function: &ScriptedFunction) -> Seq<char> {
        function.text@
    }

    open spec fn references(&self, function: &ScriptedFunction) -> Seq<Seq<char>> {
        crate::registry::texts(function.externals@)
    }

    open spec fn failure(&self, function: &ScriptedFunction) -> Option<Seq<char>> {
        match function.failure {
            Some(e) => Some(e@),
            None => None,
        }
    }

    fn emit_function<W: Sink>(
        &self,
        sink: &mut W,
        registry: &mut ExternalRegistry,
        function: &ScriptedFunction,
    ) -> (r: Result<(), EmitError>) {
        if let Some(e) = &function.failure {
            return Err(EmitError { message: e.message.clone() });
        }
        if sink.write_text(function.text.as_str()).is_err() {
            return Err(EmitError { message: String::from_str("The output sink rejected a write") });
        }
        let ghost before = registry@;
        let ghost added = crate::registry::texts(function.externals@);
        let mut i: usize = 0;
        while i < function.externals.len()
            invariant
                i <= function.externals.len(),
                added == crate::registry::texts(function.externals@),
                registry@ == crate::registry::register_all(before, added.take(i as int)),
            decreases function.externals.len() - i,
        {
            registry.register(function.externals[i].clone());
            proof {
                assert(added.take(i + 1).drop_last() =~= added.take(i as int));
            }
            i += 1;
        }
        proof {
            assert(added.take(i as int) =~= added);
        }
        Ok(())
    }
}

} // verus!
