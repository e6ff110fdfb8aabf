//! The pieces of the textual format that the driver writes itself.

use vstd::prelude::*;
use vstd::string::StringExecFns;
use crate::registry::ExternalRegistry;
use crate::sink::Sink;
use crate::sink::SinkWriteFailure;

verus! {

/// An attribute in the header of a textual file.
#[derive(Clone, Debug, PartialEq, Eq)]
pub enum Attribute {
    /// The language that the unit was compiled from.
    SourceLanguage(String),
}

/// The line that declares the source language `lang`.
pub open spec fn source_language_text(lang: Seq<char>) -> Seq<char> {
    ".source_language = \""@ + lang + "\"\n"@
}

/// The line that an attribute is written as.
pub open spec fn attribute_text(attr: Attribute) -> Seq<char> {
    match attr {
        Attribute::SourceLanguage(lang) => source_language_text(lang@),
    }
}

/// The line that declares the external symbol `name`.
pub open spec fn declaration_line(name: Seq<char>) -> Seq<char> {
    "declare "@ + name + "(HackParams): mixed\n"@
}

/// The declaration lines of `names`, one line for each name, in order.
pub open spec fn declaration_lines(names: Seq<Seq<char>>) -> Seq<Seq<char>> {
    Seq::new(names.len(), |i: int| declaration_line(names[i]))
}

/// The comment that opens the block of declarations.
pub open spec fn externals_heading() -> Seq<char> {
    "// ----- EXTERNALS -----\n"@
}

/// The block of declarations for `names`: the heading, one line for each
/// name in order, and an empty line.
pub open spec fn externals_text(names: Seq<Seq<char>>) -> Seq<char> {
    externals_heading() + declaration_lines(names).flatten() + "\n"@
}

/// Writes `attr` as one line.
pub fn write_attribute<W: Sink>(w: &mut W, attr: Attribute) -> (r: Result<(), SinkWriteFailure>)
    ensures
        W::reliable() ==> r is Ok && final(w).written() == old(w).written() + attribute_text(attr),
{
    match attr {
        Attribute::SourceLanguage(lang) => {
            let mut line = String::from_str(".source_language = \"");
            line.append(lang.as_str());
            line.append("\"\n");
            w.write_text(line.as_str())
        },
    }
}

/// Writes the line that declares the external symbol `name`.
pub fn write_declaration<W: Sink>(w: &mut W, name: &String) -> (r: Result<(), SinkWriteFailure>)
    ensures
        W::reliable() ==> r is Ok && final(w).written() == old(w).written() + declaration_line(
            name@,
        ),
{
    let mut line = String::from_str("declare ");
    line.append(name.as_str());
    line.append("(HackParams): mixed\n");
    w.write_text(line.as_str())
}

/// Writes the block of declarations for the names in `registry`, in the
/// order in which the registry enumerates them.
pub fn write_externals<W: Sink>(w: &mut W, registry: &ExternalRegistry) -> (r: Result<
    (),
    SinkWriteFailure,
>)
    ensures
        W::reliable() ==> r is Ok && final(w).written() == old(w).written() + externals_text(
            registry@,
        ),
{
    if w.write_text("// ----- EXTERNALS -----\n").is_err() {
        return Err(SinkWriteFailure);
    }
    let names = registry.enumerate();
    let ghost lines = declaration_lines(registry@);
    let mut i: usize = 0;
    while i < names.len()
        invariant
            i <= names.len(),
            crate::registry::texts(names@) == registry@,
            lines == declaration_lines(registry@),
            W::reliable() ==> w.written() == old(w).written() + externals_heading() + lines.take(
                i as int,
            ).flatten(),
        decreases names.len() - i,
    {
        if write_declaration(w, &names[i]).is_err() {
            return Err(SinkWriteFailure);
        }
        proof {
            let done = lines.take(i as int);
            assert(lines.take(i + 1) =~= done.push(lines[i as int]));
            done.lemma_flatten_push(lines[i as int]);
        }
        i += 1;
    }
    proof {
        assert(lines.take(i as int) =~= lines);
    }
    if w.write_text("\n").is_err() {
        return Err(SinkWriteFailure);
    }
    Ok(())
}

/// Two names that are declared by the same line are the same name.
pub proof fn lemma_declaration_line_injective(a: Seq<char>, b: Seq<char>)
    requires
        declaration_line(a) == declaration_line(b),
    ensures
        a == b,
{
    let head = "declare "@;
    let tail = "(HackParams): mixed\n"@;
    assert(declaration_line(a).len() == head.len() + a.len() + tail.len());
    assert(declaration_line(b).len() == head.len() + b.len() + tail.len());
    let from = head.len() as int;
    assert(declaration_line(a).subrange(from, from + a.len()) =~= a);
    assert(declaration_line(b).subrange(from, from + b.len()) =~= b);
}

/// Names of which none occurs twice are declared by lines of which none
/// occurs twice, and a name among them is declared by exactly one line.
pub proof fn lemma_distinct_names_distinct_lines(names: Seq<Seq<char>>)
    requires
        names.no_duplicates(),
    ensures
        declaration_lines(names).no_duplicates(),
        forall|name: Seq<char>| #[trigger]
            declaration_lines(names).contains(declaration_line(name)) <==> names.contains(name),
{
    let lines = declaration_lines(names);
    assert forall|i: int, j: int| 0 <= i < lines.len() && 0 <= j < lines.len() && i != j implies lines[i]
        != lines[j] by {
        if lines[i] == lines[j] {
            lemma_declaration_line_injective(names[i], names[j]);
        }
    }
    assert forall|name: Seq<char>| #[trigger]
        lines.contains(declaration_line(name)) implies names.contains(name) by {
        let k = choose|k: int| 0 <= k < lines.len() && lines[k] == declaration_line(name);
        lemma_declaration_line_injective(names[k], name);
    }
    assert forall|name: Seq<char>| names.contains(name) implies #[trigger] lines.contains(
        declaration_line(name),
    ) by {
        let k = choose|k: int| 0 <= k < names.len() && names[k] == name;
        assert(lines[k] == declaration_line(name));
    }
}

} // verus!
