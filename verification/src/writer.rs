//! The driver that emits one unit.

use vstd::prelude::*;
use vstd::string::StringExecFns;
use crate::emitter::FunctionEmitter;
use crate::error::ConstructKind;
use crate::error::EmissionError;
use crate::error::EmissionErrorView;
use crate::fatal::check_fatal;
use crate::registry::ExternalRegistry;
use crate::sink::Sink;
use crate::textual::write_attribute;
use crate::textual::write_externals;
use crate::textual::Attribute;
use crate::unit::Unit;

verus! {

/// The head of every emitted unit: the source-language attribute and an
/// empty line.
pub open spec fn header_text() -> Seq<char> {
    crate::textual::source_language_text("hack"@) + "\n"@
}

/// The bodies that `emitter` writes for `functions`, one after the other in
/// the order of `functions`.
pub open spec fn bodies_text<E: FunctionEmitter>(emitter: &E, functions: Seq<E::Function>) -> Seq<
    char,
>
    decreases functions.len(),
{
    if functions.len() == 0 {
        Seq::empty()
    } else {
        bodies_text(emitter, functions.drop_last()) + emitter.text(&functions.last())
    }
}

/// The registry's names once `emitter` has gone through `functions`, from
/// an empty registry.
pub open spec fn externals_after<E: FunctionEmitter>(
    emitter: &E,
    functions: Seq<E::Function>,
) -> Seq<Seq<char>>
    decreases functions.len(),
{
    if functions.len() == 0 {
        Seq::empty()
    } else {
        crate::registry::register_all(
            externals_after(emitter, functions.drop_last()),
            emitter.references(&functions.last()),
        )
    }
}

/// `emitter` gives up the function at index `i` and none before it.
pub open spec fn fails_first_at<E: FunctionEmitter>(
    emitter: &E,
    functions: Seq<E::Function>,
    i: int,
) -> bool {
    &&& 0 <= i < functions.len()
    &&& emitter.failure(&functions[i]) is Some
    &&& forall|j: int| 0 <= j < i ==> (#[trigger] emitter.failure(&functions[j])) is None
}

/// The index of the first function that `emitter` gives up, if there is one.
pub open spec fn first_failure<E: FunctionEmitter>(
    emitter: &E,
    functions: Seq<E::Function>,
) -> Option<int> {
    if exists|i: int| fails_first_at(emitter, functions, i) {
        Some(choose|i: int| fails_first_at(emitter, functions, i))
    } else {
        None
    }
}

/// The failure that the unit itself asks for, whatever its functions are:
/// that of its fatal marker; else, where it declares classes,
/// `UnsupportedConstruct`.
pub open spec fn unit_failure<F>(path: Seq<char>, unit: &Unit<F>) -> Option<EmissionErrorView> {
    match crate::fatal::fatal_failure(path, unit.fatal) {
        Some(failure) => Some(failure),
        None => if unit.classes@.len() > 0 {
            Some(EmissionErrorView::UnsupportedConstruct { kind: ConstructKind::Classes })
        } else {
            None
        },
    }
}

/// How emitting `unit` with a described emitter ends on a reliable sink:
/// with the failure that the unit asks for; else with the error of the
/// first function that the emitter gives up; else well.
pub open spec fn emission_outcome<E: FunctionEmitter>(
    emitter: &E,
    path: Seq<char>,
    unit: &Unit<E::Function>,
) -> Result<(), EmissionErrorView> {
    match unit_failure(path, unit) {
        Some(failure) => Err(failure),
        None => match first_failure(emitter, unit.functions@) {
            Some(i) => Err(EmissionErrorView::Emit(emitter.failure(&unit.functions@[i]).unwrap())),
            None => Ok(()),
        },
    }
}

/// What a successful emission of `functions` appends to the sink: the
/// header, the bodies in unit order and the block of declarations for the
/// symbols that the bodies reference, each declared once, in the order in
/// which they were first met.
pub open spec fn emission_text<E: FunctionEmitter>(
    emitter: &E,
    functions: Seq<E::Function>,
) -> Seq<char> {
    header_text() + bodies_text(emitter, functions) + crate::textual::externals_text(
        externals_after(emitter, functions),
    )
}

/// A result with the texts of its error as sequences of characters.
pub open spec fn result_view(r: Result<(), EmissionError>) -> Result<(), EmissionErrorView> {
    match r {
        Ok(()) => Ok(()),
        Err(e) => Err(e@),
    }
}

/// The first function that the emitter gives up is the only one that
/// `first_failure` can name.
pub proof fn lemma_first_failure_unique<E: FunctionEmitter>(
    emitter: &E,
    functions: Seq<E::Function>,
    i: int,
)
    requires
        fails_first_at(emitter, functions, i),
    ensures
        first_failure(emitter, functions) == Some(i),
{
    let k = choose|k: int| fails_first_at(emitter, functions, k);
    if k < i {
        assert(emitter.failure(&functions[k]) is None);
    }
    if i < k {
        assert(emitter.failure(&functions[i]) is None);
    }
}

/// How one emission may end: on a sink that held `before` and is `reliable`
/// or not, with the result `r` and a sink that holds `after`.
///
/// Whatever the sink and the emitter are: a success and an error of the
/// emitter come only where the unit asks for no failure; the other errors
/// but `SinkWriteFailure` are the failure that the unit asks for; and only
/// a sink that is not reliable rejects a write.
///
/// On a reliable sink, a unit that asks for a failure gets it, and the sink
/// then holds the header and nothing of the unit. If the emitter is
/// described as well, the result is `emission_outcome`; a success has
/// appended `emission_text`; and after an error of the emitter the header
/// and the bodies of the functions before the failing one are still in
/// front.
pub open spec fn emitted<E: FunctionEmitter>(
    emitter: &E,
    path: Seq<char>,
    unit: &Unit<E::Function>,
    before: Seq<char>,
    reliable: bool,
    r: Result<(), EmissionErrorView>,
    after: Seq<char>,
) -> bool {
    &&& match r {
        Ok(()) => unit_failure(path, unit) is None,
        Err(EmissionErrorView::SinkWriteFailure) => !reliable,
        Err(EmissionErrorView::Emit(_)) => unit_failure(path, unit) is None,
        Err(failure) => unit_failure(path, unit) == Some(failure),
    }
    &&& reliable ==> match unit_failure(path, unit) {
        Some(failure) => r == Err::<(), _>(failure) && after == before + header_text(),
        None => emitter.described() ==> {
            &&& r == emission_outcome(emitter, path, unit)
            &&& match first_failure(emitter, unit.functions@) {
                None => after == before + emission_text(emitter, unit.functions@),
                Some(i) => (before + header_text() + bodies_text(
                    emitter,
                    unit.functions@.take(i),
                )).is_prefix_of(after),
            }
        },
    }
}

/// Emits `unit` to `w`.
///
/// The header is written first. Then a unit with a fatal marker is given up
/// with the marker's failure, and a unit with classes with
/// `UnsupportedConstruct`. Otherwise `emitter` writes every function in
/// unit order, fed with one fresh registry, and the block of declarations
/// for that registry follows. An error of the emitter or of the sink ends
/// the emission at once; what the sink holds after any error is partial and
/// to be thrown away.
pub fn textual_writer<W: Sink, E: FunctionEmitter>(
    w: &mut W,
    path: &str,
    unit: &Unit<E::Function>,
    emitter: &E,
) -> (r: Result<(), EmissionError>)
    ensures
        emitted(
            emitter,
            path@,
            unit,
            old(w).written(),
            W::reliable(),
            result_view(r),
            final(w).written(),
        ),
{
    if write_attribute(w, Attribute::SourceLanguage(String::from_str("hack"))).is_err() {
        return Err(EmissionError::SinkWriteFailure);
    }
    if w.write_text("\n").is_err() {
        return Err(EmissionError::SinkWriteFailure);
    }
    assert(W::reliable() ==> w.written() =~= old(w).written() + header_text());

    let mut state = ExternalRegistry::new();
    match check_fatal(path, &unit.fatal) {
        Ok(()) => {},
        Err(e) => {
            return Err(e);
        },
    }

    if unit.classes.len() > 0 {
        return Err(EmissionError::UnsupportedConstruct { kind: ConstructKind::Classes });
    }

    let ghost functions = unit.functions@;
    let ghost known = W::reliable() && emitter.described();
    let mut i: usize = 0;
    while i < unit.functions.len()
        invariant
            i <= unit.functions.len(),
            functions == unit.functions@,
            known == (W::reliable() && emitter.described()),
            unit_failure(path@, unit) is None,
            known ==> {
                &&& w.written() == old(w).written() + header_text() + bodies_text(
                    emitter,
                    functions.take(i as int),
                )
                &&& state@ == externals_after(emitter, functions.take(i as int))
                &&& forall|j: int|
                    0 <= j < i ==> (#[trigger] emitter.failure(&functions[j])) is None
            },
        decreases unit.functions.len() - i,
    {
        match emitter.emit_function(w, &mut state, &unit.functions[i]) {
            Ok(()) => {},
            Err(e) => {
                proof {
                    if known {
                        lemma_first_failure_unique(emitter, functions, i as int);
                    }
                }
                return Err(EmissionError::Emit(e));
            },
        }
        proof {
            assert(functions.take(i + 1).drop_last() =~= functions.take(i as int));
            assert(functions.take(i + 1).last() == functions[i as int]);
        }
        i += 1;
    }
    proof {
        assert(functions.take(i as int) =~= functions);
        if known && exists|k: int| fails_first_at(emitter, functions, k) {
            let k = choose|k: int| fails_first_at(emitter, functions, k);
            assert(emitter.failure(&functions[k]) is None);
        }
    }

    if write_externals(w, &state).is_err() {
        return Err(EmissionError::SinkWriteFailure);
    }
    assert(known ==> w.written() =~= old(w).written() + emission_text(emitter, functions));
    Ok(())
}

/// Bodies come out in unit order: the bodies of a run of functions are the
/// bodies of its front part followed by the bodies of the rest.
pub proof fn lemma_bodies_in_order<E: FunctionEmitter>(
    emitter: &E,
    first: Seq<E::Function>,
    second: Seq<E::Function>,
)
    ensures
        bodies_text(emitter, first + second) == bodies_text(emitter, first) + bodies_text(
            emitter,
            second,
        ),
    decreases second.len(),
{
    if second.len() == 0 {
        assert(first + second =~= first);
    } else {
        assert((first + second).drop_last() =~= first + second.drop_last());
        assert((first + second).last() == second.last());
        lemma_bodies_in_order(emitter, first, second.drop_last());
    }
}

/// The bodies of three functions are the three texts in the order of the
/// functions.
pub proof fn lemma_three_bodies_in_order<E: FunctionEmitter>(
    emitter: &E,
    f1: E::Function,
    f2: E::Function,
    f3: E::Function,
)
    ensures
        bodies_text(emitter, seq![f1, f2, f3]) == emitter.text(&f1) + emitter.text(&f2)
            + emitter.text(&f3),
{
    let all = seq![f1, f2, f3];
    let two = seq![f1, f2];
    let one = seq![f1];
    assert(all.drop_last() =~= two);
    assert(two.drop_last() =~= one);
    let none = Seq::<E::Function>::empty();
    assert(one.drop_last() =~= none);
    assert(bodies_text(emitter, none) =~= Seq::<char>::empty());
    assert(bodies_text(emitter, one) =~= emitter.text(&f1));
    assert(bodies_text(emitter, two) =~= emitter.text(&f1) + emitter.text(&f2));
}

/// The symbols declared for a unit: none twice, and exactly those that some
/// function of the unit references.
pub proof fn lemma_externals_after<E: FunctionEmitter>(emitter: &E, functions: Seq<E::Function>)
    ensures
        externals_after(emitter, functions).no_duplicates(),
        forall|x: Seq<char>| #[trigger]
            externals_after(emitter, functions).contains(x) <==> exists|i: int|
                0 <= i < functions.len() && (#[trigger] emitter.references(&functions[i])).contains(
                    x,
                ),
    decreases functions.len(),
{
    let after = externals_after(emitter, functions);
    if functions.len() > 0 {
        let rest = functions.drop_last();
        let middle = externals_after(emitter, rest);
        let added = emitter.references(&functions.last());
        lemma_externals_after(emitter, rest);
        crate::registry::lemma_register_all(middle, added);
        assert forall|x: Seq<char>| #[trigger] after.contains(x) implies exists|i: int|
            0 <= i < functions.len() && (#[trigger] emitter.references(&functions[i])).contains(
                x,
            ) by {
            if added.contains(x) {
                assert(emitter.references(&functions[functions.len() - 1]).contains(x));
            } else {
                assert(middle.contains(x));
                let i = choose|i: int|
                    0 <= i < rest.len() && (#[trigger] emitter.references(&rest[i])).contains(x);
                assert(emitter.references(&functions[i]).contains(x));
            }
        }
        assert forall|x: Seq<char>|
            (exists|i: int|
                0 <= i < functions.len() && (#[trigger] emitter.references(&functions[i])).contains(
                    x,
                )) implies #[trigger] after.contains(x) by {
            let i = choose|i: int|
                0 <= i < functions.len() && (#[trigger] emitter.references(&functions[i])).contains(
                    x,
                );
            if i < rest.len() {
                assert(emitter.references(&rest[i]).contains(x));
            }
        }
    }
}

/// Symbols are declared in the order in which the unit first references
/// them: the symbols of the first `k` functions come before every symbol
/// that only a later function references.
pub proof fn lemma_externals_first_seen<E: FunctionEmitter>(
    emitter: &E,
    functions: Seq<E::Function>,
    k: int,
)
    requires
        0 <= k <= functions.len(),
    ensures
        externals_after(emitter, functions.take(k)).is_prefix_of(
            externals_after(emitter, functions),
        ),
    decreases functions.len(),
{
    if k < functions.len() {
        let rest = functions.drop_last();
        lemma_externals_first_seen(emitter, rest, k);
        assert(rest.take(k) =~= functions.take(k));
        crate::registry::lemma_register_all(
            externals_after(emitter, rest),
            emitter.references(&functions.last()),
        );
    } else {
        assert(functions.take(k) =~= functions);
    }
}

/// A symbol that one or more functions of a unit reference, however often,
/// is declared by exactly one line of the block of declarations.
pub proof fn lemma_declared_once<E: FunctionEmitter>(
    emitter: &E,
    functions: Seq<E::Function>,
    i: int,
    symbol: Seq<char>,
) -> (at: int)
    requires
        0 <= i < functions.len(),
        emitter.references(&functions[i]).contains(symbol),
    ensures
        ({
            let lines = crate::textual::declaration_lines(externals_after(emitter, functions));
            &&& 0 <= at < lines.len()
            &&& lines[at] == crate::textual::declaration_line(symbol)
            &&& forall|other: int|
                0 <= other < lines.len() && lines[other] == crate::textual::declaration_line(symbol)
                    ==> other == at
        }),
{
    let names = externals_after(emitter, functions);
    let lines = crate::textual::declaration_lines(names);
    lemma_externals_after(emitter, functions);
    assert(names.contains(symbol));
    crate::textual::lemma_distinct_names_distinct_lines(names);
    let at = choose|at: int| 0 <= at < names.len() && names[at] == symbol;
    assert(lines[at] == crate::textual::declaration_line(symbol));
    at
}

/// A unit without fatal marker, classes and functions is emitted well, as
/// the header line, an empty line, the heading of the declarations and an
/// empty line.
pub proof fn lemma_empty_unit<E: FunctionEmitter>(
    emitter: &E,
    path: Seq<char>,
    unit: &Unit<E::Function>,
)
    requires
        unit.fatal is Absent,
        unit.classes@.len() == 0,
        unit.functions@.len() == 0,
    ensures
        emission_outcome(emitter, path, unit) is Ok,
        emission_text(emitter, unit.functions@)
            == ".source_language = \"hack\"\n\n// ----- EXTERNALS -----\n\n"@,
{
    reveal_strlit(".source_language = \"");
    reveal_strlit("hack");
    reveal_strlit("\"\n");
    reveal_strlit("\n");
    reveal_strlit("// ----- EXTERNALS -----\n");
    reveal_strlit(".source_language = \"hack\"\n\n// ----- EXTERNALS -----\n\n");
    let none = Seq::<Seq<char>>::empty();
    assert(crate::textual::declaration_lines(none).flatten() =~= Seq::<char>::empty());
    assert(emission_text(emitter, unit.functions@)
        =~= ".source_language = \"hack\"\n\n// ----- EXTERNALS -----\n\n"@);
}

/// A unit whose fatal marker is `Parse` fails with `ParseFailure`, whatever
/// else it holds, and the message of that failure names the unit's path,
/// the line where the marked span begins and the marker's payload.
pub proof fn lemma_parse_failure<E: FunctionEmitter>(
    emitter: &E,
    path: Seq<char>,
    unit: &Unit<E::Function>,
)
    requires
        unit.fatal is Parse,
    ensures
        ({
            let failure = EmissionErrorView::ParseFailure {
                path,
                line: unit.fatal.line(),
                message: unit.fatal.payload(),
            };
            let message = crate::error::message_text(failure);
            &&& emission_outcome(emitter, path, unit) == Err::<(), _>(failure)
            &&& crate::text::occurs_in(path, message)
            &&& crate::text::occurs_in(crate::decimal::decimal(unit.fatal.line()), message)
            &&& crate::text::occurs_in(unit.fatal.payload(), message)
        }),
{
    crate::error::lemma_located_text_names_all(
        "Parse error"@,
        path,
        unit.fatal.line(),
        unit.fatal.payload(),
    );
}

/// A unit whose fatal marker is one of the two runtime markers fails with
/// `RuntimeFailure`, and the message names path, line and payload.
pub proof fn lemma_runtime_failure<E: FunctionEmitter>(
    emitter: &E,
    path: Seq<char>,
    unit: &Unit<E::Function>,
)
    requires
        unit.fatal is Runtime || unit.fatal is RuntimeOmitFrame,
    ensures
        ({
            let failure = EmissionErrorView::RuntimeFailure {
                path,
                line: unit.fatal.line(),
                message: unit.fatal.payload(),
            };
            let message = crate::error::message_text(failure);
            &&& emission_outcome(emitter, path, unit) == Err::<(), _>(failure)
            &&& crate::text::occurs_in(path, message)
            &&& crate::text::occurs_in(crate::decimal::decimal(unit.fatal.line()), message)
            &&& crate::text::occurs_in(unit.fatal.payload(), message)
        }),
{
    crate::error::lemma_located_text_names_all(
        "Runtime error"@,
        path,
        unit.fatal.line(),
        unit.fatal.payload(),
    );
}

/// A unit without fatal marker that declares one class or more fails with
/// `UnsupportedConstruct`, whatever its functions are.
pub proof fn lemma_classes_unsupported<E: FunctionEmitter>(
    emitter: &E,
    path: Seq<char>,
    unit: &Unit<E::Function>,
)
    requires
        unit.fatal is Absent,
        unit.classes@.len() >= 1,
    ensures
        unit_failure(path, unit) == Some(
            EmissionErrorView::UnsupportedConstruct { kind: ConstructKind::Classes },
        ),
        emission_outcome(emitter, path, unit) == Err::<(), _>(
            EmissionErrorView::UnsupportedConstruct { kind: ConstructKind::Classes },
        ),
{
}

/// Emission is deterministic. Two emissions of one unit by a described
/// emitter, on reliable sinks that held the same text, end with the same
/// result and, unless the emitter failed, leave the same text. On sinks of
/// any kind, what the two results can be is the same.
pub proof fn lemma_emission_deterministic<E: FunctionEmitter>(
    emitter: &E,
    path: Seq<char>,
    unit: &Unit<E::Function>,
    before: Seq<char>,
    r1: Result<(), EmissionErrorView>,
    after1: Seq<char>,
    r2: Result<(), EmissionErrorView>,
    after2: Seq<char>,
)
    requires
        emitter.described(),
        emitted(emitter, path, unit, before, true, r1, after1),
        emitted(emitter, path, unit, before, true, r2, after2),
    ensures
        r1 == r2,
        !(r1 matches Err(EmissionErrorView::Emit(_))) ==> after1 == after2,
{
}

} // verus!
