//! The errors with which emitting a unit ends.

use vstd::prelude::*;
use vstd::string::StringExecFns;
use crate::decimal::push_decimal;

verus! {

/// A construct of a unit that the driver cannot write.
#[derive(Clone, Copy, Debug, PartialEq, Eq)]
pub enum ConstructKind {
    /// The unit declares classes.
    Classes,
}

/// The error of a function emitter. The driver hands it on as it is.
#[derive(Clone, Debug, PartialEq, Eq)]
pub struct EmitError {
    pub message: String,
}

/// Why a unit was not emitted.
#[derive(Clone, Debug, PartialEq, Eq)]
pub enum EmissionError {
    /// The unit never passed the parse stage.
    ParseFailure { path: String, line: i64, message: String },
    /// The unit met an unrecoverable error at compile time.
    RuntimeFailure { path: String, line: i64, message: String },
    /// The unit holds a construct that the driver cannot write.
    UnsupportedConstruct { kind: ConstructKind },
    /// The function emitter failed.
    Emit(EmitError),
    /// The sink rejected a write.
    SinkWriteFailure,
}

/// An [`EmissionError`] with its texts as sequences of characters.
pub enum EmissionErrorView {
    ParseFailure { path: Seq<char>, line: int, message: Seq<char> },
    RuntimeFailure { path: Seq<char>, line: int, message: Seq<char> },
    UnsupportedConstruct { kind: ConstructKind },
    Emit(Seq<char>),
    SinkWriteFailure,
}

impl View for EmitError {
    type V = Seq<char>;

    open spec fn view(&self) -> Seq<char> {
        self.message@
    }
}

impl View for EmissionError {
    type V = EmissionErrorView;

    open spec fn view(&self) -> EmissionErrorView {
        match *self {
            EmissionError::ParseFailure { path, line, message } => EmissionErrorView::ParseFailure {
                path: path@,
                line: line as int,
                message: message@,
            },
            EmissionError::RuntimeFailure {
                path,
                line,
                message,
            } => EmissionErrorView::RuntimeFailure {
                path: path@,
                line: line as int,
                message: message@,
            },
            EmissionError::UnsupportedConstruct { kind } => EmissionErrorView::UnsupportedConstruct {
                kind,
            },
            EmissionError::Emit(e) => EmissionErrorView::Emit(e@),
            EmissionError::SinkWriteFailure => EmissionErrorView::SinkWriteFailure,
        }
    }
}

/// The text that names the place of a failure: `<what> in <path>[<line>]: <message>`.
pub open spec fn located_text(what: Seq<char>, path: Seq<char>, line: int, message: Seq<char>) -> Seq<
    char,
> {
    what + " in "@ + path + "["@ + crate::decimal::decimal(line) + "]: "@ + message
}

/// The text that describes a kind of construct.
pub open spec fn kind_text(kind: ConstructKind) -> Seq<char> {
    match kind {
        ConstructKind::Classes => "classes"@,
    }
}

/// The message of an error.
pub open spec fn message_text(e: EmissionErrorView) -> Seq<char> {
    match e {
        EmissionErrorView::ParseFailure { path, line, message } => located_text(
            "Parse error"@,
            path,
            line,
            message,
        ),
        EmissionErrorView::RuntimeFailure { path, line, message } => located_text(
            "Runtime error"@,
            path,
            line,
            message,
        ),
        EmissionErrorView::UnsupportedConstruct { kind } => "Unsupported construct: "@ + kind_text(
            kind,
        ),
        EmissionErrorView::Emit(message) => message,
        EmissionErrorView::SinkWriteFailure => "The output sink rejected a write"@,
    }
}

/// Builds `<what> in <path>[<line>]: <message>`.
fn located(what: &str, path: &String, line: i64, message: &String) -> (s: String)
    ensures
        s@ == located_text(what@, path@, line as int, message@),
{
    let mut s = String::from_str(what);
    s.append(" in ");
    s.append(path.as_str());
    s.append("[");
    push_decimal(&mut s, line);
    s.append("]: ");
    s.append(message.as_str());
    s
}

impl ConstructKind {
    /// The word for this kind of construct.
    pub fn name(&self) -> (s: &'static str)
        ensures
            s@ == kind_text(*self),
    {
        match self {
            ConstructKind::Classes => "classes",
        }
    }
}

impl EmissionError {
    /// The message of this error. That of a located failure names the
    /// unit's path, the line and the payload of the fatal marker.
    pub fn message(&self) -> (s: String)
        ensures
            s@ == message_text(self@),
    {
        match self {
            EmissionError::ParseFailure { path, line, message } => located(
                "Parse error",
                path,
                *line,
                message,
            ),
            EmissionError::RuntimeFailure { path, line, message } => located(
                "Runtime error",
                path,
                *line,
                message,
            ),
            EmissionError::UnsupportedConstruct { kind } => {
                String::from_str("Unsupported construct: ").concat(kind.name())
            },
            EmissionError::Emit(e) => e.message.clone(),
            EmissionError::SinkWriteFailure => String::from_str("The output sink rejected a write"),
        }
    }
}

/// The message of a located failure holds the path, the decimal line number
/// and the payload, each as a contiguous run.
pub proof fn lemma_located_text_names_all(
    what: Seq<char>,
    path: Seq<char>,
    line: int,
    message: Seq<char>,
)
    ensures
        crate::text::occurs_in(path, located_text(what, path, line, message)),
        crate::text::occurs_in(crate::decimal::decimal(line), located_text(what, path, line, message)),
        crate::text::occurs_in(message, located_text(what, path, line, message)),
{
    let number = crate::decimal::decimal(line);
    let whole = located_text(what, path, line, message);
    crate::text::lemma_occurs_between(what + " in "@, path, "["@ + number + "]: "@ + message);
    assert(whole =~= (what + " in "@) + path + ("["@ + number + "]: "@ + message));
    crate::text::lemma_occurs_between(what + " in "@ + path + "["@, number, "]: "@ + message);
    assert(whole =~= (what + " in "@ + path + "["@) + number + ("]: "@ + message));
    crate::text::lemma_occurs_between(
        what + " in "@ + path + "["@ + number + "]: "@,
        message,
        Seq::<char>::empty(),
    );
    assert(whole =~= (what + " in "@ + path + "["@ + number + "]: "@) + message + Seq::<
        char,
    >::empty());
}

} // verus!
