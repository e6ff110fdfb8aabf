//! The fatal marker of a unit, and the failure that a marked unit ends with.

use vstd::prelude::*;
use vstd::string::StringExecFns;
use crate::error::EmissionError;

verus! {

/// A span in the source of a unit.
#[derive(Clone, Copy, Debug, PartialEq, Eq)]
pub struct SrcLoc {
    pub line_begin: i64,
    pub col_begin: i64,
    pub line_end: i64,
    pub col_end: i64,
}

/// Whether an earlier stage of the compiler gave the unit up, and why.
#[derive(Clone, Debug, PartialEq, Eq)]
pub enum FatalOp {
    /// No marker: the unit is sound.
    Absent,
    /// The unit did not parse.
    Parse(SrcLoc, String),
    /// The unit met an unrecoverable error.
    Runtime(SrcLoc, String),
    /// As `Runtime`; the compiler leaves the failing frame out of its trace.
    RuntimeOmitFrame(SrcLoc, String),
}

impl FatalOp {
    /// The line where the marked span begins; 0 where there is no marker.
    pub open spec fn line(&self) -> int {
        match *self {
            FatalOp::Absent => 0,
            FatalOp::Parse(loc, _) => loc.line_begin as int,
            FatalOp::Runtime(loc, _) => loc.line_begin as int,
            FatalOp::RuntimeOmitFrame(loc, _) => loc.line_begin as int,
        }
    }

    /// The payload of the marker; empty where there is no marker.
    pub open spec fn payload(&self) -> Seq<char> {
        match *self {
            FatalOp::Absent => Seq::empty(),
            FatalOp::Parse(_, msg) => msg@,
            FatalOp::Runtime(_, msg) => msg@,
            FatalOp::RuntimeOmitFrame(_, msg) => msg@,
        }
    }
}

/// The failure that a fatal marker stands for, if it stands for one. The
/// two runtime markers stand for the same failure.
pub open spec fn fatal_failure(path: Seq<char>, fatal: FatalOp) -> Option<
    crate::error::EmissionErrorView,
> {
    match fatal {
        FatalOp::Absent => None,
        FatalOp::Parse(_, _) => Some(
            crate::error::EmissionErrorView::ParseFailure {
                path,
                line: fatal.line(),
                message: fatal.payload(),
            },
        ),
        FatalOp::Runtime(_, _) | FatalOp::RuntimeOmitFrame(_, _) => Some(
            crate::error::EmissionErrorView::RuntimeFailure {
                path,
                line: fatal.line(),
                message: fatal.payload(),
            },
        ),
    }
}

/// Stops a unit whose fatal marker is set: the error carries the unit's
/// path, the line where the marked span begins and the marker's payload.
pub fn check_fatal(path: &str, fatal: &FatalOp) -> (r: Result<(), EmissionError>)
    ensures
        match r {
            Ok(()) => fatal_failure(path@, *fatal) is None,
            Err(e) => fatal_failure(path@, *fatal) == Some(e@),
        },
{
    match fatal {
        FatalOp::Absent => Ok(()),
        FatalOp::Parse(loc, msg) => Err(
            EmissionError::ParseFailure {
                path: String::from_str(path),
                line: loc.line_begin,
                message: msg.clone(),
            },
        ),
        FatalOp::Runtime(loc, msg) | FatalOp::RuntimeOmitFrame(loc, msg) => Err(
            EmissionError::RuntimeFailure {
                path: String::from_str(path),
                line: loc.line_begin,
                message: msg.clone(),
            },
        ),
    }
}

} // verus!
