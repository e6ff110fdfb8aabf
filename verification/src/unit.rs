//! A lowered compilation unit.

use vstd::prelude::*;
use crate::fatal::FatalOp;

verus! {

/// A class of a unit. The driver writes no classes; it only needs to know
/// that a unit declares one.
#[derive(Clone, Debug, PartialEq, Eq)]
pub struct Class {
    pub name: String,
}

/// One compilation unit: its functions in their declared order, its classes
/// and its fatal marker. `F` is the emitter's representation of a function,
/// which the driver hands on unread.
pub struct Unit<F> {
    pub functions: Vec<F>,
    pub classes: Vec<Class>,
    pub fatal: FatalOp,
}

} // verus!
