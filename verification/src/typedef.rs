use vstd::prelude::*;
use crate::kind::Kind;

verus! {

/// Static descriptor of an expression node: the set of shapes its value
/// may take, and whether its evaluation may fail at runtime. Computed
/// without executing anything.
#[derive(Clone, Copy, Debug, PartialEq, Eq, Structural)]
pub struct TypeDef {
    pub kind: Kind,
    pub fallible: bool,
}

impl TypeDef {
    /// A fresh descriptor: no shape recorded yet, evaluation recorded
    /// as never failing. The builders below widen it.
    pub fn new() -> (t: TypeDef)
        ensures
            t == (TypeDef { kind: Kind::empty_spec(), fallible: false }),
    {
        TypeDef { kind: Kind::empty(), fallible: false }
    }

    /// Adds the bytes shape to the descriptor.
    pub fn bytes(self) -> (t: TypeDef)
        ensures
            t == (TypeDef { kind: (Kind { bytes: true, ..self.kind }), ..self }),
    {
        TypeDef { kind: Kind { bytes: true, ..self.kind }, ..self }
    }

    /// Marks evaluation as never failing.
    pub fn infallible(self) -> (t: TypeDef)
        ensures
            t == (TypeDef { fallible: false, ..self }),
    {
        TypeDef { fallible: false, ..self }
    }

    /// Marks evaluation as possibly failing.
    pub fn fallible(self) -> (t: TypeDef)
        ensures
            t == (TypeDef { fallible: true, ..self }),
    {
        TypeDef { fallible: true, ..self }
    }
}

} // verus!
