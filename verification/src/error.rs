use vstd::prelude::*;
use crate::kind::Kind;

verus! {

/// Raised during evaluation when a value's actual shape diverges from
/// what static typing expected. Propagates up the expression tree;
/// recovery policy belongs to the surrounding pipeline.
#[derive(Clone, Copy, Debug, PartialEq, Eq, Structural)]
pub enum RuntimeError {
    TypeMismatch { expected: Kind, got: Kind },
}

/// Raised during argument binding or a function's compile step. Always
/// fatal to compiling that program; carries the offending keyword.
#[derive(Debug, Clone, PartialEq, Eq)]
pub enum CompileError {
    MissingArgument { keyword: String },
    UnknownKeyword { keyword: String },
    TypeMismatch { keyword: String },
}

/// The model of a compile error: the same variant over the keyword's
/// characters.
pub enum CompileErrorView {
    MissingArgument { keyword: Seq<char> },
    UnknownKeyword { keyword: Seq<char> },
    TypeMismatch { keyword: Seq<char> },
}

impl CompileError {
    /// The model of this error.
    pub open spec fn vw(self) -> CompileErrorView {
        match self {
            CompileError::MissingArgument { keyword } => CompileErrorView::MissingArgument {
                keyword: keyword@,
            },
            CompileError::UnknownKeyword { keyword } => CompileErrorView::UnknownKeyword {
                keyword: keyword@,
            },
            CompileError::TypeMismatch { keyword } => CompileErrorView::TypeMismatch {
                keyword: keyword@,
            },
        }
    }
}

} // verus!
