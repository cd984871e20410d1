use vstd::prelude::*;
use crate::downcase::DowncaseFn;
use crate::downcase::downcase_step;
use crate::error::RuntimeError;
use crate::state::Compiler;
use crate::typedef::TypeDef;
use crate::value::{Value, ValueView};
use crate::kind::Kind;

verus! {

/// The outcome of one evaluation: a value, or a runtime error that
/// propagates up the tree.
pub type Resolved = Result<Value, RuntimeError>;

/// The model of an evaluation outcome.
pub open spec fn resolved_view(r: Resolved) -> Result<ValueView, RuntimeError> {
    match r {
        Ok(v) => Ok(v.vw()),
        Err(e) => Err(e),
    }
}

/// Runtime context handed to every evaluation, owned by one evaluation
/// call at a time. The constructs of this core read nothing from it, so
/// it carries nothing; the surrounding processor supplies one per event.
pub struct Context {}

impl Context {
    pub fn new() -> Context {
        Context {  }
    }
}

/// A compiled, executable tree node: a literal produced by the front
/// end, or the bound call node of a registered function. Adding a
/// function adds a variant here and changes no dispatch logic.
#[derive(Debug, PartialEq)]
pub enum Expression {
    Literal(Value),
    Downcase(DowncaseFn),
}

impl Expression {
    /// The value or error that evaluation yields. Evaluation of these
    /// constructs is deterministic and independent of the context.
    pub open spec fn eval_spec(self) -> Result<ValueView, RuntimeError>
        decreases self,
    {
        match self {
            Expression::Literal(v) => Ok(v.vw()),
            Expression::Downcase(f) => downcase_step((*f.value).eval_spec()),
        }
    }

    /// The static descriptor of this node: a literal has its value's
    /// shape and cannot fail; a lowercase call always yields bytes and
    /// can fail exactly where its argument can.
    pub open spec fn type_def_spec(self) -> TypeDef
        decreases self,
    {
        match self {
            Expression::Literal(v) => TypeDef { kind: v.vw().kind_of(), fallible: false },
            Expression::Downcase(f) => TypeDef {
                kind: Kind::bytes_only_spec(),
                fallible: (*f.value).type_def_spec().fallible,
            },
        }
    }

    /// Well-formedness established by compilation: every bound argument
    /// statically fits the shape its parameter declares.
    pub open spec fn wf(self) -> bool
        decreases self,
    {
        match self {
            Expression::Literal(_) => true,
            Expression::Downcase(f) => (*f.value).wf() && (*f.value).type_def_spec()
                .kind.subset_of(Kind::bytes_only_spec()),
        }
    }

    /// Tree-walking evaluation.
    pub fn resolve(&self, ctx: &Context) -> (r: Resolved)
        ensures
            resolved_view(r) == self.eval_spec(),
        decreases *self,
    {
        match self {
            Expression::Literal(v) => Ok(v.clone_value()),
            Expression::Downcase(f) => f.resolve(ctx),
        }
    }

    /// The static descriptor, computed without evaluating anything.
    pub fn type_def(&self, state: &Compiler) -> (t: TypeDef)
        ensures
            t == self.type_def_spec(),
        decreases *self,
    {
        match self {
            Expression::Literal(v) => TypeDef { kind: v.kind(), fallible: false },
            Expression::Downcase(f) => f.type_def(state),
        }
    }
}

} // verus!
