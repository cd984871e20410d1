use vstd::prelude::*;
use crate::binder::{ArgumentList, entry_for};
use crate::error::{CompileError, RuntimeError};
use crate::expression::{Context, Expression, Resolved, resolved_view};
use crate::function::{Example, FunctionCompileContext, Parameter, ParameterView, params_view};
use crate::kind::Kind;
use crate::state::Compiler;
use crate::text::{downcase_bytes, downcase_mapped, text_bytes};
use crate::typedef::TypeDef;
use crate::value::{Value, ValueView, try_bytes_spec};
use crate::vm::{VmArgumentList, keyed_lookup};

verus! {

/// The lowercase-conversion function: the representative registry
/// entry. Stateless; created once at registry initialization and looked
/// up by identifier during compilation.
#[derive(Clone, Copy, Debug)]
pub struct Downcase;

/// The declared parameter list of the lowercase conversion: one
/// required bytes-shaped slot under the keyword `value`.
pub open spec fn downcase_params() -> Seq<ParameterView> {
    seq![
        ParameterView { keyword: "value"@, kind: Kind::bytes_only_spec(), required: true },
    ]
}

impl Downcase {
    /// The name that invokes this function from language source;
    /// globally unique in the registry.
    pub fn identifier(&self) -> (r: &'static str)
        ensures
            r@ == "downcase"@,
    {
        "downcase"
    }

    /// The fixed parameter list.
    pub fn parameters(&self) -> (r: Vec<Parameter>)
        ensures
            params_view(r@) == downcase_params(),
    {
        let mut r: Vec<Parameter> = Vec::new();
        r.push(Parameter {
            keyword: "value".to_owned(),
            kind: Kind::bytes_only(),
            required: true,
        });
        proof {
            assert(params_view(r@) =~= downcase_params());
        }
        r
    }

    /// Binds the resolved `value` argument into an executable node. No
    /// function-specific static validation beyond the generic parameter
    /// checks; deterministic and side-effect-free.
    pub fn compile(
        &self,
        _state: &Compiler,
        _ctx: &FunctionCompileContext,
        arguments: ArgumentList,
    ) -> (r: Result<Expression, CompileError>)
        requires
            entry_for(arguments.vw(), "value"@) matches Some(slot) && slot is Some,
        ensures
            r is Ok,
            entry_for(arguments.vw(), "value"@) matches Some(Some(inner)) ==> (
            r matches Ok(e) && e matches Expression::Downcase(f) && *f.value == inner),
    {
        let mut arguments = arguments;
        let value = arguments.required(&"value".to_owned());
        Ok(Expression::Downcase(DowncaseFn { value: Box::new(value) }))
    }

    /// The canonical conformance cases: lowercasing a bytes literal.
    pub fn examples(&self) -> (r: Vec<Example>)
        ensures
            r@.len() == 1,
            r@[0].title@ == "downcase"@,
            r@[0].source@ == "downcase(\"FOO 2 BAR\")"@,
            r@[0].args@.len() == 1,
            r@[0].args@[0].keyword@ == "value"@,
            r@[0].args@[0].expr matches Expression::Literal(v) && v.vw() == ValueView::Bytes(
                crate::text::utf8_of("FOO 2 BAR"@),
            ),
            r@[0].result matches Ok(expected) && expected.vw() == ValueView::Bytes(
                crate::text::utf8_of("foo 2 bar"@),
            ),
    {
        let mut args: Vec<crate::binder::FunctionArgument> = Vec::new();
        args.push(crate::binder::FunctionArgument {
            keyword: "value".to_owned(),
            expr: Expression::Literal(Value::Bytes(text_bytes("FOO 2 BAR"))),
        });
        let mut r: Vec<Example> = Vec::new();
        r.push(Example {
            title: "downcase".to_owned(),
            source: "downcase(\"FOO 2 BAR\")".to_owned(),
            args,
            result: Ok(Value::Bytes(text_bytes("foo 2 bar"))),
        });
        r
    }

    /// Direct, non-tree-walking evaluation for the native-dispatch
    /// path, on already-resolved argument values. Defined on the inputs
    /// that satisfy the declared parameter shapes, the only ones the
    /// type-checked instruction stream can produce; proved to agree
    /// with the compiled node's evaluation.
    pub fn call(&self, args: VmArgumentList) -> (r: Value)
        requires
            keyed_lookup(args.vw(), "value"@) matches Some(slot) && slot matches Some(v) && v
                is Bytes,
        ensures
            keyed_lookup(args.vw(), "value"@) matches Some(Some(ValueView::Bytes(b))) ==> r.vw()
                == ValueView::Bytes(downcase_mapped(b)),
    {
        let mut args = args;
        let value = args.required(&"value".to_owned());
        match value.try_bytes() {
            Ok(b) => Value::Bytes(downcase_bytes(&b)),
            Err(_) => vstd::pervasive::unreached(),
        }
    }
}

/// The native entry point for the lowercase conversion: takes the
/// runtime-resolved input slot, leaves a null result behind in it, and
/// writes the outcome of the conversion to the output slot. Agrees with
/// the compiled node's evaluation on every input.
pub fn vrl_fn_downcase(value: &mut Resolved, resolved: &mut Resolved)
    ensures
        resolved_view(*final(resolved)) == downcase_step(resolved_view(*old(value))),
        resolved_view(*final(value)) == Ok::<ValueView, RuntimeError>(ValueView::Null),
{
    let mut moved: Resolved = Ok(Value::Null);
    core::mem::swap(value, &mut moved);
    let out: Resolved = match moved {
        Ok(v) => match v.try_bytes() {
            Ok(b) => Ok(Value::Bytes(downcase_bytes(&b))),
            Err(e) => Err(e),
        },
        Err(e) => Err(e),
    };
    *resolved = out;
}

/// What one step of the lowercase conversion yields from the outcome of
/// its argument: an error passes through, a bytes value is lowercased,
/// any other shape is a type mismatch.
pub open spec fn downcase_step(inner: Result<ValueView, RuntimeError>) -> Result<
    ValueView,
    RuntimeError,
> {
    match inner {
        Ok(v) => match try_bytes_spec(v) {
            Ok(b) => Ok(ValueView::Bytes(downcase_mapped(b))),
            Err(e) => Err(e),
        },
        Err(e) => Err(e),
    }
}

/// The compiled node of the lowercase conversion, closing over its bound
/// argument.
#[derive(Debug, PartialEq)]
pub struct DowncaseFn {
    pub value: Box<Expression>,
}

impl DowncaseFn {
    /// Tree-walking evaluation: resolve the argument, demand bytes,
    /// lowercase them.
    pub fn resolve(&self, ctx: &Context) -> (r: Resolved)
        ensures
            resolved_view(r) == downcase_step((*self.value).eval_spec()),
        decreases *self,
    {
        let inner = self.value.resolve(ctx);
        match inner {
            Ok(v) => match v.try_bytes() {
                Ok(b) => Ok(Value::Bytes(downcase_bytes(&b))),
                Err(e) => Err(e),
            },
            Err(e) => Err(e),
        }
    }

    /// Static type: always bytes. Evaluation can fail exactly where the
    /// argument's can: binding has already checked that the argument's
    /// static shape is bytes, so the shape check in `resolve` cannot
    /// fail on a sound argument.
    pub fn type_def(&self, state: &Compiler) -> (t: TypeDef)
        ensures
            t == (TypeDef {
                kind: Kind::bytes_only_spec(),
                fallible: (*self.value).type_def_spec().fallible,
            }),
        decreases *self,
    {
        let inner = self.value.type_def(state);
        if inner.fallible {
            TypeDef::new().bytes().fallible()
        } else {
            TypeDef::new().bytes().infallible()
        }
    }
}

} // verus!
