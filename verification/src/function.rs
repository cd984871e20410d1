use vstd::prelude::*;
use crate::binder::{ArgumentList, FunctionArgument, entry_for};
use crate::downcase::{Downcase, downcase_params};
use crate::error::{CompileError, RuntimeError};
use crate::expression::Expression;
use crate::kind::Kind;
use crate::state::Compiler;
use crate::text::{downcase_mapped, utf8_of};
use crate::value::{Value, ValueView};
use crate::vm::{VmArgumentList, keyed_lookup};

verus! {

/// One named, typed, required-or-optional input slot of a function.
/// Constructed once per function at registration time and shared by
/// every call site.
#[derive(Debug)]
pub struct Parameter {
    pub keyword: String,
    pub kind: Kind,
    pub required: bool,
}

/// The model of a parameter: the keyword's characters with the declared
/// shape set and requiredness.
pub struct ParameterView {
    pub keyword: Seq<char>,
    pub kind: Kind,
    pub required: bool,
}

impl Parameter {
    /// The model of this parameter.
    pub open spec fn vw(self) -> ParameterView {
        ParameterView { keyword: self.keyword@, kind: self.kind, required: self.required }
    }
}

/// The models of a declared parameter list, in order.
pub open spec fn params_view(params: Seq<Parameter>) -> Seq<ParameterView> {
    Seq::new(params.len(), |i: int| params[i].vw())
}

/// Compile-time context handed to a function's compile step. No
/// function of this core consults it, so it carries nothing.
pub struct FunctionCompileContext {}

impl FunctionCompileContext {
    pub fn new() -> FunctionCompileContext {
        FunctionCompileContext {  }
    }
}

/// A canonical conformance case of a function: a title, the source text
/// it documents, the same call in the structured form the binder takes
/// (the parser that turns text into call sites is outside this core),
/// and the exact expected outcome.
#[derive(Debug)]
pub struct Example {
    pub title: String,
    pub source: String,
    pub args: Vec<FunctionArgument>,
    pub result: Result<Value, RuntimeError>,
}

/// A registered function: a closed sum over the builtin operations, so
/// that adding one adds a variant here and changes no dispatch logic
/// in the interpreter.
#[derive(Debug)]
pub enum Function {
    Downcase(Downcase),
}

impl Function {
    /// The identifier this function is registered and invoked under.
    pub open spec fn identifier_spec(self) -> Seq<char> {
        match self {
            Function::Downcase(_) => "downcase"@,
        }
    }

    /// The declared parameter list, as a model.
    pub open spec fn params_spec(self) -> Seq<ParameterView> {
        match self {
            Function::Downcase(_) => downcase_params(),
        }
    }

    /// The name used to invoke this function from language source;
    /// globally unique in the registry.
    pub fn identifier(&self) -> (r: &'static str)
        ensures
            r@ == self.identifier_spec(),
    {
        match self {
            Function::Downcase(f) => f.identifier(),
        }
    }

    /// The fixed, ordered parameter list.
    pub fn parameters(&self) -> (r: Vec<Parameter>)
        ensures
            params_view(r@) == self.params_spec(),
    {
        match self {
            Function::Downcase(f) => f.parameters(),
        }
    }

    /// The function-specific compile step, on arguments the binder has
    /// already resolved against this function's parameters.
    pub fn compile(
        &self,
        state: &Compiler,
        ctx: &FunctionCompileContext,
        arguments: ArgumentList,
    ) -> (r: Result<Expression, CompileError>)
        requires
            self is Downcase ==> (entry_for(arguments.vw(), "value"@) matches Some(slot)
                && slot is Some),
        ensures
            r is Ok,
            self is Downcase ==> (entry_for(arguments.vw(), "value"@) matches Some(Some(inner))
                ==> (r matches Ok(e) && e matches Expression::Downcase(f) && *f.value == inner)),
    {
        match self {
            Function::Downcase(f) => f.compile(state, ctx, arguments),
        }
    }

    /// The canonical conformance cases.
    pub fn examples(&self) -> (r: Vec<Example>)
        ensures
            self is Downcase ==> r@.len() == 1 && r@[0].title@ == "downcase"@
                && r@[0].source@ == "downcase(\"FOO 2 BAR\")"@ && r@[0].args@.len() == 1
                && r@[0].args@[0].keyword@ == "value"@ && (r@[0].args@[0].expr matches
            Expression::Literal(v) && v.vw() == ValueView::Bytes(utf8_of("FOO 2 BAR"@))) && (
            r@[0].result matches Ok(expected) && expected.vw() == ValueView::Bytes(
                utf8_of("foo 2 bar"@),
            )),
    {
        match self {
            Function::Downcase(f) => f.examples(),
        }
    }

    /// Direct evaluation for the native-dispatch path.
    pub fn call(&self, args: VmArgumentList) -> (r: Value)
        requires
            self is Downcase ==> (keyed_lookup(args.vw(), "value"@) matches Some(slot)
                && slot matches Some(v) && v is Bytes),
        ensures
            self is Downcase ==> (keyed_lookup(args.vw(), "value"@) matches Some(Some(
                ValueView::Bytes(b),
            )) ==> r.vw() == ValueView::Bytes(downcase_mapped(b))),
    {
        match self {
            Function::Downcase(f) => f.call(args),
        }
    }
}

/// The function registry, assembled once at initialization: every
/// builtin, each under a globally unique identifier.
pub fn registry() -> (r: Vec<Function>)
    ensures
        r@.len() == 1,
        r@[0] is Downcase,
{
    let mut r: Vec<Function> = Vec::new();
    r.push(Function::Downcase(Downcase));
    r
}

/// What a successful end-to-end compilation of a call site produces:
/// binding succeeded, and the compiled node closes over the first
/// argument bearing the declared keyword.
pub open spec fn compiled_from(f: Function, args: Seq<FunctionArgument>, e: Expression) -> bool {
    &&& crate::binder::bind_spec(f.params_spec(), args) is Ok
    &&& match f {
        Function::Downcase(_) => e matches Expression::Downcase(df) && Some(*df.value)
            == crate::binder::find_arg(args, "value"@),
    }
}

/// Compiles one call site end to end: resolves the keyword-tagged
/// arguments against the function's declared parameters, then runs the
/// function's own compile step on the resolved collection.
pub fn compile_call(
    f: &Function,
    args: Vec<FunctionArgument>,
    state: &Compiler,
    ctx: &FunctionCompileContext,
) -> (r: Result<Expression, CompileError>)
    ensures
        (r is Ok) == (crate::binder::bind_spec(f.params_spec(), args@) is Ok),
        r matches Err(e) ==> (crate::binder::bind_spec(f.params_spec(), args@) matches Err(ev)
            && ev == e.vw()),
        r matches Ok(e) ==> compiled_from(*f, args@, e),
        (forall|i: int| 0 <= i < args@.len() ==> (#[trigger] args@[i].expr).wf()) ==> (r matches
        Ok(e) ==> e.wf() && e.type_def_spec().kind == Kind::bytes_only_spec()),
{
    let params = f.parameters();
    let ghost pv = f.params_spec();
    proof {
        assert(pv == downcase_params());
        assert(crate::binder::distinct_keywords(pv));
    }
    let bound = match crate::binder::bind_arguments(&params, args, state) {
        Ok(b) => b,
        Err(e) => {
            return Err(e);
        },
    };
    proof {
        crate::binder::lemma_entry_for_bound(pv, args@, 0);
        crate::binder::lemma_first_fault_none(pv, args@);
        assert(crate::binder::param_fault(pv[0], args@) is None);
        assert(crate::binder::find_arg(args@, "value"@) is Some);
        crate::binder::lemma_find_arg_element(args@, "value"@);
    }
    f.compile(state, ctx, bound)
}

/// Looks a function up by identifier during compilation.
pub fn lookup(identifier: &str) -> (r: Option<Function>)
    ensures
        identifier@ == "downcase"@ ==> (r matches Some(f) && f is Downcase),
        identifier@ != "downcase"@ ==> r is None,
{
    let mut fns = registry();
    let f = fns.pop().unwrap();
    if f.identifier().to_owned() == identifier.to_owned() {
        Some(f)
    } else {
        None
    }
}

} // verus!
