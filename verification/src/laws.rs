use vstd::prelude::*;
use crate::binder::{
    FunctionArgument, bind_spec, declares, find_arg, first_undeclared, lemma_find_arg_none,
    lemma_first_fault_at, lemma_first_fault_none, lemma_first_undeclared_at,
    lemma_first_undeclared_none, param_fault,
};
use crate::downcase::{downcase_params, downcase_step};
use crate::error::{CompileErrorView, RuntimeError};
use crate::expression::Expression;
use crate::function::{Function, ParameterView, compiled_from};
use crate::text::downcase_mapped;
use crate::value::{Value, ValueView};

verus! {

/// Interpreter/VM equivalence: for every registered function and every
/// argument value that satisfies its declared parameter shapes, the
/// direct-call semantics of the native-dispatch backend agree exactly
/// with evaluating the compiled node over the same bound argument. Both
/// backends yield the lowercased bytes, and neither can fail on such an
/// input.
pub proof fn lemma_interpreter_vm_equivalence(f: Function, e: Expression, v: Value)
    requires
        f.params_spec()[0].kind.member(v.vw()),
        e matches Expression::Downcase(df) && *df.value == Expression::Literal(v),
    ensures
        e.eval_spec() == downcase_step(Ok(v.vw())),
        v.vw() matches ValueView::Bytes(b) ==> e.eval_spec() == Ok::<ValueView, RuntimeError>(
            ValueView::Bytes(downcase_mapped(b)),
        ),
{
    let df = e->Downcase_0;
    assert((*df.value).eval_spec() == Ok::<ValueView, RuntimeError>(v.vw()));
    assert(e.eval_spec() == downcase_step(Ok(v.vw())));
}

/// Type soundness: whenever evaluation of an expression succeeds, the
/// shape of the produced value is a member of the shape set its static
/// descriptor declares.
pub proof fn lemma_type_soundness(e: Expression)
    ensures
        e.eval_spec() matches Ok(v) ==> e.type_def_spec().kind.member(v),
{
    match e {
        Expression::Literal(_) => {
        },
        Expression::Downcase(_) => {
        },
    }
}

/// A reachable expression never carries an empty shape set: every
/// static descriptor this core computes declares at least one shape.
pub proof fn lemma_kind_never_empty(e: Expression)
    ensures
        !e.type_def_spec().kind.is_empty(),
{
    match e {
        Expression::Literal(_) => {
        },
        Expression::Downcase(_) => {
        },
    }
}

/// Infallibility honesty: when a well-formed expression's static
/// descriptor declares evaluation infallible, evaluation succeeds on
/// every input. Well-formedness is what compilation establishes: each
/// bound argument statically fits its parameter's declared shape.
pub proof fn lemma_infallibility(e: Expression)
    requires
        e.wf(),
    ensures
        !e.type_def_spec().fallible ==> e.eval_spec() is Ok,
    decreases e,
{
    match e {
        Expression::Literal(_) => {
        },
        Expression::Downcase(df) => {
            lemma_infallibility(*df.value);
            if !e.type_def_spec().fallible {
                lemma_type_soundness(*df.value);
            }
        },
    }
}

/// Argument-binding completeness, the unconditional half: a call site
/// that omits a required parameter never binds, and one that supplies
/// an undeclared keyword never binds.
pub proof fn lemma_binding_completeness(params: Seq<ParameterView>, args: Seq<FunctionArgument>)
    ensures
        (exists|i: int| 0 <= i < args.len() && !declares(params, #[trigger] args[i].keyword@))
            ==> bind_spec(params, args) is Err,
        (exists|j: int|
            0 <= j < params.len() && (#[trigger] params[j]).required && find_arg(
                args,
                params[j].keyword,
            ) is None) ==> bind_spec(params, args) is Err,
{
    lemma_first_undeclared_none(params, args);
    lemma_first_fault_none(params, args);
    if exists|j: int|
        0 <= j < params.len() && (#[trigger] params[j]).required && find_arg(
            args,
            params[j].keyword,
        ) is None {
        let j = choose|j: int|
            0 <= j < params.len() && (#[trigger] params[j]).required && find_arg(
                args,
                params[j].keyword,
            ) is None;
        assert(param_fault(params[j], args) is Some);
    }
}

/// Argument-binding completeness, the identifying half for an omitted
/// required parameter: when every supplied keyword is declared and the
/// parameters before `j` find no fault, binding reports exactly the
/// missing keyword.
pub proof fn lemma_missing_argument_identified(
    params: Seq<ParameterView>,
    args: Seq<FunctionArgument>,
    j: int,
)
    requires
        0 <= j < params.len(),
        params[j].required,
        forall|i: int| 0 <= i < args.len() ==> (#[trigger] args[i].keyword@) != params[j].keyword,
        first_undeclared(params, args) is None,
        forall|m: int| 0 <= m < j ==> param_fault(#[trigger] params[m], args) is None,
    ensures
        bind_spec(params, args) == Err::<Seq<(Seq<char>, Option<Expression>)>, CompileErrorView>(
            CompileErrorView::MissingArgument { keyword: params[j].keyword },
        ),
{
    lemma_find_arg_none(args, params[j].keyword);
    lemma_first_fault_at(params, args, j);
}

/// Argument-binding completeness, the identifying half for an unknown
/// keyword: the first argument keyword that no parameter declares is
/// the one binding reports.
pub proof fn lemma_unknown_keyword_identified(
    params: Seq<ParameterView>,
    args: Seq<FunctionArgument>,
    i: int,
)
    requires
        0 <= i < args.len(),
        !declares(params, args[i].keyword@),
        forall|m: int| 0 <= m < i ==> declares(params, #[trigger] args[m].keyword@),
    ensures
        bind_spec(params, args) == Err::<Seq<(Seq<char>, Option<Expression>)>, CompileErrorView>(
            CompileErrorView::UnknownKeyword { keyword: args[i].keyword@ },
        ),
{
    lemma_first_undeclared_at(params, args, i);
}

/// Idempotence of compilation: two compilations of the same call site
/// against the same compiler state produce expressions with identical
/// static descriptors.
pub proof fn lemma_compile_idempotent(
    f: Function,
    args: Seq<FunctionArgument>,
    e1: Expression,
    e2: Expression,
)
    requires
        compiled_from(f, args, e1),
        compiled_from(f, args, e2),
    ensures
        e1.type_def_spec() == e2.type_def_spec(),
{
}

/// Example conformance, the statically provable part: the canonical
/// call of the lowercase conversion binds, compiles, and evaluates
/// without error, to the lowercased bytes of its literal argument. The
/// exact byte values depend on the Unicode lowercase mapping, which the
/// conformance tests hold against the expected output.
pub proof fn lemma_example_runs(f: Function, e: Expression, arg: FunctionArgument, v: Value)
    requires
        compiled_from(f, seq![arg], e),
        arg.expr == Expression::Literal(v),
        v.vw() is Bytes,
    ensures
        e.eval_spec() matches Ok(w) && w == ValueView::Bytes(
            downcase_mapped(v.vw()->Bytes_0),
        ),
{
    let args = seq![arg];
    lemma_first_fault_none(f.params_spec(), args);
    assert(f.params_spec() == downcase_params());
    assert(param_fault(downcase_params()[0], args) is None);
    assert(find_arg(args, "value"@) is Some) by {
        if find_arg(args, "value"@) is None {
            assert(param_fault(downcase_params()[0], args) matches Some(fault)
                && fault is MissingArgument);
        }
    }
    assert(args.first() == arg);
    assert(arg.keyword@ == "value"@) by {
        if arg.keyword@ != "value"@ {
            assert(find_arg(args.drop_first(), "value"@) is None);
        }
    }
    assert(find_arg(args, "value"@) == Some(arg.expr));
    let df = e->Downcase_0;
    assert(*df.value == arg.expr);
    assert((*df.value).eval_spec() == Ok::<ValueView, RuntimeError>(v.vw()));
    assert(e.eval_spec() == downcase_step(Ok(v.vw())));
}

} // verus!
