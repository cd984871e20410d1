use vstd::prelude::*;
use crate::error::{CompileError, CompileErrorView};
use crate::expression::Expression;
use crate::function::{Parameter, ParameterView, params_view};
use crate::state::Compiler;
use crate::vm::{keyed_remove, lemma_keyed_remove_at};

verus! {

/// One keyword-tagged argument expression at a call site, as the front
/// end hands it to the binder.
#[derive(Debug)]
pub struct FunctionArgument {
    pub keyword: String,
    pub expr: Expression,
}

/// The resolved argument collection handed to a function's compile
/// step: one entry per declared parameter, in declaration order, holding
/// the located expression or the explicit "not provided" marker for an
/// absent optional parameter.
#[derive(Debug)]
pub struct ArgumentList {
    pub entries: Vec<(String, Option<Expression>)>,
}

/// Some parameter is declared under the keyword.
pub open spec fn declares(params: Seq<ParameterView>, kw: Seq<char>) -> bool {
    exists|j: int| 0 <= j < params.len() && params[j].keyword == kw
}

/// No two parameters share a keyword; part of the validity of a
/// function's declaration.
pub open spec fn distinct_keywords(params: Seq<ParameterView>) -> bool {
    forall|i: int, j: int|
        0 <= i < j < params.len() ==> params[i].keyword != params[j].keyword
}

/// The keyword of the first argument no parameter declares, if any.
pub open spec fn first_undeclared(params: Seq<ParameterView>, args: Seq<FunctionArgument>) -> Option<
    Seq<char>,
>
    decreases args.len(),
{
    if args.len() == 0 {
        None
    } else if !declares(params, args.first().keyword@) {
        Some(args.first().keyword@)
    } else {
        first_undeclared(params, args.drop_first())
    }
}

/// The expression of the first argument bearing the keyword, if any.
pub open spec fn find_arg(args: Seq<FunctionArgument>, kw: Seq<char>) -> Option<Expression>
    decreases args.len(),
{
    if args.len() == 0 {
        None
    } else if args.first().keyword@ == kw {
        Some(args.first().expr)
    } else {
        find_arg(args.drop_first(), kw)
    }
}

/// The fault one parameter finds at a call site: a required parameter
/// with no argument, or a located argument whose static shape the
/// parameter refuses. The shape check is purely static: it inspects the
/// argument's type descriptor, never a runtime value.
pub open spec fn param_fault(p: ParameterView, args: Seq<FunctionArgument>) -> Option<
    CompileErrorView,
> {
    match find_arg(args, p.keyword) {
        None => if p.required {
            Some(CompileErrorView::MissingArgument { keyword: p.keyword })
        } else {
            None
        },
        Some(e) => if !e.type_def_spec().kind.subset_of(p.kind) {
            Some(CompileErrorView::TypeMismatch { keyword: p.keyword })
        } else {
            None
        },
    }
}

/// The first fault among the parameters, scanned in declaration order.
pub open spec fn first_param_fault(params: Seq<ParameterView>, args: Seq<FunctionArgument>) -> Option<
    CompileErrorView,
>
    decreases params.len(),
{
    if params.len() == 0 {
        None
    } else {
        match param_fault(params.first(), args) {
            Some(e) => Some(e),
            None => first_param_fault(params.drop_first(), args),
        }
    }
}

/// The resolved entries on success: for each parameter, in order, the
/// first argument bearing its keyword, or the "not provided" marker.
pub open spec fn bound_entries(params: Seq<ParameterView>, args: Seq<FunctionArgument>) -> Seq<
    (Seq<char>, Option<Expression>),
> {
    Seq::new(params.len(), |j: int| (params[j].keyword, find_arg(args, params[j].keyword)))
}

/// What binding yields: the first unknown keyword wins, then the first
/// parameter fault, else the resolved entries.
pub open spec fn bind_spec(params: Seq<ParameterView>, args: Seq<FunctionArgument>) -> Result<
    Seq<(Seq<char>, Option<Expression>)>,
    CompileErrorView,
> {
    match first_undeclared(params, args) {
        Some(kw) => Err(CompileErrorView::UnknownKeyword { keyword: kw }),
        None => match first_param_fault(params, args) {
            Some(e) => Err(e),
            None => Ok(bound_entries(params, args)),
        },
    }
}

/// The model of a binding outcome.
pub open spec fn bind_result_view(r: Result<ArgumentList, CompileError>) -> Result<
    Seq<(Seq<char>, Option<Expression>)>,
    CompileErrorView,
> {
    match r {
        Ok(al) => Ok(al.vw()),
        Err(e) => Err(e.vw()),
    }
}

/// The model of a run of entries: keyword characters and bound
/// expression per entry.
pub open spec fn entries_view(entries: Seq<(String, Option<Expression>)>) -> Seq<
    (Seq<char>, Option<Expression>),
> {
    Seq::new(entries.len(), |i: int| (entries[i].0@, entries[i].1))
}

impl ArgumentList {
    /// The model of the collection.
    pub open spec fn vw(self) -> Seq<(Seq<char>, Option<Expression>)> {
        entries_view(self.entries@)
    }
}

/// The slot of the first entry bearing the keyword, if any.
pub open spec fn entry_for(
    entries: Seq<(Seq<char>, Option<Expression>)>,
    kw: Seq<char>,
) -> Option<Option<Expression>>
    decreases entries.len(),
{
    if entries.len() == 0 {
        None
    } else if entries.first().0 == kw {
        Some(entries.first().1)
    } else {
        entry_for(entries.drop_first(), kw)
    }
}

/// When index `k` holds the first entry bearing the keyword, the lookup
/// yields that entry's slot.
pub proof fn lemma_entry_for_at(
    entries: Seq<(Seq<char>, Option<Expression>)>,
    kw: Seq<char>,
    k: int,
)
    requires
        0 <= k < entries.len(),
        entries[k].0 == kw,
        forall|m: int| 0 <= m < k ==> entries[m].0 != kw,
    ensures
        entry_for(entries, kw) == Some(entries[k].1),
    decreases k,
{
    if k > 0 {
        lemma_entry_for_at(entries.drop_first(), kw, k - 1);
    }
}

/// When no argument bears the keyword, the search yields nothing.
pub proof fn lemma_find_arg_none(args: Seq<FunctionArgument>, kw: Seq<char>)
    requires
        forall|m: int| 0 <= m < args.len() ==> args[m].keyword@ != kw,
    ensures
        find_arg(args, kw) is None,
    decreases args.len(),
{
    if args.len() > 0 {
        lemma_find_arg_none(args.drop_first(), kw);
    }
}

/// When index `k` holds the first argument bearing the keyword, the
/// search yields that argument's expression.
pub proof fn lemma_find_arg_at(args: Seq<FunctionArgument>, kw: Seq<char>, k: int)
    requires
        0 <= k < args.len(),
        args[k].keyword@ == kw,
        forall|m: int| 0 <= m < k ==> args[m].keyword@ != kw,
    ensures
        find_arg(args, kw) == Some(args[k].expr),
    decreases k,
{
    if k > 0 {
        lemma_find_arg_at(args.drop_first(), kw, k - 1);
    }
}

impl ArgumentList {
    /// The bound expression of a required parameter. Binding has already
    /// placed an expression under the keyword; asking for any other
    /// keyword is a caller fault, excluded by the precondition rather
    /// than answered with a panic.
    #[verifier::loop_isolation(false)]
    pub fn required(&mut self, keyword: &String) -> (r: Expression)
        requires
            entry_for(old(self).vw(), keyword@) matches Some(slot) && slot is Some,
        ensures
            entry_for(old(self).vw(), keyword@) == Some(Some(r)),
            final(self).vw() == keyed_remove(old(self).vw(), keyword@),
    {
        let ghost entries0 = old(self).vw();
        let mut i: usize = 0;
        while i < self.entries.len()
            invariant
                i <= self.entries@.len(),
                entries_view(self.entries@) == entries0,
                entry_for(entries0, keyword@) matches Some(slot) && slot is Some,
                forall|m: int| 0 <= m < i ==> entries0[m].0 != keyword@,
            decreases self.entries@.len() - i,
        {
            if self.entries[i].0 == *keyword {
                proof {
                    assert(entries0[i as int].0 == keyword@);
                    lemma_entry_for_at(entries0, keyword@, i as int);
                    lemma_keyed_remove_at(entries0, keyword@, i as int);
                    assert(entries0[i as int].1 == self.entries@[i as int].1);
                }
                let ghost pre = self.entries@;
                let (_kw, slot) = self.entries.remove(i);
                proof {
                    assert(self.entries@ == pre.remove(i as int));
                    assert forall|q: int|
                        0 <= q < entries_view(self.entries@).len() implies entries_view(
                        self.entries@,
                    )[q] == entries0.remove(i as int)[q] by {
                        if q < i {
                            assert(self.entries@[q] == pre[q]);
                        } else {
                            assert(self.entries@[q] == pre[q + 1]);
                        }
                    }
                    assert(entries_view(self.entries@) =~= entries0.remove(i as int));
                }
                return slot.unwrap();
            }
            proof {
                assert(entries0[i as int].0 == self.entries@[i as int].0@);
            }
            i += 1;
        }
        proof {
            lemma_entry_for_none(entries0, keyword@);
        }
        vstd::pervasive::unreached()
    }
}

/// The search for a keyword is exhaustive: nothing is found exactly
/// when no argument bears the keyword.
pub proof fn lemma_first_undeclared_none(params: Seq<ParameterView>, args: Seq<FunctionArgument>)
    ensures
        (first_undeclared(params, args) is None) <==> (forall|i: int|
            0 <= i < args.len() ==> declares(params, #[trigger] args[i].keyword@)),
    decreases args.len(),
{
    if args.len() > 0 {
        lemma_first_undeclared_none(params, args.drop_first());
        if first_undeclared(params, args) is None {
            assert forall|i: int| 0 <= i < args.len() implies declares(
                params,
                #[trigger] args[i].keyword@,
            ) by {
                if i > 0 {
                    assert(args.drop_first()[i - 1] == args[i]);
                }
            }
        }
        if forall|i: int| 0 <= i < args.len() ==> declares(params, #[trigger] args[i].keyword@) {
            assert forall|i: int| 0 <= i < args.drop_first().len() implies declares(
                params,
                #[trigger] args.drop_first()[i].keyword@,
            ) by {
                assert(args.drop_first()[i] == args[i + 1]);
            }
        }
    }
}

/// When index `i` holds the first argument whose keyword no parameter
/// declares, that keyword is the one reported.
pub proof fn lemma_first_undeclared_at(
    params: Seq<ParameterView>,
    args: Seq<FunctionArgument>,
    i: int,
)
    requires
        0 <= i < args.len(),
        !declares(params, args[i].keyword@),
        forall|m: int| 0 <= m < i ==> declares(params, #[trigger] args[m].keyword@),
    ensures
        first_undeclared(params, args) == Some(args[i].keyword@),
    decreases i,
{
    if i > 0 {
        lemma_first_undeclared_at(params, args.drop_first(), i - 1);
    }
}

/// No parameter finds a fault exactly when each finds none.
pub proof fn lemma_first_fault_none(params: Seq<ParameterView>, args: Seq<FunctionArgument>)
    ensures
        (first_param_fault(params, args) is None) <==> (forall|j: int|
            0 <= j < params.len() ==> param_fault(#[trigger] params[j], args) is None),
    decreases params.len(),
{
    if params.len() > 0 {
        lemma_first_fault_none(params.drop_first(), args);
        if first_param_fault(params, args) is None {
            assert forall|j: int| 0 <= j < params.len() implies param_fault(
                #[trigger] params[j],
                args,
            ) is None by {
                if j > 0 {
                    assert(params.drop_first()[j - 1] == params[j]);
                }
            }
        }
        if forall|j: int| 0 <= j < params.len() ==> param_fault(#[trigger] params[j], args)
            is None {
            assert forall|j: int| 0 <= j < params.drop_first().len() implies param_fault(
                #[trigger] params.drop_first()[j],
                args,
            ) is None by {
                assert(params.drop_first()[j] == params[j + 1]);
            }
        }
    }
}

/// When index `j` holds the first parameter that finds a fault, that
/// fault is the one reported.
pub proof fn lemma_first_fault_at(params: Seq<ParameterView>, args: Seq<FunctionArgument>, j: int)
    requires
        0 <= j < params.len(),
        param_fault(params[j], args) is Some,
        forall|m: int| 0 <= m < j ==> param_fault(#[trigger] params[m], args) is None,
    ensures
        first_param_fault(params, args) == param_fault(params[j], args),
    decreases j,
{
    if j > 0 {
        lemma_first_fault_at(params.drop_first(), args, j - 1);
    }
}

/// Whatever the search finds is the expression of some argument bearing
/// the keyword.
pub proof fn lemma_find_arg_element(args: Seq<FunctionArgument>, kw: Seq<char>)
    ensures
        find_arg(args, kw) matches Some(e) ==> exists|k: int|
            0 <= k < args.len() && args[k].keyword@ == kw && args[k].expr == e,
    decreases args.len(),
{
    if args.len() > 0 {
        lemma_find_arg_element(args.drop_first(), kw);
        if args.first().keyword@ != kw && find_arg(args, kw) is Some {
            let e = find_arg(args, kw)->0;
            let k = choose|k: int|
                0 <= k < args.drop_first().len() && args.drop_first()[k].keyword@ == kw
                    && args.drop_first()[k].expr == e;
            assert(args[k + 1].keyword@ == kw && args[k + 1].expr == e);
        }
    }
}

/// In the resolved entries, each parameter's keyword leads to the first
/// argument bearing it, provided the declared keywords are distinct.
pub proof fn lemma_entry_for_bound(
    params: Seq<ParameterView>,
    args: Seq<FunctionArgument>,
    j: int,
)
    requires
        distinct_keywords(params),
        0 <= j < params.len(),
    ensures
        entry_for(bound_entries(params, args), params[j].keyword) == Some(
            find_arg(args, params[j].keyword),
        ),
{
    lemma_entry_for_at(bound_entries(params, args), params[j].keyword, j);
}

/// One unbound entry per declared parameter, in declaration order: the
/// starting collection that resolution fills in.
fn empty_entries(params: &Vec<Parameter>) -> (entries: Vec<(String, Option<Expression>)>)
    ensures
        entries@.len() == params@.len(),
        forall|n: int| 0 <= n < params@.len() ==> #[trigger] entries@[n].0@
            == params@[n].keyword@ && entries@[n].1 is None,
{
    let mut entries: Vec<(String, Option<Expression>)> = Vec::new();
    let mut j: usize = 0;
    while j < params.len()
        invariant
            j <= params@.len(),
            entries@.len() == j,
            forall|n: int| 0 <= n < j ==> #[trigger] entries@[n].0@ == params@[n].keyword@
                && entries@[n].1 is None,
        decreases params@.len() - j,
    {
        let kw = params[j].keyword.clone();
        let ghost kwv = kw@;
        proof {
            assert(kwv == params@[j as int].keyword@);
        }
        let ghost eb = entries@;
        entries.push((kw, None));
        proof {
            assert(entries@.len() == j + 1);
            assert(entries@[j as int].0@ == kwv);
            assert(entries@[j as int].1 is None);
            assert forall|n: int|
                0 <= n < j + 1 implies #[trigger] entries@[n].0@ == params@[n].keyword@
                && entries@[n].1 is None by {
                if n < j {
                    assert(entries@[n] == eb[n]);
                }
            }
        }
        j += 1;
    }
    entries
}

/// Dropping the first element of a suffix yields the next suffix.
proof fn lemma_skip_step<A>(s: Seq<A>, i: int)
    requires
        0 <= i < s.len(),
    ensures
        s.skip(i).len() == s.len() - i,
        s.skip(i).first() == s[i],
        s.skip(i).drop_first() =~= s.skip(i + 1),
{
}

/// Resolves a call site's keyword-tagged arguments against a function's
/// declared parameters: an unknown keyword is a compile error, every
/// required parameter must be located, and every located argument must
/// statically fit the shape its parameter declares. Purely static: no
/// argument is evaluated, only its type descriptor is inspected.
#[verifier::rlimit(50)]
#[verifier::loop_isolation(false)]
pub fn bind_arguments(
    params: &Vec<Parameter>,
    args: Vec<FunctionArgument>,
    state: &Compiler,
) -> (r: Result<ArgumentList, CompileError>)
    requires
        distinct_keywords(params_view(params@)),
    ensures
        bind_result_view(r) == bind_spec(params_view(params@), args@),
{
    let ghost args0 = args@;
    let ghost pv = params_view(params@);
    proof {
        assert(args0.skip(0) =~= args0);
        assert(pv.skip(0) =~= pv);
        assert(pv.len() == params@.len());
        assert(forall|n: int| 0 <= n < pv.len() ==> pv[n] == #[trigger] params@[n].vw());
    }
    // Reject the first argument keyword that no parameter declares.
    let mut i: usize = 0;
    while i < args.len()
        invariant
            i <= args@.len(),
            args@ == args0,
            forall|m: int| 0 <= m < i ==> declares(pv, args0[m].keyword@),
            first_undeclared(pv, args0) == first_undeclared(
                pv,
                args0.skip(i as int),
            ),
        decreases args@.len() - i,
    {
        let mut m: usize = 0;
        let mut found = false;
        while !found && m < params.len()
            invariant
                m <= params@.len(),
                !found ==> forall|n: int|
                    0 <= n < m ==> pv[n].keyword != args0[i as int].keyword@,
                found ==> declares(pv, args0[i as int].keyword@),
            decreases (if found { 0int } else { 1int }), params@.len() - m,
        {
            if params[m].keyword == args[i].keyword {
                proof {
                    assert(pv[m as int] == params@[m as int].vw());
                    assert(pv[m as int].keyword == args0[i as int].keyword@);
                }
                found = true;
            } else {
                proof {
                    assert(pv[m as int] == params@[m as int].vw());
                }
                m += 1;
            }
        }
        proof {
            lemma_skip_step(args0, i as int);
        }
        if !found {
            proof {
                assert(!declares(pv, args0[i as int].keyword@));
                assert(first_undeclared(pv, args0.skip(i as int)) == Some(
                    args0[i as int].keyword@,
                ));
            }
            return Err(CompileError::UnknownKeyword { keyword: args[i].keyword.clone() });
        }
        proof {
            assert(args0.skip(i as int).drop_first() == args0.skip(i as int + 1));
            assert(first_undeclared(pv, args0.skip(i as int)) == first_undeclared(
                pv,
                args0.skip(i as int + 1),
            ));
        }
        i += 1;
    }
    proof {
        assert(args0.skip(args0.len() as int).len() == 0);
        assert(first_undeclared(pv, args0) is None);
    }
    // Hold every parameter against the call site: the first missing
    // required parameter or statically ill-shaped argument wins.
    let mut j: usize = 0;
    while j < params.len()
        invariant
            j <= params@.len(),
            args@ == args0,
            forall|j2: int| 0 <= j2 < j ==> param_fault(pv[j2], args0) is None,
            first_param_fault(pv, args0) == first_param_fault(
                pv.skip(j as int),
                args0,
            ),
        decreases params@.len() - j,
    {
        let mut k: usize = 0;
        let mut found = false;
        let mut pos: usize = 0;
        while !found && k < args.len()
            invariant
                k <= args@.len(),
                !found ==> forall|n: int|
                    0 <= n < k ==> args0[n].keyword@ != pv[j as int].keyword,
                found ==> pos < args0.len(),
                found ==> args0[pos as int].keyword@ == pv[j as int].keyword,
                found ==> forall|n: int|
                    0 <= n < pos ==> args0[n].keyword@ != pv[j as int].keyword,
            decreases (if found { 0int } else { 1int }), args@.len() - k,
        {
            if args[k].keyword == params[j].keyword {
                proof {
                    assert(pv[j as int] == params@[j as int].vw());
                }
                found = true;
                pos = k;
            } else {
                proof {
                    assert(pv[j as int] == params@[j as int].vw());
                }
                k += 1;
            }
        }
        proof {
            lemma_skip_step(pv, j as int);
        }
        if !found {
            proof {
                lemma_find_arg_none(args0, pv[j as int].keyword);
            }
            if params[j].required {
                proof {
                    assert(param_fault(pv[j as int], args0) == Some(
                        CompileErrorView::MissingArgument {
                            keyword: pv[j as int].keyword,
                        },
                    ));
                    assert(first_param_fault(pv.skip(j as int), args0) == Some(
                        CompileErrorView::MissingArgument {
                            keyword: pv[j as int].keyword,
                        },
                    ));
                }
                return Err(CompileError::MissingArgument {
                    keyword: params[j].keyword.clone(),
                });
            }
            proof {
                assert(param_fault(pv[j as int], args0) is None);
                assert(pv.skip(j as int).drop_first() == pv.skip(j as int + 1));
            }
        } else {
            proof {
                assert(pos < args0.len());
                assert(args0[pos as int].keyword@ == pv[j as int].keyword);
                assert(forall|n: int|
                    0 <= n < pos ==> args0[n].keyword@ != pv[j as int].keyword);
                lemma_find_arg_at(args0, pv[j as int].keyword, pos as int);
            }
            let t = args[pos].expr.type_def(state);
            if !params[j].kind.accepts(&t.kind) {
                proof {
                    assert(param_fault(pv[j as int], args0) == Some(
                        CompileErrorView::TypeMismatch {
                            keyword: pv[j as int].keyword,
                        },
                    ));
                    assert(first_param_fault(pv.skip(j as int), args0) == Some(
                        CompileErrorView::TypeMismatch {
                            keyword: pv[j as int].keyword,
                        },
                    ));
                }
                return Err(CompileError::TypeMismatch { keyword: params[j].keyword.clone() });
            }
            proof {
                assert(param_fault(pv[j as int], args0) is None);
                assert(pv.skip(j as int).drop_first() == pv.skip(j as int + 1));
            }
        }
        j += 1;
    }
    proof {
        assert(pv.skip(pv.len() as int).len() == 0);
        assert(first_param_fault(pv, args0) is None);
    }
    // Resolve: one entry per parameter, in declaration order; the first
    // argument bearing the keyword wins, an absent optional parameter
    // keeps the explicit "not provided" marker.
    let mut entries = empty_entries(params);
    proof {
        assert forall|n: int|
            0 <= n < entries@.len() implies #[trigger] entries@[n].0@ == pv[n].keyword
                && entries@[n].1 is None by {
            assert(pv[n] == params@[n].vw());
            assert(entries@[n].0@ == params@[n].keyword@);
        }
    }
    let mut args2 = args;
    proof {
        assert(args2@ == args0.subrange(0, args2@.len() as int));
        assert(args0.skip(args2@.len() as int).len() == 0);
        assert forall|n: int| 0 <= n < entries@.len() implies entries@[n].1 == find_arg(
            args0.skip(args2@.len() as int),
            pv[n].keyword,
        ) by {
            assert(pv[n] == params@[n].vw());
            assert(entries@[n].0@ == pv[n].keyword && entries@[n].1 is None);
            assert(args0.skip(args2@.len() as int).len() == 0);
        }
    }
    while args2.len() > 0
        invariant
            args2@.len() <= args0.len(),
            args2@ == args0.subrange(0, args2@.len() as int),
            entries@.len() == pv.len(),
            forall|n: int| 0 <= n < entries@.len() ==> entries@[n].0@ == pv[n].keyword,
            forall|n: int| 0 <= n < entries@.len() ==> entries@[n].1 == find_arg(
                args0.skip(args2@.len() as int),
                pv[n].keyword,
            ),
        decreases args2@.len(),
    {
        let ghost before = args2@;
        let a = args2.pop().unwrap();
        let ghost n0 = args2@.len() as int;
        proof {
            assert(before == args0.subrange(0, before.len() as int));
            assert(a == before[before.len() - 1]);
            assert(args0.subrange(0, before.len() as int)[before.len() - 1] == args0[
                before.len() - 1
            ]);
            assert(n0 == before.len() - 1);
            assert(a == args0[n0]);
            assert(args2@ == before.drop_last());
            assert forall|q: int| 0 <= q < n0 implies args2@[q] == args0[q] by {
                assert(args2@[q] == before[q]);
                assert(args0.subrange(0, before.len() as int)[q] == args0[q]);
            }
            assert(args2@ =~= args0.subrange(0, n0));
            lemma_skip_step(args0, n0);
        }
        let mut m: usize = 0;
        let mut found = false;
        let mut pos: usize = 0;
        while !found && m < params.len()
            invariant
                m <= params@.len(),
                !found ==> forall|n: int|
                    0 <= n < m ==> pv[n].keyword != args0[n0].keyword@,
                found ==> pos < pv.len() && pv[pos as int].keyword
                    == args0[n0].keyword@,
            decreases (if found { 0int } else { 1int }), params@.len() - m,
        {
            if params[m].keyword == a.keyword {
                proof {
                    assert(pv[m as int] == params@[m as int].vw());
                }
                found = true;
                pos = m;
            } else {
                proof {
                    assert(pv[m as int] == params@[m as int].vw());
                }
                m += 1;
            }
        }
        if !found {
            proof {
                assert(declares(pv, args0[n0].keyword@));
                assert(false);
            }
            return vstd::pervasive::unreached();
        }
        let ghost entries_before = entries@;
        let kw2 = params[pos].keyword.clone();
        entries[pos] = (kw2, Some(a.expr));
        proof {
            assert(entries@ =~= entries_before.update(pos as int, (kw2, Some(a.expr))));
            assert(args0.skip(n0).first() == args0[n0]);
            assert(args0.skip(n0).drop_first() == args0.skip(n0 + 1));
            assert forall|n: int| 0 <= n < entries@.len() implies entries@[n].1 == find_arg(
                args0.skip(n0),
                pv[n].keyword,
            ) by {
                if n == pos {
                    assert(find_arg(args0.skip(n0), pv[n].keyword) == Some(
                        args0[n0].expr,
                    ));
                } else {
                    assert(pv[n].keyword != args0[n0].keyword@);
                    assert(find_arg(args0.skip(n0), pv[n].keyword) == find_arg(
                        args0.skip(n0 + 1),
                        pv[n].keyword,
                    ));
                }
            }
        }
    }
    let result = ArgumentList { entries };
    proof {
        assert(args0.skip(0) =~= args0);
        assert(result.vw() =~= bound_entries(pv, args0));
    }
    Ok(result)
}

/// When no entry bears the keyword, the lookup yields nothing.
pub proof fn lemma_entry_for_none(entries: Seq<(Seq<char>, Option<Expression>)>, kw: Seq<char>)
    requires
        forall|m: int| 0 <= m < entries.len() ==> entries[m].0 != kw,
    ensures
        entry_for(entries, kw) is None,
    decreases entries.len(),
{
    if entries.len() > 0 {
        lemma_entry_for_none(entries.drop_first(), kw);
    }
}

} // verus!
