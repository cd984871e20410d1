use vstd::prelude::*;
use crate::downcase::vrl_fn_downcase;
use crate::expression::Resolved;
use crate::function::Function;
use crate::value::{Value, ValueView};

verus! {

/// The slot of the first keyed entry bearing the keyword, if any.
pub open spec fn keyed_lookup<T>(entries: Seq<(Seq<char>, T)>, kw: Seq<char>) -> Option<T>
    decreases entries.len(),
{
    if entries.len() == 0 {
        None
    } else if entries.first().0 == kw {
        Some(entries.first().1)
    } else {
        keyed_lookup(entries.drop_first(), kw)
    }
}

/// When index `k` holds the first entry bearing the keyword, the lookup
/// yields that entry's slot.
pub proof fn lemma_keyed_lookup_at<T>(entries: Seq<(Seq<char>, T)>, kw: Seq<char>, k: int)
    requires
        0 <= k < entries.len(),
        entries[k].0 == kw,
        forall|m: int| 0 <= m < k ==> entries[m].0 != kw,
    ensures
        keyed_lookup(entries, kw) == Some(entries[k].1),
    decreases k,
{
    if k > 0 {
        lemma_keyed_lookup_at(entries.drop_first(), kw, k - 1);
    }
}

/// The entries with the first one bearing the keyword removed; the rest
/// keep their order. Without a match, the entries unchanged.
pub open spec fn keyed_remove<T>(entries: Seq<(Seq<char>, T)>, kw: Seq<char>) -> Seq<
    (Seq<char>, T),
>
    decreases entries.len(),
{
    if entries.len() == 0 {
        entries
    } else if entries.first().0 == kw {
        entries.drop_first()
    } else {
        seq![entries.first()] + keyed_remove(entries.drop_first(), kw)
    }
}

/// When index `k` holds the first entry bearing the keyword, the removal
/// takes out exactly that entry.
pub proof fn lemma_keyed_remove_at<T>(entries: Seq<(Seq<char>, T)>, kw: Seq<char>, k: int)
    requires
        0 <= k < entries.len(),
        entries[k].0 == kw,
        forall|m: int| 0 <= m < k ==> entries[m].0 != kw,
    ensures
        keyed_remove(entries, kw) == entries.remove(k),
    decreases k,
{
    if k == 0 {
        assert(entries.drop_first() =~= entries.remove(0));
    } else {
        lemma_keyed_remove_at(entries.drop_first(), kw, k - 1);
        assert(seq![entries.first()] + entries.drop_first().remove(k - 1) =~= entries.remove(k));
    }
}

/// When no entry bears the keyword, the lookup yields nothing.
pub proof fn lemma_keyed_lookup_none<T>(entries: Seq<(Seq<char>, T)>, kw: Seq<char>)
    requires
        forall|m: int| 0 <= m < entries.len() ==> entries[m].0 != kw,
    ensures
        keyed_lookup(entries, kw) is None,
    decreases entries.len(),
{
    if entries.len() > 0 {
        lemma_keyed_lookup_none(entries.drop_first(), kw);
    }
}

/// Runtime-resolved arguments handed to a function's direct entry
/// point: one value per declared parameter, fetched by keyword in the
/// order and keying the function expects.
pub struct VmArgumentList {
    pub entries: Vec<(String, Option<Value>)>,
}

/// The model of one optional value slot.
pub open spec fn value_slot_view(slot: Option<Value>) -> Option<ValueView> {
    match slot {
        Some(v) => Some(v.vw()),
        None => None,
    }
}

/// The model of a run of runtime argument entries.
pub open spec fn vm_entries_view(entries: Seq<(String, Option<Value>)>) -> Seq<
    (Seq<char>, Option<ValueView>),
> {
    Seq::new(entries.len(), |i: int| (entries[i].0@, value_slot_view(entries[i].1)))
}

impl VmArgumentList {
    /// The model of the collection.
    pub open spec fn vw(self) -> Seq<(Seq<char>, Option<ValueView>)> {
        vm_entries_view(self.entries@)
    }

    /// The already-resolved value of a required parameter. The runtime
    /// has placed one under the keyword; asking for any other keyword
    /// is a caller fault, excluded by the precondition rather than
    /// answered with a panic.
    #[verifier::loop_isolation(false)]
    pub fn required(&mut self, keyword: &String) -> (r: Value)
        requires
            keyed_lookup(old(self).vw(), keyword@) matches Some(slot) && slot is Some,
        ensures
            keyed_lookup(old(self).vw(), keyword@) == Some(Some(r.vw())),
            final(self).vw() == keyed_remove(old(self).vw(), keyword@),
    {
        let ghost entries0 = old(self).vw();
        let mut i: usize = 0;
        while i < self.entries.len()
            invariant
                i <= self.entries@.len(),
                vm_entries_view(self.entries@) == entries0,
                forall|m: int| 0 <= m < i ==> entries0[m].0 != keyword@,
            decreases self.entries@.len() - i,
        {
            if self.entries[i].0 == *keyword {
                proof {
                    assert(entries0[i as int].0 == keyword@);
                    lemma_keyed_lookup_at(entries0, keyword@, i as int);
                    lemma_keyed_remove_at(entries0, keyword@, i as int);
                    assert(entries0[i as int].1 == value_slot_view(self.entries@[i as int].1));
                }
                let ghost pre = self.entries@;
                let (_kw, slot) = self.entries.remove(i);
                proof {
                    assert(self.entries@ == pre.remove(i as int));
                    assert forall|q: int|
                        0 <= q < vm_entries_view(self.entries@).len() implies vm_entries_view(
                        self.entries@,
                    )[q] == entries0.remove(i as int)[q] by {
                        if q < i {
                            assert(self.entries@[q] == pre[q]);
                        } else {
                            assert(self.entries@[q] == pre[q + 1]);
                        }
                    }
                    assert(vm_entries_view(self.entries@) =~= entries0.remove(i as int));
                }
                return slot.unwrap();
            }
            proof {
                assert(entries0[i as int].0 == self.entries@[i as int].0@);
            }
            i += 1;
        }
        proof {
            lemma_keyed_lookup_none(entries0, keyword@);
        }
        vstd::pervasive::unreached()
    }
}

/// One native entry point per registered function; the closed set the
/// second execution backend dispatches over.
#[derive(Clone, Copy, Debug, PartialEq, Eq, Structural)]
pub enum NativeEntry {
    Downcase,
}

/// The native entry point that implements a function's semantics.
pub open spec fn native_entry_of(f: Function) -> NativeEntry {
    match f {
        Function::Downcase(_) => NativeEntry::Downcase,
    }
}

impl NativeEntry {
    /// Invokes the entry point on a runtime-resolved input slot,
    /// writing the outcome to the output slot.
    pub fn invoke(&self, value: &mut Resolved, resolved: &mut Resolved)
        ensures
            crate::expression::resolved_view(*final(resolved)) == crate::downcase::downcase_step(
                crate::expression::resolved_view(*old(value)),
            ),
            crate::expression::resolved_view(*final(value)) == Ok::<ValueView, crate::error::RuntimeError>(
                ValueView::Null,
            ),
    {
        match self {
            NativeEntry::Downcase => vrl_fn_downcase(value, resolved),
        }
    }
}

/// The process-wide mapping from function identifier to native entry
/// point: built once from the registry during initialization, read-only
/// afterwards, and consulted by the second execution backend instead of
/// walking the expression tree.
pub struct DispatchTable {
    pub entries: Vec<(String, NativeEntry)>,
}

/// The model of the table's entries.
pub open spec fn table_view(entries: Seq<(String, NativeEntry)>) -> Seq<(Seq<char>, NativeEntry)> {
    Seq::new(entries.len(), |i: int| (entries[i].0@, entries[i].1))
}

impl DispatchTable {
    /// The model of the table.
    pub open spec fn vw(self) -> Seq<(Seq<char>, NativeEntry)> {
        table_view(self.entries@)
    }

    /// Read-only lookup by identifier: the first entry registered under
    /// it, if any.
    #[verifier::loop_isolation(false)]
    pub fn lookup(&self, identifier: &String) -> (r: Option<NativeEntry>)
        ensures
            r == keyed_lookup(self.vw(), identifier@),
    {
        let ghost entries0 = self.vw();
        let mut i: usize = 0;
        while i < self.entries.len()
            invariant
                i <= self.entries@.len(),
                forall|m: int| 0 <= m < i ==> entries0[m].0 != identifier@,
            decreases self.entries@.len() - i,
        {
            if self.entries[i].0 == *identifier {
                proof {
                    assert(entries0[i as int].0 == identifier@);
                    lemma_keyed_lookup_at(entries0, identifier@, i as int);
                    assert(entries0[i as int].1 == self.entries@[i as int].1);
                }
                return Some(self.entries[i].1);
            }
            proof {
                assert(entries0[i as int].0 == self.entries@[i as int].0@);
            }
            i += 1;
        }
        proof {
            lemma_keyed_lookup_none(entries0, identifier@);
        }
        None
    }
}

/// Builds the dispatch table from the same function list that feeds the
/// interpreter, so the two backends cannot drift apart: one entry per
/// function, under its identifier, in registry order.
pub fn build_dispatch_table(functions: &Vec<Function>) -> (t: DispatchTable)
    ensures
        t.vw().len() == functions@.len(),
        forall|i: int| 0 <= i < functions@.len() ==> t.vw()[i] == (
            functions@[i].identifier_spec(),
            native_entry_of(functions@[i]),
        ),
{
    let mut entries: Vec<(String, NativeEntry)> = Vec::new();
    let mut i: usize = 0;
    while i < functions.len()
        invariant
            i <= functions@.len(),
            entries@.len() == i,
            forall|n: int| 0 <= n < i ==> table_view(entries@)[n] == (
                functions@[n].identifier_spec(),
                native_entry_of(functions@[n]),
            ),
        decreases functions@.len() - i,
    {
        let name = functions[i].identifier().to_owned();
        let entry = match &functions[i] {
            Function::Downcase(_) => NativeEntry::Downcase,
        };
        let ghost eb = entries@;
        entries.push((name, entry));
        proof {
            assert forall|n: int| 0 <= n < i + 1 implies table_view(entries@)[n] == (
                functions@[n].identifier_spec(),
                native_entry_of(functions@[n]),
            ) by {
                if n < i {
                    assert(entries@[n] == eb[n]);
                    assert(table_view(eb)[n] == (eb[n].0@, eb[n].1));
                } else {
                    assert(entries@[n] == (name, entry));
                }
            }
        }
        i += 1;
    }
    DispatchTable { entries }
}

} // verus!
