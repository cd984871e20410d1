use vstd::prelude::*;
use crate::error::RuntimeError;
use crate::kind::Kind;

verus! {

/// A dynamic, tagged runtime value. Bytes are arbitrary byte sequences,
/// not guaranteed valid text: textual operations coerce explicitly and
/// lossily. A float is held as its IEEE-754 bit pattern, a timestamp as
/// nanoseconds since the Unix epoch, and a regex as its pattern source;
/// this core classifies and moves those shapes but never computes with
/// them.
#[derive(Debug, PartialEq)]
pub enum Value {
    Null,
    Boolean(bool),
    Bytes(Vec<u8>),
    Integer(i64),
    Float(u64),
    Timestamp(i64),
    Array(Vec<Value>),
    Mapping(Vec<(Vec<u8>, Value)>),
    Regex(Vec<u8>),
}

/// The mathematical model of a `Value`: the same tree with every vector
/// replaced by the sequence it holds.
pub enum ValueView {
    Null,
    Boolean(bool),
    Bytes(Seq<u8>),
    Integer(i64),
    Float(u64),
    Timestamp(i64),
    Array(Seq<ValueView>),
    Mapping(Seq<(Seq<u8>, ValueView)>),
    Regex(Seq<u8>),
}

/// Models of the elements of an array value, in order.
pub open spec fn array_views(items: Seq<Value>) -> Seq<ValueView>
    decreases items,
{
    if items.len() == 0 {
        Seq::empty()
    } else {
        array_views(items.drop_last()).push(items.last().vw())
    }
}

/// Models of the entries of a mapping value, in order.
pub open spec fn mapping_views(entries: Seq<(Vec<u8>, Value)>) -> Seq<(Seq<u8>, ValueView)>
    decreases entries,
{
    if entries.len() == 0 {
        Seq::empty()
    } else {
        mapping_views(entries.drop_last()).push(
            (entries.last().0@, entries.last().1.vw()),
        )
    }
}

impl Value {
    /// The model of this value.
    pub open spec fn vw(self) -> ValueView
        decreases self,
    {
        match self {
            Value::Null => ValueView::Null,
            Value::Boolean(b) => ValueView::Boolean(b),
            Value::Bytes(b) => ValueView::Bytes(b@),
            Value::Integer(i) => ValueView::Integer(i),
            Value::Float(bits) => ValueView::Float(bits),
            Value::Timestamp(t) => ValueView::Timestamp(t),
            Value::Array(items) => ValueView::Array(array_views(items@)),
            Value::Mapping(entries) => ValueView::Mapping(mapping_views(entries@)),
            Value::Regex(pattern) => ValueView::Regex(pattern@),
        }
    }
}

impl View for Value {
    type V = ValueView;

    open spec fn view(&self) -> ValueView {
        self.vw()
    }
}

/// The element models are exactly the pointwise models of the elements.
pub proof fn lemma_array_views(items: Seq<Value>)
    ensures
        array_views(items).len() == items.len(),
        forall|i: int| 0 <= i < items.len() ==> array_views(items)[i] == items[i].vw(),
    decreases items.len(),
{
    if items.len() > 0 {
        lemma_array_views(items.drop_last());
    }
}

/// The entry models are exactly the pointwise models of the entries.
pub proof fn lemma_mapping_views(entries: Seq<(Vec<u8>, Value)>)
    ensures
        mapping_views(entries).len() == entries.len(),
        forall|i: int| 0 <= i < entries.len() ==> mapping_views(entries)[i]
            == (entries[i].0@, entries[i].1.vw()),
    decreases entries.len(),
{
    if entries.len() > 0 {
        lemma_mapping_views(entries.drop_last());
    }
}

impl ValueView {
    /// The one shape this value has, as a singleton classification.
    pub open spec fn kind_of(self) -> Kind {
        match self {
            ValueView::Null => Kind { null: true, ..Kind::empty_spec() },
            ValueView::Boolean(_) => Kind { boolean: true, ..Kind::empty_spec() },
            ValueView::Bytes(_) => Kind { bytes: true, ..Kind::empty_spec() },
            ValueView::Integer(_) => Kind { integer: true, ..Kind::empty_spec() },
            ValueView::Float(_) => Kind { float: true, ..Kind::empty_spec() },
            ValueView::Timestamp(_) => Kind { timestamp: true, ..Kind::empty_spec() },
            ValueView::Array(_) => Kind { array: true, ..Kind::empty_spec() },
            ValueView::Mapping(_) => Kind { mapping: true, ..Kind::empty_spec() },
            ValueView::Regex(_) => Kind { regex: true, ..Kind::empty_spec() },
        }
    }
}

impl Kind {
    /// Membership: the value's shape is among the accepted ones.
    pub open spec fn member(self, v: ValueView) -> bool {
        match v {
            ValueView::Null => self.null,
            ValueView::Boolean(_) => self.boolean,
            ValueView::Bytes(_) => self.bytes,
            ValueView::Integer(_) => self.integer,
            ValueView::Float(_) => self.float,
            ValueView::Timestamp(_) => self.timestamp,
            ValueView::Array(_) => self.array,
            ValueView::Mapping(_) => self.mapping,
            ValueView::Regex(_) => self.regex,
        }
    }
}

impl Value {
    /// The shape of this value, as a singleton classification.
    pub fn kind(&self) -> (k: Kind)
        ensures
            k == self.vw().kind_of(),
    {
        match self {
            Value::Null => Kind { null: true, ..Kind::empty() },
            Value::Boolean(_) => Kind { boolean: true, ..Kind::empty() },
            Value::Bytes(_) => Kind { bytes: true, ..Kind::empty() },
            Value::Integer(_) => Kind { integer: true, ..Kind::empty() },
            Value::Float(_) => Kind { float: true, ..Kind::empty() },
            Value::Timestamp(_) => Kind { timestamp: true, ..Kind::empty() },
            Value::Array(_) => Kind { array: true, ..Kind::empty() },
            Value::Mapping(_) => Kind { mapping: true, ..Kind::empty() },
            Value::Regex(_) => Kind { regex: true, ..Kind::empty() },
        }
    }
}

/// What shape-checked bytes access yields: the bytes of a bytes value,
/// or a type-mismatch error naming the expected and the actual shape.
pub open spec fn try_bytes_spec(v: ValueView) -> Result<Seq<u8>, RuntimeError> {
    match v {
        ValueView::Bytes(b) => Ok(b),
        other => Err(
            RuntimeError::TypeMismatch {
                expected: Kind::bytes_only_spec(),
                got: other.kind_of(),
            },
        ),
    }
}

/// The model of a bytes-or-error outcome.
pub open spec fn bytes_result_view(r: Result<Vec<u8>, RuntimeError>) -> Result<
    Seq<u8>,
    RuntimeError,
> {
    match r {
        Ok(b) => Ok(b@),
        Err(e) => Err(e),
    }
}

impl Value {
    /// Shape-checked access to the bytes variant; never an unchecked
    /// cast. Fails with a type mismatch when the underlying variant
    /// differs.
    pub fn try_bytes(self) -> (r: Result<Vec<u8>, RuntimeError>)
        ensures
            bytes_result_view(r) == try_bytes_spec(self.vw()),
    {
        match self {
            Value::Bytes(b) => Ok(b),
            other => {
                let got = other.kind();
                Err(RuntimeError::TypeMismatch { expected: Kind::bytes_only(), got })
            },
        }
    }
}

/// A copy of a byte vector, proved to hold the same bytes.
pub fn clone_bytes(b: &Vec<u8>) -> (r: Vec<u8>)
    ensures
        r@ == b@,
{
    let mut r: Vec<u8> = Vec::new();
    let mut i: usize = 0;
    while i < b.len()
        invariant
            i <= b.len(),
            r@ == b@.subrange(0, i as int),
        decreases b.len() - i,
    {
        r.push(b[i]);
        i += 1;
    }
    proof {
        assert(r@ =~= b@);
    }
    r
}

impl Value {
    /// A structural copy of this value, proved to have the same model.
    #[verifier::loop_isolation(false)]
    pub fn clone_value(&self) -> (r: Value)
        ensures
            r.vw() == self.vw(),
        decreases *self,
    {
        match self {
            Value::Null => Value::Null,
            Value::Boolean(b) => Value::Boolean(*b),
            Value::Bytes(b) => Value::Bytes(clone_bytes(b)),
            Value::Integer(i) => Value::Integer(*i),
            Value::Float(bits) => Value::Float(*bits),
            Value::Timestamp(t) => Value::Timestamp(*t),
            Value::Regex(pattern) => Value::Regex(clone_bytes(pattern)),
            Value::Array(items) => {
                let mut out: Vec<Value> = Vec::new();
                let mut i: usize = 0;
                while i < items.len()
                    invariant
                        i <= items.len(),
                        out@.len() == i,
                        forall|j: int| 0 <= j < i ==> out@[j].vw() == items@[j].vw(),
                    decreases items.len() - i,
                {
                    proof {
                        assert(decreases_to!(*self => (*self)->Array_0));
                        assert((*self)->Array_0 == *items);
                        assert(decreases_to!(*items => items@));
                        assert(decreases_to!(items@ => items@[i as int]));
                        assert(decreases_to!(*self => items@[i as int]));
                    }
                    out.push(items[i].clone_value());
                    i += 1;
                }
                proof {
                    lemma_array_views(out@);
                    lemma_array_views(items@);
                    assert(array_views(out@) =~= array_views(items@));
                }
                Value::Array(out)
            },
            Value::Mapping(entries) => {
                let mut out: Vec<(Vec<u8>, Value)> = Vec::new();
                let mut i: usize = 0;
                while i < entries.len()
                    invariant
                        i <= entries.len(),
                        out@.len() == i,
                        forall|j: int| 0 <= j < i ==> out@[j].0@ == entries@[j].0@
                            && out@[j].1.vw() == entries@[j].1.vw(),
                    decreases entries.len() - i,
                {
                    proof {
                        assert(decreases_to!(*self => (*self)->Mapping_0));
                        assert((*self)->Mapping_0 == *entries);
                        assert(decreases_to!(*entries => entries@));
                        assert(decreases_to!(entries@ => entries@[i as int]));
                        assert(decreases_to!(entries@[i as int] => entries@[i as int].1));
                        assert(decreases_to!(*self => entries@[i as int].1));
                    }
                    let key = clone_bytes(&entries[i].0);
                    let val = entries[i].1.clone_value();
                    out.push((key, val));
                    i += 1;
                }
                proof {
                    lemma_mapping_views(out@);
                    lemma_mapping_views(entries@);
                    assert(mapping_views(out@) =~= mapping_views(entries@));
                }
                Value::Mapping(out)
            },
        }
    }
}

} // verus!
