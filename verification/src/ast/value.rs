use vstd::prelude::*;

verus! {

/// A literal value bound to a rendered query as a parameter.
///
/// Everything that is not explicitly raw text is carried through the renderer
/// as one of these and handed back beside the SQL string, in placeholder
/// order, so that a driver can bind it safely.
#[derive(Debug, PartialEq)]
pub enum Value {
    /// SQL `NULL`.
    Null,
    /// A boolean.
    Bool(bool),
    /// A 64-bit signed integer.
    Int(i64),
    /// A text value.
    Text(String),
    /// An array of values.
    Array(Vec<Value>),
}

/// The mathematical model of a [`Value`]: the same shape with sequences in
/// place of heap-allocated storage.
pub enum ValueV {
    Null,
    Bool(bool),
    Int(int),
    Text(Seq<char>),
    Array(Seq<ValueV>),
}

/// The models of a sequence of values, elementwise.
pub open spec fn values_view(vs: Seq<Value>) -> Seq<ValueV>
    decreases vs,
{
    if vs.len() == 0 {
        Seq::empty()
    } else {
        seq![vs[0]@] + values_view(vs.drop_first())
    }
}

impl View for Value {
    type V = ValueV;

    open spec fn view(&self) -> ValueV
        decreases self,
    {
        match self {
            Value::Null => ValueV::Null,
            Value::Bool(b) => ValueV::Bool(*b),
            Value::Int(i) => ValueV::Int(*i as int),
            Value::Text(s) => ValueV::Text(s@),
            Value::Array(vs) => ValueV::Array(values_view(vs@)),
        }
    }
}

pub broadcast proof fn lemma_values_view_len(vs: Seq<Value>)
    ensures
        #[trigger] values_view(vs).len() == vs.len(),
    decreases vs,
{
    if vs.len() == 0 {
        assert(values_view(vs) == Seq::<ValueV>::empty());
    } else {
        lemma_values_view_len(vs.drop_first());
        assert(values_view(vs) == seq![vs[0]@] + values_view(vs.drop_first()));
    }
}

pub broadcast proof fn lemma_values_view_index(vs: Seq<Value>, i: int)
    requires
        0 <= i < vs.len(),
    ensures
        #[trigger] values_view(vs)[i] == vs[i]@,
    decreases vs,
{
    lemma_values_view_len(vs);
    if i == 0 {
        assert(values_view(vs) == seq![vs[0]@] + values_view(vs.drop_first()));
        assert(values_view(vs)[0] == vs[0]@);
    } else {
        lemma_values_view_index(vs.drop_first(), i - 1);
        assert(values_view(vs) == seq![vs[0]@] + values_view(vs.drop_first()));
        assert(values_view(vs)[i] == values_view(vs.drop_first())[i - 1]);
        assert(vs.drop_first()[i - 1] == vs[i]);
    }
}

pub broadcast proof fn lemma_values_view_push(vs: Seq<Value>, v: Value)
    ensures
        #[trigger] values_view(vs.push(v)) == values_view(vs).push(v@),
    decreases vs,
{
    broadcast use lemma_values_view_len, lemma_values_view_index;
    assert forall|i: int| 0 <= i < vs.len() + 1 implies values_view(vs.push(v))[i] == values_view(vs).push(v@)[i] by {
        lemma_values_view_index(vs.push(v), i);
    }
    assert(values_view(vs.push(v)) =~= values_view(vs).push(v@));
}

pub broadcast group group_values_view {
    lemma_values_view_len,
    lemma_values_view_index,
    lemma_values_view_push,
}

impl DeepView for Value {
    type V = ValueV;

    open spec fn deep_view(&self) -> ValueV {
        self.view()
    }
}

impl Value {
    /// A copy of the value, equal under the model.
    pub fn duplicate(&self) -> (r: Value)
        ensures
            r@ == self@,
        decreases self,
    {
        match self {
            Value::Null => Value::Null,
            Value::Bool(b) => Value::Bool(*b),
            Value::Int(i) => Value::Int(*i),
            Value::Text(s) => Value::Text(s.clone()),
            Value::Array(vs) => Value::Array(Value::duplicate_values(vs)),
        }
    }

    /// Copies of all the values, equal under the model, elementwise.
    pub fn duplicate_values(vs: &Vec<Value>) -> (r: Vec<Value>)
        ensures
            values_view(r@) == values_view(vs@),
            r@.len() == vs@.len(),
        decreases vs@,
    {
        let mut out: Vec<Value> = Vec::new();
        let mut i: usize = 0;
        while i < vs.len()
            invariant
                i <= vs.len(),
                out@.len() == i,
                values_view(out@) =~= values_view(vs@.take(i as int)),
            decreases vs@.len() - i,
        {
            let d = vs[i].duplicate();
            out.push(d);
            proof {
                broadcast use group_values_view;
                assert(vs@.take(i + 1 as int) =~= vs@.take(i as int).push(vs@[i as int]));
                assert(values_view(out@) =~= values_view(vs@.take(i + 1 as int)));
            }
            i = i + 1;
        }
        proof {
            assert(vs@.take(vs@.len() as int) =~= vs@);
        }
        out
    }
}

impl From<bool> for Value {
    fn from(b: bool) -> (r: Value)
        ensures
            r@ == ValueV::Bool(b),
    {
        Value::Bool(b)
    }
}

impl vstd::std_specs::convert::FromSpecImpl<bool> for Value {
    open spec fn obeys_from_spec() -> bool {
        true
    }

    open spec fn from_spec(b: bool) -> Value {
        Value::Bool(b)
    }
}

impl From<i64> for Value {
    fn from(i: i64) -> (r: Value)
        ensures
            r@ == ValueV::Int(i as int),
    {
        Value::Int(i)
    }
}

impl vstd::std_specs::convert::FromSpecImpl<i64> for Value {
    open spec fn obeys_from_spec() -> bool {
        true
    }

    open spec fn from_spec(i: i64) -> Value {
        Value::Int(i)
    }
}

impl From<i32> for Value {
    fn from(i: i32) -> (r: Value)
        ensures
            r@ == ValueV::Int(i as int),
    {
        Value::Int(i as i64)
    }
}

impl vstd::std_specs::convert::FromSpecImpl<i32> for Value {
    open spec fn obeys_from_spec() -> bool {
        true
    }

    open spec fn from_spec(i: i32) -> Value {
        Value::Int(i as i64)
    }
}

impl From<u32> for Value {
    fn from(i: u32) -> (r: Value)
        ensures
            r@ == ValueV::Int(i as int),
    {
        Value::Int(i as i64)
    }
}

impl vstd::std_specs::convert::FromSpecImpl<u32> for Value {
    open spec fn obeys_from_spec() -> bool {
        true
    }

    open spec fn from_spec(i: u32) -> Value {
        Value::Int(i as i64)
    }
}

impl<'a> From<&'a str> for Value {
    fn from(s: &'a str) -> (r: Value)
        ensures
            r@ == ValueV::Text(s@),
    {
        Value::Text(String::from_str(s))
    }
}

impl<'a> vstd::std_specs::convert::FromSpecImpl<&'a str> for Value {
    open spec fn obeys_from_spec() -> bool {
        false
    }

    open spec fn from_spec(s: &'a str) -> Value {
        Value::Null
    }
}

impl From<String> for Value {
    fn from(s: String) -> (r: Value)
        ensures
            r@ == ValueV::Text(s@),
    {
        Value::Text(s)
    }
}

impl vstd::std_specs::convert::FromSpecImpl<String> for Value {
    open spec fn obeys_from_spec() -> bool {
        true
    }

    open spec fn from_spec(s: String) -> Value {
        Value::Text(s)
    }
}

} // verus!
