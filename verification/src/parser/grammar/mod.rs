use vstd::prelude::*;

pub mod expressions;
pub mod function;
pub mod laws;
pub mod program;
pub mod types;
pub mod utility;

verus! {

/// A value
///
/// A float is carried as the bit pattern of its IEEE 754 binary64 value
/// (what `f64::to_bits` gives).
#[derive(Debug, PartialEq)]
pub enum Value {
    Int(i64),
    Float(u64),
    Bool(bool),
    String(String),
    List(Vec<Value>),
    /// The absence of a value (`none` in the language)
    Nothing,
}

/// What a value denotes: its strings as sequences of characters and its
/// lists as sequences of what their items denote.
pub enum ValueModel {
    Int(i64),
    Float(u64),
    Bool(bool),
    String(Seq<char>),
    List(Seq<ValueModel>),
    Nothing,
}

impl Value {
    /// What the value denotes.
    pub open spec fn model(self) -> ValueModel
        decreases self, 1int,
    {
        match self {
            Value::Int(v) => ValueModel::Int(v),
            Value::Float(v) => ValueModel::Float(v),
            Value::Bool(v) => ValueModel::Bool(v),
            Value::String(v) => ValueModel::String(v@),
            Value::List(list) => {
                proof {
                    assert(decreases_to!(self => list));
                    assert(decreases_to!(list => list@));
                }
                ValueModel::List(list_model(list@))
            },
            Value::Nothing => ValueModel::Nothing,
        }
    }
}

/// What the items of a list denote, one for one.
pub open spec fn list_model(items: Seq<Value>) -> Seq<ValueModel>
    decreases items, 0int,
{
    if items.len() == 0 {
        Seq::empty()
    } else {
        proof {
            assert(decreases_to!(items => items[items.len() - 1]));
            assert(decreases_to!(items => items.subrange(0, items.len() - 1)));
        }
        list_model(items.subrange(0, items.len() - 1)).push(items[items.len() - 1].model())
    }
}

proof fn lemma_list_model_pointwise(a: Seq<Value>, b: Seq<Value>)
    requires
        a.len() == b.len(),
        forall|i: int| 0 <= i < a.len() ==> (#[trigger] a[i]).model() == b[i].model(),
    ensures
        list_model(a) == list_model(b),
    decreases a.len(),
{
    if a.len() > 0 {
        let n = a.len() - 1;
        lemma_list_model_pointwise(a.subrange(0, n as int), b.subrange(0, n as int));
        assert(a[n as int].model() == b[n as int].model());
    }
}

impl Clone for Value {
    /// A copy that denotes the same value.
    fn clone(&self) -> (r: Self)
        ensures
            r.model() == self.model(),
        decreases self,
    {
        match self {
            Value::Int(v) => Value::Int(*v),
            Value::Float(v) => Value::Float(*v),
            Value::Bool(v) => Value::Bool(*v),
            Value::String(v) => Value::String(v.clone()),
            Value::List(list) => {
                let mut copy: Vec<Value> = Vec::new();
                let mut i: usize = 0;
                while i < list.len()
                    invariant
                        i <= list.len(),
                        *self == Value::List(*list),
                        copy@.len() == i,
                        forall|j: int| 0 <= j < i ==> (#[trigger] copy@[j]).model() == list@[j].model(),
                    decreases list.len() - i,
                {
                    proof {
                        let v = (*self)->List_0;
                        assert(decreases_to!(*self => v));
                        assert(decreases_to!(v => v@));
                        assert(decreases_to!(v@ => v@[i as int]));
                        assert(decreases_to!(*self => list@[i as int]));
                    }
                    copy.push(list[i].clone());
                    i = i + 1;
                }
                proof {
                    lemma_list_model_pointwise(copy@, list@);
                }
                Value::List(copy)
            },
            Value::Nothing => Value::Nothing,
        }
    }
}

/// Possible data types
#[derive(Debug, Clone, Copy, PartialEq, Eq, Structural)]
pub enum DataType {
    Integer,
    Float,
    Bool,
    String,
    List,
    /// The type of no value (`none` in the language)
    Nothing,
}

} // verus!
