//! JSON values, as rules and data are written.

use vstd::prelude::*;
use vstd::std_specs::cmp::PartialEqSpecImpl;

verus! {

/// A JSON number, held as the integer or floating-point value that it was
/// read as. A floating-point number is held as its IEEE 754 bit pattern.
/// Two numbers are equal where they are integers of the same value, or
/// floating-point numbers of the same value: the same bits, or zero of
/// either sign.
#[derive(Debug, Clone, Copy, Eq)]
pub enum Number {
    /// A non-negative integer.
    PosInt(u64),
    /// A negative integer.
    NegInt(i64),
    /// A floating-point number, by the bits of its `f64` value.
    Float(u64),
}

/// A JSON value. The entries of an object are held in the order given; a
/// value read from a JSON object holds each key once, but nothing here
/// keeps a key from occurring twice.
#[derive(Debug, PartialEq)]
pub enum Value {
    Null,
    Bool(bool),
    Number(Number),
    String(String),
    Array(Vec<Value>),
    Object(Vec<(String, Value)>),
}

/// The bits of an `f64` other than its sign.
pub open spec fn magnitude_bits(bits: u64) -> u64 {
    bits & 0x7fff_ffff_ffff_ffffu64
}

/// Whether two numbers are equal: integers of the same value, or
/// floating-point numbers of the same bits or both zero.
pub open spec fn numbers_equal(a: Number, b: Number) -> bool {
    match (a, b) {
        (Number::PosInt(x), Number::PosInt(y)) => x == y,
        (Number::NegInt(x), Number::NegInt(y)) => x == y,
        (Number::Float(x), Number::Float(y)) => x == y || (magnitude_bits(x) == 0
            && magnitude_bits(y) == 0),
        _ => false,
    }
}

impl PartialEq for Number {
    fn eq(&self, other: &Self) -> (equal: bool) {
        match (self, other) {
            (Number::PosInt(x), Number::PosInt(y)) => *x == *y,
            (Number::NegInt(x), Number::NegInt(y)) => *x == *y,
            (Number::Float(x), Number::Float(y)) => *x == *y || (*x & 0x7fff_ffff_ffff_ffffu64
                == 0 && *y & 0x7fff_ffff_ffff_ffffu64 == 0),
            _ => false,
        }
    }
}

impl PartialEqSpecImpl for Number {
    open spec fn obeys_eq_spec() -> bool {
        true
    }

    open spec fn eq_spec(&self, other: &Number) -> bool {
        numbers_equal(*self, *other)
    }
}

/// The mathematical value of a JSON value: strings as character sequences,
/// arrays and objects as sequences.
pub enum ValueModel {
    Null,
    Bool(bool),
    Number(Number),
    String(Seq<char>),
    Array(Seq<ValueModel>),
    Object(Seq<(Seq<char>, ValueModel)>),
}

impl Value {
    /// The mathematical value of this JSON value.
    pub open spec fn model(self) -> ValueModel
        decreases self,
    {
        match self {
            Value::Null => ValueModel::Null,
            Value::Bool(b) => ValueModel::Bool(b),
            Value::Number(n) => ValueModel::Number(n),
            Value::String(s) => ValueModel::String(s@),
            Value::Array(items) => ValueModel::Array(Self::items_model(items)),
            Value::Object(entries) => ValueModel::Object(Self::entries_model(entries)),
        }
    }

    /// The mathematical values of the items of an array, in order.
    pub open spec fn items_model(items: Vec<Value>) -> Seq<ValueModel>
        decreases items,
    {
        Seq::new(
            items.len() as nat,
            |i: int|
                if 0 <= i < items.len() {
                    proof {
                        assert(decreases_to!(items => items[i]));
                    }
                    items[i].model()
                } else {
                    ValueModel::Null
                },
        )
    }

    /// The keys and mathematical values of the entries of an object, in order.
    pub open spec fn entries_model(entries: Vec<(String, Value)>) -> Seq<(Seq<char>, ValueModel)>
        decreases entries,
    {
        Seq::new(
            entries.len() as nat,
            |i: int|
                if 0 <= i < entries.len() {
                    proof {
                        assert(decreases_to!(entries => entries[i]));
                    }
                    (entries[i].0@, entries[i].1.model())
                } else {
                    (Seq::empty(), ValueModel::Null)
                },
        )
    }

    /// A copy of this value, equal to it in every part.
    pub fn deep_copy(&self) -> (copy: Value)
        ensures
            copy.model() == self.model(),
        decreases self,
    {
        match self {
            Value::Null => Value::Null,
            Value::Bool(b) => Value::Bool(*b),
            Value::Number(n) => Value::Number(*n),
            Value::String(s) => Value::String(s.clone()),
            Value::Array(items) => {
                let copied = Self::copy_items(items);
                Value::Array(copied)
            },
            Value::Object(entries) => {
                let copied = Self::copy_entries(entries);
                Value::Object(copied)
            },
        }
    }

    /// Copies of the items of an array, each equal to the item it copies.
    pub fn copy_items(items: &Vec<Value>) -> (copied: Vec<Value>)
        ensures
            Self::items_model(copied) == Self::items_model(*items),
            copied.len() == items.len(),
        decreases items,
    {
        let mut copied: Vec<Value> = Vec::new();
        let n = items.len();
        for i in 0..n
            invariant
                n == items.len(),
                copied.len() == i,
                forall|j: int| 0 <= j < i ==> #[trigger] copied[j].model() == items[j].model(),
        {
            proof {
                assert(decreases_to!(items => items[i as int]));
            }
            copied.push(items[i].deep_copy());
        }
        assert forall|j: int| 0 <= j < n implies Self::items_model(copied)[j] == Self::items_model(
            *items,
        )[j] by {
            assert(copied[j].model() == items[j].model());
        }
        assert(Self::items_model(copied) =~= Self::items_model(*items));
        copied
    }

    /// Copies of the entries of an object, each key and value equal to those
    /// of the entry it copies.
    pub fn copy_entries(entries: &Vec<(String, Value)>) -> (copied: Vec<(String, Value)>)
        ensures
            Self::entries_model(copied) == Self::entries_model(*entries),
            copied.len() == entries.len(),
        decreases entries,
    {
        let mut copied: Vec<(String, Value)> = Vec::new();
        let n = entries.len();
        for i in 0..n
            invariant
                n == entries.len(),
                copied.len() == i,
                forall|j: int|
                    0 <= j < i ==> #[trigger] copied[j].0@ == entries[j].0@ && copied[j].1.model()
                        == entries[j].1.model(),
        {
            let entry = &entries[i];
            proof {
                assert(decreases_to!(entries => entries[i as int].1));
            }
            let key = entry.0.clone();
            let val = entry.1.deep_copy();
            copied.push((key, val));
        }
        assert forall|j: int| 0 <= j < n implies Self::entries_model(copied)[j]
            == Self::entries_model(*entries)[j] by {
            assert(copied[j].0@ == entries[j].0@);
        }
        assert(Self::entries_model(copied) =~= Self::entries_model(*entries));
        copied
    }
}

impl Clone for Value {
    fn clone(&self) -> (copy: Self)
        ensures
            copy.model() == self.model(),
    {
        self.deep_copy()
    }
}

} // verus!
