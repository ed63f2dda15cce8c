//! Decoded values and the tree that they stand for.

use vstd::prelude::*;

verus! {

/// The mathematical content of a decoded value: a tuple, an array, a
/// dictionary entry, a boxed value, a byte sequence, or a scalar. The scalars
/// are a byte, an unsigned 64-bit number, a text, and `Other` for a scalar of
/// any kind that nothing here reads.
pub enum ValueModel {
    Tuple(Seq<ValueModel>),
    Array(Seq<ValueModel>),
    DictEntry(Box<ValueModel>, Box<ValueModel>),
    Boxed(Box<ValueModel>),
    Bytes(Seq<u8>),
    Byte(u8),
    UInt64(u64),
    String(Seq<char>),
    Other,
}

impl ValueModel {
    /// Tuples, arrays, dictionary entries and byte sequences are containers;
    /// a box is one exactly when its payload is.
    pub open spec fn is_container(self) -> bool
        decreases self,
    {
        match self {
            ValueModel::Tuple(_) => true,
            ValueModel::Array(_) => true,
            ValueModel::DictEntry(_, _) => true,
            ValueModel::Bytes(_) => true,
            ValueModel::Boxed(inner) => inner.is_container(),
            _ => false,
        }
    }

    /// The children of a container, in order. A byte sequence has its bytes
    /// as children, a box those of its payload, a scalar none.
    pub open spec fn children(self) -> Seq<ValueModel>
        decreases self,
    {
        match self {
            ValueModel::Tuple(items) => items,
            ValueModel::Array(items) => items,
            ValueModel::DictEntry(key, value) => seq![*key, *value],
            ValueModel::Bytes(bytes) => Seq::new(bytes.len(), |i: int| ValueModel::Byte(bytes[i])),
            ValueModel::Boxed(inner) => inner.children(),
            _ => Seq::empty(),
        }
    }

    /// The payload of a box; any other value as it is.
    pub open spec fn unboxed_once(self) -> ValueModel {
        match self {
            ValueModel::Boxed(inner) => *inner,
            other => other,
        }
    }
}

/// A decoded value: a tree of containers over scalars. `Bytes` is an array
/// of bytes held as one piece; its children are `Byte`s.
#[derive(Debug, PartialEq, Eq)]
pub enum Value {
    Tuple(Vec<Value>),
    Array(Vec<Value>),
    DictEntry(Box<Value>, Box<Value>),
    Boxed(Box<Value>),
    Bytes(Vec<u8>),
    Byte(u8),
    UInt64(u64),
    String(String),
    Other,
}

impl Value {
    /// What this value holds, as a mathematical tree.
    pub open spec fn model(self) -> ValueModel
        decreases self,
    {
        match self {
            Value::Tuple(items) => ValueModel::Tuple(
                Seq::new(
                    items.len() as nat,
                    |i: int|
                        if 0 <= i < items.len() {
                            items[i].model()
                        } else {
                            arbitrary()
                        },
                ),
            ),
            Value::Array(items) => ValueModel::Array(
                Seq::new(
                    items.len() as nat,
                    |i: int|
                        if 0 <= i < items.len() {
                            items[i].model()
                        } else {
                            arbitrary()
                        },
                ),
            ),
            Value::DictEntry(key, value) => ValueModel::DictEntry(
                Box::new(key.model()),
                Box::new(value.model()),
            ),
            Value::Boxed(inner) => ValueModel::Boxed(Box::new(inner.model())),
            Value::Bytes(bytes) => ValueModel::Bytes(bytes@),
            Value::Byte(b) => ValueModel::Byte(b),
            Value::UInt64(n) => ValueModel::UInt64(n),
            Value::String(s) => ValueModel::String(s@),
            Value::Other => ValueModel::Other,
        }
    }
}

impl View for Value {
    type V = ValueModel;

    open spec fn view(&self) -> ValueModel {
        self.model()
    }
}

impl Clone for Value {
    fn clone(&self) -> (copy: Value)
        ensures
            copy@ == self@,
    {
        self.deep_clone()
    }
}

impl Value {
    /// Whether this value is a container.
    pub fn is_container(&self) -> (r: bool)
        ensures
            r == self@.is_container(),
        decreases self,
    {
        match self {
            Value::Tuple(_) => true,
            Value::Array(_) => true,
            Value::DictEntry(_, _) => true,
            Value::Bytes(_) => true,
            Value::Boxed(inner) => inner.is_container(),
            _ => false,
        }
    }

    /// The number of children: zero for a scalar.
    pub fn child_count(&self) -> (r: usize)
        ensures
            r == self@.children().len(),
        decreases self,
    {
        match self {
            Value::Tuple(items) => items.len(),
            Value::Array(items) => items.len(),
            Value::DictEntry(_, _) => 2,
            Value::Bytes(bytes) => bytes.len(),
            Value::Boxed(inner) => inner.child_count(),
            _ => 0,
        }
    }

    fn deep_clone(&self) -> (r: Value)
        ensures
            r@ == self@,
        decreases self,
    {
        match self {
            Value::Tuple(items) => {
                let copy = Value::Tuple(Self::clone_all(items));
                assert(copy@->Tuple_0 =~= self@->Tuple_0);
                copy
            },
            Value::Array(items) => {
                let copy = Value::Array(Self::clone_all(items));
                assert(copy@->Array_0 =~= self@->Array_0);
                copy
            },
            Value::DictEntry(key, value) => Value::DictEntry(
                Box::new(key.deep_clone()),
                Box::new(value.deep_clone()),
            ),
            Value::Boxed(inner) => Value::Boxed(Box::new(inner.deep_clone())),
            Value::Bytes(bytes) => Value::Bytes(bytes.clone()),
            Value::Byte(b) => Value::Byte(*b),
            Value::UInt64(n) => Value::UInt64(*n),
            Value::String(s) => Value::String(s.clone()),
            Value::Other => Value::Other,
        }
    }

    fn clone_all(items: &Vec<Value>) -> (r: Vec<Value>)
        ensures
            r.len() == items.len(),
            forall|i: int| 0 <= i < items.len() ==> r[i]@ == items[i]@,
        decreases items,
    {
        let mut out: Vec<Value> = Vec::new();
        let mut i: usize = 0;
        while i < items.len()
            invariant
                i <= items.len(),
                out.len() == i,
                forall|j: int| 0 <= j < i ==> out[j]@ == items[j]@,
            decreases items.len() - i,
        {
            out.push(items[i].deep_clone());
            i += 1;
        }
        out
    }

    /// The child at `index`, counted from zero.
    pub fn child_at(&self, index: usize) -> (r: Value)
        requires
            index < self@.children().len(),
        ensures
            r@ == self@.children()[index as int],
        decreases self,
    {
        match self {
            Value::Tuple(items) => items[index].deep_clone(),
            Value::Array(items) => items[index].deep_clone(),
            Value::DictEntry(key, value) => if index == 0 {
                key.deep_clone()
            } else {
                value.deep_clone()
            },
            Value::Bytes(bytes) => Value::Byte(bytes[index]),
            Value::Boxed(inner) => inner.child_at(index),
            _ => vstd::pervasive::unreached(),
        }
    }

    /// The payload if this is a box, else the value itself.
    pub fn unwrap_boxed_once(self) -> (r: Value)
        ensures
            r@ == self@.unboxed_once(),
    {
        match self {
            Value::Boxed(inner) => *inner,
            other => other,
        }
    }
}

} // verus!
