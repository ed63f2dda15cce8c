//! Reading a value as a plain type that the caller picks.

use vstd::prelude::*;
use crate::value::{Value, ValueModel};

verus! {

/// A plain type that a value may be read as: text, a byte sequence, or an
/// unsigned 64-bit number. The caller picks the type; the value's own kind
/// decides whether the reading succeeds.
pub trait TryDecode: Sized + View {
    /// What a value of content `m` reads as, if it has this type's shape.
    spec fn decoded(m: ValueModel) -> Option<Self::V>;

    /// Reads `value` as `Self`, or reports that its kind is another.
    fn try_decode(value: &Value) -> (r: Option<Self>)
        ensures
            match r {
                Some(x) => Self::decoded(value@) == Some(x@),
                None => Self::decoded(value@) is None,
            },
    ;
}

impl TryDecode for String {
    open spec fn decoded(m: ValueModel) -> Option<Seq<char>> {
        match m {
            ValueModel::String(s) => Some(s),
            _ => None,
        }
    }

    fn try_decode(value: &Value) -> (r: Option<String>) {
        match value {
            Value::String(s) => Some(s.clone()),
            _ => None,
        }
    }
}

impl TryDecode for u64 {
    open spec fn decoded(m: ValueModel) -> Option<u64> {
        match m {
            ValueModel::UInt64(n) => Some(n),
            _ => None,
        }
    }

    fn try_decode(value: &Value) -> (r: Option<u64>) {
        match value {
            Value::UInt64(n) => Some(*n),
            _ => None,
        }
    }
}

impl TryDecode for Vec<u8> {
    open spec fn decoded(m: ValueModel) -> Option<Seq<u8>> {
        match m {
            ValueModel::Bytes(bytes) => Some(bytes),
            _ => None,
        }
    }

    fn try_decode(value: &Value) -> (r: Option<Vec<u8>>) {
        match value {
            Value::Bytes(bytes) => Some(bytes.clone()),
            _ => None,
        }
    }
}

impl Value {
    /// Reads this value as `T`; `None` where its kind is not `T`'s.
    pub fn decode_as<T: TryDecode>(&self) -> (r: Option<T>)
        ensures
            match r {
                Some(x) => T::decoded(self@) == Some(x@),
                None => T::decoded(self@) is None,
            },
    {
        T::try_decode(self)
    }
}

} // verus!
