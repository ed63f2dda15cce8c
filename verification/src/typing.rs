//! When a value is of the type that a signature writes.

use vstd::prelude::*;
use crate::signature::{BasicType, SignatureModel};
use crate::value::ValueModel;

verus! {

impl ValueModel {
    /// Whether this value is a scalar of the type `basic`. Object paths and
    /// signatures are texts; basic types that nothing here reads are `Other`.
    pub open spec fn has_basic_type(self, basic: BasicType) -> bool {
        match basic {
            BasicType::Byte => self is Byte,
            BasicType::UInt64 => self is UInt64,
            BasicType::String => self is String,
            BasicType::ObjectPath => self is String,
            BasicType::Signature => self is String,
            _ => self is Other,
        }
    }

    /// Whether this value is of the type `signature`. An array of bytes is a
    /// byte sequence, a maybe is an array of at most one element, and a
    /// boxed value is of the boxed type whatever it holds.
    pub open spec fn has_type(self, signature: SignatureModel) -> bool
        decreases signature,
    {
        match signature {
            SignatureModel::Basic(basic) => self.has_basic_type(basic),
            SignatureModel::Variant => self is Boxed,
            SignatureModel::Array(element) => if *element == SignatureModel::Basic(
                BasicType::Byte,
            ) {
                self is Bytes
            } else {
                &&& self is Array
                &&& forall|i: int|
                    0 <= i < self->Array_0.len() ==> (#[trigger] self->Array_0[i]).has_type(
                        *element,
                    )
            },
            SignatureModel::Maybe(element) => {
                &&& self is Array
                &&& self->Array_0.len() <= 1
                &&& forall|i: int|
                    0 <= i < self->Array_0.len() ==> (#[trigger] self->Array_0[i]).has_type(
                        *element,
                    )
            },
            SignatureModel::Tuple(items) => {
                &&& self is Tuple
                &&& self->Tuple_0.len() == items.len()
                &&& forall|i: int|
                    0 <= i < items.len() ==> (#[trigger] self->Tuple_0[i]).has_type(items[i])
            },
            SignatureModel::DictEntry(key, value) => {
                &&& self is DictEntry
                &&& self->DictEntry_0.has_basic_type(key)
                &&& self->DictEntry_1.has_type(*value)
            },
        }
    }
}

} // verus!
