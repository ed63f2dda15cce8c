//! The bundle: what makes a decoded root acceptable, how a key is searched
//! in its metadata, and how its checksum becomes a hash.

use vstd::prelude::*;
use std::marker::PhantomData;
use crate::decode::TryDecode;
use crate::error::{FlatpakDecodingError, FlatpakMetadataError};
use crate::hexstr::{encode_hex, hex_string, is_lower_hex, lemma_hex_string_shape};
use crate::value::{Value, ValueModel};

verus! {

/// Where the metadata dictionary stands in the root tuple.
pub const METADATA_INDEX: usize = 0;

/// Where the checksum stands in the root tuple.
pub const CHECKSUM_INDEX: usize = 3;

/// How many bytes a checksum has.
pub const CHECKSUM_LENGTH: usize = 32;

/// What a decoder driven by the bundle signature hands over: a root with a
/// field at each place that is read here, the checksum field being a byte
/// sequence wherever it is a container at all.
pub open spec fn bundle_layout(root: ValueModel) -> bool {
    &&& root.children().len() > CHECKSUM_INDEX
    &&& (root.children()[CHECKSUM_INDEX as int].is_container()
        ==> root.children()[CHECKSUM_INDEX as int] is Bytes)
}

/// The metadata field of a root.
pub open spec fn metadata_of(root: ValueModel) -> ValueModel {
    root.children()[METADATA_INDEX as int]
}

/// The checksum field of a root.
pub open spec fn checksum_of(root: ValueModel) -> ValueModel {
    root.children()[CHECKSUM_INDEX as int]
}

/// A metadata entry is a container of a key and a value, no more, no less.
pub open spec fn is_entry(entry: ValueModel) -> bool {
    entry.is_container() && entry.children().len() == 2
}

/// Whether every entry before `end` is a key with a value.
pub open spec fn entries_ok(metadata: ValueModel, end: int) -> bool {
    forall|i: int| 0 <= i < end ==> is_entry(#[trigger] metadata.children()[i])
}

/// Whether the checksum is a container of exactly thirty-two elements.
pub open spec fn checksum_ok(checksum: ValueModel) -> bool {
    checksum.is_container() && checksum.children().len() == CHECKSUM_LENGTH
}

/// The first reason to refuse `root`, if there is one: the metadata is looked
/// at before its entries, the entries before the checksum.
pub open spec fn refusal(root: ValueModel) -> Option<FlatpakDecodingError> {
    let metadata = metadata_of(root);
    if !metadata.is_container() {
        Some(FlatpakDecodingError::MetadataNotContainer)
    } else if !entries_ok(metadata, metadata.children().len() as int) {
        Some(FlatpakDecodingError::MetadataChildNotContainer)
    } else if !checksum_ok(checksum_of(root)) {
        Some(FlatpakDecodingError::BadChecksumLength)
    } else {
        None
    }
}

/// The bytes of the checksum field, where that field is a byte sequence.
pub open spec fn checksum_bytes(root: ValueModel) -> Seq<u8> {
    checksum_of(root)->Bytes_0
}

/// The key of a metadata entry, if its first child is text.
pub open spec fn entry_key(entry: ValueModel) -> Option<Seq<char>> {
    String::decoded(entry.children()[0])
}

/// What a metadata entry stores: its second child, taken out of its box if
/// it is in one. One box is opened, never two.
pub open spec fn entry_payload(entry: ValueModel) -> ValueModel {
    entry.children()[1].unboxed_once()
}

/// How a search of the metadata for a key ends.
pub enum Lookup<V> {
    /// The first entry with the key stores this.
    Found(V),
    /// The first entry with the key stores something of another kind.
    Unreadable,
    /// No entry has the key.
    Missing,
}

/// The search for `key` among `entries`, from the first on. An entry whose
/// key is no text is passed over. The first entry with the key decides: what
/// it stores is the result if it reads as `T`, and a failure if not, whatever
/// later entries hold under the same key.
pub open spec fn lookup<T: TryDecode>(entries: Seq<ValueModel>, key: Seq<char>) -> Lookup<T::V>
    decreases entries.len(),
{
    if entries.len() == 0 {
        Lookup::Missing
    } else if entry_key(entries[0]) == Some(key) {
        match T::decoded(entry_payload(entries[0])) {
            Some(v) => Lookup::Found(v),
            None => Lookup::Unreadable,
        }
    } else {
        lookup::<T>(entries.drop_first(), key)
    }
}

/// A bundle that passed every check of `load`.
pub struct FlatpakFile(Value);

impl View for FlatpakFile {
    type V = ValueModel;

    /// The root that the bundle was loaded from.
    closed spec fn view(&self) -> ValueModel {
        self.0@
    }
}

impl FlatpakFile {
    #[verifier::type_invariant]
    spec fn accepted(self) -> bool {
        bundle_layout(self.0@) && refusal(self.0@) is None
    }

    /// Whether `root` has the layout that `load` asks for.
    pub fn has_bundle_layout(root: &Value) -> (r: bool)
        ensures
            r == bundle_layout(root@),
    {
        if root.child_count() <= CHECKSUM_INDEX {
            return false;
        }
        let checksum = root.child_at(CHECKSUM_INDEX);
        if checksum.is_container() {
            match checksum {
                Value::Bytes(_) => true,
                _ => false,
            }
        } else {
            true
        }
    }

    /// Checks a decoded root and, if nothing is wrong with it, wraps it.
    /// The metadata must be a container, each of its entries a container of
    /// two, and the checksum a container of thirty-two; the first of these
    /// that fails names the error. Nothing else in the root is looked at.
    pub fn load(root: Value) -> (r: Result<FlatpakFile, FlatpakDecodingError>)
        requires
            bundle_layout(root@),
        ensures
            match r {
                Ok(file) => refusal(root@) is None && file@ == root@,
                Err(e) => refusal(root@) == Some(e),
            },
    {
        let metadata = root.child_at(METADATA_INDEX);
        if !metadata.is_container() {
            return Err(FlatpakDecodingError::MetadataNotContainer);
        }
        let count = metadata.child_count();
        let mut index: usize = 0;
        while index < count
            invariant
                index <= count,
                count == metadata@.children().len(),
                metadata@ == metadata_of(root@),
                metadata@.is_container(),
                entries_ok(metadata@, index as int),
            decreases count - index,
        {
            let child = metadata.child_at(index);
            if !child.is_container() || child.child_count() != 2 {
                assert(!is_entry(metadata@.children()[index as int]));
                return Err(FlatpakDecodingError::MetadataChildNotContainer);
            }
            index += 1;
        }
        let checksum = root.child_at(CHECKSUM_INDEX);
        if !checksum.is_container() || checksum.child_count() != CHECKSUM_LENGTH {
            return Err(FlatpakDecodingError::BadChecksumLength);
        }
        Ok(FlatpakFile(root))
    }

    /// Looks `key` up in the metadata and reads what is stored under it as
    /// `T`. The entries are searched in their stored order and the first
    /// with the key decides the outcome.
    pub fn get_metadata_key<T: TryDecode>(&self, key: &str) -> (r: Result<
        T,
        FlatpakMetadataError<T>,
    >)
        ensures
            match r {
                Ok(v) => lookup::<T>(metadata_of(self@).children(), key@) == Lookup::Found(v@),
                Err(FlatpakMetadataError::IncorrectFormat(k, _)) => k@ == key@ && lookup::<T>(
                    metadata_of(self@).children(),
                    key@,
                ) is Unreadable,
                Err(FlatpakMetadataError::MissingKey(k)) => k@ == key@ && lookup::<T>(
                    metadata_of(self@).children(),
                    key@,
                ) is Missing,
            },
    {
        proof {
            use_type_invariant(self);
        }
        let wanted: String = key.to_owned();
        let dict_array = self.0.child_at(METADATA_INDEX);
        let count = dict_array.child_count();
        let ghost entries = dict_array@.children();
        let mut index: usize = 0;
        assert(entries.skip(0) =~= entries);
        while index < count
            invariant
                index <= count,
                count == entries.len(),
                entries == dict_array@.children(),
                entries == metadata_of(self@).children(),
                entries_ok(dict_array@, count as int),
                wanted@ == key@,
                lookup::<T>(entries, key@) == lookup::<T>(entries.skip(index as int), key@),
            decreases count - index,
        {
            let dict_entry = dict_array.child_at(index);
            proof {
                assert(is_entry(dict_array@.children()[index as int]));
                let rest = entries.skip(index as int);
                assert(rest[0] == dict_entry@);
                assert(rest.drop_first() =~= entries.skip(index + 1));
            }
            let candidate: Option<String> = dict_entry.child_at(0).decode_as();
            if let Some(candidate_key) = candidate {
                if candidate_key == wanted {
                    let value = dict_entry.child_at(1).unwrap_boxed_once();
                    let decoded: Option<T> = value.decode_as();
                    return match decoded {
                        Some(v) => Ok(v),
                        None => Err(FlatpakMetadataError::IncorrectFormat(wanted, PhantomData)),
                    };
                }
            }
            index += 1;
        }
        Err(FlatpakMetadataError::MissingKey(wanted))
    }

    /// The checksum as text: its thirty-two bytes in lowercase hexadecimal,
    /// sixty-four characters with nothing between them.
    pub fn get_hash(&self) -> (text: String)
        ensures
            checksum_of(self@) is Bytes,
            checksum_bytes(self@).len() == CHECKSUM_LENGTH,
            text@ == hex_string(checksum_bytes(self@)),
            text@.len() == 2 * CHECKSUM_LENGTH,
            forall|i: int| 0 <= i < text@.len() ==> is_lower_hex(#[trigger] text@[i]),
    {
        proof {
            use_type_invariant(self);
            lemma_hex_string_shape(checksum_bytes(self@));
        }
        let checksum = self.0.child_at(CHECKSUM_INDEX);
        let decoded: Option<Vec<u8>> = checksum.decode_as();
        match decoded {
            Some(bytes) => encode_hex(bytes.as_slice()),
            None => vstd::pervasive::unreached(),
        }
    }
}

} // verus!
