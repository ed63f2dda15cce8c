//! What holds of loading and of lookup for every bundle.

use vstd::prelude::*;
use crate::decode::TryDecode;
use crate::error::FlatpakDecodingError;
use crate::flatpak::{
    bundle_layout, checksum_bytes, checksum_of, entries_ok, entry_key, entry_payload, is_entry,
    lookup, metadata_of, refusal, Lookup, CHECKSUM_LENGTH,
};
use crate::schema::{bundle_fields, bundle_signature, byte_sequence, dictionary};
use crate::signature::{BasicType, SignatureModel};
use crate::value::ValueModel;

verus! {

/// A root of the bundle's type has the layout that loading asks for and
/// metadata that is in order: it is accepted if its checksum has thirty-two
/// bytes, and refused for the length of its checksum if not.
pub proof fn lemma_typed_root_loads(root: ValueModel)
    requires
        root.has_type(bundle_signature()),
    ensures
        bundle_layout(root),
        checksum_of(root) is Bytes,
        checksum_bytes(root).len() == CHECKSUM_LENGTH ==> refusal(root) is None,
        checksum_bytes(root).len() != CHECKSUM_LENGTH ==> refusal(root) == Some(
            FlatpakDecodingError::BadChecksumLength,
        ),
{
    let fields = root->Tuple_0;
    assert(bundle_fields().len() == 8);
    assert(bundle_fields()[0] == dictionary());
    assert(bundle_fields()[3] == byte_sequence());
    assert(fields[0].has_type(bundle_fields()[0]));
    assert(fields[3].has_type(bundle_fields()[3]));
    let metadata = fields[0];
    assert(metadata is Array);
    let entry_type = SignatureModel::DictEntry(
        BasicType::String,
        Box::new(SignatureModel::Variant),
    );
    assert forall|i: int| 0 <= i < metadata.children().len() implies is_entry(
        #[trigger] metadata.children()[i],
    ) by {
        assert(metadata->Array_0[i].has_type(entry_type));
    }
    assert(fields[3] is Bytes);
    assert(checksum_of(root).children().len() == checksum_bytes(root).len());
}

/// A root whose metadata is a container of keys with values and whose
/// checksum is a container of thirty-two elements is refused for nothing.
pub proof fn lemma_sound_root_is_accepted(root: ValueModel)
    requires
        metadata_of(root).is_container(),
        forall|i: int|
            0 <= i < metadata_of(root).children().len() ==> is_entry(
                #[trigger] metadata_of(root).children()[i],
            ),
        checksum_of(root).is_container(),
        checksum_of(root).children().len() == CHECKSUM_LENGTH,
    ensures
        refusal(root) is None,
{
}

/// A root whose metadata is no container is refused for that, whatever else
/// it holds.
pub proof fn lemma_scalar_metadata_is_refused(root: ValueModel)
    requires
        !metadata_of(root).is_container(),
    ensures
        refusal(root) == Some(FlatpakDecodingError::MetadataNotContainer),
{
}

/// A metadata container with an entry that is no container of two is refused
/// for that entry, whatever the checksum is and whatever the entries after it
/// hold.
pub proof fn lemma_bad_entry_is_refused(root: ValueModel, i: int)
    requires
        metadata_of(root).is_container(),
        0 <= i < metadata_of(root).children().len(),
        !is_entry(metadata_of(root).children()[i]),
    ensures
        refusal(root) == Some(FlatpakDecodingError::MetadataChildNotContainer),
{
}

/// Where the metadata is in order, the length of the checksum decides alone:
/// thirty-two elements are accepted, any other number is refused as a bad
/// checksum length.
pub proof fn lemma_checksum_length_decides(root: ValueModel)
    requires
        metadata_of(root).is_container(),
        entries_ok(metadata_of(root), metadata_of(root).children().len() as int),
        checksum_of(root).is_container(),
    ensures
        checksum_of(root).children().len() == CHECKSUM_LENGTH ==> refusal(root) is None,
        checksum_of(root).children().len() != CHECKSUM_LENGTH ==> refusal(root) == Some(
            FlatpakDecodingError::BadChecksumLength,
        ),
{
}

/// A key that no entry has is missing, for every type it is asked as.
pub proof fn lemma_absent_key_is_missing<T: TryDecode>(entries: Seq<ValueModel>, key: Seq<char>)
    requires
        forall|i: int| 0 <= i < entries.len() ==> entry_key(#[trigger] entries[i]) != Some(key),
    ensures
        lookup::<T>(entries, key) is Missing,
    decreases entries.len(),
{
    if entries.len() > 0 {
        assert(entry_key(entries[0]) != Some(key));
        let rest = entries.drop_first();
        assert forall|i: int| 0 <= i < rest.len() implies entry_key(#[trigger] rest[i]) != Some(
            key,
        ) by {
            assert(rest[i] == entries[i + 1]);
        }
        lemma_absent_key_is_missing::<T>(rest, key);
    }
}

/// The first entry with the key decides the search: the result is what that
/// entry stores if it reads as `T`, and a failure if it does not. Entries
/// after it count for nothing, so an entry of the wrong kind hides a later
/// one of the right kind under the same key.
pub proof fn lemma_first_entry_decides<T: TryDecode>(
    entries: Seq<ValueModel>,
    key: Seq<char>,
    first: int,
)
    requires
        0 <= first < entries.len(),
        entry_key(entries[first]) == Some(key),
        forall|i: int| 0 <= i < first ==> entry_key(#[trigger] entries[i]) != Some(key),
    ensures
        lookup::<T>(entries, key) == match T::decoded(entry_payload(entries[first])) {
            Some(v) => Lookup::<T::V>::Found(v),
            None => Lookup::<T::V>::Unreadable,
        },
    decreases entries.len(),
{
    if first > 0 {
        assert(entry_key(entries[0]) != Some(key));
        let rest = entries.drop_first();
        assert(rest[first - 1] == entries[first]);
        assert forall|i: int| 0 <= i < first - 1 implies entry_key(#[trigger] rest[i]) != Some(
            key,
        ) by {
            assert(rest[i] == entries[i + 1]);
        }
        lemma_first_entry_decides::<T>(rest, key, first - 1);
    }
}

/// Whether a search finds something, fails to read it or misses the key
/// depends on the keys of the entries and on what they store out of the box,
/// and on nothing else.
pub proof fn lemma_lookup_reads_keys_and_payloads<T: TryDecode>(
    a: Seq<ValueModel>,
    b: Seq<ValueModel>,
    key: Seq<char>,
)
    requires
        a.len() == b.len(),
        forall|i: int| 0 <= i < a.len() ==> entry_key(#[trigger] a[i]) == entry_key(b[i]),
        forall|i: int| 0 <= i < a.len() ==> entry_payload(#[trigger] a[i]) == entry_payload(b[i]),
    ensures
        lookup::<T>(a, key) == lookup::<T>(b, key),
    decreases a.len(),
{
    if a.len() > 0 {
        assert(entry_key(a[0]) == entry_key(b[0]));
        assert(entry_payload(a[0]) == entry_payload(b[0]));
        let ra = a.drop_first();
        let rb = b.drop_first();
        assert forall|i: int| 0 <= i < ra.len() implies entry_key(#[trigger] ra[i]) == entry_key(
            rb[i],
        ) && entry_payload(ra[i]) == entry_payload(rb[i]) by {
            assert(ra[i] == a[i + 1]);
            assert(rb[i] == b[i + 1]);
            assert(entry_key(a[i + 1]) == entry_key(b[i + 1]));
            assert(entry_payload(a[i + 1]) == entry_payload(b[i + 1]));
        }
        lemma_lookup_reads_keys_and_payloads::<T>(ra, rb, key);
    }
}

/// A search ends the same way whether an entry stores its value bare or in
/// one box: putting the value `stored` of the entry at `place` into a box
/// changes the result for no key and no type.
pub proof fn lemma_one_box_is_tolerated<T: TryDecode>(
    entries: Seq<ValueModel>,
    place: int,
    name: ValueModel,
    stored: ValueModel,
    key: Seq<char>,
)
    requires
        0 <= place < entries.len(),
        entries[place] == ValueModel::DictEntry(Box::new(name), Box::new(stored)),
        !(stored is Boxed),
    ensures
        lookup::<T>(entries, key) == lookup::<T>(
            entries.update(
                place,
                ValueModel::DictEntry(
                    Box::new(name),
                    Box::new(ValueModel::Boxed(Box::new(stored))),
                ),
            ),
            key,
        ),
{
    let boxed = entries.update(
        place,
        ValueModel::DictEntry(Box::new(name), Box::new(ValueModel::Boxed(Box::new(stored)))),
    );
    assert forall|i: int| 0 <= i < entries.len() implies entry_key(#[trigger] entries[i])
        == entry_key(boxed[i]) && entry_payload(entries[i]) == entry_payload(boxed[i]) by {
        if i == place {
            assert(entries[i].children() =~= seq![name, stored]);
            assert(boxed[i].children() =~= seq![name, ValueModel::Boxed(Box::new(stored))]);
        }
    }
    lemma_lookup_reads_keys_and_payloads::<T>(entries, boxed, key);
}

} // verus!
