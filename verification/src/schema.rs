//! The signature of a bundle and the proof that it is well formed.

use vstd::prelude::*;
use crate::signature::{
    lemma_text_is_injective, texts, BasicType, SignatureModel, TypeSignature,
};

verus! {

/// The signature of a bundle: the one place where its layout is written.
pub const FLATPAK_FILE_SIGNATURE: &'static str =
    "(a{sv}tayay(a{sv}aya(say)sstayay)aya(uayttay)a(yaytt))";

/// A sequence of bytes: `ay`.
pub open spec fn byte_sequence() -> SignatureModel {
    SignatureModel::Array(Box::new(SignatureModel::Basic(BasicType::Byte)))
}

/// A dictionary from text to boxed values: `a{sv}`.
pub open spec fn dictionary() -> SignatureModel {
    SignatureModel::Array(
        Box::new(
            SignatureModel::DictEntry(BasicType::String, Box::new(SignatureModel::Variant)),
        ),
    )
}

/// A name with its bytes: `(say)`.
pub open spec fn named_bytes() -> SignatureModel {
    SignatureModel::Tuple(seq![SignatureModel::Basic(BasicType::String), byte_sequence()])
}

/// The commit that a bundle carries: `(a{sv}aya(say)sstayay)`.
pub open spec fn commit() -> SignatureModel {
    SignatureModel::Tuple(
        seq![
            dictionary(),
            byte_sequence(),
            SignatureModel::Array(Box::new(named_bytes())),
            SignatureModel::Basic(BasicType::String),
            SignatureModel::Basic(BasicType::String),
            SignatureModel::Basic(BasicType::UInt64),
            byte_sequence(),
            byte_sequence(),
        ],
    )
}

/// The description of one part of a delta: `(uayttay)`.
pub open spec fn delta_part() -> SignatureModel {
    SignatureModel::Tuple(
        seq![
            SignatureModel::Basic(BasicType::UInt32),
            byte_sequence(),
            SignatureModel::Basic(BasicType::UInt64),
            SignatureModel::Basic(BasicType::UInt64),
            byte_sequence(),
        ],
    )
}

/// The description of one object that a delta falls back to: `(yaytt)`.
pub open spec fn fallback() -> SignatureModel {
    SignatureModel::Tuple(
        seq![
            SignatureModel::Basic(BasicType::Byte),
            byte_sequence(),
            SignatureModel::Basic(BasicType::UInt64),
            SignatureModel::Basic(BasicType::UInt64),
        ],
    )
}

/// The fields of a bundle, in their order: the metadata dictionary, a size,
/// a byte sequence, the checksum, the commit, a byte sequence, the parts of
/// the delta and its fallbacks.
pub open spec fn bundle_fields() -> Seq<SignatureModel> {
    seq![
        dictionary(),
        SignatureModel::Basic(BasicType::UInt64),
        byte_sequence(),
        byte_sequence(),
        commit(),
        byte_sequence(),
        SignatureModel::Array(Box::new(delta_part())),
        SignatureModel::Array(Box::new(fallback())),
    ]
}

/// The type that `FLATPAK_FILE_SIGNATURE` writes.
pub open spec fn bundle_signature() -> SignatureModel {
    SignatureModel::Tuple(bundle_fields())
}

/// The texts of a sequence with one more item at its end.
proof fn lemma_texts_push(items: Seq<SignatureModel>, last: SignatureModel)
    ensures
        texts(items.push(last)) == texts(items) + last.text(),
    decreases items.len(),
{
    if items.len() == 0 {
        assert(items.push(last).drop_first() =~= Seq::empty());
        assert(texts(Seq::<SignatureModel>::empty()) =~= Seq::<char>::empty());
        assert(texts(items.push(last)) =~= last.text());
        assert(texts(items) + last.text() =~= last.text());
    } else {
        assert(items.push(last).drop_first() =~= items.drop_first().push(last));
        lemma_texts_push(items.drop_first(), last);
        assert(items[0].text() + (texts(items.drop_first()) + last.text()) =~= items[0].text()
            + texts(items.drop_first()) + last.text());
    }
}

/// The texts of the types that a bundle is built from.
proof fn lemma_small_texts()
    ensures
        byte_sequence().text() == "ay"@,
        dictionary().text() == "a{sv}"@,
        named_bytes().text() == "(say)"@,
        delta_part().text() == "(uayttay)"@,
        fallback().text() == "(yaytt)"@,
{
    reveal_strlit("ay");
    reveal_strlit("a{sv}");
    reveal_strlit("(say)");
    reveal_strlit("(uayttay)");
    reveal_strlit("(yaytt)");
    reveal_with_fuel(SignatureModel::text, 4);
    assert(byte_sequence().text() =~= "ay"@);
    assert(dictionary().text() =~= "a{sv}"@);
    let string = SignatureModel::Basic(BasicType::String);
    let number = SignatureModel::Basic(BasicType::UInt64);
    let none = Seq::<SignatureModel>::empty();
    assert(texts(none) =~= Seq::<char>::empty());

    lemma_texts_push(none, string);
    lemma_texts_push(none.push(string), byte_sequence());
    assert(seq![string, byte_sequence()] =~= none.push(string).push(byte_sequence()));
    assert(named_bytes().text() =~= "(say)"@);

    let word = SignatureModel::Basic(BasicType::UInt32);
    lemma_texts_push(none, word);
    lemma_texts_push(none.push(word), byte_sequence());
    lemma_texts_push(none.push(word).push(byte_sequence()), number);
    lemma_texts_push(none.push(word).push(byte_sequence()).push(number), number);
    lemma_texts_push(
        none.push(word).push(byte_sequence()).push(number).push(number),
        byte_sequence(),
    );
    assert(seq![word, byte_sequence(), number, number, byte_sequence()] =~= none.push(word).push(
        byte_sequence(),
    ).push(number).push(number).push(byte_sequence()));
    assert(delta_part().text() =~= "(uayttay)"@);

    let byte = SignatureModel::Basic(BasicType::Byte);
    lemma_texts_push(none, byte);
    lemma_texts_push(none.push(byte), byte_sequence());
    lemma_texts_push(none.push(byte).push(byte_sequence()), number);
    lemma_texts_push(none.push(byte).push(byte_sequence()).push(number), number);
    assert(seq![byte, byte_sequence(), number, number] =~= none.push(byte).push(
        byte_sequence(),
    ).push(number).push(number));
    assert(fallback().text() =~= "(yaytt)"@);
}

/// The text of the commit.
proof fn lemma_commit_text()
    ensures
        commit().text() == "(a{sv}aya(say)sstayay)"@,
{
    lemma_small_texts();
    reveal_strlit("ay");
    reveal_strlit("a{sv}");
    reveal_strlit("(say)");
    reveal_strlit("a{sv}aya(say)");
    reveal_strlit("a{sv}aya(say)sstayay");
    reveal_strlit("(a{sv}aya(say)sstayay)");
    let string = SignatureModel::Basic(BasicType::String);
    let number = SignatureModel::Basic(BasicType::UInt64);
    let names = SignatureModel::Array(Box::new(named_bytes()));
    let none = Seq::<SignatureModel>::empty();
    assert(texts(none) =~= Seq::<char>::empty());
    let i1 = none.push(dictionary());
    let i2 = i1.push(byte_sequence());
    let i3 = i2.push(names);
    let i4 = i3.push(string);
    let i5 = i4.push(string);
    let i6 = i5.push(number);
    let i7 = i6.push(byte_sequence());
    let i8 = i7.push(byte_sequence());
    lemma_texts_push(none, dictionary());
    lemma_texts_push(i1, byte_sequence());
    lemma_texts_push(i2, names);
    lemma_texts_push(i3, string);
    lemma_texts_push(i4, string);
    lemma_texts_push(i5, number);
    lemma_texts_push(i6, byte_sequence());
    lemma_texts_push(i7, byte_sequence());
    assert(texts(i3) =~= "a{sv}aya(say)"@);
    assert(texts(i8) =~= "a{sv}aya(say)sstayay"@);
    assert(seq![
        dictionary(),
        byte_sequence(),
        names,
        string,
        string,
        number,
        byte_sequence(),
        byte_sequence(),
    ] =~= i8);
    assert(commit().text() =~= "(a{sv}aya(say)sstayay)"@);
}

/// The texts of the first five fields of a bundle.
proof fn lemma_front_fields_text()
    ensures
        texts(bundle_fields().take(5)) == "a{sv}tayay(a{sv}aya(say)sstayay)"@,
{
    lemma_small_texts();
    lemma_commit_text();
    reveal_strlit("ay");
    reveal_strlit("a{sv}");
    reveal_strlit("(a{sv}aya(say)sstayay)");
    reveal_strlit("a{sv}tayay");
    reveal_strlit("a{sv}tayay(a{sv}aya(say)sstayay)");
    let number = SignatureModel::Basic(BasicType::UInt64);
    let none = Seq::<SignatureModel>::empty();
    let i1 = none.push(dictionary());
    let i2 = i1.push(number);
    let i3 = i2.push(byte_sequence());
    let i4 = i3.push(byte_sequence());
    let i5 = i4.push(commit());
    assert(texts(i4) == "a{sv}tayay"@) by {
        assert(texts(none) =~= Seq::<char>::empty());
        lemma_texts_push(none, dictionary());
        lemma_texts_push(i1, number);
        lemma_texts_push(i2, byte_sequence());
        lemma_texts_push(i3, byte_sequence());
        assert(texts(i4) =~= "a{sv}tayay"@);
    }
    assert(texts(i5) == "a{sv}tayay(a{sv}aya(say)sstayay)"@) by {
        lemma_texts_push(i4, commit());
        assert(texts(i5) =~= "a{sv}tayay(a{sv}aya(say)sstayay)"@);
    }
    assert(bundle_fields().take(5) =~= i5);
}

/// The texts of all the fields of a bundle.
proof fn lemma_fields_text()
    ensures
        texts(bundle_fields()) == "a{sv}tayay(a{sv}aya(say)sstayay)aya(uayttay)a(yaytt)"@,
{
    lemma_front_fields_text();
    lemma_small_texts();
    reveal_strlit("ay");
    reveal_strlit("(uayttay)");
    reveal_strlit("(yaytt)");
    reveal_strlit("a{sv}tayay(a{sv}aya(say)sstayay)");
    reveal_strlit("a{sv}tayay(a{sv}aya(say)sstayay)ay");
    reveal_strlit("a{sv}tayay(a{sv}aya(say)sstayay)aya(uayttay)");
    reveal_strlit("a{sv}tayay(a{sv}aya(say)sstayay)aya(uayttay)a(yaytt)");
    let parts = SignatureModel::Array(Box::new(delta_part()));
    let fallbacks = SignatureModel::Array(Box::new(fallback()));
    let i5 = bundle_fields().take(5);
    let i6 = i5.push(byte_sequence());
    let i7 = i6.push(parts);
    let i8 = i7.push(fallbacks);
    assert(texts(i6) == "a{sv}tayay(a{sv}aya(say)sstayay)ay"@) by {
        lemma_texts_push(i5, byte_sequence());
        assert(texts(i6) =~= "a{sv}tayay(a{sv}aya(say)sstayay)ay"@);
    }
    assert(texts(i7) == "a{sv}tayay(a{sv}aya(say)sstayay)aya(uayttay)"@) by {
        lemma_texts_push(i6, parts);
        assert(texts(i7) =~= "a{sv}tayay(a{sv}aya(say)sstayay)aya(uayttay)"@);
    }
    assert(texts(i8) == "a{sv}tayay(a{sv}aya(say)sstayay)aya(uayttay)a(yaytt)"@) by {
        lemma_texts_push(i7, fallbacks);
        assert(texts(i8) =~= "a{sv}tayay(a{sv}aya(say)sstayay)aya(uayttay)a(yaytt)"@);
    }
    assert(bundle_fields() =~= i8);
}

/// `FLATPAK_FILE_SIGNATURE` is well formed: it is the text of a type, and
/// of this one.
pub proof fn lemma_bundle_signature_is_well_formed()
    ensures
        bundle_signature().text() == FLATPAK_FILE_SIGNATURE@,
{
    lemma_fields_text();
    reveal_strlit("a{sv}tayay(a{sv}aya(say)sstayay)aya(uayttay)a(yaytt)");
    reveal_strlit("(a{sv}tayay(a{sv}aya(say)sstayay)aya(uayttay)a(yaytt))");
    assert(bundle_signature().text() =~= FLATPAK_FILE_SIGNATURE@);
}

/// The bundle signature, read from its text.
pub fn flatpak_file_variant() -> (signature: TypeSignature)
    ensures
        signature@ == bundle_signature(),
{
    proof {
        lemma_bundle_signature_is_well_formed();
    }
    match TypeSignature::parse(FLATPAK_FILE_SIGNATURE) {
        Some(signature) => {
            proof {
                lemma_text_is_injective(signature@, bundle_signature());
            }
            signature
        },
        None => vstd::pervasive::unreached(),
    }
}

} // verus!
