use devcade_games::{
    flatpak_file_variant, BasicType, FlatpakDecodingError, FlatpakFile, FlatpakMetadataError,
    TypeSignature, Value, FLATPAK_FILE_SIGNATURE,
};

fn text(s: &str) -> Value {
    Value::String(s.to_string())
}

fn boxed(v: Value) -> Value {
    Value::Boxed(Box::new(v))
}

fn entry(key: &str, value: Value) -> Value {
    Value::DictEntry(Box::new(text(key)), Box::new(value))
}

fn root(metadata: Value, checksum: Value) -> Value {
    Value::Tuple(vec![
        metadata,
        Value::UInt64(4096),
        Value::Bytes(vec![]),
        checksum,
        Value::Tuple(vec![]),
        Value::Bytes(vec![]),
        Value::Array(vec![]),
        Value::Array(vec![]),
    ])
}

fn load(metadata: Value, checksum: Value) -> Result<FlatpakFile, FlatpakDecodingError> {
    let root = root(metadata, checksum);
    assert!(FlatpakFile::has_bundle_layout(&root));
    FlatpakFile::load(root)
}

const GAME_REF: &str = "app/edu.rit.csh.devcade.game.id-ABC123/x86_64/master";

#[test]
fn check_flatpak_variant_type() {
    let _ = flatpak_file_variant();
}

#[test]
fn bundle_signature_is_a_tuple_of_eight_fields() {
    match flatpak_file_variant() {
        TypeSignature::Tuple(fields) => {
            assert_eq!(fields.len(), 8);
            assert!(matches!(&fields[1], TypeSignature::Basic(BasicType::UInt64)));
            match &fields[3] {
                TypeSignature::Array(element) => {
                    assert!(matches!(**element, TypeSignature::Basic(BasicType::Byte)))
                }
                other => panic!("checksum field is {:?}", other),
            }
            match &fields[0] {
                TypeSignature::Array(element) => match &**element {
                    TypeSignature::DictEntry(key, value) => {
                        assert_eq!(*key, BasicType::String);
                        assert!(matches!(**value, TypeSignature::Variant));
                    }
                    other => panic!("metadata element is {:?}", other),
                },
                other => panic!("metadata field is {:?}", other),
            }
        }
        other => panic!("signature is {:?}", other),
    }
}

#[test]
fn signature_text_parses_again() {
    assert!(TypeSignature::parse(FLATPAK_FILE_SIGNATURE).is_some());
}

#[test]
fn load_accepts_the_sample_bundle() {
    let file = load(
        Value::Array(vec![entry("ref", boxed(text(GAME_REF)))]),
        Value::Bytes(vec![0; 32]),
    )
    .expect("a sound bundle loads");
    let found: String = file.get_metadata_key("ref").expect("ref is there");
    assert_eq!(found, GAME_REF);
    assert_eq!(file.get_hash(), "0".repeat(64));
}

#[test]
fn hash_is_lowercase_hex_of_the_checksum() {
    let checksum: Vec<u8> = (0u8..32).map(|i| i.wrapping_mul(37).wrapping_add(0xab)).collect();
    let file = load(Value::Array(vec![]), Value::Bytes(checksum.clone())).unwrap();
    let hash = file.get_hash();
    assert_eq!(hash.len(), 64);
    assert!(hash.chars().all(|c| c.is_ascii_digit() || ('a'..='f').contains(&c)));
    let expected: String = checksum.iter().map(|b| format!("{:02x}", b)).collect();
    assert_eq!(hash, expected);
    assert_eq!(&hash[..8], "abd0f51a");
}

#[test]
fn load_refuses_scalar_metadata() {
    let r = load(Value::UInt64(7), Value::Bytes(vec![0; 32]));
    assert!(matches!(r, Err(FlatpakDecodingError::MetadataNotContainer)));
    let r = load(text("metadata"), Value::Bytes(vec![0; 31]));
    assert!(matches!(r, Err(FlatpakDecodingError::MetadataNotContainer)));
}

#[test]
fn load_refuses_an_entry_with_one_child() {
    let r = load(
        Value::Array(vec![
            entry("ref", boxed(text(GAME_REF))),
            Value::Tuple(vec![text("alone")]),
            Value::UInt64(1),
        ]),
        Value::Bytes(vec![0; 32]),
    );
    assert!(matches!(r, Err(FlatpakDecodingError::MetadataChildNotContainer)));
}

#[test]
fn load_refuses_an_entry_with_three_children() {
    let r = load(
        Value::Array(vec![Value::Tuple(vec![text("a"), text("b"), text("c")])]),
        Value::Bytes(vec![0; 32]),
    );
    assert!(matches!(r, Err(FlatpakDecodingError::MetadataChildNotContainer)));
}

#[test]
fn load_refuses_a_scalar_entry() {
    let r = load(Value::Array(vec![text("ref")]), Value::Bytes(vec![0; 32]));
    assert!(matches!(r, Err(FlatpakDecodingError::MetadataChildNotContainer)));
}

#[test]
fn load_looks_at_entries_before_the_checksum() {
    let r = load(Value::Array(vec![Value::UInt64(1)]), Value::Bytes(vec![0; 5]));
    assert!(matches!(r, Err(FlatpakDecodingError::MetadataChildNotContainer)));
}

#[test]
fn load_checks_the_checksum_length() {
    for n in [0usize, 1, 31, 33, 64] {
        let r = load(Value::Array(vec![]), Value::Bytes(vec![0; n]));
        assert!(matches!(r, Err(FlatpakDecodingError::BadChecksumLength)), "length {}", n);
    }
    assert!(load(Value::Array(vec![]), Value::Bytes(vec![0; 32])).is_ok());
}

#[test]
fn load_refuses_a_scalar_checksum() {
    let r = load(Value::Array(vec![]), Value::UInt64(32));
    assert!(matches!(r, Err(FlatpakDecodingError::BadChecksumLength)));
}

#[test]
fn lookup_reports_a_missing_key() {
    let file = load(
        Value::Array(vec![entry("ref", boxed(text(GAME_REF)))]),
        Value::Bytes(vec![0; 32]),
    )
    .unwrap();
    let r: Result<String, _> = file.get_metadata_key("missing-key");
    match r {
        Err(FlatpakMetadataError::MissingKey(key)) => assert_eq!(key, "missing-key"),
        other => panic!("unexpected: {:?}", other),
    }
}

#[test]
fn lookup_in_empty_metadata_misses() {
    let file = load(Value::Array(vec![]), Value::Bytes(vec![0; 32])).unwrap();
    let r: Result<u64, _> = file.get_metadata_key("ref");
    assert!(matches!(r, Err(FlatpakMetadataError::MissingKey(key)) if key == "ref"));
}

#[test]
fn first_entry_with_the_key_shadows_later_ones() {
    let file = load(
        Value::Array(vec![
            entry("ref", boxed(Value::UInt64(9))),
            entry("ref", boxed(text("app/x/y/z"))),
        ]),
        Value::Bytes(vec![0; 32]),
    )
    .unwrap();
    let r: Result<String, _> = file.get_metadata_key("ref");
    match r {
        Err(FlatpakMetadataError::IncorrectFormat(key, _)) => assert_eq!(key, "ref"),
        other => panic!("unexpected: {:?}", other),
    }
    let n: u64 = file.get_metadata_key("ref").unwrap();
    assert_eq!(n, 9);
}

#[test]
fn lookup_tolerates_one_box_or_none() {
    let bare = load(Value::Array(vec![entry("ref", text("app/x/y/z"))]), Value::Bytes(vec![0; 32]))
        .unwrap();
    let in_box = load(
        Value::Array(vec![entry("ref", boxed(text("app/x/y/z")))]),
        Value::Bytes(vec![0; 32]),
    )
    .unwrap();
    let a: String = bare.get_metadata_key("ref").unwrap();
    let b: String = in_box.get_metadata_key("ref").unwrap();
    assert_eq!(a, "app/x/y/z");
    assert_eq!(a, b);
}

#[test]
fn lookup_opens_one_box_only() {
    let file = load(
        Value::Array(vec![entry("ref", boxed(boxed(text("app/x/y/z"))))]),
        Value::Bytes(vec![0; 32]),
    )
    .unwrap();
    let r: Result<String, _> = file.get_metadata_key("ref");
    assert!(matches!(r, Err(FlatpakMetadataError::IncorrectFormat(key, _)) if key == "ref"));
}

#[test]
fn lookup_passes_over_keys_that_are_no_text() {
    let file = load(
        Value::Array(vec![
            Value::DictEntry(Box::new(Value::UInt64(1)), Box::new(boxed(text("first")))),
            Value::DictEntry(Box::new(Value::Bytes(b"ref".to_vec())), Box::new(text("second"))),
            entry("ref", boxed(text("third"))),
        ]),
        Value::Bytes(vec![0; 32]),
    )
    .unwrap();
    let found: String = file.get_metadata_key("ref").unwrap();
    assert_eq!(found, "third");
}

#[test]
fn lookup_reads_numbers_and_bytes() {
    let file = load(
        Value::Array(vec![
            entry("size", boxed(Value::UInt64(1 << 40))),
            entry("blob", boxed(Value::Bytes(vec![1, 2, 3]))),
        ]),
        Value::Bytes(vec![0; 32]),
    )
    .unwrap();
    let size: u64 = file.get_metadata_key("size").unwrap();
    assert_eq!(size, 1 << 40);
    let blob: Vec<u8> = file.get_metadata_key("blob").unwrap();
    assert_eq!(blob, vec![1, 2, 3]);
    let r: Result<Vec<u8>, _> = file.get_metadata_key("size");
    assert!(matches!(r, Err(FlatpakMetadataError::IncorrectFormat(_, _))));
}

#[test]
fn lookup_compares_keys_exactly() {
    let file = load(
        Value::Array(vec![entry("Ref", boxed(text("upper"))), entry("ref ", boxed(text("space")))]),
        Value::Bytes(vec![0; 32]),
    )
    .unwrap();
    let r: Result<String, _> = file.get_metadata_key("ref");
    assert!(matches!(r, Err(FlatpakMetadataError::MissingKey(_))));
}
