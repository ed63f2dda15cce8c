use devcade_games::{BasicType, TypeSignature};

fn shape(signature: &TypeSignature) -> String {
    match signature {
        TypeSignature::Basic(basic) => format!("{:?}", basic),
        TypeSignature::Variant => "Variant".to_string(),
        TypeSignature::Array(element) => format!("Array<{}>", shape(element)),
        TypeSignature::Maybe(element) => format!("Maybe<{}>", shape(element)),
        TypeSignature::Tuple(items) => {
            let inner: Vec<String> = items.iter().map(shape).collect();
            format!("({})", inner.join(","))
        }
        TypeSignature::DictEntry(key, value) => format!("{{{:?}:{}}}", key, shape(value)),
    }
}

fn parsed(text: &str) -> String {
    shape(&TypeSignature::parse(text).expect("a well-formed signature"))
}

#[test]
fn every_basic_letter_is_a_type() {
    let letters = [
        ("b", BasicType::Boolean),
        ("y", BasicType::Byte),
        ("n", BasicType::Int16),
        ("q", BasicType::UInt16),
        ("i", BasicType::Int32),
        ("u", BasicType::UInt32),
        ("x", BasicType::Int64),
        ("t", BasicType::UInt64),
        ("h", BasicType::Handle),
        ("d", BasicType::Double),
        ("s", BasicType::String),
        ("o", BasicType::ObjectPath),
        ("g", BasicType::Signature),
    ];
    for (letter, basic) in letters {
        match TypeSignature::parse(letter) {
            Some(TypeSignature::Basic(found)) => assert_eq!(found, basic, "letter {}", letter),
            other => panic!("letter {} gave {:?}", letter, other),
        }
        assert_eq!(BasicType::from_letter(letter.chars().next().unwrap()), Some(basic));
    }
    assert_eq!(BasicType::from_letter('v'), None);
    assert_eq!(BasicType::from_letter('a'), None);
    assert_eq!(BasicType::from_letter('('), None);
}

#[test]
fn containers_nest() {
    assert_eq!(parsed("v"), "Variant");
    assert_eq!(parsed("ay"), "Array<Byte>");
    assert_eq!(parsed("aay"), "Array<Array<Byte>>");
    assert_eq!(parsed("ms"), "Maybe<String>");
    assert_eq!(parsed("()"), "()");
    assert_eq!(parsed("(s)"), "(String)");
    assert_eq!(parsed("(say)"), "(String,Array<Byte>)");
    assert_eq!(parsed("{sv}"), "{String:Variant}");
    assert_eq!(parsed("a{sv}"), "Array<{String:Variant}>");
    assert_eq!(parsed("a{s(ta{yv})}"), "Array<{String:(UInt64,Array<{Byte:Variant}>)}>");
    assert_eq!(parsed("((()))"), "((()))");
    assert_eq!(
        parsed("(uayttay)"),
        "(UInt32,Array<Byte>,UInt64,UInt64,Array<Byte>)"
    );
}

#[test]
fn the_bundle_signature_has_its_eight_fields() {
    assert_eq!(
        parsed(devcade_games::FLATPAK_FILE_SIGNATURE),
        "(Array<{String:Variant}>,UInt64,Array<Byte>,Array<Byte>,\
         (Array<{String:Variant}>,Array<Byte>,Array<(String,Array<Byte>)>,String,String,UInt64,Array<Byte>,Array<Byte>),\
         Array<Byte>,Array<(UInt32,Array<Byte>,UInt64,UInt64,Array<Byte>)>,Array<(Byte,Array<Byte>,UInt64,UInt64)>)"
    );
    assert_eq!(
        shape(&devcade_games::flatpak_file_variant()),
        parsed(devcade_games::FLATPAK_FILE_SIGNATURE)
    );
}

#[test]
fn malformed_signatures_are_refused() {
    let bad = [
        "", "a", "m", "(", ")", "(s", "s)", "{", "}", "{s}", "{sv", "{vs}", "{(s)s}", "{ss}s",
        "{sss}", "ss", "ay ", " ay", "z", "A", "(a)", "a{sv}t", "(s))", "é", "r", "*", "?", "a?",
        "{as}", "{}",
    ];
    for text in bad {
        assert!(TypeSignature::parse(text).is_none(), "{:?} was accepted", text);
    }
}
