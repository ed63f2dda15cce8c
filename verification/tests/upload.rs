use devcade_games::{
    check_game_content_type, check_image_type, game_object_key, game_tags, image_object_key,
    judge_ref, split_text, stored_object_keys, to_chars, verify_game, FlatpakDecodingError,
    FlatpakFile, FlatpakMetadataError, GameError, GameRefusal, ImageComponent, RefVerdict, Value,
    APP_ID_PREFIX, FLATPAK_CONTENT_TYPE, REF_KEY, UNKNOWN_CONTENT_TYPE,
};

fn uploaded(metadata: Vec<(&str, Value)>, checksum: Vec<u8>) -> Value {
    let entries = metadata
        .into_iter()
        .map(|(key, value)| {
            Value::DictEntry(
                Box::new(Value::String(key.to_string())),
                Box::new(Value::Boxed(Box::new(value))),
            )
        })
        .collect();
    let root = Value::Tuple(vec![
        Value::Array(entries),
        Value::UInt64(0),
        Value::Bytes(vec![]),
        Value::Bytes(checksum),
        Value::Tuple(vec![]),
        Value::Bytes(vec![]),
        Value::Array(vec![]),
        Value::Array(vec![]),
    ]);
    assert!(FlatpakFile::has_bundle_layout(&root));
    root
}

fn refusal(flatpak_ref: &str, uuid: &str) -> String {
    match judge_ref(flatpak_ref, uuid) {
        RefVerdict::Refused(error) => error.message(),
        other => panic!("{:?} for {:?}", other, flatpak_ref),
    }
}

#[test]
fn split_cuts_at_every_separator() {
    assert_eq!(split_text("app/x/y/z", '/'), vec!["app", "x", "y", "z"]);
    assert_eq!(split_text("", '/'), vec![""]);
    assert_eq!(split_text("/", '/'), vec!["", ""]);
    assert_eq!(split_text("a//b/", '/'), vec!["a", "", "b", ""]);
    assert_eq!(split_text("no separator", '/'), vec!["no separator"]);
    assert_eq!(split_text("ä/ö€/𝄞", '/'), vec!["ä", "ö€", "𝄞"]);
    assert_eq!(split_text("a,b", '/'), vec!["a,b"]);
    for text in ["", "/", "a//b/", "app/x/y/z", "ä/ö€/𝄞"] {
        let expected: Vec<String> = text.split('/').map(String::from).collect();
        assert_eq!(split_text(text, '/'), expected);
    }
}

#[test]
fn to_chars_lists_the_characters() {
    assert_eq!(to_chars("aé𝄞"), vec!['a', 'é', '𝄞']);
    assert!(to_chars("").is_empty());
}

#[test]
fn tags_leave_out_empty_pieces() {
    assert_eq!(game_tags("arcade,puzzle"), vec!["arcade", "puzzle"]);
    assert_eq!(game_tags(""), Vec::<String>::new());
    assert_eq!(game_tags(",,"), Vec::<String>::new());
    assert_eq!(game_tags(",arcade,,two player,"), vec!["arcade", "two player"]);
    assert_eq!(game_tags(" "), vec![" "]);
}

#[test]
fn ref_of_the_game_is_accepted() {
    let verdict = judge_ref("app/edu.rit.csh.devcade.game.id-ABC123/x86_64/master", "ABC123");
    assert!(matches!(verdict, RefVerdict::Accepted));
    let verdict = judge_ref("app/edu.rit.csh.devcade.game.id-ABC123/x86_64/master/more", "ABC123");
    assert!(matches!(verdict, RefVerdict::Accepted));
}

#[test]
fn ref_is_refused_for_its_first_wrong_part() {
    assert_eq!(
        refusal("runtime/edu.rit.csh.devcade.game.id-ABC123/x86_64/master", "ABC123"),
        "GameError: Flatpak must be of type app"
    );
    assert_eq!(refusal("runtime", "ABC123"), "GameError: Flatpak must be of type app");
    assert_eq!(refusal("", "ABC123"), "GameError: Flatpak must be of type app");
    assert_eq!(
        refusal("app/org.example.Game/arm/stable", "ABC123"),
        "GameError: Flatpak app id org.example.Game must be edu.rit.csh.devcade.game.id-ABC123"
    );
    assert_eq!(
        refusal("app/edu.rit.csh.devcade.game.id-ABC123/x86_64/master", "abc123"),
        "GameError: Flatpak app id edu.rit.csh.devcade.game.id-ABC123 must be edu.rit.csh.devcade.game.id-abc123"
    );
    assert_eq!(
        refusal("app/edu.rit.csh.devcade.game.id-ABC123/aarch64/master", "ABC123"),
        "GameError: Flatpak architecture must be x86_64"
    );
    assert_eq!(
        refusal("app/edu.rit.csh.devcade.game.id-ABC123/aarch64", "ABC123"),
        "GameError: Flatpak architecture must be x86_64"
    );
    assert_eq!(
        refusal("app/edu.rit.csh.devcade.game.id-ABC123/x86_64/stable", "ABC123"),
        "GameError: Flatpak branch must be master"
    );
    assert_eq!(
        refusal("app/edu.rit.csh.devcade.game.id-ABC123/x86_64/", "ABC123"),
        "GameError: Flatpak branch must be master"
    );
}

#[test]
fn ref_that_ends_early_is_incomplete() {
    for flatpak_ref in [
        "app",
        "app/edu.rit.csh.devcade.game.id-ABC123",
        "app/edu.rit.csh.devcade.game.id-ABC123/x86_64",
    ] {
        assert!(matches!(judge_ref(flatpak_ref, "ABC123"), RefVerdict::Incomplete));
    }
}

#[test]
fn content_type_of_a_game() {
    assert!(check_game_content_type(None).is_ok());
    assert!(check_game_content_type(Some("application/vnd.flatpak")).is_ok());
    assert!(check_game_content_type(Some("application/octet-stream")).is_ok());
    assert!(check_game_content_type(Some(FLATPAK_CONTENT_TYPE)).is_ok());
    assert!(check_game_content_type(Some(UNKNOWN_CONTENT_TYPE)).is_ok());
    for other in ["application/zip", "", "Application/vnd.flatpak", "application/vnd.flatpak "] {
        let error = check_game_content_type(Some(other)).unwrap_err();
        assert_eq!(error.message(), "GameError: Game provided is not a Flatpak!");
    }
}

#[test]
fn content_type_of_a_picture() {
    assert!(check_image_type("image", ImageComponent::Banner).is_ok());
    assert!(check_image_type("image", ImageComponent::Icon).is_ok());
    assert_eq!(
        check_image_type("text", ImageComponent::Banner).unwrap_err().message(),
        "GameError: Banner provided is not an image"
    );
    assert_eq!(
        check_image_type("Image", ImageComponent::Icon).unwrap_err().message(),
        "GameError: Icon provided is not an image"
    );
}

#[test]
fn names_and_keys_of_stored_objects() {
    assert_eq!(ImageComponent::Banner.filename(), "banner");
    assert_eq!(ImageComponent::Icon.filename(), "icon");
    assert_eq!(game_object_key("ABC123"), "ABC123/ABC123.flatpak");
    assert_eq!(image_object_key("ABC123", ImageComponent::Banner), "ABC123/banner");
    assert_eq!(image_object_key("ABC123", ImageComponent::Icon), "ABC123/icon");
}

#[test]
fn game_error_keeps_its_reason() {
    let error = GameError::new("no such game");
    assert_eq!(error.reason(), "no such game");
    assert_eq!(error.message(), "GameError: no such game");
    assert_eq!(error.clone().message(), error.message());
    assert_eq!(GameError::new("").message(), "GameError: ");
}

#[test]
fn decoding_errors_have_their_sentences() {
    assert_eq!(FlatpakDecodingError::IncorrectFormat.message(), "Incorrect flatpak bundle format");
    assert_eq!(
        FlatpakDecodingError::BadChecksumLength.message(),
        "Flatpak bundle checksum is the incorrect length"
    );
    assert_eq!(
        FlatpakDecodingError::MetadataNotContainer.message(),
        "Flatpak bundle metadata field isn't a container"
    );
    assert_eq!(
        FlatpakDecodingError::MetadataChildNotContainer.message(),
        "Flatpak bundle metadata child isn't a container"
    );
}

#[test]
fn metadata_errors_name_their_key() {
    let missing: FlatpakMetadataError<String> = FlatpakMetadataError::MissingKey("ref".to_string());
    assert_eq!(missing.message(), "Flatpak metadata incorrect: missing key ref");
    assert_eq!(missing.clone().message(), missing.message());
    let unreadable: FlatpakMetadataError<u64> =
        FlatpakMetadataError::IncorrectFormat("size".to_string(), std::marker::PhantomData);
    let text = unreadable.message();
    let start = "Flatpak metadata incorrect: couldn't read key size of type ";
    assert!(text.starts_with(start), "{}", text);
    assert_eq!(&text[start.len()..], format!("{:?}", std::any::TypeId::of::<u64>()));
    let other: FlatpakMetadataError<String> =
        FlatpakMetadataError::IncorrectFormat("size".to_string(), std::marker::PhantomData);
    assert_ne!(other.message(), text);
}

#[test]
fn stored_objects_are_listed_in_the_order_of_deletion() {
    assert_eq!(
        stored_object_keys("ABC123"),
        vec!["ABC123/ABC123.flatpak", "ABC123/icon", "ABC123/banner"]
    );
}

#[test]
fn a_sound_upload_gives_its_hash() {
    assert_eq!(REF_KEY, "ref");
    assert_eq!(APP_ID_PREFIX, "edu.rit.csh.devcade.game.id-");
    let named = Value::String("app/edu.rit.csh.devcade.game.id-ABC123/x86_64/master".to_string());
    let root = uploaded(vec![("origin", Value::UInt64(1)), ("ref", named)], vec![0x5a; 32]);
    assert_eq!(verify_game(root, "ABC123").unwrap(), "5a".repeat(32));
}

#[test]
fn an_upload_is_turned_away_for_the_first_thing_wrong() {
    let named = || Value::String("app/edu.rit.csh.devcade.game.id-ABC123/x86_64/master".to_string());
    let r = verify_game(uploaded(vec![("ref", named())], vec![0; 31]), "ABC123");
    assert!(matches!(r, Err(GameRefusal::Bundle(FlatpakDecodingError::BadChecksumLength))));
    let r = verify_game(uploaded(vec![("ref", Value::UInt64(1))], vec![0; 31]), "ABC123");
    assert!(matches!(r, Err(GameRefusal::Bundle(FlatpakDecodingError::BadChecksumLength))));
    let r = verify_game(uploaded(vec![], vec![0; 32]), "ABC123");
    match r {
        Err(GameRefusal::Metadata(FlatpakMetadataError::MissingKey(key))) => assert_eq!(key, "ref"),
        other => panic!("unexpected: {:?}", other),
    }
    let r = verify_game(uploaded(vec![("ref", Value::UInt64(1)), ("ref", named())], vec![0; 32]), "ABC123");
    assert!(matches!(
        r,
        Err(GameRefusal::Metadata(FlatpakMetadataError::IncorrectFormat(key, _))) if key == "ref"
    ));
    let r = verify_game(uploaded(vec![("ref", named())], vec![0; 32]), "XYZ");
    match r {
        Err(GameRefusal::Ref(error)) => assert_eq!(
            error.message(),
            "GameError: Flatpak app id edu.rit.csh.devcade.game.id-ABC123 must be edu.rit.csh.devcade.game.id-XYZ"
        ),
        other => panic!("unexpected: {:?}", other),
    }
    let short = Value::String("app/edu.rit.csh.devcade.game.id-ABC123".to_string());
    let r = verify_game(uploaded(vec![("ref", short)], vec![0; 32]), "ABC123");
    assert!(matches!(r, Err(GameRefusal::IncompleteRef)));
}
