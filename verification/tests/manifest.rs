use bundle_manifest::bundle::BundleConfig;
use bundle_manifest::error::{BundleError, DecodeError, ValueError};
use bundle_manifest::field::Field;
use bundle_manifest::ini::Line;
use bundle_manifest::kind::BundleType;

fn read(input: &str) -> Result<BundleConfig, BundleError> {
    BundleConfig::from_read(input.as_bytes())
}

fn decode_error(input: &str) -> DecodeError {
    match read(input) {
        Err(BundleError::De(e)) => e,
        other => panic!("expected a decode error, got {:?}", other),
    }
}

#[test]
fn test_deserialize_full_store() {
    let input = r#"
[Bundle]
Name=Test Name With Spaces
Type=Game
Exec=TestStoreID.exe
StoreID=TestStoreID
Version=10213 124213 sfsd alpha
Background=true
PreferXBoxMode=true
Launcher=wombat
LauncherTags=Tag1;Tag2;Tag3;Tag4
LauncherExec=TestStoreID_Launcher.exe
"#;
    let conf: BundleConfig = read(input).expect("failed to deserialize test input");
    assert_eq!(conf.bundle.name, "Test Name With Spaces");
    assert!(matches!(conf.bundle.bundle_type, BundleType::Game));
    assert_eq!(conf.bundle.executable, Some("TestStoreID.exe".to_string()));
    assert_eq!(conf.bundle.store_id, Some("TestStoreID".to_string()));
    assert_eq!(conf.bundle.background, true);
    assert_eq!(conf.bundle.prefer_xbox_mode, true);
    assert_eq!(conf.bundle.launcher, Some("wombat".to_string()));
    assert_eq!(conf.bundle.launcher_tags, vec!["Tag1", "Tag2", "Tag3", "Tag4"]);
    assert_eq!(
        conf.bundle.launcher_exec,
        Some("TestStoreID_Launcher.exe".to_string())
    );
}

#[test]
fn test_deserialize_full_homebrew() {
    let input = r#"
[Bundle]
Name=Test Name With Spaces
Type=Application
Exec=TestHomebrewID.exe
HomebrewID=TestHomebrewID
Version=10213 124213 sfsd alpha
PreferXBoxMode=true
Launcher=wombat
"#;
    let conf: BundleConfig = read(input).expect("failed to deserialize test input");
    assert_eq!(conf.bundle.name, "Test Name With Spaces");
    assert!(matches!(conf.bundle.bundle_type, BundleType::Application));
    assert_eq!(conf.bundle.executable, Some("TestHomebrewID.exe".to_string()));
    assert_eq!(conf.bundle.homebrew_id, Some("TestHomebrewID".to_string()));
    assert_eq!(conf.bundle.background, false);
    assert_eq!(conf.bundle.prefer_xbox_mode, true);
    assert_eq!(conf.bundle.launcher, Some("wombat".to_string()));
    assert_eq!(conf.bundle.launcher_tags, Vec::<String>::new());
    assert_eq!(conf.bundle.launcher_exec, None);
}

#[test]
fn test_deserialize_with_tags() {
    let input = r#"
[Bundle]
Name=TestName
Type=Game
StoreID=TestStoreID
Exec=TestStoreID.exe
LauncherTags=Tag1;Tag2;Tag3;Tag4
"#;
    let conf: BundleConfig = read(input).expect("failed to deserialize test input");
    assert_eq!(conf.bundle.name, "TestName");
    assert!(matches!(conf.bundle.bundle_type, BundleType::Game));
    assert_eq!(conf.bundle.store_id, Some("TestStoreID".to_string()));
    assert_eq!(conf.bundle.executable, Some("TestStoreID.exe".to_string()));
    assert_eq!(conf.bundle.launcher_tags, vec!["Tag1", "Tag2", "Tag3", "Tag4"]);
}

#[test]
fn test_deserialize_no_tags() {
    let input = r#"
[Bundle]
Name=TestName
Type=Game
StoreID=TestStoreID
Exec=TestStoreID.exe
LauncherTags=
"#;
    let conf: BundleConfig = read(input).expect("failed to deserialize test input");
    assert_eq!(conf.bundle.name, "TestName");
    assert!(matches!(conf.bundle.bundle_type, BundleType::Game));
    assert_eq!(conf.bundle.store_id, Some("TestStoreID".to_string()));
    assert_eq!(conf.bundle.executable, Some("TestStoreID.exe".to_string()));
    assert_eq!(conf.bundle.launcher_tags, Vec::<String>::new());
}

#[test]
fn test_deserialize_missing_tags() {
    let input = r#"
[Bundle]
Name=TestName
Type=Game
StoreID=TestStoreID
Exec=TestStoreID.exe
"#;
    let conf: BundleConfig = read(input).expect("failed to deserialize test input");
    assert_eq!(conf.bundle.name, "TestName");
    assert!(matches!(conf.bundle.bundle_type, BundleType::Game));
    assert_eq!(conf.bundle.store_id, Some("TestStoreID".to_string()));
    assert_eq!(conf.bundle.executable, Some("TestStoreID.exe".to_string()));
    assert_eq!(conf.bundle.launcher_tags, Vec::<String>::new());
}

#[test]
fn test_deserialize_encrypted_image() {
    let input = r#"
[Bundle]
Name=Gamepad
Type=Application
StoreID=DummyStoreID
Version=5
EncryptedImage=bundle.img
"#;
    fn check(conf: &BundleConfig) {
        assert_eq!(conf.bundle.name, "Gamepad");
        assert!(matches!(conf.bundle.bundle_type, BundleType::Application));
        assert_eq!(conf.bundle.store_id, Some("DummyStoreID".to_string()));
        assert_eq!(conf.bundle.launcher_tags, Vec::<String>::new());
        assert_eq!(conf.bundle.encrypted_image, Some("bundle.img".to_string()));
    }
    let conf: BundleConfig = read(input).expect("failed to deserialize test input");
    check(&conf);

    let mut c = Vec::new();
    conf.to_write(&mut c).expect("Failed to serialize");
    let again: BundleConfig =
        BundleConfig::from_read(&c).expect("failed to re-deserialize test input");
    check(&again);
    assert_eq!(again, conf);
}

#[test]
fn encrypted_image_scenario_sets_five_fields_only() {
    let conf = read(
        "[Bundle]\nName=Gamepad\nType=Application\nStoreID=DummyStoreID\nVersion=5\nEncryptedImage=bundle.img\n",
    )
    .unwrap();
    let b = &conf.bundle;
    assert_eq!(b.name, "Gamepad");
    assert_eq!(b.bundle_type, BundleType::Application);
    assert_eq!(b.store_id.as_deref(), Some("DummyStoreID"));
    assert_eq!(b.version.as_deref(), Some("5"));
    assert_eq!(b.encrypted_image.as_deref(), Some("bundle.img"));
    assert_eq!(b.homebrew_id, None);
    assert_eq!(b.executable, None);
    assert!(!b.background);
    assert!(!b.prefer_xbox_mode);
    assert_eq!(b.launcher, None);
    assert!(b.launcher_tags.is_empty());
    assert_eq!(b.launcher_exec, None);
}

#[test]
fn written_text_is_exact() {
    let conf = BundleConfig::builder("Gamepad".to_string(), BundleType::Application)
        .store_id("DummyStoreID".to_string())
        .version("5".to_string())
        .background(true)
        .provides_launcher("l.exe".to_string(), vec!["A".to_string(), "B".to_string()])
        .build();
    let mut out = Vec::new();
    conf.to_write(&mut out).unwrap();
    assert_eq!(
        String::from_utf8(out).unwrap(),
        "[Bundle]\r\nName=Gamepad\r\nType=Application\r\nStoreID=DummyStoreID\r\nVersion=5\r\nBackground=true\r\nLauncherTags=A;B\r\nLauncherExec=l.exe\r\n"
    );
}

#[test]
fn to_write_appends_to_what_is_there() {
    let conf = BundleConfig::builder("N".to_string(), BundleType::Game)
        .homebrew_id("h".to_string())
        .build();
    let mut out = b"; head\r\n".to_vec();
    conf.to_write(&mut out).unwrap();
    assert_eq!(
        String::from_utf8(out).unwrap(),
        "; head\r\n[Bundle]\r\nName=N\r\nType=Game\r\nHomebrewID=h\r\n"
    );
}

#[test]
fn written_order_is_the_order_of_the_fields() {
    let mut builder = BundleConfig::builder("n".to_string(), BundleType::LauncherOnly)
        .store_id("s".to_string())
        .exec("e".to_string())
        .version("v".to_string())
        .background(true)
        .prefer_xbox_mode(true)
        .requires_launcher("l".to_string())
        .provides_launcher("le".to_string(), vec!["t".to_string()]);
    builder.encrypted_image("img".to_string());
    let lines = builder.build().encode();
    let keys: Vec<String> = lines
        .iter()
        .map(|l| match l {
            Line::Section { name } => format!("[{}]", name),
            Line::Value { key, .. } => key.clone(),
            _ => String::new(),
        })
        .collect();
    assert_eq!(
        keys,
        vec![
            "[Bundle]",
            "Name",
            "Type",
            "StoreID",
            "Exec",
            "EncryptedImage",
            "Version",
            "Background",
            "PreferXBoxMode",
            "Launcher",
            "LauncherTags",
            "LauncherExec"
        ]
    );
}

#[test]
fn encode_gives_section_then_values() {
    let conf = BundleConfig::builder("N".to_string(), BundleType::Game)
        .homebrew_id("h".to_string())
        .build();
    assert_eq!(
        conf.encode(),
        vec![
            Line::Section { name: "Bundle".to_string() },
            Line::Value { key: "Name".to_string(), value: "N".to_string() },
            Line::Value { key: "Type".to_string(), value: "Game".to_string() },
            Line::Value { key: "HomebrewID".to_string(), value: "h".to_string() },
        ]
    );
}

#[test]
fn defaults_are_not_written() {
    let conf = BundleConfig::builder("N".to_string(), BundleType::Game)
        .store_id("s".to_string())
        .background(false)
        .provides_launcher("l.exe".to_string(), Vec::new())
        .build();
    let mut out = Vec::new();
    conf.to_write(&mut out).unwrap();
    let text = String::from_utf8(out).unwrap();
    assert!(!text.contains("Background"));
    assert!(!text.contains("LauncherTags"));
    assert!(!text.contains("PreferXBoxMode"));
    assert!(!text.contains("HomebrewID"));
    assert!(text.contains("LauncherExec=l.exe"));
    assert_eq!(text, "[Bundle]\r\nName=N\r\nType=Game\r\nStoreID=s\r\nLauncherExec=l.exe\r\n");
}

#[test]
fn missing_name_is_refused() {
    assert_eq!(
        decode_error("[Bundle]\nType=Game\nStoreID=x\n"),
        DecodeError::MissingField { field: Field::Name }
    );
}

#[test]
fn missing_type_is_refused() {
    assert_eq!(
        decode_error("[Bundle]\nName=x\nStoreID=x\n"),
        DecodeError::MissingField { field: Field::Kind }
    );
}

#[test]
fn missing_name_comes_before_missing_type() {
    assert_eq!(
        decode_error("[Bundle]\nStoreID=x\n"),
        DecodeError::MissingField { field: Field::Name }
    );
}

#[test]
fn unknown_key_is_refused() {
    assert_eq!(
        decode_error("[Bundle]\nName=x\nType=Game\nColour=red\n"),
        DecodeError::UnknownField { key: "Colour".to_string() }
    );
}

#[test]
fn keys_are_case_sensitive() {
    assert_eq!(
        decode_error("[Bundle]\nname=x\nType=Game\n"),
        DecodeError::UnknownField { key: "name".to_string() }
    );
    assert_eq!(
        decode_error("[Bundle]\nName=x\nType=Game\nStoreId=s\n"),
        DecodeError::UnknownField { key: "StoreId".to_string() }
    );
}

#[test]
fn unknown_key_comes_before_missing_field() {
    assert_eq!(
        decode_error("[Bundle]\nType=Game\nColour=red\n"),
        DecodeError::UnknownField { key: "Colour".to_string() }
    );
}

#[test]
fn duplicate_key_is_refused() {
    assert_eq!(
        decode_error("[Bundle]\nName=x\nType=Game\nName=y\n"),
        DecodeError::DuplicateField { field: Field::Name }
    );
    assert_eq!(
        decode_error("[Bundle]\nName=x\nType=Game\nBackground=true\nBackground=nonsense\n"),
        DecodeError::DuplicateField { field: Field::Background }
    );
}

#[test]
fn invalid_boolean_is_refused_with_its_text() {
    assert_eq!(
        decode_error("[Bundle]\nName=x\nType=Game\nBackground=yes\n"),
        DecodeError::InvalidBoolean { text: "yes".to_string() }
    );
    assert_eq!(
        decode_error("[Bundle]\nName=x\nType=Game\nPreferXBoxMode=True\n"),
        DecodeError::InvalidBoolean { text: "True".to_string() }
    );
    assert_eq!(
        decode_error("[Bundle]\nName=x\nType=Game\nBackground=\n"),
        DecodeError::InvalidBoolean { text: String::new() }
    );
}

#[test]
fn explicit_false_is_accepted() {
    let conf = read("[Bundle]\nName=x\nType=Game\nBackground=false\nPreferXBoxMode=false\n").unwrap();
    assert!(!conf.bundle.background);
    assert!(!conf.bundle.prefer_xbox_mode);
}

#[test]
fn invalid_kind_is_refused_with_its_text() {
    assert_eq!(
        decode_error("[Bundle]\nName=x\nType=game\n"),
        DecodeError::InvalidKind { text: "game".to_string() }
    );
    assert_eq!(
        decode_error("[Bundle]\nName=x\nType=Launcher\n"),
        DecodeError::InvalidKind { text: "Launcher".to_string() }
    );
}

#[test]
fn all_kinds_are_read() {
    for (text, kind) in [
        ("Game", BundleType::Game),
        ("Application", BundleType::Application),
        ("LauncherOnly", BundleType::LauncherOnly),
    ] {
        let conf = read(&format!("[Bundle]\nName=x\nType={}\n", text)).unwrap();
        assert_eq!(conf.bundle.bundle_type, kind);
    }
}

#[test]
fn first_fault_wins() {
    assert_eq!(
        decode_error("[Bundle]\nName=x\nType=nope\nColour=red\n"),
        DecodeError::InvalidKind { text: "nope".to_string() }
    );
    assert_eq!(
        decode_error("[Bundle]\nName=x\nColour=red\nType=nope\n"),
        DecodeError::UnknownField { key: "Colour".to_string() }
    );
}

#[test]
fn missing_section_is_refused() {
    assert_eq!(decode_error(""), DecodeError::MissingSection);
    assert_eq!(decode_error("\n\n; nothing here\n"), DecodeError::MissingSection);
    assert_eq!(decode_error("[Other]\nName=x\nType=Game\n"), DecodeError::MissingSection);
    assert_eq!(decode_error("[bundle]\nName=x\nType=Game\n"), DecodeError::MissingSection);
}

#[test]
fn second_section_is_refused() {
    assert_eq!(
        decode_error("[Bundle]\nName=x\nType=Game\n[Bundle]\nName=y\nType=Game\n"),
        DecodeError::DuplicateSection
    );
}

#[test]
fn bundle_as_a_plain_key_is_refused() {
    assert_eq!(decode_error("Bundle=x\n[Bundle]\nName=x\nType=Game\n"), DecodeError::ExpectedSection);
}

#[test]
fn keys_before_the_first_section_are_passed_over() {
    let conf = read("Colour=red\nName=zzz\n[Bundle]\nName=x\nType=Game\n").unwrap();
    assert_eq!(conf.bundle.name, "x");
}

#[test]
fn other_sections_are_passed_over() {
    let conf = read(
        "[Before]\nColour=red\nBundle=1\n[Bundle]\nName=x\nType=Game\n[After]\nName=other\nWhatever=1\n",
    )
    .unwrap();
    assert_eq!(conf.bundle.name, "x");
    assert_eq!(conf.bundle.bundle_type, BundleType::Game);
}

#[test]
fn comments_and_empty_lines_are_passed_over() {
    let conf = read("; c\n\n[Bundle]\n# c\nName=x\n\n;Type=Application\nType=Game\n").unwrap();
    assert_eq!(conf.bundle.name, "x");
    assert_eq!(conf.bundle.bundle_type, BundleType::Game);
}

#[test]
fn keys_may_come_in_any_order() {
    let conf = read("[Bundle]\nLauncherTags=a;b\nType=Game\nBackground=true\nName=x\n").unwrap();
    assert_eq!(conf.bundle.name, "x");
    assert!(conf.bundle.background);
    assert_eq!(conf.bundle.launcher_tags, vec!["a", "b"]);
}

#[test]
fn store_and_homebrew_id_may_both_be_there() {
    let conf = read("[Bundle]\nName=x\nType=Game\nStoreID=s\nHomebrewID=h\n").unwrap();
    assert_eq!(conf.bundle.store_id.as_deref(), Some("s"));
    assert_eq!(conf.bundle.homebrew_id.as_deref(), Some("h"));
}

#[test]
fn empty_value_is_a_present_text() {
    let conf = read("[Bundle]\nName=\nType=Game\nStoreID=\n").unwrap();
    assert_eq!(conf.bundle.name, "");
    assert_eq!(conf.bundle.store_id, Some(String::new()));
}

#[test]
fn malformed_line_is_refused() {
    match decode_error("[Bundle]\nName=x\nthis line has no equals sign\nType=Game\n") {
        DecodeError::Malformed { message } => assert!(message.contains("missing '='"), "{}", message),
        other => panic!("{:?}", other),
    }
    match decode_error("[Bundle\nName=x\n") {
        DecodeError::Malformed { message } => assert!(message.contains("missing ']'"), "{}", message),
        other => panic!("{:?}", other),
    }
}

#[test]
fn malformed_line_after_an_earlier_fault_is_not_reached() {
    assert_eq!(
        decode_error("[Bundle]\nName=x\n[Other]\nno equals sign\n"),
        DecodeError::MissingField { field: Field::Kind }
    );
    match decode_error("[Bundle]\nName=x\nType=Game\n[Other]\nno equals sign\n") {
        DecodeError::Malformed { .. } => {}
        other => panic!("{:?}", other),
    }
}

#[test]
fn bytes_that_are_no_text_are_refused() {
    match decode_error_bytes(b"[Bundle]\nName=\xff\xfe\nType=Game\n") {
        DecodeError::Malformed { .. } => {}
        other => panic!("{:?}", other),
    }
}

fn decode_error_bytes(input: &[u8]) -> DecodeError {
    match BundleConfig::from_read(input) {
        Err(BundleError::De(e)) => e,
        other => panic!("expected a decode error, got {:?}", other),
    }
}

#[test]
fn values_are_trimmed_by_the_parser() {
    let conf = read("[Bundle]\n Name = spaced out \nType = Game\n").unwrap();
    assert_eq!(conf.bundle.name, "spaced out");
}

#[test]
fn crlf_text_is_read() {
    let conf = read("[Bundle]\r\nName=x\r\nType=Game\r\nLauncherTags=a;b;\r\n").unwrap();
    assert_eq!(conf.bundle.launcher_tags, vec!["a", "b"]);
}

#[test]
fn decode_takes_lines_directly() {
    let lines = vec![
        Ok(Line::Comment { text: "; hello".to_string() }),
        Ok(Line::Section { name: "Bundle".to_string() }),
        Ok(Line::Value { key: "Type".to_string(), value: "LauncherOnly".to_string() }),
        Ok(Line::Empty),
        Ok(Line::Value { key: "Name".to_string(), value: "x".to_string() }),
        Ok(Line::Value { key: "LauncherTags".to_string(), value: "a;;b;".to_string() }),
    ];
    let conf = BundleConfig::decode(&lines).unwrap();
    assert_eq!(conf.bundle.name, "x");
    assert_eq!(conf.bundle.bundle_type, BundleType::LauncherOnly);
    assert_eq!(conf.bundle.launcher_tags, vec!["a", "", "b"]);

    let broken = vec![
        Ok(Line::Section { name: "Bundle".to_string() }),
        Err("cannot read".to_string()),
    ];
    assert_eq!(
        BundleConfig::decode(&broken),
        Err(DecodeError::Malformed { message: "cannot read".to_string() })
    );
}

#[test]
fn list_element_error_names_place_and_cause() {
    let e = bundle_manifest::scalar::de_keyfile_list::<bool>("true;false;maybe;true").unwrap_err();
    assert_eq!(
        e,
        DecodeError::InvalidListElement {
            index: 2,
            cause: ValueError::InvalidBoolean { text: "maybe".to_string() }
        }
    );
}

#[test]
fn every_record_is_written() {
    let empty = BundleConfig::builder(String::new(), BundleType::Game)
        .store_id(String::new())
        .build();
    let mut out = Vec::new();
    assert!(empty.to_write(&mut out).is_ok());
    assert_eq!(String::from_utf8(out).unwrap(), "[Bundle]\r\nName=\r\nType=Game\r\nStoreID=\r\n");
}

#[test]
fn equal_records_give_equal_bytes() {
    let make = || {
        BundleConfig::builder("Same".to_string(), BundleType::Application)
            .homebrew_id("id".to_string())
            .version("1".to_string())
            .build()
    };
    let (a, b) = (make(), make());
    let (mut first, mut second) = (Vec::new(), Vec::new());
    assert!(a.to_write(&mut first).is_ok());
    assert!(b.to_write(&mut second).is_ok());
    assert_eq!(first, second);
    assert_eq!(a, make());
}
