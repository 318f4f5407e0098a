use bundle_manifest::error::{DecodeError, ValueError};
use bundle_manifest::field::{Field, FIELD_COUNT};
use bundle_manifest::kind::BundleType;
use bundle_manifest::scalar::{
    de_keyfile_bool, de_keyfile_list, is_false, ser_keyfile_bool, ser_keyfile_list, TextValue,
};
use bundle_manifest::text::{join_texts, split_text};

fn strings(items: &[&str]) -> Vec<String> {
    items.iter().map(|s| s.to_string()).collect()
}

#[test]
fn boolean_codec_reads_true_and_false() {
    assert_eq!(de_keyfile_bool("true"), Ok(true));
    assert_eq!(de_keyfile_bool("false"), Ok(false));
}

#[test]
fn boolean_codec_refuses_everything_else() {
    for text in ["", "True", "FALSE", "1", "0", "yes", " true", "true ", "truefalse"] {
        assert_eq!(
            de_keyfile_bool(text),
            Err(ValueError::InvalidBoolean { text: text.to_string() })
        );
    }
}

#[test]
fn boolean_codec_writes_true_and_false() {
    assert_eq!(ser_keyfile_bool(&true), "true");
    assert_eq!(ser_keyfile_bool(&false), "false");
    assert_eq!(de_keyfile_bool(&ser_keyfile_bool(&true)), Ok(true));
    assert_eq!(de_keyfile_bool(&ser_keyfile_bool(&false)), Ok(false));
}

#[test]
fn is_false_is_negation() {
    assert!(is_false(&false));
    assert!(!is_false(&true));
}

#[test]
fn list_codec_reads_four_tags() {
    assert_eq!(
        de_keyfile_list::<String>("Tag1;Tag2;Tag3;Tag4"),
        Ok(strings(&["Tag1", "Tag2", "Tag3", "Tag4"]))
    );
}

#[test]
fn list_codec_reads_empty_text_as_empty_list() {
    assert_eq!(de_keyfile_list::<String>(""), Ok(Vec::new()));
}

#[test]
fn list_codec_absorbs_one_trailing_separator() {
    assert_eq!(de_keyfile_list::<String>("A;B;"), Ok(strings(&["A", "B"])));
    assert_eq!(de_keyfile_list::<String>("A;B;"), de_keyfile_list::<String>("A;B"));
}

#[test]
fn list_codec_keeps_inner_empty_elements() {
    assert_eq!(de_keyfile_list::<String>("A;;B"), Ok(strings(&["A", "", "B"])));
    assert_eq!(de_keyfile_list::<String>("A;;"), Ok(strings(&["A", ""])));
    assert_eq!(de_keyfile_list::<String>(";"), Ok(strings(&[""])));
    assert_eq!(de_keyfile_list::<String>(";A"), Ok(strings(&["", "A"])));
    assert_eq!(de_keyfile_list::<String>("A"), Ok(strings(&["A"])));
}

#[test]
fn list_codec_parses_each_element() {
    assert_eq!(de_keyfile_list::<bool>("true;false;true;"), Ok(vec![true, false, true]));
    assert_eq!(
        de_keyfile_list::<BundleType>("Game;LauncherOnly"),
        Ok(vec![BundleType::Game, BundleType::LauncherOnly])
    );
}

#[test]
fn list_codec_fails_on_the_first_bad_element() {
    assert_eq!(
        de_keyfile_list::<bool>("true;;false"),
        Err(DecodeError::InvalidListElement {
            index: 1,
            cause: ValueError::InvalidBoolean { text: String::new() }
        })
    );
    assert_eq!(
        de_keyfile_list::<BundleType>("game;Game;nope"),
        Err(DecodeError::InvalidListElement {
            index: 0,
            cause: ValueError::InvalidKind { text: "game".to_string() }
        })
    );
}

#[test]
fn list_codec_writes_with_semicolons_between() {
    assert_eq!(ser_keyfile_list(&strings(&["Tag1", "Tag2", "Tag3", "Tag4"])), "Tag1;Tag2;Tag3;Tag4");
    assert_eq!(ser_keyfile_list(&strings(&["only"])), "only");
    assert_eq!(ser_keyfile_list(&Vec::<String>::new()), "");
    assert_eq!(ser_keyfile_list(&vec![true, false]), "true;false");
    assert_eq!(ser_keyfile_list(&strings(&["", ""])), ";");
}

#[test]
fn list_codec_round_trip_on_faithful_lists() {
    for list in [strings(&[]), strings(&["a"]), strings(&["a", "b c", "d"]), strings(&["", "x"])] {
        assert_eq!(de_keyfile_list::<String>(&ser_keyfile_list(&list)), Ok(list));
    }
}

#[test]
fn list_codec_round_trip_fails_where_it_must() {
    let with_separator = strings(&["a;b"]);
    assert_eq!(
        de_keyfile_list::<String>(&ser_keyfile_list(&with_separator)),
        Ok(strings(&["a", "b"]))
    );
    let empty_last = strings(&["a", ""]);
    assert_eq!(de_keyfile_list::<String>(&ser_keyfile_list(&empty_last)), Ok(strings(&["a"])));
}

#[test]
fn split_cuts_at_every_separator() {
    assert_eq!(split_text("a;b;c", ';'), strings(&["a", "b", "c"]));
    assert_eq!(split_text("", ';'), strings(&[""]));
    assert_eq!(split_text(";", ';'), strings(&["", ""]));
    assert_eq!(split_text("a;;b;", ';'), strings(&["a", "", "b", ""]));
    assert_eq!(split_text("no separator", ';'), strings(&["no separator"]));
    assert_eq!(split_text("ä;ö", ';'), strings(&["ä", "ö"]));
    assert_eq!(split_text("a,b;c", ','), strings(&["a", "b;c"]));
}

#[test]
fn join_puts_the_separator_between() {
    assert_eq!(join_texts(strings(&["a", "b", "c"]), ';'), "a;b;c");
    assert_eq!(join_texts(strings(&["a"]), ';'), "a");
    assert_eq!(join_texts(strings(&[]), ';'), "");
    assert_eq!(join_texts(strings(&["", "", ""]), '-'), "--");
}

#[test]
fn split_and_join_undo_each_other() {
    for text in ["", "a", "a;b", ";;", "x;;y;"] {
        assert_eq!(join_texts(split_text(text, ';'), ';'), text);
    }
}

#[test]
fn kind_names_are_the_variant_names() {
    assert_eq!(BundleType::Game.name(), "Game");
    assert_eq!(BundleType::Application.name(), "Application");
    assert_eq!(BundleType::LauncherOnly.name(), "LauncherOnly");
    assert_eq!(BundleType::LauncherOnly.to_text(), "LauncherOnly");
}

#[test]
fn kind_is_read_from_its_exact_name() {
    assert_eq!(BundleType::from_text("Game"), Ok(BundleType::Game));
    assert_eq!(BundleType::from_text("Application"), Ok(BundleType::Application));
    assert_eq!(BundleType::from_text("LauncherOnly"), Ok(BundleType::LauncherOnly));
    for text in ["game", "GAME", "", "Launcher", "launcheronly", "Game "] {
        assert_eq!(
            BundleType::from_text(text),
            Err(ValueError::InvalidKind { text: text.to_string() })
        );
    }
}

#[test]
fn text_of_a_value_reads_back() {
    for kind in [BundleType::Game, BundleType::Application, BundleType::LauncherOnly] {
        assert_eq!(BundleType::from_text(&kind.to_text()), Ok(kind));
    }
    for flag in [true, false] {
        assert_eq!(bool::from_text(&flag.to_text()), Ok(flag));
    }
    assert_eq!(String::from_text("any; text"), Ok("any; text".to_string()));
    assert_eq!("any; text".to_string().to_text(), "any; text");
}

#[test]
fn field_keys() {
    let expected = [
        (Field::Name, "Name"),
        (Field::Kind, "Type"),
        (Field::StoreId, "StoreID"),
        (Field::HomebrewId, "HomebrewID"),
        (Field::Exec, "Exec"),
        (Field::EncryptedImage, "EncryptedImage"),
        (Field::Version, "Version"),
        (Field::Background, "Background"),
        (Field::PreferXboxMode, "PreferXBoxMode"),
        (Field::Launcher, "Launcher"),
        (Field::LauncherTags, "LauncherTags"),
        (Field::LauncherExec, "LauncherExec"),
    ];
    assert_eq!(expected.len(), FIELD_COUNT);
    for (i, (field, key)) in expected.iter().enumerate() {
        assert_eq!(field.key(), *key);
        assert_eq!(Field::from_key(key), Some(*field));
        assert_eq!(Field::at(i), Some(*field));
    }
    assert_eq!(Field::at(FIELD_COUNT), None);
    assert_eq!(Field::at(usize::MAX), None);
    assert_eq!(Field::from_key("Bundle"), None);
    assert_eq!(Field::from_key("type"), None);
    assert_eq!(Field::from_key(""), None);
    assert_eq!(Field::from_key("LauncherTag"), None);
}

#[test]
fn value_error_becomes_the_field_error() {
    assert_eq!(
        DecodeError::of_field(ValueError::InvalidBoolean { text: "x".to_string() }),
        DecodeError::InvalidBoolean { text: "x".to_string() }
    );
    assert_eq!(
        DecodeError::of_field(ValueError::InvalidKind { text: "y".to_string() }),
        DecodeError::InvalidKind { text: "y".to_string() }
    );
}
