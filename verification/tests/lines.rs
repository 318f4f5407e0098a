use bundle_manifest::ini::{is_bare, is_white_space, read_lines, write_lines, Line};
use bundle_manifest::text::has_char;
use bundle_manifest::{BundleConfig, BundleType};

fn sample_chars() -> Vec<char> {
    let mut chars: Vec<char> = (0u32..0x3100).filter_map(char::from_u32).collect();
    for code in [0xD7FFu32, 0xE000, 0xFEFF, 0xFFFD, 0x1F600, 0x10FFFF] {
        chars.push(char::from_u32(code).unwrap());
    }
    chars
}

fn texts_around(c: char) -> Vec<String> {
    vec![
        c.to_string(),
        format!("{}a", c),
        format!("a{}", c),
        format!("a{}b", c),
    ]
}

fn written(lines: &Vec<Line>) -> Vec<u8> {
    let mut out = Vec::new();
    write_lines(&mut out, lines);
    out
}

fn comes_back(line: &Line) -> bool {
    let lines = vec![line.clone()];
    read_lines(&written(&lines)) == vec![Ok(line.clone())]
}

#[test]
fn white_space_is_what_the_standard_library_calls_white_space() {
    for code in 0u32..=0x10FFFF {
        if let Some(c) = char::from_u32(code) {
            assert_eq!(is_white_space(c), c.is_whitespace(), "U+{:04X}", code);
        }
    }
}

#[test]
fn plain_values_are_read_back_and_no_others() {
    for c in sample_chars() {
        for text in texts_around(c) {
            let line = Line::Value { key: "Key".to_string(), value: text };
            assert_eq!(comes_back(&line), line.is_plain(), "{:?}", line);
        }
    }
}

#[test]
fn plain_keys_are_read_back_and_no_others() {
    for c in sample_chars() {
        for text in texts_around(c) {
            let line = Line::Value { key: text, value: "value".to_string() };
            assert_eq!(comes_back(&line), line.is_plain(), "{:?}", line);
        }
    }
}

#[test]
fn plain_sections_are_read_back_and_no_others() {
    for c in sample_chars() {
        for text in texts_around(c) {
            let line = Line::Section { name: text };
            assert_eq!(comes_back(&line), line.is_plain(), "{:?}", line);
        }
    }
}

#[test]
fn plain_lines_with_empty_parts_are_read_back() {
    for line in [
        Line::Empty,
        Line::Section { name: String::new() },
        Line::Value { key: String::new(), value: String::new() },
        Line::Value { key: String::new(), value: "v".to_string() },
        Line::Value { key: "k".to_string(), value: String::new() },
        Line::Value { key: "k".to_string(), value: "a = b ; [c] # d".to_string() },
        Line::Value { key: "k k".to_string(), value: "v\rv".to_string() },
        Line::Value { key: "a]".to_string(), value: "]".to_string() },
        Line::Section { name: "[a = b".to_string() },
        Line::Section { name: " spaced ".to_string() },
    ] {
        assert!(line.is_plain(), "{:?}", line);
        assert!(comes_back(&line), "{:?}", line);
    }
}

#[test]
fn lines_that_are_not_plain() {
    for line in [
        Line::Comment { text: "c".to_string() },
        Line::Comment { text: String::new() },
        Line::Value { key: "k".to_string(), value: " v".to_string() },
        Line::Value { key: "k".to_string(), value: "v\t".to_string() },
        Line::Value { key: "k".to_string(), value: "a\nb".to_string() },
        Line::Value { key: "a=b".to_string(), value: "v".to_string() },
        Line::Value { key: "[k".to_string(), value: "v".to_string() },
        Line::Value { key: ";k".to_string(), value: "v".to_string() },
        Line::Value { key: "#k".to_string(), value: "v".to_string() },
        Line::Section { name: "a]b".to_string() },
        Line::Section { name: "a\nb".to_string() },
    ] {
        assert!(!line.is_plain(), "{:?}", line);
        assert!(!comes_back(&line), "{:?}", line);
    }
}

#[test]
fn plain_texts_of_many_lines_are_read_back() {
    let lines = vec![
        Line::Empty,
        Line::Value { key: "Before".to_string(), value: "any section".to_string() },
        Line::Section { name: "First".to_string() },
        Line::Value { key: "A".to_string(), value: "1".to_string() },
        Line::Empty,
        Line::Value { key: "B".to_string(), value: "x=y".to_string() },
        Line::Section { name: "Second one".to_string() },
        Line::Value { key: "Ünï".to_string(), value: "çødé 😀".to_string() },
    ];
    let bytes = written(&lines);
    let back: Vec<Line> = read_lines(&bytes).into_iter().map(|l| l.unwrap()).collect();
    assert_eq!(back, lines);
    assert_eq!(read_lines(&[]), Vec::new());
}

#[test]
fn written_lines_are_exact() {
    let lines = vec![
        Line::Section { name: "S".to_string() },
        Line::Value { key: "k".to_string(), value: "v".to_string() },
        Line::Comment { text: "c".to_string() },
        Line::Empty,
    ];
    let mut out = b"x".to_vec();
    write_lines(&mut out, &lines);
    assert_eq!(out, b"x[S]\r\nk=v\r\n;c\r\n\r\n");
}

#[test]
fn read_lines_gives_every_line() {
    let read = read_lines(b"; c\n\n[S]\nk = v\nbroken\n");
    assert_eq!(read.len(), 5);
    assert_eq!(read[0], Ok(Line::Comment { text: "; c".to_string() }));
    assert_eq!(read[1], Ok(Line::Empty));
    assert_eq!(read[2], Ok(Line::Section { name: "S".to_string() }));
    assert_eq!(read[3], Ok(Line::Value { key: "k".to_string(), value: "v".to_string() }));
    assert!(read[4].is_err());
}

#[test]
fn has_char_and_is_bare() {
    assert!(has_char("a;b", ';'));
    assert!(!has_char("ab", ';'));
    assert!(!has_char("", ';'));
    assert!(has_char("ä=", '='));
    assert!(is_bare(""));
    assert!(is_bare("a b"));
    assert!(!is_bare(" a"));
    assert!(!is_bare("a\u{3000}"));
    assert!(!is_bare("\n"));
}

#[test]
fn manifests_with_plain_values_come_back_from_their_bytes() {
    for name in ["", "x", "Test Name With Spaces", "a=b", "[odd] ; name #", "tab\tinside", "ünï 😀"] {
        let conf = BundleConfig::builder(name.to_string(), BundleType::Game)
            .store_id("s=1".to_string())
            .provides_launcher("l".to_string(), vec!["".to_string(), " t ".to_string(), "u".to_string()])
            .build();
        let mut out = Vec::new();
        conf.to_write(&mut out).unwrap();
        assert_eq!(BundleConfig::from_read(&out).unwrap(), conf, "{:?}", name);
    }
}

#[test]
fn manifests_with_other_values_do_not_come_back() {
    for name in [" x", "x ", "a\nb", "\t", "x\r", "\u{a0}x"] {
        let conf = BundleConfig::builder(name.to_string(), BundleType::Game)
            .homebrew_id("h".to_string())
            .build();
        let mut out = Vec::new();
        conf.to_write(&mut out).unwrap();
        match BundleConfig::from_read(&out) {
            Ok(back) => assert_ne!(back, conf, "{:?}", name),
            Err(_) => {}
        }
    }
}
