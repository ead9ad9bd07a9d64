use vhost_device_ssr::text::{char_is_white_space, split, str_eq, trim};

#[test]
fn strings_are_compared() {
    assert!(str_eq("", ""));
    assert!(str_eq("CDSP", "CDSP"));
    assert!(!str_eq("CDSP", "CDSP1"));
    assert!(!str_eq("CDSP1", "CDSP2"));
    assert!(str_eq("\u{e9}", "\u{e9}"));
}

#[test]
fn pieces_are_split_and_trimmed() {
    let pieces = split(" CDSP , ,SLPI", ',');
    assert_eq!(pieces, vec![" CDSP ".to_string(), " ".to_string(), "SLPI".to_string()]);
    assert_eq!(trim(&pieces[0]), "CDSP");
    assert_eq!(trim(&pieces[1]), "");
    assert_eq!(split("", ','), vec![String::new()]);
}

#[test]
fn white_space_is_that_of_std() {
    for code in 0..=0x10ffffu32 {
        if let Some(c) = char::from_u32(code) {
            assert_eq!(char_is_white_space(c), c.is_whitespace(), "{:x}", code);
        }
    }
}

#[test]
fn splitting_and_trimming_are_those_of_std() {
    for text in [
        "",
        ",",
        ",,",
        "a",
        "a,b",
        " a ,\tb\n,",
        "\u{2003}a\u{a0}b\u{3000},c",
        "\u{200b}a,\u{1f600},",
    ] {
        let expected: Vec<String> = text.split(',').map(|s| s.to_string()).collect();
        assert_eq!(split(text, ','), expected);
        for piece in expected {
            assert_eq!(trim(&piece), piece.trim());
        }
    }
}
