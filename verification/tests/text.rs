use forecast::text::{blank, to_chars, whitespace};

#[test]
fn whitespace_agrees_with_std_on_every_char() {
    for code in 0..=0x10ffffu32 {
        if let Some(c) = char::from_u32(code) {
            assert_eq!(whitespace(c), c.is_whitespace(), "U+{code:04X}");
        }
    }
}

#[test]
fn to_chars_gives_the_characters_in_order() {
    assert_eq!(to_chars(""), Vec::<char>::new());
    assert_eq!(to_chars("abc"), vec!['a', 'b', 'c']);
    assert_eq!(to_chars("São Paulo"), "São Paulo".chars().collect::<Vec<char>>());
    assert_eq!(to_chars("東京T09:00"), vec!['東', '京', 'T', '0', '9', ':', '0', '0']);
}

#[test]
fn blank_agrees_with_trim() {
    let samples = [
        "",
        " ",
        "\t\r\n",
        "\u{b}\u{c}",
        "\u{2000}\u{2001}\u{2002}\u{2003}\u{2004}\u{2005}\u{2006}\u{2007}\u{2008}\u{2009}\u{200a}",
        "\u{200b}",
        "\u{180e}",
        " x",
        "x ",
        " \u{3000} . ",
        "London",
        "\0",
    ];
    for s in samples {
        assert_eq!(blank(s), s.trim().is_empty(), "{s:?}");
    }
}
