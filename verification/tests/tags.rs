use opcua_tag_monitor::tags::{chars_of, is_whitespace, parse_tags};

fn owned(tags: &[&str]) -> Vec<String> {
    tags.iter().map(|t| t.to_string()).collect()
}

fn by_std(list: &str) -> Vec<String> {
    list.split(',').map(|t| t.trim().to_string()).collect()
}

#[test]
fn parses_spaced_list() {
    assert_eq!(parse_tags("A, B ,C"), owned(&["A", "B", "C"]));
}

#[test]
fn single_tag_is_one_tag() {
    assert_eq!(parse_tags("Temperature"), owned(&["Temperature"]));
}

#[test]
fn empty_list_is_one_empty_tag() {
    assert_eq!(parse_tags(""), owned(&[""]));
}

#[test]
fn empty_segments_are_kept() {
    assert_eq!(parse_tags("A,,B,"), owned(&["A", "", "B", ""]));
    assert_eq!(parse_tags(","), owned(&["", ""]));
    assert_eq!(parse_tags(" , \t "), owned(&["", ""]));
}

#[test]
fn inner_space_is_kept() {
    assert_eq!(parse_tags("  Tank 1 . Level ,\tPump\n"), owned(&["Tank 1 . Level", "Pump"]));
}

#[test]
fn unicode_space_is_trimmed() {
    assert_eq!(
        parse_tags("\u{3000}Füllstand\u{a0},\u{2003}圧力\u{2028}"),
        owned(&["Füllstand", "圧力"])
    );
    assert_eq!(parse_tags("\u{200b}A"), owned(&["\u{200b}A"]));
}

#[test]
fn count_is_separators_plus_one() {
    for list in ["", "a", "a,b", ",,,", "a, b ,c,", " x ,y"] {
        let commas = list.chars().filter(|c| *c == ',').count();
        assert_eq!(parse_tags(list).len(), commas + 1);
    }
}

#[test]
fn tags_are_trimmed_and_named() {
    for list in ["A, B ,C", " Tank.Level ,\tPump.Speed\r\n", "x"] {
        for tag in parse_tags(list) {
            assert!(!tag.is_empty());
            assert!(!tag.starts_with(char::is_whitespace));
            assert!(!tag.ends_with(char::is_whitespace));
        }
    }
}

#[test]
fn agrees_with_split_and_trim() {
    let lists = [
        "",
        " ",
        ",",
        "A, B ,C",
        "A,,B",
        " a b , c d ",
        "\t\n\u{b}\u{c}\r x \u{85},\u{1680}y\u{2000}\u{200a},\u{202f}\u{205f}z",
        "ns=2;s=Tag, other",
        "😀 , é",
    ];
    for list in lists {
        assert_eq!(parse_tags(list), by_std(list));
    }
}

#[test]
fn white_space_is_what_std_calls_white_space() {
    let mut code: u32 = 0;
    while code <= 0x10FFFF {
        if let Some(c) = char::from_u32(code) {
            assert_eq!(is_whitespace(c), c.is_whitespace());
        }
        code += 1;
    }
}

#[test]
fn chars_come_in_order() {
    assert_eq!(chars_of("a,é😀"), vec!['a', ',', 'é', '😀']);
    assert_eq!(chars_of(""), Vec::<char>::new());
}
