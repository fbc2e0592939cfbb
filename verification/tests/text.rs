use wallpaper::text::{chars_of, has_substring, same, trim};

#[test]
fn trim_removes_white_space_at_both_ends() {
    assert_eq!(trim("  a b \n"), "a b");
    assert_eq!(trim("\t\r\n"), "");
    assert_eq!(trim(""), "");
    assert_eq!(trim("abc"), "abc");
}

#[test]
fn trim_knows_white_space_beyond_ascii() {
    assert_eq!(trim("\u{a0}a\u{3000}"), "a");
}

#[test]
fn trim_keeps_the_zero_character() {
    assert_eq!(trim("\0a\0"), "\0a\0");
}

#[test]
fn chars_of_gives_the_characters_in_order() {
    assert_eq!(chars_of("aäb"), vec!['a', 'ä', 'b']);
    assert_eq!(chars_of(""), Vec::<char>::new());
}

#[test]
fn same_compares_letter_for_letter() {
    assert!(same("KDE", "KDE"));
    assert!(!same("KDE", "kde"));
    assert!(!same("KDE", "KDE "));
    assert!(same("", ""));
}

#[test]
fn has_substring_finds_a_run_anywhere() {
    assert!(has_substring("ubuntu:GNOME", "GNOME"));
    assert!(has_substring("GNOME-Classic:GNOME", "GNOME"));
    assert!(has_substring("GNOME", "GNOME"));
    assert!(!has_substring("GNOM", "GNOME"));
    assert!(!has_substring("gnome", "GNOME"));
    assert!(has_substring("abc", ""));
    assert!(has_substring("", ""));
}

#[test]
fn trim_takes_exactly_the_white_space_of_unicode() {
    let listed = |c: char| {
        let v = c as u32;
        (0x09..=0x0d).contains(&v)
            || v == 0x20
            || v == 0x85
            || v == 0xa0
            || v == 0x1680
            || (0x2000..=0x200a).contains(&v)
            || v == 0x2028
            || v == 0x2029
            || v == 0x202f
            || v == 0x205f
            || v == 0x3000
    };
    for v in 0..=0x10ffffu32 {
        if let Some(c) = char::from_u32(v) {
            let mut text = String::new();
            text.push(c);
            assert_eq!(trim(&text).is_empty(), listed(c), "U+{:04X}", v);
            assert_eq!(c.is_whitespace(), listed(c), "U+{:04X}", v);
        }
    }
}
