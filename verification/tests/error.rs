use wallpaper::Error;

#[test]
fn error_from_a_string_is_other() {
    assert_eq!(Error::from("oops".to_string()), Error::Other("oops".to_string()));
}

#[test]
fn error_from_a_str_is_other() {
    assert_eq!(Error::from("oops"), Error::Other("oops".to_string()));
}

#[test]
fn error_from_a_borrowed_string_is_other() {
    let text = "oops".to_string();
    assert_eq!(Error::from(&text), Error::Other("oops".to_string()));
}

#[test]
fn error_other_says_the_message() {
    assert_eq!(Error::other("no cache dir"), Error::Other("no cache dir".to_string()));
}
