use wallpaper::error::Error;
use wallpaper::linux::kde;
use wallpaper::Mode;

const SET_SCRIPT: &str = "\nfor (const desktop of desktops()) {\n    desktop.currentConfigGroup = [\"Wallpaper\", \"org.kde.image\", \"General\"]\n    desktop.writeConfig(\"Image\", \"file:///home/u/pic.jpg\")\n}";

fn fill_mode_script(number: &str) -> String {
    format!(
        "\nfor (const desktop of desktops()) {{\n    desktop.currentConfigGroup = [\"Wallpaper\", \"org.kde.image\", \"General\"]\n    desktop.writeConfig(\"FillMode\", {})\n}}",
        number
    )
}

#[test]
fn kde_get_finds_the_image_line() {
    let config = "[Containments][1][Wallpaper][org.kde.image][General]\nImage=file:///home/u/pic.jpg\n";
    assert_eq!(kde::get(config.as_bytes()), Ok("/home/u/pic.jpg".to_string()));
}

#[test]
fn kde_get_takes_the_first_image_line() {
    let config = "Image=/first.png\nImage=/second.png\n";
    assert_eq!(kde::get(config.as_bytes()), Ok("/first.png".to_string()));
}

#[test]
fn kde_get_trims_before_it_strips() {
    assert_eq!(kde::get("Image=  file:///a b.png \r\n".as_bytes()), Ok("/a b.png".to_string()));
}

#[test]
fn kde_get_reads_a_last_line_without_line_feed() {
    assert_eq!(kde::get("x=1\nImage=/a.png".as_bytes()), Ok("/a.png".to_string()));
}

#[test]
fn kde_get_accepts_an_empty_value() {
    assert_eq!(kde::get("Image=\n".as_bytes()), Ok(String::new()));
}

#[test]
fn kde_get_wants_the_key_at_the_start_of_a_line() {
    assert_eq!(kde::get(" Image=/a.png\nPreviewImage=/b.png\n".as_bytes()), Err(Error::NoImage("KDE")));
    assert_eq!(kde::get("image=/a.png\n".as_bytes()), Err(Error::NoImage("KDE")));
}

#[test]
fn kde_get_fails_without_an_image_line() {
    assert_eq!(kde::get("".as_bytes()), Err(Error::NoImage("KDE")));
    assert_eq!(kde::get("[General]\nColor=0,0,0\n".as_bytes()), Err(Error::NoImage("KDE")));
}

#[test]
fn kde_eval_hands_the_script_to_the_shell() {
    let c = kde::eval("print(1)");
    assert_eq!(c.program, "qdbus");
    assert_eq!(
        c.args,
        vec![
            "org.kde.plasmashell".to_string(),
            "/PlasmaShell".to_string(),
            "org.kde.PlasmaShell.evaluateScript".to_string(),
            "print(1)".to_string(),
        ]
    );
}

#[test]
fn kde_set_writes_the_quoted_uri() {
    let c = kde::set("/home/u/pic.jpg");
    assert_eq!(c.program, "qdbus");
    assert_eq!(c.args.len(), 4);
    assert_eq!(c.args[3], SET_SCRIPT);
}

#[test]
fn kde_set_escapes_the_path() {
    let c = kde::set("/a\"b");
    assert!(c.args[3].contains("desktop.writeConfig(\"Image\", \"file:///a\\\"b\")"));
}

#[test]
fn kde_set_mode_writes_the_fill_mode_number() {
    assert_eq!(kde::set_mode(Mode::Center).args[3], fill_mode_script("6"));
    assert_eq!(kde::set_mode(Mode::Crop).args[3], fill_mode_script("2"));
    assert_eq!(kde::set_mode(Mode::Fit).args[3], fill_mode_script("1"));
    assert_eq!(kde::set_mode(Mode::Span).args[3], fill_mode_script("2"));
    assert_eq!(kde::set_mode(Mode::Stretch).args[3], fill_mode_script("0"));
    assert_eq!(kde::set_mode(Mode::Tile).args[3], fill_mode_script("3"));
}

#[test]
fn kde_get_does_not_look_behind_the_image_line() {
    let mut config = b"Image=file:///a.png\n".to_vec();
    config.extend_from_slice(&[0xff, 0xfe, b'\n']);
    assert_eq!(kde::get(&config), Ok("/a.png".to_string()));
}

#[test]
fn kde_get_fails_at_a_line_that_is_not_utf8() {
    let mut config = b"[General]\n".to_vec();
    config.extend_from_slice(&[b'x', 0xff, b'\n']);
    config.extend_from_slice(b"Image=/a.png\n");
    assert_eq!(kde::get(&config), Err(Error::InvalidUtf8(vec![b'x', 0xff])));
}

#[test]
fn kde_get_decodes_each_line() {
    assert_eq!(kde::get("Image=/ä/ö.png\n".as_bytes()), Ok("/ä/ö.png".to_string()));
}

#[test]
fn kde_image_in_reads_one_line() {
    assert_eq!(kde::image_in("Image= file:///a.png "), Some("/a.png".to_string()));
    assert_eq!(kde::image_in("Color=1"), None);
    assert_eq!(kde::image_in(""), None);
}
