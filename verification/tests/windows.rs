use wallpaper::error::Error;
use wallpaper::windows::{get, set_from_path, set_from_url, set_mode, trim_zeros};
use wallpaper::Mode;

#[test]
fn windows_get_drops_the_zeros_that_fill_the_buffer() {
    let mut buffer = [0u16; 260];
    for (i, unit) in "C:\\pic.jpg".encode_utf16().enumerate() {
        buffer[i] = unit;
    }
    assert_eq!(get(&buffer), Ok("C:\\pic.jpg".to_string()));
}

#[test]
fn windows_get_of_an_empty_buffer_is_empty() {
    assert_eq!(get(&[0u16; 260]), Ok(String::new()));
    assert_eq!(get(&[]), Ok(String::new()));
}

#[test]
fn windows_get_keeps_zeros_inside() {
    assert_eq!(get(&[0x61, 0, 0x62, 0, 0]), Ok("a\0b".to_string()));
}

#[test]
fn windows_get_decodes_surrogate_pairs() {
    assert_eq!(get(&[0xd83d, 0xde00, 0]), Ok("\u{1f600}".to_string()));
}

#[test]
fn windows_get_rejects_a_lone_surrogate() {
    assert_eq!(get(&[0x61, 0xd800, 0]), Err(Error::FromUtf16Error));
}

#[test]
fn windows_set_from_path_ends_in_a_zero() {
    assert_eq!(set_from_path("C:\\a"), vec![0x43, 0x3a, 0x5c, 0x61, 0]);
    assert_eq!(set_from_path(""), vec![0]);
}

#[test]
fn windows_set_from_path_encodes_utf16() {
    assert_eq!(set_from_path("ä\u{1f600}"), vec![0xe4, 0xd83d, 0xde00, 0]);
}

#[test]
fn windows_set_mode_of_every_mode() {
    let values = |mode: Mode| {
        let layout = set_mode(mode);
        (layout.tile, layout.style)
    };
    assert_eq!(values(Mode::Center), ("0", "0"));
    assert_eq!(values(Mode::Crop), ("0", "10"));
    assert_eq!(values(Mode::Fit), ("0", "6"));
    assert_eq!(values(Mode::Span), ("0", "22"));
    assert_eq!(values(Mode::Stretch), ("0", "2"));
    assert_eq!(values(Mode::Tile), ("1", "0"));
}

#[test]
fn windows_set_from_url_encodes_the_downloaded_file() {
    assert_eq!(set_from_url(Ok("C:\\a".to_string())), Ok(vec![0x43, 0x3a, 0x5c, 0x61, 0]));
}

#[test]
fn windows_set_from_url_fails_where_the_download_failed() {
    assert_eq!(
        set_from_url(Err(Error::Reqwest("timed out".to_string()))),
        Err(Error::Reqwest("timed out".to_string()))
    );
}

#[test]
fn trim_zeros_drops_only_the_zeros_at_the_end() {
    assert_eq!(trim_zeros("C:\\a\0\0\0"), "C:\\a");
    assert_eq!(trim_zeros("\0a\0b\0"), "\0a\0b");
    assert_eq!(trim_zeros("\0\0"), "");
    assert_eq!(trim_zeros(""), "");
    assert_eq!(trim_zeros("abc"), "abc");
}

#[test]
fn windows_set_from_path_encodes_the_edges_of_the_planes() {
    assert_eq!(set_from_path("\u{ffff}"), vec![0xffff, 0]);
    assert_eq!(set_from_path("\u{10000}"), vec![0xd800, 0xdc00, 0]);
    assert_eq!(set_from_path("\u{10ffff}"), vec![0xdbff, 0xdfff, 0]);
    assert_eq!(set_from_path("\u{d7ff}\u{e000}"), vec![0xd7ff, 0xe000, 0]);
}

#[test]
fn windows_get_reads_back_what_set_from_path_encodes() {
    for path in ["C:\\Users\\u\\pic.jpg", "C:\\ä\\\u{1f600}.png", ""] {
        let mut buffer = set_from_path(path);
        buffer.resize(260, 0);
        assert_eq!(get(&buffer), Ok(path.to_string()));
    }
}
