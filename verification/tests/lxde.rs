use wallpaper::error::Error;
use wallpaper::linux::lxde;
use wallpaper::Mode;

#[test]
fn lxde_config_path_names_the_session() {
    assert_eq!(lxde::config_path(Some("LXDE-pi")), "pcmanfm/LXDE-pi/desktop-items-0.conf");
}

#[test]
fn lxde_config_path_defaults_to_lxde() {
    assert_eq!(lxde::config_path(None), "pcmanfm/LXDE/desktop-items-0.conf");
}

#[test]
fn lxde_get_reads_the_wallpaper_key() {
    let config = "[*]\nwallpaper_mode=crop\nwallpaper=/home/u/pic.jpg\ndesktop_bg=#000000\n";
    assert_eq!(lxde::get(config), Ok("/home/u/pic.jpg".to_string()));
}

#[test]
fn lxde_get_does_not_strip_a_uri() {
    assert_eq!(lxde::get("[*]\nwallpaper=file:///a.png\n"), Ok("file:///a.png".to_string()));
}

#[test]
fn lxde_get_fails_without_the_section() {
    assert_eq!(lxde::get("[other]\nwallpaper=/a.png\n"), Err(Error::NoImage("LXDE")));
    assert_eq!(lxde::get("wallpaper=/a.png\n"), Err(Error::NoImage("LXDE")));
    assert_eq!(lxde::get(""), Err(Error::NoImage("LXDE")));
}

#[test]
fn lxde_get_fails_without_the_key() {
    assert_eq!(lxde::get("[*]\nwallpaper_mode=crop\n"), Err(Error::NoImage("LXDE")));
}

#[test]
fn lxde_get_rejects_text_that_is_not_ini() {
    match lxde::get("[*\nwallpaper=/a.png\n") {
        Err(Error::InvalidIni(fault)) => {
            assert!(fault.line >= 1);
            assert!(!fault.message.is_empty());
        }
        other => panic!("expected InvalidIni, got {:?}", other),
    }
}

#[test]
fn lxde_set_passes_the_path_as_it_is() {
    let c = lxde::set("/home/u/my pic.jpg");
    assert_eq!(c.program, "pcmanfm");
    assert_eq!(c.args, vec!["-w".to_string(), "/home/u/my pic.jpg".to_string()]);
}

#[test]
fn lxde_set_mode_names_every_mode() {
    let name = |mode: Mode| {
        let c = lxde::set_mode(mode);
        assert_eq!(c.program, "pcmanfm");
        assert_eq!(c.args.len(), 2);
        assert_eq!(c.args[0], "--wallpaper-mode");
        c.args[1].clone()
    };
    assert_eq!(name(Mode::Center), "center");
    assert_eq!(name(Mode::Crop), "crop");
    assert_eq!(name(Mode::Fit), "fit");
    assert_eq!(name(Mode::Span), "screen");
    assert_eq!(name(Mode::Stretch), "stretch");
    assert_eq!(name(Mode::Tile), "tile");
}

#[test]
fn lxde_get_skips_a_byte_order_mark() {
    assert_eq!(lxde::get("\u{feff}[*]\nwallpaper=/a.png\n"), Ok("/a.png".to_string()));
    assert_eq!(lxde::skip_mark("\u{feff}abc"), "abc");
    assert_eq!(lxde::skip_mark("abc"), "abc");
    assert_eq!(lxde::skip_mark("\u{feff}\u{feff}a"), "\u{feff}a");
    assert_eq!(lxde::skip_mark(""), "");
}
