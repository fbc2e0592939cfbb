use wallpaper::linux::dconf::{self, Store};
use wallpaper::linux::{gnome, scheduled, xfce};
use wallpaper::Mode;

fn strings(values: &[&str]) -> Vec<String> {
    values.iter().map(|v| v.to_string()).collect()
}

#[test]
fn gnome_is_compliant_for_the_gnome_family() {
    assert!(gnome::is_compliant("GNOME"));
    assert!(gnome::is_compliant("ubuntu:GNOME"));
    assert!(gnome::is_compliant("GNOME-Flashback:GNOME"));
    assert!(gnome::is_compliant("Unity"));
    assert!(gnome::is_compliant("Pantheon"));
}

#[test]
fn gnome_is_compliant_is_case_sensitive_and_exact() {
    assert!(!gnome::is_compliant("gnome"));
    assert!(!gnome::is_compliant("Unity7"));
    assert!(!gnome::is_compliant("pantheon"));
    assert!(!gnome::is_compliant("KDE"));
    assert!(!gnome::is_compliant(""));
}

#[test]
fn gnome_get_reads_the_picture_key() {
    let c = gnome::get();
    assert_eq!(c.program, "gsettings");
    assert_eq!(c.args, strings(&["get", "org.gnome.desktop.background", "picture-uri"]));
}

#[test]
fn gnome_color_scheme_reads_the_interface_key() {
    let c = gnome::color_scheme();
    assert_eq!(c.program, "gsettings");
    assert_eq!(c.args, strings(&["get", "org.gnome.desktop.interface", "color-scheme"]));
}

#[test]
fn gnome_set_writes_the_light_key_by_default() {
    let c = gnome::set("/a/b.png", "'default'\n");
    assert_eq!(c.program, "gsettings");
    assert_eq!(
        c.args,
        strings(&["set", "org.gnome.desktop.background", "picture-uri", "\"file:///a/b.png\""])
    );
    assert_eq!(gnome::set("/a/b.png", "").args[2], "picture-uri");
    assert_eq!(gnome::set("/a/b.png", "prefer-dark").args[2], "picture-uri");
}

#[test]
fn gnome_set_writes_the_dark_key_where_dark_is_preferred() {
    let c = gnome::set("/a/b.png", "'prefer-dark'\n");
    assert_eq!(
        c.args,
        strings(&["set", "org.gnome.desktop.background", "picture-uri-dark", "\"file:///a/b.png\""])
    );
    assert_eq!(gnome::set("/a/b.png", "'prefer-dark'").args[2], "picture-uri-dark");
}

#[test]
fn gnome_string_of_every_mode() {
    assert_eq!(Mode::Center.get_gnome_string(), "\"centered\"");
    assert_eq!(Mode::Crop.get_gnome_string(), "\"zoom\"");
    assert_eq!(Mode::Fit.get_gnome_string(), "\"scaled\"");
    assert_eq!(Mode::Span.get_gnome_string(), "\"spanned\"");
    assert_eq!(Mode::Stretch.get_gnome_string(), "\"stretched\"");
    assert_eq!(Mode::Tile.get_gnome_string(), "\"wallpaper\"");
}

#[test]
fn gnome_set_mode_writes_the_options_key() {
    let c = gnome::set_mode(Mode::Crop);
    assert_eq!(c.program, "gsettings");
    assert_eq!(
        c.args,
        strings(&["set", "org.gnome.desktop.background", "picture-options", "\"zoom\""])
    );
}

#[test]
fn dconf_get_reads_the_key_of_each_desktop() {
    assert_eq!(dconf::get(Store::Cinnamon).program, "dconf");
    assert_eq!(
        dconf::get(Store::Cinnamon).args,
        strings(&["read", "/org/cinnamon/desktop/background/picture-uri"])
    );
    assert_eq!(
        dconf::get(Store::Mate).args,
        strings(&["read", "/org/mate/desktop/background/picture-filename"])
    );
    assert_eq!(
        dconf::get(Store::Deepin).args,
        strings(&["read", "/com/deepin/wrap/gnome/desktop/background/picture-uri"])
    );
}

#[test]
fn dconf_set_writes_a_quoted_uri_on_every_desktop() {
    assert_eq!(
        dconf::set(Store::Cinnamon, "/a.png").args,
        strings(&["write", "/org/cinnamon/desktop/background/picture-uri", "\"file:///a.png\""])
    );
    assert_eq!(
        dconf::set(Store::Mate, "/a.png").args,
        strings(&["write", "/org/mate/desktop/background/picture-filename", "\"file:///a.png\""])
    );
    assert_eq!(
        dconf::set(Store::Deepin, "/a.png").args,
        strings(&[
            "write",
            "/com/deepin/wrap/gnome/desktop/background/picture-uri",
            "\"file:///a.png\""
        ])
    );
}

#[test]
fn dconf_set_mode_uses_the_names_of_gnome() {
    assert_eq!(
        dconf::set_mode(Store::Cinnamon, Mode::Tile).args,
        strings(&["write", "/org/cinnamon/desktop/background/picture-options", "\"wallpaper\""])
    );
    assert_eq!(
        dconf::set_mode(Store::Mate, Mode::Fit).args,
        strings(&["write", "/org/mate/desktop/background/picture-options", "\"scaled\""])
    );
    assert_eq!(
        dconf::set_mode(Store::Deepin, Mode::Span).args,
        strings(&[
            "write",
            "/com/deepin/wrap/gnome/desktop/background/picture-options",
            "\"spanned\""
        ])
    );
}

#[test]
fn xfce_commands() {
    assert_eq!(xfce::list().program, "xfconf-query");
    assert_eq!(xfce::list().args, strings(&["--channel", "xfce4-desktop", "--list"]));
    assert_eq!(
        xfce::read("/backdrop/screen0/monitor0/workspace0/last-image").args,
        strings(&[
            "--channel",
            "xfce4-desktop",
            "--property",
            "/backdrop/screen0/monitor0/workspace0/last-image"
        ])
    );
    assert_eq!(
        xfce::write("/p/last-image", "/a.png").args,
        strings(&["--channel", "xfce4-desktop", "--property", "/p/last-image", "--set", "/a.png"])
    );
}

#[test]
fn xfce_properties_keeps_the_lines_that_end_with_the_key() {
    let listing = "/backdrop/screen0/monitor0/image-style\n/backdrop/screen0/monitor0/last-image\n/backdrop/screen0/monitor1/last-image\n/last-image/other\n";
    assert_eq!(
        xfce::properties(listing, "last-image"),
        strings(&["/backdrop/screen0/monitor0/last-image", "/backdrop/screen0/monitor1/last-image"])
    );
    assert_eq!(
        xfce::properties(listing, "image-style"),
        strings(&["/backdrop/screen0/monitor0/image-style"])
    );
}

#[test]
fn xfce_properties_of_a_listing_without_matches_is_empty() {
    assert_eq!(xfce::properties("", "last-image"), Vec::<String>::new());
    assert_eq!(xfce::properties("/a\n/b\n", "last-image"), Vec::<String>::new());
}

#[test]
fn xfce_properties_ignores_white_space_around_the_listing() {
    assert_eq!(xfce::properties("\n /a/last-image \n", "last-image"), strings(&["/a/last-image"]));
}

#[test]
fn xfce_style_of_every_mode() {
    assert_eq!(xfce::style_of(Mode::Center), "1");
    assert_eq!(xfce::style_of(Mode::Crop), "5");
    assert_eq!(xfce::style_of(Mode::Fit), "4");
    assert_eq!(xfce::style_of(Mode::Span), "5");
    assert_eq!(xfce::style_of(Mode::Stretch), "3");
    assert_eq!(xfce::style_of(Mode::Tile), "2");
}

#[test]
fn scheduled_user_id_runs_id() {
    let c = scheduled::user_id();
    assert_eq!(c.program, "id");
    assert_eq!(c.args, strings(&["-u"]));
}

#[test]
fn scheduled_session_derives_the_bus_from_the_user_id() {
    let s = scheduled::session("1000\n");
    assert_eq!(s.display, ":0");
    assert_eq!(s.bus_address, "unix:path=/run/user/1000/bus");
}
