//! GNOME and the desktops that keep their settings where GNOME does.
//!
//! They are driven through `gsettings`: one key holds the picture for the
//! light colour scheme, another the picture for the dark one.

use crate::mode::Mode;
use crate::normalize::{enquoted, quote, quote_uri, quoted_uri, QUOTE};
use crate::process::{Command, CommandView};
use crate::text::{contains, has_substring, same, trim, trimmed};
use vstd::prelude::*;
use vstd::string::*;

verus! {

pub const GSETTINGS: &'static str = "gsettings";

pub const BACKGROUND_SCHEMA: &'static str = "org.gnome.desktop.background";

pub const INTERFACE_SCHEMA: &'static str = "org.gnome.desktop.interface";

pub const PICTURE_KEY: &'static str = "picture-uri";

pub const DARK_PICTURE_KEY: &'static str = "picture-uri-dark";

pub const OPTIONS_KEY: &'static str = "picture-options";

pub const COLOR_SCHEME_KEY: &'static str = "color-scheme";

/// What `gsettings` prints for the colour scheme when the user prefers dark.
pub const PREFER_DARK: &'static str = "'prefer-dark'";

/// A desktop identity is GNOME-compliant if it mentions GNOME anywhere, or is exactly
/// Unity or Pantheon.
pub open spec fn compliant(desktop: Seq<char>) -> bool {
    contains(desktop, "GNOME"@) || desktop == "Unity"@ || desktop == "Pantheon"@
}

/// The name GNOME gives to `mode`.
pub open spec fn mode_name(mode: Mode) -> Seq<char> {
    match mode {
        Mode::Center => "centered"@,
        Mode::Crop => "zoom"@,
        Mode::Fit => "scaled"@,
        Mode::Span => "spanned"@,
        Mode::Stretch => "stretched"@,
        Mode::Tile => "wallpaper"@,
    }
}

/// The key that holds the picture, given what `gsettings` printed for the colour scheme.
pub open spec fn picture_key(color_scheme: Seq<char>) -> Seq<char> {
    if trimmed(color_scheme) == PREFER_DARK@ {
        DARK_PICTURE_KEY@
    } else {
        PICTURE_KEY@
    }
}

/// The command of [`get`].
pub open spec fn get_command() -> CommandView {
    CommandView {
        program: GSETTINGS@,
        args: seq!["get"@, BACKGROUND_SCHEMA@, PICTURE_KEY@],
    }
}

/// The command of [`color_scheme`].
pub open spec fn color_scheme_command() -> CommandView {
    CommandView {
        program: GSETTINGS@,
        args: seq!["get"@, INTERFACE_SCHEMA@, COLOR_SCHEME_KEY@],
    }
}

/// The command of [`set`].
pub open spec fn set_command(path: Seq<char>, color_scheme: Seq<char>) -> CommandView {
    CommandView {
        program: GSETTINGS@,
        args: seq!["set"@, BACKGROUND_SCHEMA@, picture_key(color_scheme), quoted_uri(path)],
    }
}

/// The command of [`set_mode`].
pub open spec fn set_mode_command(mode: Mode) -> CommandView {
    CommandView {
        program: GSETTINGS@,
        args: seq!["set"@, BACKGROUND_SCHEMA@, OPTIONS_KEY@, enquoted(QUOTE, mode_name(mode))],
    }
}

impl Mode {
    /// The name GNOME gives to this mode, in double quotes.
    pub fn get_gnome_string(self) -> (r: String)
        ensures
            r@ == enquoted(QUOTE, mode_name(self)),
    {
        quote(
            match self {
                Mode::Center => "centered",
                Mode::Crop => "zoom",
                Mode::Fit => "scaled",
                Mode::Span => "spanned",
                Mode::Stretch => "stretched",
                Mode::Tile => "wallpaper",
            },
        )
    }
}

/// Whether the desktop named `desktop` keeps its settings where GNOME does.
pub fn is_compliant(desktop: &str) -> (b: bool)
    ensures
        b == compliant(desktop@),
{
    has_substring(desktop, "GNOME") || same(desktop, "Unity") || same(desktop, "Pantheon")
}

/// The command whose output is the stored picture, as a quoted URI.
pub fn get() -> (c: Command)
    ensures
        c@ == get_command(),
{
    let c = Command::new(GSETTINGS).arg("get").arg(BACKGROUND_SCHEMA).arg(PICTURE_KEY);
    assert(c@.args =~= get_command().args);
    c
}

/// The command whose output tells which colour scheme the user prefers.
pub fn color_scheme() -> (c: Command)
    ensures
        c@ == color_scheme_command(),
{
    let c = Command::new(GSETTINGS).arg("get").arg(INTERFACE_SCHEMA).arg(COLOR_SCHEME_KEY);
    assert(c@.args =~= color_scheme_command().args);
    c
}

/// The command that makes the file at `path` the picture of the colour scheme in use:
/// of the dark one where `color_scheme`, apart from white space around it, is
/// `'prefer-dark'`, and of the light one otherwise.
pub fn set(path: &str, color_scheme: &str) -> (c: Command)
    ensures
        c@ == set_command(path@, color_scheme@),
{
    let scheme = trim(color_scheme);
    let key = if same(scheme.as_str(), PREFER_DARK) {
        DARK_PICTURE_KEY
    } else {
        PICTURE_KEY
    };
    let value = quote_uri(path);
    let c = Command::new(GSETTINGS).arg("set").arg(BACKGROUND_SCHEMA).arg(key).arg(value.as_str());
    assert(c@.args =~= set_command(path@, color_scheme@).args);
    c
}

/// The command that makes `mode` the layout of the picture.
pub fn set_mode(mode: Mode) -> (c: Command)
    ensures
        c@ == set_mode_command(mode),
{
    let name = mode.get_gnome_string();
    let c = Command::new(GSETTINGS).arg("set").arg(BACKGROUND_SCHEMA).arg(OPTIONS_KEY).arg(
        name.as_str(),
    );
    assert(c@.args =~= set_mode_command(mode).args);
    c
}

} // verus!
