//! LXDE.
//!
//! The picture is read from the configuration file of the session's file
//! manager, `pcmanfm`, and written by running the file manager itself.

use crate::error::{text_result, Error, ErrorView, IniFault, IniFaultView};
use crate::mode::Mode;
use crate::process::{Command, CommandView};
use crate::text::{chars_of, slice_of, text_view};
use vstd::prelude::*;
use vstd::string::*;

verus! {

pub const PCMANFM: &'static str = "pcmanfm";

/// The session whose configuration is read where the environment names none.
pub const DEFAULT_SESSION: &'static str = "LXDE";

/// The section of the configuration file that holds the picture.
pub const SECTION: &'static str = "*";

/// The key that holds the picture.
pub const WALLPAPER_KEY: &'static str = "wallpaper";

/// The desktop's name in errors.
pub const NAME: &'static str = "LXDE";

pub const CONFIG_DIR: &'static str = "pcmanfm/";

pub const CONFIG_FILE: &'static str = "/desktop-items-0.conf";

/// Declares `ini::Ini`, a parsed INI document, as a type whose inside is not looked at.
#[verifier::external_type_specification]
#[verifier::external_body]
pub struct ExIni(::ini::Ini);

/// What a lookup in `ini` finds: for each named section and key that it holds, the first
/// value of that key in the first section of that name.
pub uninterp spec fn ini_values(ini: ::ini::Ini) -> Map<(Seq<char>, Seq<char>), Seq<char>>;

/// What `ini::Ini::load_from_str` makes of `text`: the values of the document, or where and
/// why `text` is not INI.
pub uninterp spec fn ini_parsed(text: Seq<char>) -> Result<
    Map<(Seq<char>, Seq<char>), Seq<char>>,
    IniFaultView,
>;

/// The name of the session to read: the one given, or [`DEFAULT_SESSION`].
pub open spec fn session_name(session: Option<Seq<char>>) -> Seq<char> {
    match session {
        Some(name) => name,
        None => DEFAULT_SESSION@,
    }
}

/// What [`config_path`] returns.
pub open spec fn config_path_of(session: Option<Seq<char>>) -> Seq<char> {
    CONFIG_DIR@ + session_name(session) + CONFIG_FILE@
}

/// The picture among the values of a configuration file, or the `NoImage` failure where
/// the section `*` has no key `wallpaper`.
pub open spec fn wallpaper_in(values: Map<(Seq<char>, Seq<char>), Seq<char>>) -> Result<
    Seq<char>,
    ErrorView,
> {
    if values.contains_key((SECTION@, WALLPAPER_KEY@)) {
        Ok(values[(SECTION@, WALLPAPER_KEY@)])
    } else {
        Err(ErrorView::NoImage(NAME@))
    }
}

/// The mark that may stand at the very start of a file to tell its byte order.
pub const BYTE_ORDER_MARK: char = '\u{feff}';

/// `text` without a byte-order mark at its start.
pub open spec fn without_mark(text: Seq<char>) -> Seq<char> {
    if text.len() > 0 && text[0] == BYTE_ORDER_MARK {
        text.skip(1)
    } else {
        text
    }
}

/// What [`get`] returns, given what the INI parser makes of the text.
pub open spec fn get_result(
    parsed: Result<Map<(Seq<char>, Seq<char>), Seq<char>>, IniFaultView>,
) -> Result<Seq<char>, ErrorView> {
    match parsed {
        Ok(values) => wallpaper_in(values),
        Err(fault) => Err(ErrorView::InvalidIni(fault)),
    }
}

/// The name `pcmanfm` gives to `mode`.
pub open spec fn mode_name(mode: Mode) -> Seq<char> {
    match mode {
        Mode::Center => "center"@,
        Mode::Crop => "crop"@,
        Mode::Fit => "fit"@,
        Mode::Span => "screen"@,
        Mode::Stretch => "stretch"@,
        Mode::Tile => "tile"@,
    }
}

/// The command of [`set`].
pub open spec fn set_command(path: Seq<char>) -> CommandView {
    CommandView { program: PCMANFM@, args: seq!["-w"@, path] }
}

/// The command of [`set_mode`].
pub open spec fn set_mode_command(mode: Mode) -> CommandView {
    CommandView { program: PCMANFM@, args: seq!["--wallpaper-mode"@, mode_name(mode)] }
}

/// Calls `ini::Ini::load_from_str`, which parses `text` with the default options. Its
/// result is taken to depend on `text` alone; the grammar is not stated here. A parse
/// error comes back with its line, column and message as the parser set them.
#[verifier::external_body]
fn load_ini(text: &str) -> (r: Result<::ini::Ini, IniFault>)
    ensures
        match r {
            Ok(ini) => ini_parsed(text@) == Ok::<
                Map<(Seq<char>, Seq<char>), Seq<char>>,
                IniFaultView,
            >(ini_values(ini)),
            Err(fault) => ini_parsed(text@) == Err::<
                Map<(Seq<char>, Seq<char>), Seq<char>>,
                IniFaultView,
            >(fault@),
        },
{
    match ::ini::Ini::load_from_str(text) {
        Ok(ini) => Ok(ini),
        Err(e) => Err(IniFault { line: e.line, col: e.col, message: e.msg.into_owned() }),
    }
}

/// Calls `ini::Ini::get_from`, which looks up the first section named `section` and
/// returns the first value of `key` in it, or nothing where the section or the key is
/// missing.
#[verifier::external_body]
fn ini_get_from(ini: &::ini::Ini, section: &str, key: &str) -> (r: Option<String>)
    ensures
        match r {
            Some(value) => ini_values(*ini).contains_key((section@, key@)) && ini_values(
                *ini,
            )[(section@, key@)] == value@,
            None => !ini_values(*ini).contains_key((section@, key@)),
        },
{
    ini.get_from(Some(section), key).map(|value| value.to_owned())
}

/// The configuration file of the session named `session`, relative to the user's
/// configuration directory. Without a name the session is `LXDE`.
pub fn config_path(session: Option<&str>) -> (r: String)
    ensures
        r@ == config_path_of(text_view(session)),
{
    let name = match session {
        Some(name) => name,
        None => DEFAULT_SESSION,
    };
    CONFIG_DIR.to_owned().concat(name).concat(CONFIG_FILE)
}

/// The picture that a parsed configuration file holds: the value of `wallpaper` in the
/// section `*`. Fails with `NoImage` where there is none.
pub fn wallpaper(ini: &::ini::Ini) -> (r: Result<String, Error>)
    ensures
        text_result(r) == wallpaper_in(ini_values(*ini)),
{
    match ini_get_from(ini, SECTION, WALLPAPER_KEY) {
        Some(value) => Ok(value),
        None => Err(Error::NoImage(NAME)),
    }
}

/// `text` without a byte-order mark at its start.
pub fn skip_mark(text: &str) -> (r: String)
    ensures
        r@ == without_mark(text@),
{
    let chars = chars_of(text);
    let n: usize = chars.len();
    if n > 0 && chars[0] == BYTE_ORDER_MARK {
        slice_of(text, 1, n)
    } else {
        assert(text@.subrange(0, n as int) =~= text@);
        slice_of(text, 0, n)
    }
}

/// Finds the picture in the text of the session's configuration file. A byte-order mark
/// at the start of the text does not count. Fails with `InvalidIni` where the text is not
/// INI, and with `NoImage` where it names no picture.
pub fn get(config: &str) -> (r: Result<String, Error>)
    ensures
        text_result(r) == get_result(ini_parsed(without_mark(config@))),
{
    let text = skip_mark(config);
    match load_ini(text.as_str()) {
        Ok(ini) => wallpaper(&ini),
        Err(fault) => Err(Error::InvalidIni(fault)),
    }
}

/// The command that makes the file at `path` the picture.
pub fn set(path: &str) -> (c: Command)
    ensures
        c@ == set_command(path@),
{
    let c = Command::new(PCMANFM).arg("-w").arg(path);
    assert(c@.args =~= set_command(path@).args);
    c
}

/// The command that makes `mode` the layout of the picture.
pub fn set_mode(mode: Mode) -> (c: Command)
    ensures
        c@ == set_mode_command(mode),
{
    let c = Command::new(PCMANFM).arg("--wallpaper-mode").arg(
        match mode {
            Mode::Center => "center",
            Mode::Crop => "crop",
            Mode::Fit => "fit",
            Mode::Span => "screen",
            Mode::Stretch => "stretch",
            Mode::Tile => "tile",
        },
    );
    assert(c@.args =~= set_mode_command(mode).args);
    c
}

} // verus!
