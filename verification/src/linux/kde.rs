//! KDE Plasma.
//!
//! The picture is read from Plasma's applet configuration file, and written
//! by a script that the Plasma shell evaluates for `qdbus`.

use crate::error::{text_result, Error, ErrorView};
use crate::mode::Mode;
use crate::normalize::{quote_uri, quoted_uri, stripped, stripped_start};
use crate::process::{Command, CommandView};
use crate::process::str_from_utf8;
use crate::text::{
    byte_line_end, byte_line_end_in, chars_of, slice_of, starts_with_at, trim_range, trimmed,
};
use vstd::slice::{slice_subrange, slice_to_vec};
use vstd::utf8::{decode_utf8, valid_utf8};
use vstd::prelude::*;
use vstd::string::*;

verus! {

pub const QDBUS: &'static str = "qdbus";

/// The file, in the user's configuration directory, that holds the picture.
pub const CONFIG_FILE: &'static str = "plasma-org.kde.plasma.desktop-appletsrc";

/// How the line that holds the picture begins.
pub const IMAGE_KEY: &'static str = "Image=";

/// The desktop's name in errors.
pub const NAME: &'static str = "KDE";

pub const SCRIPT_HEAD: &'static str =
    "\nfor (const desktop of desktops()) {\n    desktop.currentConfigGroup = [\"Wallpaper\", \"org.kde.image\", \"General\"]\n    desktop.writeConfig(\"";

pub const SCRIPT_MIDDLE: &'static str = "\", ";

pub const SCRIPT_TAIL: &'static str = ")\n}";

/// The picture that `line` names, if it is a line that names one: what follows `Image=`,
/// without the white space around it and without a leading `file://`.
pub open spec fn image_of(line: Seq<char>) -> Option<Seq<char>> {
    if IMAGE_KEY@.is_prefix_of(line) {
        Some(stripped(trimmed(line.subrange(IMAGE_KEY@.len() as int, line.len() as int))))
    } else {
        None
    }
}

/// The picture named by the first line of `config` that names one. The lines are decoded
/// one by one, up to the line that names the picture: a line before it that is not UTF-8
/// is a failure, what comes after it is not looked at.
pub open spec fn find_image(config: Seq<u8>) -> Result<Seq<char>, ErrorView>
    decreases config.len(),
{
    let n = byte_line_end(config);
    let line = config.take(n as int);
    if !valid_utf8(line) {
        Err(ErrorView::InvalidUtf8(line))
    } else {
        match image_of(decode_utf8(line)) {
            Some(path) => Ok(path),
            None => if n >= config.len() {
                Err(ErrorView::NoImage(NAME@))
            } else {
                find_image(config.skip(n + 1 as int))
            },
        }
    }
}

/// What [`get`] returns.
pub open spec fn get_result(config: Seq<u8>) -> Result<Seq<char>, ErrorView> {
    find_image(config)
}

/// The number Plasma gives to `mode`. It has one number for `Crop` and `Span`.
pub open spec fn fill_mode(mode: Mode) -> Seq<char> {
    match mode {
        Mode::Center => "6"@,
        Mode::Crop => "2"@,
        Mode::Fit => "1"@,
        Mode::Span => "2"@,
        Mode::Stretch => "0"@,
        Mode::Tile => "3"@,
    }
}

/// The script that writes `value` under `key` in the wallpaper settings of every desktop.
pub open spec fn script(key: Seq<char>, value: Seq<char>) -> Seq<char> {
    SCRIPT_HEAD@ + key + SCRIPT_MIDDLE@ + value + SCRIPT_TAIL@
}

/// The command of [`eval`].
pub open spec fn eval_command(script: Seq<char>) -> CommandView {
    CommandView {
        program: QDBUS@,
        args: seq![
            "org.kde.plasmashell"@,
            "/PlasmaShell"@,
            "org.kde.PlasmaShell.evaluateScript"@,
            script,
        ],
    }
}

/// The command of [`set`].
pub open spec fn set_command(path: Seq<char>) -> CommandView {
    eval_command(script("Image"@, quoted_uri(path)))
}

/// The command of [`set_mode`].
pub open spec fn set_mode_command(mode: Mode) -> CommandView {
    eval_command(script("FillMode"@, fill_mode(mode)))
}

/// The picture that `line` names, if it is a line that names one.
pub fn image_in(line: &str) -> (r: Option<String>)
    ensures
        match r {
            Some(path) => image_of(line@) == Some(path@),
            None => image_of(line@) is None,
        },
{
    let chars = chars_of(line);
    let key = chars_of(IMAGE_KEY);
    let n: usize = chars.len();
    assert(chars@.subrange(0, n as int) =~= chars@);
    if starts_with_at(&chars, 0, n, &key) {
        let (a, b) = trim_range(&chars, key.len(), n);
        let from = stripped_start(&chars, a, b);
        Some(slice_of(line, from, b))
    } else {
        None
    }
}

/// Finds the picture in Plasma's configuration file, given as the bytes of the file: the
/// first line that begins with `Image=` names it. Fails with `NoImage` where no line
/// does, and with `InvalidUtf8` at a line before it that is not UTF-8.
pub fn get(config: &[u8]) -> (r: Result<String, Error>)
    ensures
        text_result(r) == get_result(config@),
{
    let n: usize = config.len();
    let mut start: usize = 0;
    assert(config@.subrange(0, n as int) =~= config@);
    loop
        invariant
            start <= n,
            n == config@.len(),
            find_image(config@) == find_image(config@.subrange(start as int, n as int)),
        decreases n - start,
    {
        let end = byte_line_end_in(config, start);
        let ghost rest = config@.subrange(start as int, n as int);
        assert(rest.take(end - start) =~= config@.subrange(start as int, end as int));
        let line = slice_subrange(config, start, end);
        match str_from_utf8(line) {
            None => {
                return Err(Error::InvalidUtf8(slice_to_vec(line)));
            },
            Some(text) => match image_in(text) {
                Some(path) => {
                    return Ok(path);
                },
                None => {},
            },
        }
        if end >= n {
            return Err(Error::NoImage(NAME));
        }
        assert(rest.skip(end - start + 1) =~= config@.subrange(end + 1, n as int));
        start = end + 1;
    }
}

/// The command that has the Plasma shell evaluate `script`.
pub fn eval(script: &str) -> (c: Command)
    ensures
        c@ == eval_command(script@),
{
    let c = Command::new(QDBUS).arg("org.kde.plasmashell").arg("/PlasmaShell").arg(
        "org.kde.PlasmaShell.evaluateScript",
    ).arg(script);
    assert(c@.args =~= eval_command(script@).args);
    c
}

/// The script that writes `value` under `key` in the wallpaper settings of every desktop.
fn write_config(key: &str, value: &str) -> (r: String)
    ensures
        r@ == script(key@, value@),
{
    SCRIPT_HEAD.to_owned().concat(key).concat(SCRIPT_MIDDLE).concat(value).concat(SCRIPT_TAIL)
}

/// The command that makes the file at `path` the picture of every desktop.
pub fn set(path: &str) -> (c: Command)
    ensures
        c@ == set_command(path@),
{
    let value = quote_uri(path);
    let script = write_config("Image", value.as_str());
    eval(script.as_str())
}

/// The command that makes `mode` the layout of the picture on every desktop.
pub fn set_mode(mode: Mode) -> (c: Command)
    ensures
        c@ == set_mode_command(mode),
{
    let script = write_config(
        "FillMode",
        match mode {
            Mode::Center => "6",
            Mode::Crop => "2",
            Mode::Fit => "1",
            Mode::Span => "2",
            Mode::Stretch => "0",
            Mode::Tile => "3",
        },
    );
    eval(script.as_str())
}

/// A picture that is found is what is left of some text once a leading `file://` is
/// removed.
pub proof fn lemma_found_image_is_stripped(config: Seq<u8>)
    requires
        find_image(config) is Ok,
    ensures
        exists|stored: Seq<char>| find_image(config) == Ok::<Seq<char>, ErrorView>(
            #[trigger] stripped(stored),
        ),
    decreases config.len(),
{
    let n = byte_line_end(config);
    let line = decode_utf8(config.take(n as int));
    if IMAGE_KEY@.is_prefix_of(line) {
        let stored = trimmed(line.subrange(IMAGE_KEY@.len() as int, line.len() as int));
        assert(find_image(config) == Ok::<Seq<char>, ErrorView>(stripped(stored)));
    } else {
        lemma_found_image_is_stripped(config.skip(n + 1 as int));
    }
}

} // verus!
