//! Cinnamon, MATE and Deepin, which keep the picture under a fixed `dconf` key.

use crate::mode::Mode;
use crate::normalize::{enquoted, quote_uri, quoted_uri, QUOTE};
use crate::process::{Command, CommandView};
use vstd::prelude::*;
use vstd::string::*;

verus! {

pub const DCONF: &'static str = "dconf";

/// The desktops that are driven through `dconf`.
#[derive(Clone, Copy, Debug, PartialEq, Eq, Structural)]
pub enum Store {
    Cinnamon,
    Mate,
    Deepin,
}

/// The key under which `store` keeps the picture.
pub open spec fn picture_key(store: Store) -> Seq<char> {
    match store {
        Store::Cinnamon => "/org/cinnamon/desktop/background/picture-uri"@,
        Store::Mate => "/org/mate/desktop/background/picture-filename"@,
        Store::Deepin => "/com/deepin/wrap/gnome/desktop/background/picture-uri"@,
    }
}

/// The key under which `store` keeps the layout of the picture.
pub open spec fn options_key(store: Store) -> Seq<char> {
    match store {
        Store::Cinnamon => "/org/cinnamon/desktop/background/picture-options"@,
        Store::Mate => "/org/mate/desktop/background/picture-options"@,
        Store::Deepin => "/com/deepin/wrap/gnome/desktop/background/picture-options"@,
    }
}

/// The value that stands for the file at `path`: on each of these desktops the quoted
/// `file://` URI.
pub open spec fn picture_value(store: Store, path: Seq<char>) -> Seq<char> {
    quoted_uri(path)
}

/// The command of [`get`].
pub open spec fn get_command(store: Store) -> CommandView {
    CommandView { program: DCONF@, args: seq!["read"@, picture_key(store)] }
}

/// The command of [`set`].
pub open spec fn set_command(store: Store, path: Seq<char>) -> CommandView {
    CommandView {
        program: DCONF@,
        args: seq!["write"@, picture_key(store), picture_value(store, path)],
    }
}

/// The command of [`set_mode`].
pub open spec fn set_mode_command(store: Store, mode: Mode) -> CommandView {
    CommandView {
        program: DCONF@,
        args: seq![
            "write"@,
            options_key(store),
            enquoted(QUOTE, crate::linux::gnome::mode_name(mode)),
        ],
    }
}

/// The key under which `store` keeps the picture.
fn picture_key_of(store: Store) -> (key: &'static str)
    ensures
        key@ == picture_key(store),
{
    match store {
        Store::Cinnamon => "/org/cinnamon/desktop/background/picture-uri",
        Store::Mate => "/org/mate/desktop/background/picture-filename",
        Store::Deepin => "/com/deepin/wrap/gnome/desktop/background/picture-uri",
    }
}

/// The key under which `store` keeps the layout of the picture.
fn options_key_of(store: Store) -> (key: &'static str)
    ensures
        key@ == options_key(store),
{
    match store {
        Store::Cinnamon => "/org/cinnamon/desktop/background/picture-options",
        Store::Mate => "/org/mate/desktop/background/picture-options",
        Store::Deepin => "/com/deepin/wrap/gnome/desktop/background/picture-options",
    }
}

/// The command whose output is the stored picture, as a quoted path or URI.
pub fn get(store: Store) -> (c: Command)
    ensures
        c@ == get_command(store),
{
    let c = Command::new(DCONF).arg("read").arg(picture_key_of(store));
    assert(c@.args =~= get_command(store).args);
    c
}

/// The command that makes the file at `path` the picture.
pub fn set(store: Store, path: &str) -> (c: Command)
    ensures
        c@ == set_command(store, path@),
{
    let value = quote_uri(path);
    let c = Command::new(DCONF).arg("write").arg(picture_key_of(store)).arg(value.as_str());
    assert(c@.args =~= set_command(store, path@).args);
    c
}

/// The command that makes `mode` the layout of the picture. These desktops use GNOME's
/// names for the modes.
pub fn set_mode(store: Store, mode: Mode) -> (c: Command)
    ensures
        c@ == set_mode_command(store, mode),
{
    let name = mode.get_gnome_string();
    let c = Command::new(DCONF).arg("write").arg(options_key_of(store)).arg(name.as_str());
    assert(c@.args =~= set_mode_command(store, mode).args);
    c
}

} // verus!
