//! XFCE.
//!
//! XFCE keeps one set of properties for every monitor and workspace.
//! `xfconf-query` lists them; the ones that end in `last-image` hold a
//! picture, the ones that end in `image-style` its layout.

use crate::mode::Mode;
use crate::process::{Command, CommandView};
use crate::text::{chars_of, ends_with_at, line_end, line_end_in, slice_of, trim_range, trimmed};
use vstd::prelude::*;
use vstd::string::*;

verus! {

pub const XFCONF_QUERY: &'static str = "xfconf-query";

pub const CHANNEL: &'static str = "xfce4-desktop";

/// How the name of a property that holds a picture ends.
pub const IMAGE_PROPERTY: &'static str = "last-image";

/// How the name of a property that holds a layout ends.
pub const STYLE_PROPERTY: &'static str = "image-style";

/// The lines of `text` that end with `suffix`, in their order. Lines are what stands
/// between line feeds.
pub open spec fn matching_lines(text: Seq<char>, suffix: Seq<char>) -> Seq<Seq<char>>
    decreases text.len(),
{
    let n = line_end(text);
    let line = text.take(n as int);
    let found = if suffix.is_suffix_of(line) {
        seq![line]
    } else {
        Seq::empty()
    };
    if n >= text.len() {
        found
    } else {
        found + matching_lines(text.skip(n + 1 as int), suffix)
    }
}

/// The properties that a listing names and that end with `key`. White space around the
/// listing does not count.
pub open spec fn properties_in(listing: Seq<char>, key: Seq<char>) -> Seq<Seq<char>> {
    matching_lines(trimmed(listing), key)
}

/// The number XFCE gives to `mode`. It has one number for `Crop` and `Span`.
pub open spec fn style(mode: Mode) -> Seq<char> {
    match mode {
        Mode::Center => "1"@,
        Mode::Crop => "5"@,
        Mode::Fit => "4"@,
        Mode::Span => "5"@,
        Mode::Stretch => "3"@,
        Mode::Tile => "2"@,
    }
}

/// The command of [`list`].
pub open spec fn list_command() -> CommandView {
    CommandView { program: XFCONF_QUERY@, args: seq!["--channel"@, CHANNEL@, "--list"@] }
}

/// The command of [`read`].
pub open spec fn read_command(property: Seq<char>) -> CommandView {
    CommandView {
        program: XFCONF_QUERY@,
        args: seq!["--channel"@, CHANNEL@, "--property"@, property],
    }
}

/// The command of [`write`].
pub open spec fn write_command(property: Seq<char>, value: Seq<char>) -> CommandView {
    CommandView {
        program: XFCONF_QUERY@,
        args: seq!["--channel"@, CHANNEL@, "--property"@, property, "--set"@, value],
    }
}

/// The command that lists the properties of the desktop.
pub fn list() -> (c: Command)
    ensures
        c@ == list_command(),
{
    let c = Command::new(XFCONF_QUERY).arg("--channel").arg(CHANNEL).arg("--list");
    assert(c@.args =~= list_command().args);
    c
}

/// The command whose output is the value of `property`.
pub fn read(property: &str) -> (c: Command)
    ensures
        c@ == read_command(property@),
{
    let c = Command::new(XFCONF_QUERY).arg("--channel").arg(CHANNEL).arg("--property").arg(
        property,
    );
    assert(c@.args =~= read_command(property@).args);
    c
}

/// The command that sets `property` to `value`.
pub fn write(property: &str, value: &str) -> (c: Command)
    ensures
        c@ == write_command(property@, value@),
{
    let c = Command::new(XFCONF_QUERY).arg("--channel").arg(CHANNEL).arg("--property").arg(
        property,
    ).arg("--set").arg(value);
    assert(c@.args =~= write_command(property@, value@).args);
    c
}

/// The number XFCE gives to `mode`.
pub fn style_of(mode: Mode) -> (r: &'static str)
    ensures
        r@ == style(mode),
{
    match mode {
        Mode::Center => "1",
        Mode::Crop => "5",
        Mode::Fit => "4",
        Mode::Span => "5",
        Mode::Stretch => "3",
        Mode::Tile => "2",
    }
}

/// The properties that `listing`, the output of [`list`], names and that end with `key`,
/// in the order of the listing.
pub fn properties(listing: &str, key: &str) -> (found: Vec<String>)
    ensures
        found.deep_view() == properties_in(listing@, key@),
{
    let chars = chars_of(listing);
    let suffix = chars_of(key);
    assert(chars@.subrange(0, chars.len() as int) =~= chars@);
    let (a, b) = trim_range(&chars, 0, chars.len());
    let mut found: Vec<String> = Vec::new();
    let mut start: usize = a;
    assert(found.deep_view() =~= Seq::<Seq<char>>::empty());
    assert(found.deep_view() + matching_lines(chars@.subrange(a as int, b as int), key@)
        =~= matching_lines(chars@.subrange(a as int, b as int), key@));
    loop
        invariant
            a <= start <= b <= chars.len(),
            chars@ == listing@,
            suffix@ == key@,
            chars@.subrange(a as int, b as int) == trimmed(listing@),
            matching_lines(chars@.subrange(a as int, b as int), key@) == found.deep_view()
                + matching_lines(chars@.subrange(start as int, b as int), key@),
        decreases b - start,
    {
        let end = line_end_in(&chars, start, b);
        let ghost rest = chars@.subrange(start as int, b as int);
        let ghost before = found.deep_view();
        assert(rest.take(end - start) =~= chars@.subrange(start as int, end as int));
        if ends_with_at(&chars, start, end, &suffix) {
            found.push(slice_of(listing, start, end));
            assert(found.deep_view() =~= before.push(chars@.subrange(start as int, end as int)));
        }
        if end >= b {
            assert(before + matching_lines(rest, key@) =~= found.deep_view());
            return found;
        }
        assert(rest.skip(end - start + 1) =~= chars@.subrange(end + 1, b as int));
        assert(before + matching_lines(rest, key@) =~= found.deep_view() + matching_lines(
            chars@.subrange(end + 1, b as int),
            key@,
        ));
        start = end + 1;
    }
}

} // verus!
