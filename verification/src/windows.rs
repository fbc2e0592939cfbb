//! Windows.
//!
//! The picture is read and written through the system parameters, as a
//! string of UTF-16 units that ends in a zero; its layout is two values in
//! the registry.

use crate::error::{text_result, Error, ErrorView};
use crate::mode::Mode;
use crate::text::{chars_of, slice_of};
use vstd::prelude::*;
use vstd::string::*;
use vstd::utf8::{char_is_scalar, char_u32_cast};

verus! {

/// The registry key, under the current user, that holds the layout.
pub const DESKTOP_KEY: &'static str = "Control Panel\\Desktop";

/// The value that says whether the picture is tiled.
pub const TILE_VALUE: &'static str = "TileWallpaper";

/// The value that says how the picture is fitted.
pub const STYLE_VALUE: &'static str = "WallpaperStyle";

/// The number of UTF-16 units that the system writes a path into.
pub const PATH_UNITS: usize = 260;

/// The two registry values that stand for a mode.
#[derive(Clone, Copy, Debug, PartialEq, Eq)]
pub struct Layout {
    pub tile: &'static str,
    pub style: &'static str,
}


/// The UTF-16 units of one character: the character itself where it is below U+10000,
/// and otherwise a high and a low surrogate that hold ten bits each of what is above.
pub open spec fn utf16_units(c: char) -> Seq<u16> {
    let v = c as u32;
    if v < 0x10000 {
        seq![v as u16]
    } else {
        seq![(0xd800 + (v - 0x10000) / 0x400) as u16, (0xdc00 + (v - 0x10000) % 0x400) as u16]
    }
}

/// The UTF-16 units of `s`: those of its characters, in order.
pub open spec fn utf16_encoded(s: Seq<char>) -> Seq<u16>
    decreases s.len(),
{
    if s.len() == 0 {
        Seq::empty()
    } else {
        utf16_units(s[0]) + utf16_encoded(s.skip(1))
    }
}

/// The text that `units` encode, or nothing where they are not the UTF-16 units of any
/// text.
pub open spec fn utf16_decoded(units: Seq<u16>) -> Option<Seq<char>> {
    if exists|s: Seq<char>| utf16_encoded(s) == units {
        Some(choose|s: Seq<char>| utf16_encoded(s) == units)
    } else {
        None
    }
}

/// `s` without the zero characters at its end.
pub open spec fn without_trailing_zeros(s: Seq<char>) -> Seq<char>
    decreases s.len(),
{
    if s.len() > 0 && s.last() == '\0' {
        without_trailing_zeros(s.drop_last())
    } else {
        s
    }
}

/// What [`get`] returns.
pub open spec fn get_result(buffer: Seq<u16>) -> Result<Seq<char>, ErrorView> {
    match utf16_decoded(buffer) {
        Some(text) => Ok(without_trailing_zeros(text)),
        None => Err(ErrorView::FromUtf16Error),
    }
}

/// The data of `TileWallpaper` for `mode`: `1` for `Tile`, `0` for every other mode.
pub open spec fn tile(mode: Mode) -> Seq<char> {
    match mode {
        Mode::Tile => "1"@,
        _ => "0"@,
    }
}

/// The data of `WallpaperStyle` for `mode`. `Center` and `Tile` share one.
pub open spec fn style(mode: Mode) -> Seq<char> {
    match mode {
        Mode::Center => "0"@,
        Mode::Tile => "0"@,
        Mode::Fit => "6"@,
        Mode::Span => "22"@,
        Mode::Stretch => "2"@,
        Mode::Crop => "10"@,
    }
}

/// Calls `String::from_utf16`, which gives the text that `units` encode, and fails where
/// they are not UTF-16, that is, where they encode no text.
#[verifier::external_body]
fn string_from_utf16(units: &[u16]) -> (r: Option<String>)
    ensures
        match r {
            Some(text) => utf16_decoded(units@) == Some(text@),
            None => utf16_decoded(units@) is None,
        },
{
    match String::from_utf16(units) {
        Ok(text) => Some(text),
        Err(_) => None,
    }
}

/// Calls `str::encode_utf16`, which encodes `s` as UTF-16 in the order of its characters,
/// and collects the units.
#[verifier::external_body]
fn encode_utf16(s: &str) -> (units: Vec<u16>)
    ensures
        units@ == utf16_encoded(s@),
{
    s.encode_utf16().collect()
}

/// `text` without the zero characters at its end.
pub fn trim_zeros(text: &str) -> (r: String)
    ensures
        r@ == without_trailing_zeros(text@),
{
    let chars = chars_of(text);
    let mut end: usize = chars.len();
    assert(chars@.subrange(0, end as int) =~= chars@);
    while end > 0 && chars[end - 1] == '\0'
        invariant
            end <= chars.len(),
            without_trailing_zeros(chars@) == without_trailing_zeros(
                chars@.subrange(0, end as int),
            ),
        decreases end,
    {
        assert(chars@.subrange(0, end as int).drop_last() =~= chars@.subrange(0, end - 1));
        end -= 1;
    }
    slice_of(text, 0, end)
}

/// Reads the path that the system wrote into `buffer`: decodes the units and drops the
/// zeros that fill the end of the buffer. Fails with `FromUtf16Error` where the units are
/// not UTF-16.
pub fn get(buffer: &[u16]) -> (r: Result<String, Error>)
    ensures
        text_result(r) == get_result(buffer@),
{
    match string_from_utf16(buffer) {
        Some(text) => Ok(trim_zeros(text.as_str())),
        None => Err(Error::FromUtf16Error),
    }
}

/// The string to hand to the system for the file at `path`: its UTF-16 units and a zero
/// at the end.
pub fn set_from_path(path: &str) -> (units: Vec<u16>)
    ensures
        units@ == utf16_encoded(path@).push(0u16),
{
    let mut units = encode_utf16(path);
    units.push(0);
    units
}

/// The string to hand to the system for a downloaded picture. `downloaded` is what came
/// of the download: the path of the file it was saved to, or why it failed.
pub fn set_from_url(downloaded: Result<String, Error>) -> (r: Result<Vec<u16>, Error>)
    ensures
        match downloaded {
            Ok(path) => r matches Ok(units) && units@ == utf16_encoded(path@).push(0u16),
            Err(error) => r matches Err(e) && e@ == error@,
        },
{
    match downloaded {
        Ok(path) => Ok(set_from_path(path.as_str())),
        Err(error) => Err(error),
    }
}

/// The registry values that make `mode` the layout of the picture. They take effect once
/// the picture is set again.
pub fn set_mode(mode: Mode) -> (layout: Layout)
    ensures
        layout.tile@ == tile(mode),
        layout.style@ == style(mode),
{
    Layout {
        tile: match mode {
            Mode::Tile => "1",
            _ => "0",
        },
        style: match mode {
            Mode::Center => "0",
            Mode::Tile => "0",
            Mode::Fit => "6",
            Mode::Span => "22",
            Mode::Stretch => "2",
            Mode::Crop => "10",
        },
    }
}

/// Every mode has both registry values, and only `Tile` turns tiling on.
pub proof fn lemma_every_mode_has_a_layout(mode: Mode)
    ensures
        tile(mode).len() > 0,
        style(mode).len() > 0,
        tile(mode) == "1"@ <==> mode == Mode::Tile,
{
    reveal_strlit("0");
    reveal_strlit("1");
    reveal_strlit("2");
    reveal_strlit("6");
    reveal_strlit("10");
    reveal_strlit("22");
    assert("0"@[0] == '0');
    assert("1"@[0] == '1');
}

/// The units of a character tell the character: no two characters share their units,
/// and none has units that another's begin with.
proof fn lemma_units_tell_the_character(a: char, b: char)
    requires
        utf16_units(a)[0] == utf16_units(b)[0],
        utf16_units(a).len() == 2 && utf16_units(b).len() == 2 ==> utf16_units(a)[1]
            == utf16_units(b)[1],
    ensures
        a == b,
{
    char_is_scalar(a);
    char_is_scalar(b);
    let x = a as u32;
    let y = b as u32;
    if x < 0x10000 && y < 0x10000 {
        assert(x == y);
    } else if x >= 0x10000 && y >= 0x10000 {
        let p = (x - 0x10000) as int;
        let q = (y - 0x10000) as int;
        assert(0 <= p < 0x100000 && 0 <= q < 0x100000);
        assert(p / 0x400 == q / 0x400);
        assert(p % 0x400 == q % 0x400);
        assert(p == q) by (nonlinear_arith)
            requires
                p / 0x400 == q / 0x400,
                p % 0x400 == q % 0x400,
        ;
        assert(x == y);
    } else if x < 0x10000 {
        let q = (y - 0x10000) as int;
        assert(0 <= q / 0x400 < 0x400);
        assert(false);
    } else {
        let p = (x - 0x10000) as int;
        assert(0 <= p / 0x400 < 0x400);
        assert(false);
    }
    char_u32_cast(a, x);
    char_u32_cast(b, y);
}

/// No two texts have the same UTF-16 units.
pub proof fn lemma_utf16_is_injective(a: Seq<char>, b: Seq<char>)
    requires
        utf16_encoded(a) == utf16_encoded(b),
    ensures
        a == b,
    decreases a.len(),
{
    if a.len() == 0 {
        if b.len() > 0 {
            assert(utf16_encoded(b).len() >= utf16_units(b[0]).len());
        }
        assert(a =~= b);
    } else {
        if b.len() == 0 {
            assert(utf16_encoded(a).len() >= utf16_units(a[0]).len());
        }
        let ua = utf16_units(a[0]);
        let ub = utf16_units(b[0]);
        let ta = utf16_encoded(a.skip(1));
        let tb = utf16_encoded(b.skip(1));
        assert(utf16_encoded(a) == ua + ta);
        assert(utf16_encoded(b) == ub + tb);
        assert((ua + ta)[0] == ua[0]);
        assert((ub + tb)[0] == ub[0]);
        char_is_scalar(a[0]);
        char_is_scalar(b[0]);
        let x = a[0] as u32;
        let y = b[0] as u32;
        if x >= 0x10000 {
            let p = (x - 0x10000) as int;
            assert(0 <= p / 0x400 < 0x400);
        }
        if y >= 0x10000 {
            let q = (y - 0x10000) as int;
            assert(0 <= q / 0x400 < 0x400);
        }
        assert(ua.len() == ub.len());
        if ua.len() == 2 {
            assert((ua + ta)[1] == ua[1]);
            assert((ub + tb)[1] == ub[1]);
        }
        lemma_units_tell_the_character(a[0], b[0]);
        assert(ua == ub);
        assert(ta =~= (ua + ta).skip(ua.len() as int));
        assert(tb =~= (ub + tb).skip(ub.len() as int));
        lemma_utf16_is_injective(a.skip(1), b.skip(1));
        assert(a =~= seq![a[0]] + a.skip(1));
        assert(b =~= seq![b[0]] + b.skip(1));
    }
}

/// Decoding the units of a text gives the text.
pub proof fn lemma_decoded_of_encoded(s: Seq<char>)
    ensures
        utf16_decoded(utf16_encoded(s)) == Some(s),
{
    let units = utf16_encoded(s);
    let found = choose|t: Seq<char>| utf16_encoded(t) == units;
    lemma_utf16_is_injective(found, s);
}

/// The units of a text that ends in a zero character are the units of the text before it
/// and a zero unit.
pub proof fn lemma_encoded_with_zero(s: Seq<char>)
    ensures
        utf16_encoded(s.push('\0')) == utf16_encoded(s).push(0u16),
    decreases s.len(),
{
    assert('\0' as u32 == 0);
    assert(utf16_units('\0') =~= seq![0u16]);
    if s.len() == 0 {
        let one = s.push('\0');
        assert(one[0] == '\0');
        assert(one.skip(1) =~= Seq::<char>::empty());
        assert(utf16_encoded(one.skip(1)) =~= Seq::<u16>::empty());
        assert(utf16_encoded(one) =~= seq![0u16]);
        assert(utf16_encoded(s) =~= Seq::<u16>::empty());
        assert(utf16_encoded(s).push(0u16) =~= seq![0u16]);
    } else {
        lemma_encoded_with_zero(s.skip(1));
        assert(s.push('\0').skip(1) =~= s.skip(1).push('\0'));
        assert(s.push('\0')[0] == s[0]);
        assert(utf16_units(s[0]) + utf16_encoded(s.skip(1)).push(0u16) =~= (utf16_units(s[0])
            + utf16_encoded(s.skip(1))).push(0u16));
    }
}

/// Round trip: what `set_from_path` hands to the system for `path`, a path that does not
/// end in a zero character, is read back by `get` as `path`.
pub proof fn lemma_round_trip(path: Seq<char>)
    requires
        path.len() > 0 ==> path.last() != '\0',
    ensures
        get_result(utf16_encoded(path).push(0u16)) == Ok::<Seq<char>, ErrorView>(path),
{
    let text = path.push('\0');
    lemma_encoded_with_zero(path);
    lemma_decoded_of_encoded(text);
    assert(text.last() == '\0');
    assert(text.drop_last() =~= path);
    assert(without_trailing_zeros(text) == without_trailing_zeros(path));
    assert(without_trailing_zeros(path) == path);
}

} // verus!
