use vstd::prelude::*;
use vstd::string::StringSliceAdditionalSpecFns;
use vstd::utf8::{
    encode_utf8_valid_utf8, is_char_boundary, is_char_boundary_iff_not_is_continuation_byte,
    is_char_boundary_start_end_of_seq, pop_first_scalar, valid_utf8,
};

verus! {

/// A color given by its red, green and blue components.
#[derive(Debug, Clone, Copy, PartialEq, Eq, Structural)]
pub struct Rgb {
    pub r: u8,
    pub g: u8,
    pub b: u8,
}

/// The value of an ASCII hexadecimal digit, either case.
pub open spec fn hex_digit_value(c: u8) -> Option<u8> {
    if 0x30 <= c <= 0x39 {
        Some((c - 0x30) as u8)
    } else if 0x61 <= c <= 0x66 {
        Some((c - 0x61 + 10) as u8)
    } else if 0x41 <= c <= 0x46 {
        Some((c - 0x41 + 10) as u8)
    } else {
        None
    }
}

/// A two-byte component read as an unsigned number in base 16: two digits, or
/// a `+` sign and one digit; anything else reads as 255.
pub open spec fn component_value(hi: u8, lo: u8) -> u8 {
    match (hex_digit_value(hi), hex_digit_value(lo)) {
        (Some(h), Some(l)) => (h * 16 + l) as u8,
        (None, Some(l)) => if hi == 0x2b {
            l
        } else {
            255
        },
        _ => 255,
    }
}

/// The bytes that remain once every leading `#` is removed.
pub open spec fn strip_hashes(b: Seq<u8>) -> Seq<u8>
    decreases b.len(),
{
    if b.len() > 0 && b[0] == 0x23 {
        strip_hashes(b.drop_first())
    } else {
        b
    }
}

/// The three components of a color can be cut out of `hex`: after its leading
/// `#`s it has at least six bytes, and bytes 2, 4 and 6 start characters.
pub open spec fn hex_color_cuttable(hex: Seq<u8>) -> bool {
    let t = strip_hashes(hex);
    &&& t.len() >= 6
    &&& is_char_boundary(t, 2)
    &&& is_char_boundary(t, 4)
    &&& is_char_boundary(t, 6)
}

/// The color that a hex string such as `#33FF33` names.
pub open spec fn hex_color(hex: Seq<u8>) -> Rgb {
    let t = strip_hashes(hex);
    Rgb {
        r: component_value(t[0], t[1]),
        g: component_value(t[2], t[3]),
        b: component_value(t[4], t[5]),
    }
}

/// The lowercase hex digit for `d`, below 16.
pub open spec fn lower_hex_digit(d: int) -> u8 {
    if d < 10 {
        (0x30 + d) as u8
    } else {
        (0x61 + d - 10) as u8
    }
}

/// The uppercase hex digit for `d`, below 16.
pub open spec fn upper_hex_digit(d: int) -> u8 {
    if d < 10 {
        (0x30 + d) as u8
    } else {
        (0x41 + d - 10) as u8
    }
}

/// A byte written as two hex digits, high digit first, in either case, reads
/// back as that byte: every decimal digit and every letter `a`-`f` / `A`-`F`
/// counts with its value, the first digit sixteen times.
pub proof fn lemma_component_round_trip(v: u8)
    ensures
        component_value(lower_hex_digit((v / 16) as int), lower_hex_digit((v % 16) as int)) == v,
        component_value(upper_hex_digit((v / 16) as int), upper_hex_digit((v % 16) as int)) == v,
        component_value(lower_hex_digit((v / 16) as int), upper_hex_digit((v % 16) as int)) == v,
        component_value(upper_hex_digit((v / 16) as int), lower_hex_digit((v % 16) as int)) == v,
{
}

/// A `+` sign before one hex digit reads as that digit; a first byte that is
/// neither a hex digit nor `+`, or a second byte that is no hex digit, makes
/// the component read as 255.
pub proof fn lemma_component_sign_and_junk(hi: u8, lo: u8, d: u8)
    requires
        d < 16,
    ensures
        component_value(0x2b, lower_hex_digit(d as int)) == d,
        component_value(0x2b, upper_hex_digit(d as int)) == d,
        !(0x30 <= hi <= 0x39 || 0x41 <= hi <= 0x46 || 0x61 <= hi <= 0x66 || hi == 0x2b)
            ==> component_value(hi, lo) == 255,
        !(0x30 <= lo <= 0x39 || 0x41 <= lo <= 0x46 || 0x61 <= lo <= 0x66)
            ==> component_value(hi, lo) == 255,
{
}

/// `k` bytes `#`.
pub open spec fn hashes(k: nat) -> Seq<u8> {
    Seq::new(k, |i: int| 0x23u8)
}

/// Leading `#`s, however many, are skipped, and nothing after them is.
pub proof fn lemma_strip_leading_hashes(k: nat, t: Seq<u8>)
    requires
        t.len() == 0 || t[0] != 0x23,
    ensures
        strip_hashes(hashes(k) + t) == t,
    decreases k,
{
    if k == 0 {
        assert(hashes(0) + t =~= t);
    } else {
        assert((hashes(k) + t).drop_first() =~= hashes((k - 1) as nat) + t);
        lemma_strip_leading_hashes((k - 1) as nat, t);
    }
}

/// Bytes below 0x80 are valid UTF-8, and every position in them starts a
/// character.
proof fn lemma_ascii_boundaries(b: Seq<u8>)
    requires
        forall|i: int| 0 <= i < b.len() ==> b[i] < 0x80,
    ensures
        valid_utf8(b),
        forall|i: int| 0 <= i <= b.len() ==> is_char_boundary(b, i),
    decreases b.len(),
{
    if b.len() > 0 {
        let b0 = b[0];
        assert((b0 & 0x7f) <= 0x7f) by (bit_vector);
        assert(pop_first_scalar(b) =~= b.drop_first());
        lemma_ascii_boundaries(b.drop_first());
        assert forall|i: int| 0 <= i <= b.len() implies is_char_boundary(b, i) by {
            if i > 0 {
                assert(is_char_boundary(b.drop_first(), i - 1));
            }
        }
    }
}

/// The hex form of a color: six lowercase hex digits, red, green, blue.
pub open spec fn hex_form(c: Rgb) -> Seq<u8> {
    seq![
        lower_hex_digit((c.r / 16) as int),
        lower_hex_digit((c.r % 16) as int),
        lower_hex_digit((c.g / 16) as int),
        lower_hex_digit((c.g % 16) as int),
        lower_hex_digit((c.b / 16) as int),
        lower_hex_digit((c.b % 16) as int),
    ]
}

/// Any color written in hex form, after any number of `#`s and followed by
/// anything ASCII, can be read, and reads back as that color.
pub proof fn lemma_hex_color_round_trip(c: Rgb, k: nat, tail: Seq<u8>)
    requires
        forall|i: int| 0 <= i < tail.len() ==> tail[i] < 0x80,
    ensures
        hex_color_cuttable(hashes(k) + hex_form(c) + tail),
        hex_color(hashes(k) + hex_form(c) + tail) == c,
{
    let t = hex_form(c) + tail;
    assert(hashes(k) + hex_form(c) + tail =~= hashes(k) + t);
    lemma_strip_leading_hashes(k, t);
    lemma_component_round_trip(c.r);
    lemma_component_round_trip(c.g);
    lemma_component_round_trip(c.b);
    assert forall|i: int| 0 <= i < t.len() implies t[i] < 0x80 by {
        if i >= 6 {
            assert(t[i] == tail[i - 6]);
        }
    }
    lemma_ascii_boundaries(t);
}

fn hex_digit(c: u8) -> (v: Option<u8>)
    ensures
        v == hex_digit_value(c),
{
    if 0x30 <= c && c <= 0x39 {
        Some(c - 0x30)
    } else if 0x61 <= c && c <= 0x66 {
        Some(c - 0x61 + 10)
    } else if 0x41 <= c && c <= 0x46 {
        Some(c - 0x41 + 10)
    } else {
        None
    }
}

fn component(hi: u8, lo: u8) -> (v: u8)
    ensures
        v == component_value(hi, lo),
{
    match (hex_digit(hi), hex_digit(lo)) {
        (Some(h), Some(l)) => h * 16 + l,
        (None, Some(l)) => if hi == 0x2b {
            l
        } else {
            255
        },
        _ => 255,
    }
}

/// The number of leading `#` bytes of `bytes`.
fn hash_prefix_len(bytes: &[u8]) -> (i: usize)
    ensures
        i <= bytes@.len(),
        strip_hashes(bytes@) == bytes@.subrange(i as int, bytes@.len() as int),
        forall|j: int| 0 <= j < i ==> bytes@[j] == 0x23,
{
    let n = bytes.len();
    let mut i: usize = 0;
    assert(bytes@.subrange(0, n as int) =~= bytes@);
    while i < n && bytes[i] == 0x23
        invariant
            n == bytes@.len(),
            i <= n,
            strip_hashes(bytes@.subrange(i as int, n as int)) == strip_hashes(bytes@),
            forall|j: int| 0 <= j < i ==> bytes@[j] == 0x23,
        decreases n - i,
    {
        assert(bytes@.subrange(i as int, n as int).drop_first() =~= bytes@.subrange(
            i + 1,
            n as int,
        ));
        i = i + 1;
    }
    i
}

/// Removing leading `#`s from valid UTF-8 leaves valid UTF-8.
proof fn lemma_strip_hashes_valid(b: Seq<u8>)
    requires
        valid_utf8(b),
    ensures
        valid_utf8(strip_hashes(b)),
    decreases b.len(),
{
    if b.len() > 0 && b[0] == 0x23 {
        assert(pop_first_scalar(b) =~= b.drop_first());
        lemma_strip_hashes_valid(b.drop_first());
    }
}

/// Whether `parse_hex_color` can read `hex`: after its leading `#`s it has at
/// least six bytes, and bytes 2, 4 and 6 start characters.
pub fn hex_color_readable(hex: &str) -> (ok: bool)
    ensures
        ok == hex_color_cuttable(hex.spec_bytes()),
{
    let bytes = hex.as_bytes();
    let n = bytes.len();
    let i = hash_prefix_len(bytes);
    let ghost t = strip_hashes(bytes@);
    proof {
        encode_utf8_valid_utf8(hex@);
        lemma_strip_hashes_valid(bytes@);
    }
    if n - i < 6 {
        return false;
    }
    proof {
        assert(t[2] == bytes@[i + 2] && t[4] == bytes@[i + 4]);
        is_char_boundary_iff_not_is_continuation_byte(t, 2);
        is_char_boundary_iff_not_is_continuation_byte(t, 4);
        if t.len() == 6 {
            is_char_boundary_start_end_of_seq(t);
        } else {
            assert(t[6] == bytes@[i + 6]);
            is_char_boundary_iff_not_is_continuation_byte(t, 6);
        }
    }
    let third_starts = n - i == 6 || !(0x80 <= bytes[i + 6] && bytes[i + 6] <= 0xbf);
    !(0x80 <= bytes[i + 2] && bytes[i + 2] <= 0xbf) && !(0x80 <= bytes[i + 4] && bytes[i + 4]
        <= 0xbf) && third_starts
}

/// Reads a hex color: leading `#`s are skipped, then the first six bytes are
/// taken as three two-digit components; a component that is not a number in
/// base 16 reads as 255.
pub fn parse_hex_color(hex: &str) -> (color: Rgb)
    requires
        hex_color_cuttable(hex.spec_bytes()),
    ensures
        color == hex_color(hex.spec_bytes()),
{
    let bytes = hex.as_bytes();
    let i = hash_prefix_len(bytes);
    let ghost t = bytes@.subrange(i as int, bytes@.len() as int);
    assert(t[0] == bytes@[i as int] && t[5] == bytes@[i + 5]);
    Rgb {
        r: component(bytes[i], bytes[i + 1]),
        g: component(bytes[i + 2], bytes[i + 3]),
        b: component(bytes[i + 4], bytes[i + 5]),
    }
}

/// Where the configuration file lies, as path segments to be joined in order:
/// under `$XDG_CONFIG_HOME` when that variable is set, else under
/// `$HOME/.config`; `None` when neither is set.
pub fn config_path_segments(xdg_config_home: Option<String>, home: Option<String>) -> (segments:
    Option<Vec<String>>)
    ensures
        match xdg_config_home {
            Some(x) => segments matches Some(s) && s@.map_values(|p: String| p@) == seq![
                x@,
                "raddio"@,
                "config.json"@,
            ],
            None => match home {
                Some(h) => segments matches Some(s) && s@.map_values(|p: String| p@) == seq![
                    h@,
                    ".config"@,
                    "raddio"@,
                    "config.json"@,
                ],
                None => segments is None,
            },
        },
{
    let mut segments: Vec<String> = Vec::new();
    match xdg_config_home {
        Some(x) => {
            segments.push(x);
        },
        None => match home {
            Some(h) => {
                segments.push(h);
                segments.push(String::from_str(".config"));
            },
            None => {
                return None;
            },
        },
    }
    segments.push(String::from_str("raddio"));
    segments.push(String::from_str("config.json"));
    proof {
        let v = segments@.map_values(|p: String| p@);
        assert(v.len() == segments@.len());
        if segments@.len() == 3 {
            assert(v =~= seq![segments@[0]@, "raddio"@, "config.json"@]);
        } else {
            assert(v =~= seq![segments@[0]@, ".config"@, "raddio"@, "config.json"@]);
        }
    }
    Some(segments)
}

} // verus!
