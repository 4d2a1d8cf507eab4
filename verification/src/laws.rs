//! Properties that relate several operations of the library.
use vstd::prelude::*;
use vstd::std_specs::convert::FromSpec;
use vstd::utf8::{encode_utf8, is_ascii_chars, is_ascii_chars_encode_utf8};

use crate::error::IrodzukiErrorView;
use crate::hex::{digit_char, hex_byte_value, hex_digit_value};
use crate::scheme::{
    Base16Slot, Color, from_hex_panics, hex_text, parse_hex_color, parse_hex_list,
    strip_hash_prefix,
};

verus! {

/// Digits spell their own value: `digit_char(d)` reads back as `d`.
proof fn lemma_digit_char_value(d: nat)
    requires
        d < 16,
    ensures
        (digit_char(d) as u32) < 128,
        hex_digit_value(digit_char(d) as u8) == Some(d as u8),
        digit_char(d) != '#',
{
}

/// The two digits of `hex_pair` read back as the byte they were written from.
proof fn lemma_pair_value(b: u8)
    ensures
        hex_byte_value(digit_char((b / 16) as nat) as u8, digit_char((b % 16) as nat) as u8)
            == Some(b),
{
    lemma_digit_char_value((b / 16) as nat);
    lemma_digit_char_value((b % 16) as nat);
}

/// Reading what `to_hex` writes gives the colour back, made opaque: the text never cuts a
/// character, and its three pairs are the colour's red, green and blue.
pub proof fn lemma_hex_text_reads_back(c: Color)
    ensures
        !from_hex_panics(hex_text(c)),
        parse_hex_color(hex_text(c)) == Ok::<Color, IrodzukiErrorView>(
            Color { r: c.r, g: c.g, b: c.b, a: 255 },
        ),
{
    reveal(parse_hex_color);
    let t = hex_text(c);
    let body = t.drop_first();
    lemma_digit_char_value((c.r / 16) as nat);
    lemma_digit_char_value((c.r % 16) as nat);
    lemma_digit_char_value((c.g / 16) as nat);
    lemma_digit_char_value((c.g % 16) as nat);
    lemma_digit_char_value((c.b / 16) as nat);
    lemma_digit_char_value((c.b % 16) as nat);
    assert(body.len() == 6);
    assert(strip_hash_prefix(body) == body);
    assert(strip_hash_prefix(t) == body);
    assert(is_ascii_chars(body));
    is_ascii_chars_encode_utf8(body);
    lemma_pair_value(c.r);
    lemma_pair_value(c.g);
    lemma_pair_value(c.b);
    let bytes = encode_utf8(body);
    assert(bytes[0] == body[0] as u8 && bytes[1] == body[1] as u8 && bytes[2] == body[2] as u8);
    assert(bytes[3] == body[3] as u8 && bytes[4] == body[4] as u8 && bytes[5] == body[5] as u8);
}

/// `to_hex` writes `#` and six upper-case hexadecimal digits.
pub proof fn lemma_hex_text_is_upper_case(c: Color)
    ensures
        hex_text(c).len() == 7,
        hex_text(c)[0] == '#',
        forall|i: int|
            1 <= i < 7 ==> ('0' <= #[trigger] hex_text(c)[i] <= '9') || ('A' <= hex_text(c)[i]
                <= 'F'),
        // Characters 1-2 spell red, 3-4 green, 5-6 blue, high digit first.
        hex_digit_value(hex_text(c)[1] as u8) == Some((c.r / 16) as u8),
        hex_digit_value(hex_text(c)[2] as u8) == Some((c.r % 16) as u8),
        hex_digit_value(hex_text(c)[3] as u8) == Some((c.g / 16) as u8),
        hex_digit_value(hex_text(c)[4] as u8) == Some((c.g % 16) as u8),
        hex_digit_value(hex_text(c)[5] as u8) == Some((c.b / 16) as u8),
        hex_digit_value(hex_text(c)[6] as u8) == Some((c.b % 16) as u8),
{
    let t = hex_text(c);
    assert forall|i: int| 1 <= i < 7 implies ('0' <= #[trigger] t[i] <= '9') || ('A' <= t[i]
        <= 'F') by {
        lemma_digit_char_value((c.r / 16) as nat);
        lemma_digit_char_value((c.r % 16) as nat);
        lemma_digit_char_value((c.g / 16) as nat);
        lemma_digit_char_value((c.g % 16) as nat);
        lemma_digit_char_value((c.b / 16) as nat);
        lemma_digit_char_value((c.b % 16) as nat);
    }
}

/// A leading `#` changes nothing: the literal reads (or fails, or cuts a character) as it
/// does without it.
pub proof fn lemma_hash_prefix_ignored(s: Seq<char>)
    ensures
        parse_hex_color(seq!['#'] + s) == parse_hex_color(s),
        from_hex_panics(seq!['#'] + s) == from_hex_panics(s),
{
    reveal(parse_hex_color);
    assert((seq!['#'] + s).drop_first() =~= s);
}

/// `c` in lower case, when it is an ASCII capital letter.
pub open spec fn ascii_lower(c: char) -> char {
    if 'A' <= c <= 'Z' {
        ((c as u32) + 32) as char
    } else {
        c
    }
}

/// `c` in upper case, when it is an ASCII small letter.
pub open spec fn ascii_upper(c: char) -> char {
    if 'a' <= c <= 'z' {
        ((c as u32) - 32) as char
    } else {
        c
    }
}

/// The text with its ASCII letters in lower case.
pub open spec fn to_ascii_lower(s: Seq<char>) -> Seq<char> {
    s.map_values(|c: char| ascii_lower(c))
}

/// The text with its ASCII letters in upper case.
pub open spec fn to_ascii_upper(s: Seq<char>) -> Seq<char> {
    s.map_values(|c: char| ascii_upper(c))
}

/// Mapping every character, where only `#` maps to `#`, commutes with removing the
/// leading `#`.
proof fn lemma_strip_commutes(s: Seq<char>, f: spec_fn(char) -> char)
    requires
        forall|c: char| (#[trigger] f(c) == '#') == (c == '#'),
    ensures
        strip_hash_prefix(s.map_values(f)) == strip_hash_prefix(s).map_values(f),
    decreases s.len(),
{
    if s.len() > 0 {
        assert(s.map_values(f)[0] == f(s[0]));
        if s[0] == '#' {
            assert(s.map_values(f).drop_first() =~= s.drop_first().map_values(f));
            lemma_strip_commutes(s.drop_first(), f);
        }
    } else {
        assert(s.map_values(f) =~= s);
    }
}

/// A character whose scalar value is below 128 is ASCII.
proof fn lemma_small_char_is_ascii(ch: char)
    ensures
        (ch as u32) < 128 ==> '\0' <= ch <= '\u{7f}',
{
}

/// A text whose UTF-8 bytes are all below 0x80 is ASCII.
proof fn lemma_ascii_bytes_ascii_chars(t: Seq<char>)
    requires
        forall|i: int| 0 <= i < encode_utf8(t).len() ==> #[trigger] encode_utf8(t)[i] < 0x80,
    ensures
        is_ascii_chars(t),
    decreases t.len(),
{
    if t.len() > 0 {
        let c = t[0] as u32;
        let head = vstd::utf8::encode_scalar(c);
        let rest = encode_utf8(t.drop_first());
        assert(encode_utf8(t) == head + rest);
        assert(encode_utf8(t)[0] == head[0]);
        if c >= 0x80 {
            assert((0xC0u8 | ((c >> 6) & 0x1F) as u8) >= 0x80) by (bit_vector);
            assert((0xE0u8 | ((c >> 12) & 0x0F) as u8) >= 0x80) by (bit_vector);
            assert((0xF0u8 | ((c >> 18) & 0x7) as u8) >= 0x80) by (bit_vector);
            assert(false);
        }
        lemma_small_char_is_ascii(t[0]);
        assert forall|i: int| 0 <= i < rest.len() implies #[trigger] rest[i] < 0x80 by {
            assert(encode_utf8(t)[i + 1] == rest[i]);
        }
        lemma_ascii_bytes_ascii_chars(t.drop_first());
        assert forall|i| 0 <= i < t.len() implies '\0' <= #[trigger] t[i] <= '\u{7f}' by {
            if i > 0 {
                assert(t[i] == t.drop_first()[i - 1]);
            }
        }
    }
}

/// A literal that reads gives the same colour once its characters are mapped by any map that
/// keeps `#` alone, keeps ASCII within ASCII and keeps the value of every hexadecimal digit.
proof fn lemma_digit_preserving_map(s: Seq<char>, f: spec_fn(char) -> char)
    requires
        forall|c: char| (#[trigger] f(c) == '#') == (c == '#'),
        forall|c: char|
            '\0' <= c <= '\u{7f}' ==> '\0' <= #[trigger] f(c) <= '\u{7f}' && hex_digit_value(
                f(c) as u8,
            ) == hex_digit_value(c as u8),
        parse_hex_color(s) is Ok,
    ensures
        !from_hex_panics(s.map_values(f)),
        parse_hex_color(s.map_values(f)) == parse_hex_color(s),
{
    reveal(parse_hex_color);
    let t = strip_hash_prefix(s);
    let b = encode_utf8(t);
    assert(b.len() == 6);
    assert forall|i: int| 0 <= i < b.len() implies #[trigger] b[i] < 0x80 by {
        assert(hex_byte_value(b[0], b[1]) is Some);
        assert(hex_byte_value(b[2], b[3]) is Some);
        assert(hex_byte_value(b[4], b[5]) is Some);
    }
    lemma_ascii_bytes_ascii_chars(t);
    is_ascii_chars_encode_utf8(t);
    lemma_strip_commutes(s, f);
    let u = t.map_values(f);
    assert(is_ascii_chars(u)) by {
        assert forall|i| 0 <= i < u.len() implies '\0' <= #[trigger] u[i] <= '\u{7f}' by {
            assert(u[i] == f(t[i]));
        }
    }
    is_ascii_chars_encode_utf8(u);
    let bu = encode_utf8(u);
    assert forall|i: int| 0 <= i < 6 implies hex_digit_value(#[trigger] bu[i]) == hex_digit_value(
        b[i],
    ) by {
        assert(u[i] == f(t[i]));
        assert(bu[i] == u[i] as u8);
        assert(b[i] == t[i] as u8);
    }
    assert(hex_digit_value(bu[0]) == hex_digit_value(b[0]));
    assert(hex_digit_value(bu[1]) == hex_digit_value(b[1]));
    assert(hex_digit_value(bu[2]) == hex_digit_value(b[2]));
    assert(hex_digit_value(bu[3]) == hex_digit_value(b[3]));
    assert(hex_digit_value(bu[4]) == hex_digit_value(b[4]));
    assert(hex_digit_value(bu[5]) == hex_digit_value(b[5]));
}

/// Letter case is ignored: a literal that reads gives the same colour in lower case and in
/// upper case, with or without its leading `#`, and neither form cuts a character.
pub proof fn lemma_letter_case_ignored(s: Seq<char>)
    requires
        parse_hex_color(s) is Ok,
    ensures
        !from_hex_panics(to_ascii_lower(s)),
        !from_hex_panics(to_ascii_upper(s)),
        parse_hex_color(to_ascii_lower(s)) == parse_hex_color(s),
        parse_hex_color(to_ascii_upper(s)) == parse_hex_color(s),
{
    let lower = |c: char| ascii_lower(c);
    let upper = |c: char| ascii_upper(c);
    lemma_digit_preserving_map(s, lower);
    lemma_digit_preserving_map(s, upper);
}

/// Every colour read from hex text is opaque, alone or in a list.
pub proof fn lemma_read_colors_are_opaque(s: Seq<char>, lits: Seq<Seq<char>>)
    ensures
        parse_hex_color(s) matches Ok(c) ==> c.a == 255,
        parse_hex_list(lits) is Ok ==> forall|i: int|
            0 <= i < parse_hex_list(lits)->Ok_0.len() ==> (#[trigger] parse_hex_list(lits)->Ok_0[i]).a
                == 255,
    decreases lits.len(),
{
    reveal(parse_hex_color);
    if lits.len() > 0 {
        lemma_read_colors_are_opaque(lits.last(), lits.drop_last());
    }
}

/// A preset's colours, base and ANSI alike, are all opaque.
pub proof fn lemma_preset_colours_are_opaque(
    s: crate::scheme::ColorScheme,
    name: Seq<char>,
    base16: [&str; 16],
    ansi: [&str; 16],
)
    requires
        crate::presets::built_from_tables(s, name, base16, ansi),
    ensures
        forall|i: int| 0 <= i < 16 ==> (#[trigger] s.base16()[i]).a == 255,
        forall|i: int| 0 <= i < 16 ==> (#[trigger] s.ansi_colors()[i]).a == 255,
{
    let b = s.base16();
    let a = s.ansi_colors();
    lemma_read_colors_are_opaque(seq![], crate::scheme::literal_views(base16));
    lemma_read_colors_are_opaque(seq![], crate::scheme::literal_views(ansi));
    assert(a == s.ansi_palette->0@);
    let lb = crate::scheme::literal_views(base16);
    let la = crate::scheme::literal_views(ansi);
    assert forall|i: int| 0 <= i < 16 implies (#[trigger] b[i]).a == 255 by {
        assert(parse_hex_list(lb)->Ok_0 == b);
        assert(parse_hex_list(lb)->Ok_0[i].a == 255);
    }
    assert forall|i: int| 0 <= i < 16 implies (#[trigger] a[i]).a == 255 by {
        assert(parse_hex_list(la)->Ok_0 == a);
        assert(parse_hex_list(la)->Ok_0[i].a == 255);
    }
}

/// A list of literals reads only if every literal reads: one bad literal fails the list.
pub proof fn lemma_one_bad_literal_fails_the_list(lits: Seq<Seq<char>>, i: int)
    requires
        0 <= i < lits.len(),
        parse_hex_color(lits[i]) is Err,
    ensures
        parse_hex_list(lits) is Err,
    decreases lits.len(),
{
    if i < lits.len() - 1 {
        lemma_one_bad_literal_fails_the_list(lits.drop_last(), i);
    }
}

/// Converting a colour to its channel array and back gives the colour; converting an array
/// to a colour and back gives the array.
pub proof fn lemma_channel_array_round_trip(c: Color, arr: [u8; 4])
    ensures
        <Color as FromSpec<[u8; 4]>>::from_spec(<[u8; 4] as FromSpec<Color>>::from_spec(c)) == c,
        <[u8; 4] as FromSpec<Color>>::from_spec(<Color as FromSpec<[u8; 4]>>::from_spec(arr)) == arr,
{
    let a2 = <[u8; 4] as FromSpec<Color>>::from_spec(<Color as FromSpec<[u8; 4]>>::from_spec(arr));
    assert(a2@ =~= arr@);
    vstd::array::axiom_array_ext_equal(a2, arr);
}

} // verus!

verus! {

/// The base colour sequence of a scheme lists its fields in slot order: entry `XY` is field
/// `baseXY`, which is also the entry of slot `BaseXY`.
pub proof fn lemma_base16_lists_the_fields(s: crate::scheme::ColorScheme)
    ensures
        s.base16().len() == 16,
        s.base16()[0] == s.base00 && s.base16()[1] == s.base01 && s.base16()[2] == s.base02
            && s.base16()[3] == s.base03,
        s.base16()[4] == s.base04 && s.base16()[5] == s.base05 && s.base16()[6] == s.base06
            && s.base16()[7] == s.base07,
        s.base16()[8] == s.base08 && s.base16()[9] == s.base09 && s.base16()[10] == s.base0a
            && s.base16()[11] == s.base0b,
        s.base16()[12] == s.base0c && s.base16()[13] == s.base0d && s.base16()[14] == s.base0e
            && s.base16()[15] == s.base0f,
        s.base16()[Base16Slot::Base01.position()] == s.base01,
        s.base16()[Base16Slot::Base02.position()] == s.base02,
        s.base16()[Base16Slot::Base0D.position()] == s.base0d,
        forall|i: int| 0 <= i < 16 ==> #[trigger] s.base16()[Base16Slot::ALL@[i].position()] == s.base16()[i],
{
    crate::scheme::lemma_all_slots_in_order();
}

/// The ANSI colours of a scheme: its override, element by element, when it has one;
/// otherwise black = base00, red = base08, green = base0B, yellow = base0A, blue = base0D,
/// magenta = base0E, cyan = base0C, white = base05, bright black = base03,
/// bright white = base07, and every other bright colour (9 to 14) repeats its normal one
/// (1 to 6), so bright blue (12) is base0D like blue (4).
pub proof fn lemma_ansi_colours_of_a_scheme(s: crate::scheme::ColorScheme)
    ensures
        s.ansi_colors().len() == 16,
        s.ansi_palette matches Some(p) ==> forall|i: int| 0 <= i < 16 ==> #[trigger] s.ansi_colors()[i] == p@[i],
        s.ansi_palette is None ==> {
            let a = s.ansi_colors();
            &&& a[0] == s.base00
            &&& a[1] == s.base08
            &&& a[2] == s.base0b
            &&& a[3] == s.base0a
            &&& a[4] == s.base0d
            &&& a[5] == s.base0e
            &&& a[6] == s.base0c
            &&& a[7] == s.base05
            &&& a[8] == s.base03
            &&& a[15] == s.base07
            &&& forall|k: int| 1 <= k <= 6 ==> #[trigger] a[8 + k] == a[k]
        },
{
}

/// Reading the base16 and ANSI tables together reads each literal on its own: base colour
/// `i` and ANSI colour `i` are what literal `i` of each table reads as.
pub proof fn lemma_tables_read_each(base16: Seq<Seq<char>>, ansi: Seq<Seq<char>>)
    ensures
        crate::scheme::parse_base16_and_ansi(base16, ansi) matches Ok((b, a)) ==> {
            &&& b.len() == base16.len()
            &&& a.len() == ansi.len()
            &&& forall|i: int| 0 <= i < base16.len() ==> #[trigger] b[i] == parse_hex_color(base16[i])->Ok_0
            &&& forall|i: int| 0 <= i < ansi.len() ==> #[trigger] a[i] == parse_hex_color(ansi[i])->Ok_0
        },
{
    crate::scheme::lemma_list_reads_each(base16);
    crate::scheme::lemma_list_reads_each(ansi);
}

/// Channel order of the array conversions: element 0 is red, 1 green, 2 blue, 3 alpha, both
/// ways, and a colour's array is its `to_array`.
pub proof fn lemma_channel_order(c: Color, arr: [u8; 4])
    ensures
        <Color as FromSpec<[u8; 4]>>::from_spec(arr).r == arr@[0],
        <Color as FromSpec<[u8; 4]>>::from_spec(arr).g == arr@[1],
        <Color as FromSpec<[u8; 4]>>::from_spec(arr).b == arr@[2],
        <Color as FromSpec<[u8; 4]>>::from_spec(arr).a == arr@[3],
        <[u8; 4] as FromSpec<Color>>::from_spec(c)@ == seq![c.r, c.g, c.b, c.a],
{
    assert(<[u8; 4] as FromSpec<Color>>::from_spec(c)@ =~= seq![c.r, c.g, c.b, c.a]);
}

} // verus!
