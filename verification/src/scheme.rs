//! Base16 colour schemes: 8-bit RGBA colours, slots, and the scheme that names them.
use vstd::prelude::*;
use vstd::string::StringExecFns;
use vstd::string::StrSliceExecFns;
use vstd::utf8::encode_utf8;
use vstd::utf8::is_continuation_byte;

use crate::error::{IrodzukiError, IrodzukiErrorView, Result, view_result};
use crate::hex::{
    append_decimal, append_hex_pair, decimal_digits, hex_byte, hex_byte_value, hex_digit_value, hex_pair,
};

verus! {

/// An RGBA colour with 8 bits per channel: each channel stands for `value / 255`.
#[derive(Debug, Clone, Copy, PartialEq, Eq, Structural)]
pub struct Color {
    pub r: u8,
    pub g: u8,
    pub b: u8,
    pub a: u8,
}

/// The text that remains of `s` once every leading `#` is removed.
pub open spec fn strip_hash_prefix(s: Seq<char>) -> Seq<char>
    decreases s.len(),
{
    if s.len() > 0 && s[0] == '#' {
        strip_hash_prefix(s.drop_first())
    } else {
        s
    }
}

/// The UTF-8 bytes of a colour literal once its leading `#` are removed.
pub open spec fn hex_body_bytes(s: Seq<char>) -> Seq<u8> {
    encode_utf8(strip_hash_prefix(s))
}

/// The message of a colour literal whose body has `n` bytes where six are needed.
pub open spec fn length_message(n: nat) -> Seq<char> {
    "expected 6 hex chars, got "@ + decimal_digits(n)
}

/// Whether reading the literal `s` cuts a multi-byte character when it takes the
/// body's bytes in pairs (the third or, once the first pair reads, the fifth byte
/// continues a character).
pub open spec fn from_hex_panics(s: Seq<char>) -> bool {
    let b = hex_body_bytes(s);
    &&& b.len() == 6
    &&& (is_continuation_byte(b[2]) || (hex_byte_value(b[0], b[1]) is Some
        && is_continuation_byte(b[4])))
}

/// The colour that the literal `s` ("#RRGGBB", any number of leading `#`, or none) denotes:
/// the body must have six bytes, read in pairs as base-16 bytes; alpha is opaque.
#[verifier::opaque]
pub open spec fn parse_hex_color(s: Seq<char>) -> std::result::Result<Color, IrodzukiErrorView> {
    let body = strip_hash_prefix(s);
    let b = encode_utf8(body);
    if b.len() != 6 {
        Err(IrodzukiErrorView::InvalidColor(length_message(b.len())))
    } else {
        match (hex_byte_value(b[0], b[1]), hex_byte_value(b[2], b[3]), hex_byte_value(b[4], b[5])) {
            (Some(r), Some(g), Some(bl)) => Ok(Color { r, g, b: bl, a: 255 }),
            _ => Err(IrodzukiErrorView::InvalidColor(body)),
        }
    }
}

/// The "#RRGGBB" text of a colour, in upper case; alpha is not written.
pub open spec fn hex_text(c: Color) -> Seq<char> {
    seq!['#'] + hex_pair(c.r) + hex_pair(c.g) + hex_pair(c.b)
}

/// The luminance of a colour scaled by `255 * 10000`: BT.709 weights on the channels.
pub open spec fn scaled_luminance(c: Color) -> int {
    2126 * c.r + 7152 * c.g + 722 * c.b
}

/// Whether a colour is dark: its luminance is below one half.
pub open spec fn color_is_dark(c: Color) -> bool {
    scaled_luminance(c) < 1275000
}

impl Color {
    /// A colour from its four channels.
    pub fn new(r: u8, g: u8, b: u8, a: u8) -> (c: Self)
        ensures
            c == (Color { r, g, b, a }),
    {
        Color { r, g, b, a }
    }

    /// Whether `from_hex` would cut a multi-byte character of `hex` (where it cannot read it).
    pub fn from_hex_panics(hex: &str) -> (p: bool)
        ensures
            p == from_hex_panics(hex@),
    {
        let (_body, bytes) = hex_body(hex);
        if bytes.len() != 6 {
            return false;
        }
        let third = bytes[2];
        let fifth = bytes[4];
        (0x80 <= third && third <= 0xbf) || (hex_byte(bytes[0], bytes[1]).is_some() && 0x80
            <= fifth && fifth <= 0xbf)
    }

    /// Parse a hex string like "#2E3440" or "2E3440".
    pub fn from_hex(hex: &str) -> (res: Result<Self>)
        requires
            !from_hex_panics(hex@),
        ensures
            view_result(res) == parse_hex_color(hex@),
    {
        proof {
            reveal(parse_hex_color);
        }
        let (body, bytes) = hex_body(hex);
        let len = bytes.len();
        if len != 6 {
            let mut msg = String::from_str("expected 6 hex chars, got ");
            append_decimal(&mut msg, len);
            return Err(IrodzukiError::InvalidColor(msg));
        }
        let r = match hex_byte(bytes[0], bytes[1]) {
            Some(v) => v,
            None => return Err(IrodzukiError::InvalidColor(String::from_str(body))),
        };
        let g = match hex_byte(bytes[2], bytes[3]) {
            Some(v) => v,
            None => return Err(IrodzukiError::InvalidColor(String::from_str(body))),
        };
        let b = match hex_byte(bytes[4], bytes[5]) {
            Some(v) => v,
            None => return Err(IrodzukiError::InvalidColor(String::from_str(body))),
        };
        Ok(Color { r, g, b, a: 255 })
    }

    /// Convert to hex string "#RRGGBB" (upper case).
    pub fn to_hex(&self) -> (s: String)
        ensures
            s@ == hex_text(*self),
    {
        let mut s = String::from_str("#");
        proof {
            reveal_strlit("#");
        }
        append_hex_pair(&mut s, self.r);
        append_hex_pair(&mut s, self.g);
        append_hex_pair(&mut s, self.b);
        s
    }

    /// The four channels as an array.
    pub fn to_array(&self) -> (a: [u8; 4])
        ensures
            a@ == seq![self.r, self.g, self.b, self.a],
    {
        let a = [self.r, self.g, self.b, self.a];
        assert(a@ =~= seq![self.r, self.g, self.b, self.a]);
        a
    }

    /// Perceived luminance (BT.709), scaled by `255 * 10000`.
    pub fn luminance(&self) -> (l: u32)
        ensures
            l == scaled_luminance(*self),
    {
        2126 * (self.r as u32) + 7152 * (self.g as u32) + 722 * (self.b as u32)
    }

    /// Whether this color is "dark" (luminance < 0.5).
    pub fn is_dark(&self) -> (d: bool)
        ensures
            d == color_is_dark(*self),
    {
        self.luminance() < 1275000
    }
}

/// A literal of exactly six ASCII hexadecimal digits (no `#`) reads as the colour they spell.
pub proof fn lemma_six_hex_digits(s: Seq<char>)
    requires
        s.len() == 6,
        six_hex_digits(s),
    ensures
        !from_hex_panics(s),
        parse_hex_color(s) == Ok::<Color, IrodzukiErrorView>(Color {
            r: hex_byte_value(s[0] as u8, s[1] as u8)->0,
            g: hex_byte_value(s[2] as u8, s[3] as u8)->0,
            b: hex_byte_value(s[4] as u8, s[5] as u8)->0,
            a: 255,
        }),
{
    reveal(parse_hex_color);
    assert(s[0] != '#') by {
        if s[0] == '#' {
            assert(hex_digit_value(s[0] as u8) is None);
        }
    }
    assert(strip_hash_prefix(s) == s);
    vstd::utf8::is_ascii_chars_encode_utf8(s);
    let b = encode_utf8(s);
    assert(b[0] == s[0] as u8 && b[1] == s[1] as u8 && b[2] == s[2] as u8);
    assert(b[3] == s[3] as u8 && b[4] == s[4] as u8 && b[5] == s[5] as u8);
}

/// A literal made of six ASCII hexadecimal digits.
pub open spec fn six_hex_digits(s: Seq<char>) -> bool {
    &&& s.len() == 6
    &&& vstd::utf8::is_ascii_chars(s)
    &&& forall|i: int| 0 <= i < 6 ==> hex_digit_value(#[trigger] s[i] as u8) is Some
}

/// The body of a colour literal (leading `#` removed) and its bytes.
fn hex_body(hex: &str) -> (res: (&str, &[u8]))
    ensures
        res.0@ == strip_hash_prefix(hex@),
        res.1@ == hex_body_bytes(hex@),
{
    let n = hex.unicode_len();
    let mut k: usize = 0;
    assert(hex@.skip(0) =~= hex@);
    while k < n && hex.get_char(k) == '#'
        invariant
            k <= n,
            n == hex@.len(),
            strip_hash_prefix(hex@.skip(k as int)) == strip_hash_prefix(hex@),
        decreases n - k,
    {
        assert(hex@.skip(k as int).drop_first() =~= hex@.skip(k + 1));
        k += 1;
    }
    let body = hex.substring_char(k, n);
    assert(body@ =~= hex@.skip(k as int));
    let bytes = body.as_bytes();
    (body, bytes)
}

} // verus!

verus! {

/// Base16 color slot identifier.
#[derive(Debug, Clone, Copy, PartialEq, Eq, Hash, Structural)]
pub enum Base16Slot {
    Base00,
    Base01,
    Base02,
    Base03,
    Base04,
    Base05,
    Base06,
    Base07,
    Base08,
    Base09,
    Base0A,
    Base0B,
    Base0C,
    Base0D,
    Base0E,
    Base0F,
}

impl Base16Slot {
    /// All 16 slots in order.
    pub const ALL: [Self; 16] = [
        Self::Base00,
        Self::Base01,
        Self::Base02,
        Self::Base03,
        Self::Base04,
        Self::Base05,
        Self::Base06,
        Self::Base07,
        Self::Base08,
        Self::Base09,
        Self::Base0A,
        Self::Base0B,
        Self::Base0C,
        Self::Base0D,
        Self::Base0E,
        Self::Base0F,
    ];

    /// The slot's number: `Base00` is 0, ..., `Base0F` is 15.
    pub open spec fn position(self) -> int {
        match self {
            Base16Slot::Base00 => 0,
            Base16Slot::Base01 => 1,
            Base16Slot::Base02 => 2,
            Base16Slot::Base03 => 3,
            Base16Slot::Base04 => 4,
            Base16Slot::Base05 => 5,
            Base16Slot::Base06 => 6,
            Base16Slot::Base07 => 7,
            Base16Slot::Base08 => 8,
            Base16Slot::Base09 => 9,
            Base16Slot::Base0A => 10,
            Base16Slot::Base0B => 11,
            Base16Slot::Base0C => 12,
            Base16Slot::Base0D => 13,
            Base16Slot::Base0E => 14,
            Base16Slot::Base0F => 15,
        }
    }
}

impl Base16Slot {
    /// The slot's number, an index into a sixteen-colour table.
    pub fn number(self) -> (n: usize)
        ensures
            n == self.position(),
    {
        match self {
            Base16Slot::Base00 => 0,
            Base16Slot::Base01 => 1,
            Base16Slot::Base02 => 2,
            Base16Slot::Base03 => 3,
            Base16Slot::Base04 => 4,
            Base16Slot::Base05 => 5,
            Base16Slot::Base06 => 6,
            Base16Slot::Base07 => 7,
            Base16Slot::Base08 => 8,
            Base16Slot::Base09 => 9,
            Base16Slot::Base0A => 10,
            Base16Slot::Base0B => 11,
            Base16Slot::Base0C => 12,
            Base16Slot::Base0D => 13,
            Base16Slot::Base0E => 14,
            Base16Slot::Base0F => 15,
        }
    }

    /// The colour in this slot of a sixteen-colour table, in any colour type.
    pub fn pick<C: Copy>(self, base16: &[C; 16]) -> (c: C)
        ensures
            c == base16@[self.position()],
    {
        base16[self.number()]
    }
}

/// `Base16Slot::ALL` lists every slot once, in the order of their numbers.
pub proof fn lemma_all_slots_in_order()
    ensures
        Base16Slot::ALL@.len() == 16,
        forall|i: int| 0 <= i < 16 ==> (#[trigger] Base16Slot::ALL@[i]).position() == i,
        forall|s: Base16Slot| #[trigger] Base16Slot::ALL@[s.position()] == s,
{
    assert(Base16Slot::ALL@.len() == 16);
}

} // verus!

verus! {

/// The text of each literal in a table.
pub open spec fn literal_views(table: [&str; 16]) -> Seq<Seq<char>> {
    table@.map_values(|s: &str| s@)
}

/// Reading a list of colour literals in order: every colour, or the error of the first
/// literal that does not read.
pub open spec fn parse_hex_list(lits: Seq<Seq<char>>) -> std::result::Result<
    Seq<Color>,
    IrodzukiErrorView,
>
    decreases lits.len(),
{
    if lits.len() == 0 {
        Ok(seq![])
    } else {
        match parse_hex_list(lits.drop_last()) {
            Err(e) => Err(e),
            Ok(cs) => match parse_hex_color(lits.last()) {
                Ok(c) => Ok(cs.push(c)),
                Err(e) => Err(e),
            },
        }
    }
}

/// Reading the list in order never reaches a literal that cuts a character.
pub open spec fn hex_list_reads(lits: Seq<Seq<char>>) -> bool
    decreases lits.len(),
{
    lits.len() == 0 || (hex_list_reads(lits.drop_last()) && (parse_hex_list(lits.drop_last()) is Ok
        ==> !from_hex_panics(lits.last())))
}

/// Reading the base16 list, then (if it reads) the ANSI list.
pub open spec fn parse_base16_and_ansi(base: Seq<Seq<char>>, ansi: Seq<Seq<char>>) -> std::result::Result<
    (Seq<Color>, Seq<Color>),
    IrodzukiErrorView,
> {
    match parse_hex_list(base) {
        Err(e) => Err(e),
        Ok(b) => match parse_hex_list(ansi) {
            Err(e) => Err(e),
            Ok(a) => Ok((b, a)),
        },
    }
}

/// Reading a list in order reads each literal on its own: the list reads exactly when every
/// literal does, colour number `i` is what literal number `i` reads as, and a failing list
/// fails with the error of its first literal that does not read.
pub proof fn lemma_list_reads_each(lits: Seq<Seq<char>>)
    ensures
        parse_hex_list(lits) is Ok <==> forall|i: int|
            0 <= i < lits.len() ==> parse_hex_color(#[trigger] lits[i]) is Ok,
        parse_hex_list(lits) is Ok ==> parse_hex_list(lits)->Ok_0.len() == lits.len(),
        parse_hex_list(lits) is Ok ==> forall|i: int|
            0 <= i < lits.len() ==> #[trigger] parse_hex_list(lits)->Ok_0[i] == parse_hex_color(
                lits[i],
            )->Ok_0,
        parse_hex_list(lits) is Err ==> exists|i: int|
            0 <= i < lits.len() && parse_hex_color(#[trigger] lits[i]) == Err::<
                Color,
                IrodzukiErrorView,
            >(parse_hex_list(lits)->Err_0) && forall|j: int|
                0 <= j < i ==> parse_hex_color(#[trigger] lits[j]) is Ok,
    decreases lits.len(),
{
    if lits.len() > 0 {
        let init = lits.drop_last();
        lemma_list_reads_each(init);
        assert forall|i: int| 0 <= i < init.len() implies #[trigger] init[i] == lits[i] by {}
        if parse_hex_list(init) is Err {
            let i = choose|i: int|
                0 <= i < init.len() && parse_hex_color(#[trigger] init[i]) == Err::<
                    Color,
                    IrodzukiErrorView,
                >(parse_hex_list(init)->Err_0) && forall|j: int|
                    0 <= j < i ==> parse_hex_color(#[trigger] init[j]) is Ok;
            assert(lits[i] == init[i]);
            assert forall|j: int| 0 <= j < i implies parse_hex_color(#[trigger] lits[j]) is Ok by {
                assert(lits[j] == init[j]);
            }
        } else if parse_hex_color(lits.last()) is Err {
            let i = lits.len() - 1;
            assert(lits[i] == lits.last());
            assert forall|j: int| 0 <= j < i implies parse_hex_color(#[trigger] lits[j]) is Ok by {
                assert(lits[j] == init[j]);
            }
        } else {
            assert forall|i: int| 0 <= i < lits.len() implies #[trigger] parse_hex_list(lits)->Ok_0[i]
                == parse_hex_color(lits[i])->Ok_0 by {
                if i < lits.len() - 1 {
                    assert(lits[i] == init[i]);
                }
            }
            assert forall|i: int| 0 <= i < lits.len() implies parse_hex_color(#[trigger] lits[i]) is Ok by {
                if i < lits.len() - 1 {
                    assert(lits[i] == init[i]);
                }
            }
        }
    }
}

/// `lemma_list_reads_each` on the literals of a table, indexed by the table.
pub proof fn lemma_table_reads_each(table: [&str; 16])
    ensures
        literal_views(table).len() == 16,
        forall|i: int| 0 <= i < 16 ==> #[trigger] literal_views(table)[i] == table@[i]@,
        parse_hex_list(literal_views(table)) is Ok <==> forall|i: int|
            0 <= i < 16 ==> parse_hex_color(#[trigger] table@[i]@) is Ok,
        parse_hex_list(literal_views(table)) is Ok ==> parse_hex_list(literal_views(table))->Ok_0.len() == 16,
        parse_hex_list(literal_views(table)) is Ok ==> forall|i: int|
            0 <= i < 16 ==> #[trigger] parse_hex_list(literal_views(table))->Ok_0[i] == parse_hex_color(
                table@[i]@,
            )->Ok_0,
        parse_hex_list(literal_views(table)) is Err ==> exists|i: int|
            0 <= i < 16 && parse_hex_color(#[trigger] table@[i]@) == Err::<Color, IrodzukiErrorView>(
                parse_hex_list(literal_views(table))->Err_0,
            ) && forall|j: int| 0 <= j < i ==> parse_hex_color(#[trigger] table@[j]@) is Ok,
{
    let lits = literal_views(table);
    lemma_list_reads_each(lits);
    assert forall|i: int| 0 <= i < 16 implies #[trigger] lits[i] == table@[i]@ by {}
    if parse_hex_list(lits) is Err {
        let i = choose|i: int|
            0 <= i < lits.len() && parse_hex_color(#[trigger] lits[i]) == Err::<
                Color,
                IrodzukiErrorView,
            >(parse_hex_list(lits)->Err_0) && forall|j: int|
                0 <= j < i ==> parse_hex_color(#[trigger] lits[j]) is Ok;
        assert(lits[i] == table@[i]@);
        assert forall|j: int| 0 <= j < i implies parse_hex_color(#[trigger] table@[j]@) is Ok by {
            assert(lits[j] == table@[j]@);
        }
    }
    if parse_hex_list(lits) is Ok {
        assert forall|i: int| 0 <= i < 16 implies #[trigger] parse_hex_list(lits)->Ok_0[i]
            == parse_hex_color(table@[i]@)->Ok_0 by {
            assert(lits[i] == table@[i]@);
        }
    }
    assert((forall|i: int| 0 <= i < lits.len() ==> parse_hex_color(#[trigger] lits[i]) is Ok) <==> (
    forall|i: int| 0 <= i < 16 ==> parse_hex_color(#[trigger] table@[i]@) is Ok)) by {
        if forall|i: int| 0 <= i < 16 ==> parse_hex_color(#[trigger] table@[i]@) is Ok {
            assert forall|i: int| 0 <= i < lits.len() implies parse_hex_color(#[trigger] lits[i]) is Ok by {
                assert(lits[i] == table@[i]@);
            }
        }
        if forall|i: int| 0 <= i < lits.len() ==> parse_hex_color(#[trigger] lits[i]) is Ok {
            assert forall|i: int| 0 <= i < 16 implies parse_hex_color(#[trigger] table@[i]@) is Ok by {
                assert(lits[i] == table@[i]@);
            }
        }
    }
}

/// A complete base16 color scheme with semantic aliases.
#[derive(Debug, Clone)]
pub struct ColorScheme {
    pub name: String,
    pub author: String,
    // Base16 palette
    pub base00: Color,  // default bg
    pub base01: Color,  // lighter bg
    pub base02: Color,  // selection bg
    pub base03: Color,  // comments
    pub base04: Color,  // dark fg
    pub base05: Color,  // default fg
    pub base06: Color,  // light fg
    pub base07: Color,  // lightest fg
    pub base08: Color,  // red
    pub base09: Color,  // orange
    pub base0a: Color,  // yellow
    pub base0b: Color,  // green
    pub base0c: Color,  // cyan
    pub base0d: Color,  // blue
    pub base0e: Color,  // purple
    pub base0f: Color,  // brown
    /// Curated 16-color ANSI palette override. When `Some`, `to_ansi_colors()` returns
    /// it directly instead of the base16-derived mapping; `None` falls back to that
    /// derivation.
    pub ansi_palette: Option<[Color; 16]>,
}

/// The semantic colours of a scheme in the shape of an egaku theme, in any colour type.
#[derive(Debug, Clone, Copy)]
pub struct EgakuTheme<C> {
    pub base00: C,
    pub base01: C,
    pub base02: C,
    pub base03: C,
    pub base04: C,
    pub base05: C,
    pub base06: C,
    pub base07: C,
    pub base08: C,
    pub base09: C,
    pub base0a: C,
    pub base0b: C,
    pub base0c: C,
    pub base0d: C,
    pub base0e: C,
    pub base0f: C,
    pub background: C,
    pub foreground: C,
    pub accent: C,
    pub error: C,
    pub warning: C,
    pub success: C,
    pub selection: C,
    pub muted: C,
    pub border: C,
    /// Spacing unit, in pixels.
    pub spacing: u32,
    /// Font size, in points.
    pub font_size: u32,
}

/// The egaku theme of sixteen base colours: the base colours in slot order, then
/// background = base00, foreground = base05, accent = base0D, error = base08,
/// warning = base0A, success = base0B, selection = base02, muted = base03,
/// border = base01; spacing 8 and font size 14.
pub open spec fn egaku_theme_of<C>(base16: Seq<C>) -> EgakuTheme<C> {
    EgakuTheme {
        base00: base16[0],
        base01: base16[1],
        base02: base16[2],
        base03: base16[3],
        base04: base16[4],
        base05: base16[5],
        base06: base16[6],
        base07: base16[7],
        base08: base16[8],
        base09: base16[9],
        base0a: base16[10],
        base0b: base16[11],
        base0c: base16[12],
        base0d: base16[13],
        base0e: base16[14],
        base0f: base16[15],
        background: base16[0],
        foreground: base16[5],
        accent: base16[13],
        error: base16[8],
        warning: base16[10],
        success: base16[11],
        selection: base16[2],
        muted: base16[3],
        border: base16[1],
        spacing: 8,
        font_size: 14,
    }
}

/// The ANSI colours (8 normal, 8 bright) of sixteen base colours and an optional override:
/// the override when there is one, else black, red, green, yellow, blue, magenta, cyan,
/// white from base00, 08, 0B, 0A, 0D, 0E, 0C, 05, and their bright forms from
/// base03, 08, 0B, 0A, 0D, 0E, 0C, 07.
pub open spec fn ansi_mapping<C>(base16: Seq<C>, palette: Option<[C; 16]>) -> Seq<C> {
    match palette {
        Some(p) => p@,
        None => seq![
            base16[0], base16[8], base16[11], base16[10],
            base16[13], base16[14], base16[12], base16[5],
            base16[3], base16[8], base16[11], base16[10],
            base16[13], base16[14], base16[12], base16[7],
        ],
    }
}

impl<C: Copy> EgakuTheme<C> {
    /// The egaku theme of sixteen base colours (see `egaku_theme_of`).
    pub fn from_base16(base16: &[C; 16]) -> (t: Self)
        ensures
            t == egaku_theme_of(base16@),
    {
        EgakuTheme {
            base00: base16[0],
            base01: base16[1],
            base02: base16[2],
            base03: base16[3],
            base04: base16[4],
            base05: base16[5],
            base06: base16[6],
            base07: base16[7],
            base08: base16[8],
            base09: base16[9],
            base0a: base16[10],
            base0b: base16[11],
            base0c: base16[12],
            base0d: base16[13],
            base0e: base16[14],
            base0f: base16[15],
            background: base16[0],
            foreground: base16[5],
            accent: base16[13],
            error: base16[8],
            warning: base16[10],
            success: base16[11],
            selection: base16[2],
            muted: base16[3],
            border: base16[1],
            spacing: 8,
            font_size: 14,
        }
    }
}

/// The ANSI colours of sixteen base colours and an optional override (see `ansi_mapping`).
pub fn ansi_colors_from<C: Copy>(base16: &[C; 16], palette: &Option<[C; 16]>) -> (a: [C; 16])
    ensures
        a@ == ansi_mapping(base16@, *palette),
{
    match palette {
        Some(p) => *p,
        None => {
            let a = [
                // Normal colors (0-7)
                base16[0],  // black
                base16[8],  // red
                base16[11],  // green
                base16[10],  // yellow
                base16[13],  // blue
                base16[14],  // magenta
                base16[12],  // cyan
                base16[5],  // white
                // Bright colors (8-15)
                base16[3],  // bright black
                base16[8],  // bright red
                base16[11],  // bright green
                base16[10],  // bright yellow
                base16[13],  // bright blue
                base16[14],  // bright magenta
                base16[12],  // bright cyan
                base16[7],  // bright white
            ];
            assert(a@ =~= ansi_mapping(base16@, *palette));
            a
        },
    }
}

impl ColorScheme {
    /// The sixteen base colours, `base00` first.
    pub open spec fn base16(&self) -> Seq<Color> {
        seq![
            self.base00, self.base01, self.base02, self.base03,
            self.base04, self.base05, self.base06, self.base07,
            self.base08, self.base09, self.base0a, self.base0b,
            self.base0c, self.base0d, self.base0e, self.base0f,
        ]
    }

    /// The sixteen ANSI colours of the scheme: its override when there is one, else the
    /// mapping from its base colours (see `ansi_mapping`).
    pub open spec fn ansi_colors(&self) -> Seq<Color> {
        ansi_mapping(self.base16(), self.ansi_palette)
    }

    /// The sixteen base colours as a table, `base00` first.
    pub fn base16_array(&self) -> (a: [Color; 16])
        ensures
            a@ == self.base16(),
    {
        let a = [
            self.base00, self.base01, self.base02, self.base03,
            self.base04, self.base05, self.base06, self.base07,
            self.base08, self.base09, self.base0a, self.base0b,
            self.base0c, self.base0d, self.base0e, self.base0f,
        ];
        assert(a@ =~= self.base16());
        a
    }

    /// Get a color by base16 slot.
    pub fn get(&self, slot: Base16Slot) -> (c: Color)
        ensures
            c == self.base16()[slot.position()],
            slot == Base16Slot::Base00 ==> c == self.base00,
            slot == Base16Slot::Base01 ==> c == self.base01,
            slot == Base16Slot::Base02 ==> c == self.base02,
            slot == Base16Slot::Base03 ==> c == self.base03,
            slot == Base16Slot::Base04 ==> c == self.base04,
            slot == Base16Slot::Base05 ==> c == self.base05,
            slot == Base16Slot::Base06 ==> c == self.base06,
            slot == Base16Slot::Base07 ==> c == self.base07,
            slot == Base16Slot::Base08 ==> c == self.base08,
            slot == Base16Slot::Base09 ==> c == self.base09,
            slot == Base16Slot::Base0A ==> c == self.base0a,
            slot == Base16Slot::Base0B ==> c == self.base0b,
            slot == Base16Slot::Base0C ==> c == self.base0c,
            slot == Base16Slot::Base0D ==> c == self.base0d,
            slot == Base16Slot::Base0E ==> c == self.base0e,
            slot == Base16Slot::Base0F ==> c == self.base0f,
    {
        match slot {
            Base16Slot::Base00 => self.base00,
            Base16Slot::Base01 => self.base01,
            Base16Slot::Base02 => self.base02,
            Base16Slot::Base03 => self.base03,
            Base16Slot::Base04 => self.base04,
            Base16Slot::Base05 => self.base05,
            Base16Slot::Base06 => self.base06,
            Base16Slot::Base07 => self.base07,
            Base16Slot::Base08 => self.base08,
            Base16Slot::Base09 => self.base09,
            Base16Slot::Base0A => self.base0a,
            Base16Slot::Base0B => self.base0b,
            Base16Slot::Base0C => self.base0c,
            Base16Slot::Base0D => self.base0d,
            Base16Slot::Base0E => self.base0e,
            Base16Slot::Base0F => self.base0f,
        }
    }

    /// Parse from 16 hex strings.
    pub fn from_hex_array(name: &str, colors: &[&str; 16]) -> (res: Result<Self>)
        requires
            hex_list_reads(literal_views(*colors)),
        ensures
            res matches Ok(s) ==> parse_hex_list(literal_views(*colors)) == Ok::<
                Seq<Color>,
                IrodzukiErrorView,
            >(s.base16()),
            res matches Err(e) ==> parse_hex_list(literal_views(*colors)) == Err::<
                Seq<Color>,
                IrodzukiErrorView,
            >(e@),
            res matches Ok(s) ==> {
                &&& s.name@ == name@
                &&& s.author@ == Seq::<char>::empty()
                &&& s.ansi_palette is None
            },
            // Field `baseXY` holds the colour of literal number `XY`.
            res matches Ok(s) ==> {
                &&& s.base00 == parse_hex_color(colors@[0]@)->Ok_0
                &&& s.base01 == parse_hex_color(colors@[1]@)->Ok_0
                &&& s.base02 == parse_hex_color(colors@[2]@)->Ok_0
                &&& s.base03 == parse_hex_color(colors@[3]@)->Ok_0
                &&& s.base04 == parse_hex_color(colors@[4]@)->Ok_0
                &&& s.base05 == parse_hex_color(colors@[5]@)->Ok_0
                &&& s.base06 == parse_hex_color(colors@[6]@)->Ok_0
                &&& s.base07 == parse_hex_color(colors@[7]@)->Ok_0
                &&& s.base08 == parse_hex_color(colors@[8]@)->Ok_0
                &&& s.base09 == parse_hex_color(colors@[9]@)->Ok_0
                &&& s.base0a == parse_hex_color(colors@[10]@)->Ok_0
                &&& s.base0b == parse_hex_color(colors@[11]@)->Ok_0
                &&& s.base0c == parse_hex_color(colors@[12]@)->Ok_0
                &&& s.base0d == parse_hex_color(colors@[13]@)->Ok_0
                &&& s.base0e == parse_hex_color(colors@[14]@)->Ok_0
                &&& s.base0f == parse_hex_color(colors@[15]@)->Ok_0
            },
            // The scheme is built exactly when every literal reads; otherwise the error is that of
            // the first literal that does not.
            res is Ok <==> forall|i: int| 0 <= i < 16 ==> parse_hex_color(#[trigger] colors@[i]@) is Ok,
            res matches Err(e) ==> exists|i: int|
                0 <= i < 16 && parse_hex_color(#[trigger] colors@[i]@) == Err::<Color, IrodzukiErrorView>(
                    e@,
                ) && forall|j: int| 0 <= j < i ==> parse_hex_color(#[trigger] colors@[j]@) is Ok,
    {
        let cs = match parse_color_table(colors) {
            Ok(cs) => cs,
            Err(e) => return Err(e),
        };
        let s = ColorScheme {
            name: String::from_str(name),
            author: String::new(),
            base00: cs[0],
            base01: cs[1],
            base02: cs[2],
            base03: cs[3],
            base04: cs[4],
            base05: cs[5],
            base06: cs[6],
            base07: cs[7],
            base08: cs[8],
            base09: cs[9],
            base0a: cs[10],
            base0b: cs[11],
            base0c: cs[12],
            base0d: cs[13],
            base0e: cs[14],
            base0f: cs[15],
            ansi_palette: None,
        };
        assert(s.base16() =~= cs@);
        Ok(s)
    }
}

impl ColorScheme {
    /// Same as [`from_hex_array`] but additionally attaches a curated 16-color ANSI palette
    /// override (8 normal + 8 bright).
    pub fn from_hex_array_with_ansi(name: &str, base16: &[&str; 16], ansi: &[&str; 16]) -> (res:
        Result<Self>)
        requires
            hex_list_reads(literal_views(*base16)),
            parse_hex_list(literal_views(*base16)) is Ok ==> hex_list_reads(literal_views(*ansi)),
        ensures
            res matches Ok(s) ==> {
                &&& s.ansi_palette is Some
                &&& parse_base16_and_ansi(literal_views(*base16), literal_views(*ansi)) == Ok::<
                    (Seq<Color>, Seq<Color>),
                    IrodzukiErrorView,
                >((s.base16(), s.ansi_palette->0@))
                &&& s.name@ == name@
                &&& s.author@ == Seq::<char>::empty()
            },
            res matches Err(e) ==> parse_base16_and_ansi(literal_views(*base16), literal_views(*ansi))
                == Err::<(Seq<Color>, Seq<Color>), IrodzukiErrorView>(e@),
            // Field `baseXY` holds the colour of base16 literal number `XY`, and ANSI colour
            // number `i` is what ANSI literal number `i` reads as.
            res matches Ok(s) ==> {
                &&& s.base00 == parse_hex_color(base16@[0]@)->Ok_0
                &&& s.base01 == parse_hex_color(base16@[1]@)->Ok_0
                &&& s.base02 == parse_hex_color(base16@[2]@)->Ok_0
                &&& s.base03 == parse_hex_color(base16@[3]@)->Ok_0
                &&& s.base04 == parse_hex_color(base16@[4]@)->Ok_0
                &&& s.base05 == parse_hex_color(base16@[5]@)->Ok_0
                &&& s.base06 == parse_hex_color(base16@[6]@)->Ok_0
                &&& s.base07 == parse_hex_color(base16@[7]@)->Ok_0
                &&& s.base08 == parse_hex_color(base16@[8]@)->Ok_0
                &&& s.base09 == parse_hex_color(base16@[9]@)->Ok_0
                &&& s.base0a == parse_hex_color(base16@[10]@)->Ok_0
                &&& s.base0b == parse_hex_color(base16@[11]@)->Ok_0
                &&& s.base0c == parse_hex_color(base16@[12]@)->Ok_0
                &&& s.base0d == parse_hex_color(base16@[13]@)->Ok_0
                &&& s.base0e == parse_hex_color(base16@[14]@)->Ok_0
                &&& s.base0f == parse_hex_color(base16@[15]@)->Ok_0
                &&& s.ansi_palette->0@.len() == 16
                &&& forall|i: int|
                    0 <= i < 16 ==> #[trigger] s.ansi_palette->0@[i] == parse_hex_color(ansi@[i]@)->Ok_0
            },
            // The scheme is built exactly when every literal of both tables reads; otherwise the
            // error is that of the first base16 literal that does not read, or, when they all
            // read, of the first ANSI literal that does not.
            res is Ok <==> (forall|i: int| 0 <= i < 16 ==> parse_hex_color(#[trigger] base16@[i]@) is Ok)
                && (forall|i: int| 0 <= i < 16 ==> parse_hex_color(#[trigger] ansi@[i]@) is Ok),
            res matches Err(e) ==> (exists|i: int|
                0 <= i < 16 && parse_hex_color(#[trigger] base16@[i]@) == Err::<Color, IrodzukiErrorView>(
                    e@,
                ) && forall|j: int| 0 <= j < i ==> parse_hex_color(#[trigger] base16@[j]@) is Ok) || (
            (forall|j: int| 0 <= j < 16 ==> parse_hex_color(#[trigger] base16@[j]@) is Ok) && exists|i: int|
                0 <= i < 16 && parse_hex_color(#[trigger] ansi@[i]@) == Err::<Color, IrodzukiErrorView>(
                    e@,
                ) && forall|j: int| 0 <= j < i ==> parse_hex_color(#[trigger] ansi@[j]@) is Ok),
    {
        let mut scheme = Self::from_hex_array(name, base16)?;
        let palette = parse_color_table(ansi)?;
        scheme.ansi_palette = Some(palette);
        Ok(scheme)
    }

    /// Whether this is a dark scheme (base00 background is dark).
    pub fn is_dark(&self) -> (d: bool)
        ensures
            d == color_is_dark(self.base00),
    {
        self.base00.is_dark()
    }

    /// ANSI terminal color mapping: 16 colors, 8 normal + 8 bright. Prefers the curated
    /// `ansi_palette` override when set; otherwise derives the colours from base16.
    pub fn to_ansi_colors(&self) -> (a: [Color; 16])
        ensures
            a@ == self.ansi_colors(),
            self.ansi_palette matches Some(p) ==> a == p,
            // Without an override: black, red, green, yellow, blue, magenta, cyan, white,
            // then their bright forms.
            self.ansi_palette is None ==> {
                &&& a@[0] == self.base00
                &&& a@[1] == self.base08
                &&& a@[2] == self.base0b
                &&& a@[3] == self.base0a
                &&& a@[4] == self.base0d
                &&& a@[5] == self.base0e
                &&& a@[6] == self.base0c
                &&& a@[7] == self.base05
                &&& a@[8] == self.base03
                &&& a@[9] == self.base08
                &&& a@[10] == self.base0b
                &&& a@[11] == self.base0a
                &&& a@[12] == self.base0d
                &&& a@[13] == self.base0e
                &&& a@[14] == self.base0c
                &&& a@[15] == self.base07
            },
    {
        ansi_colors_from(&self.base16_array(), &self.ansi_palette)
    }

    /// The scheme's colours in the shape of an egaku theme: the sixteen base colours, then
    /// background = base00, foreground = base05, accent = base0D, error = base08,
    /// warning = base0A, success = base0B, selection = base02, muted = base03,
    /// border = base01; spacing 8 and font size 14.
    pub fn to_egaku_theme(&self) -> (t: EgakuTheme<Color>)
        ensures
            t.base00 == self.base00 && t.base01 == self.base01 && t.base02 == self.base02
                && t.base03 == self.base03,
            t.base04 == self.base04 && t.base05 == self.base05 && t.base06 == self.base06
                && t.base07 == self.base07,
            t.base08 == self.base08 && t.base09 == self.base09 && t.base0a == self.base0a
                && t.base0b == self.base0b,
            t.base0c == self.base0c && t.base0d == self.base0d && t.base0e == self.base0e
                && t.base0f == self.base0f,
            t.background == self.base00,
            t.foreground == self.base05,
            t.accent == self.base0d,
            t.error == self.base08,
            t.warning == self.base0a,
            t.success == self.base0b,
            t.selection == self.base02,
            t.muted == self.base03,
            t.border == self.base01,
            t.spacing == 8,
            t.font_size == 14,
    {
        EgakuTheme::from_base16(&self.base16_array())
    }
}

/// Reads sixteen colour literals in order; the first that does not read gives the error.
fn parse_color_table(colors: &[&str; 16]) -> (res: Result<[Color; 16]>)
    requires
        hex_list_reads(literal_views(*colors)),
    ensures
        res matches Ok(a) ==> parse_hex_list(literal_views(*colors)) == Ok::<
            Seq<Color>,
            IrodzukiErrorView,
        >(a@),
        res matches Err(e) ==> parse_hex_list(literal_views(*colors)) == Err::<
            Seq<Color>,
            IrodzukiErrorView,
        >(e@),
        res is Ok <==> forall|i: int| 0 <= i < 16 ==> parse_hex_color(#[trigger] colors@[i]@) is Ok,
        res matches Ok(a) ==> forall|i: int|
            0 <= i < 16 ==> #[trigger] a@[i] == parse_hex_color(colors@[i]@)->Ok_0,
        res matches Err(e) ==> exists|i: int|
            0 <= i < 16 && parse_hex_color(#[trigger] colors@[i]@) == Err::<Color, IrodzukiErrorView>(
                e@,
            ) && forall|j: int| 0 <= j < i ==> parse_hex_color(#[trigger] colors@[j]@) is Ok,
{
    proof {
        lemma_table_reads_each(*colors);
    }
    read_color_table(colors)
}

/// The reading loop of `parse_color_table`, stated over the list of literals.
fn read_color_table(colors: &[&str; 16]) -> (res: Result<[Color; 16]>)
    requires
        hex_list_reads(literal_views(*colors)),
    ensures
        res matches Ok(a) ==> parse_hex_list(literal_views(*colors)) == Ok::<
            Seq<Color>,
            IrodzukiErrorView,
        >(a@),
        res matches Err(e) ==> parse_hex_list(literal_views(*colors)) == Err::<
            Seq<Color>,
            IrodzukiErrorView,
        >(e@),
{
    let ghost lits = literal_views(*colors);
    let mut out = [Color { r: 0, g: 0, b: 0, a: 255 }; 16];
    let mut i: usize = 0;
    assert(lits.take(0) =~= Seq::<Seq<char>>::empty());
    assert(out@.take(0) =~= Seq::<Color>::empty());
    while i < 16
        invariant
            i <= 16,
            lits == literal_views(*colors),
            lits.len() == 16,
            hex_list_reads(lits),
            hex_list_reads(lits.take(i as int)),
            parse_hex_list(lits.take(i as int)) == Ok::<Seq<Color>, IrodzukiErrorView>(out@.take(i as int)),
        decreases 16 - i,
    {
        let ghost prefix = lits.take(i as int);
        let ghost next = lits.take(i + 1);
        assert(next.drop_last() =~= prefix);
        assert(next.last() == colors[i as int]@);
        proof {
            lemma_reads_prefix(lits, i + 1);
        }
        let c = Color::from_hex(colors[i]);
        match c {
            Ok(c) => {
                let ghost before = out@;
                out[i] = c;
                assert(out@.take(i as int) =~= before.take(i as int));
                assert(out@.take(i + 1) =~= out@.take(i as int).push(c));
            },
            Err(e) => {
                proof {
                    lemma_error_prefix(lits, i + 1);
                }
                return Err(e);
            },
        }
        i += 1;
    }
    assert(lits.take(16) =~= lits);
    assert(out@.take(16) =~= out@);
    Ok(out)
}

/// Whether reading the sixteen literals in order, as `from_hex_array` does, never reaches
/// one that cuts a multi-byte character (the condition those constructors need).
pub fn hex_table_reads(colors: &[&str; 16]) -> (r: bool)
    ensures
        r == hex_list_reads(literal_views(*colors)),
{
    let ghost lits = literal_views(*colors);
    let mut i: usize = 0;
    assert(lits.take(0) =~= Seq::<Seq<char>>::empty());
    while i < 16
        invariant
            i <= 16,
            lits == literal_views(*colors),
            lits.len() == 16,
            hex_list_reads(lits.take(i as int)),
            parse_hex_list(lits.take(i as int)) is Ok,
        decreases 16 - i,
    {
        let ghost next = lits.take(i + 1);
        assert(next.drop_last() =~= lits.take(i as int));
        assert(next.last() == colors[i as int]@);
        if Color::from_hex_panics(colors[i]) {
            proof {
                if hex_list_reads(lits) {
                    lemma_reads_prefix(lits, i + 1);
                }
            }
            return false;
        }
        if Color::from_hex(colors[i]).is_err() {
            proof {
                lemma_reads_after_error(lits, i + 1);
            }
            return true;
        }
        i += 1;
    }
    assert(lits.take(16) =~= lits);
    true
}

/// Once a prefix reads in order and fails, the whole list reads in order: nothing after
/// the failure is reached.
proof fn lemma_reads_after_error(lits: Seq<Seq<char>>, n: int)
    requires
        0 <= n <= lits.len(),
        hex_list_reads(lits.take(n)),
        parse_hex_list(lits.take(n)) is Err,
    ensures
        hex_list_reads(lits),
    decreases lits.len() - n,
{
    if n < lits.len() {
        assert(lits.take(n + 1).drop_last() =~= lits.take(n));
        lemma_reads_after_error(lits, n + 1);
    } else {
        assert(lits.take(n) =~= lits);
    }
}

/// A list that reads in order reads in order up to any point.
proof fn lemma_reads_prefix(lits: Seq<Seq<char>>, n: int)
    requires
        hex_list_reads(lits),
        0 <= n <= lits.len(),
    ensures
        hex_list_reads(lits.take(n)),
    decreases lits.len() - n,
{
    if n < lits.len() {
        lemma_reads_prefix(lits, n + 1);
        assert(lits.take(n + 1).drop_last() =~= lits.take(n));
    } else {
        assert(lits.take(n) =~= lits);
    }
}

/// Once a prefix of the list fails to read, the whole list fails with the same error.
proof fn lemma_error_prefix(lits: Seq<Seq<char>>, n: int)
    requires
        0 <= n <= lits.len(),
        parse_hex_list(lits.take(n)) is Err,
    ensures
        parse_hex_list(lits) == parse_hex_list(lits.take(n)),
    decreases lits.len() - n,
{
    if n < lits.len() {
        assert(lits.take(n + 1).drop_last() =~= lits.take(n));
        lemma_error_prefix(lits, n + 1);
    } else {
        assert(lits.take(n) =~= lits);
    }
}

} // verus!

verus! {

/// `s` is the default scheme: the `nord` preset's colours (its base16 table and its
/// official ANSI override), presented as "Nord" by "Arctic Ice Studio".
pub open spec fn is_default_scheme(s: ColorScheme) -> bool {
    &&& s.name@ == "Nord"@
    &&& s.author@ == "Arctic Ice Studio"@
    &&& s.ansi_palette is Some
    &&& parse_hex_list(literal_views(crate::presets::NORD_BASE16)) == Ok::<
        Seq<Color>,
        IrodzukiErrorView,
    >(s.base16())
    &&& parse_hex_list(literal_views(crate::presets::NORD_ANSI)) == Ok::<
        Seq<Color>,
        IrodzukiErrorView,
    >(s.ansi_palette->0@)
}

impl Default for ColorScheme {
    /// The default scheme IS the `nord` preset's colours, derived from the same tables,
    /// never re-typed; only the name and author differ.
    fn default() -> (s: Self)
        ensures
            is_default_scheme(s),
    {
        let p = crate::presets::nord();
        ColorScheme {
            name: String::from_str("Nord"),
            author: String::from_str("Arctic Ice Studio"),
            ..p
        }
    }
}

/// The default scheme and the `nord` preset agree on all sixteen base colours and on the
/// ANSI colours they give a terminal.
pub proof fn lemma_default_is_nord(d: ColorScheme, p: ColorScheme)
    requires
        is_default_scheme(d),
        crate::presets::built_from_tables(
            p,
            "nord"@,
            crate::presets::NORD_BASE16,
            crate::presets::NORD_ANSI,
        ),
    ensures
        d.base16() == p.base16(),
        d.ansi_colors() == p.ansi_colors(),
{
}

} // verus!

verus! {

impl From<[u8; 4]> for Color {
    fn from(arr: [u8; 4]) -> (c: Self)
        ensures
            c.r == arr@[0] && c.g == arr@[1] && c.b == arr@[2] && c.a == arr@[3],
    {
        Color { r: arr[0], g: arr[1], b: arr[2], a: arr[3] }
    }
}

impl vstd::std_specs::convert::FromSpecImpl<[u8; 4]> for Color {
    open spec fn obeys_from_spec() -> bool {
        true
    }

    open spec fn from_spec(arr: [u8; 4]) -> Color {
        Color { r: arr@[0], g: arr@[1], b: arr@[2], a: arr@[3] }
    }
}

impl From<Color> for [u8; 4] {
    fn from(c: Color) -> (arr: Self)
        ensures
            arr@ == seq![c.r, c.g, c.b, c.a],
    {
        c.to_array()
    }
}

impl vstd::std_specs::convert::FromSpecImpl<Color> for [u8; 4] {
    open spec fn obeys_from_spec() -> bool {
        true
    }

    open spec fn from_spec(c: Color) -> [u8; 4] {
        [c.r, c.g, c.b, c.a]
    }
}

} // verus!
