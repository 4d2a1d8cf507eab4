//! Built-in `ColorScheme` presets: terminal-emulator-grade themes with curated 16-color
//! ANSI palettes alongside the base16 slot values. Each constructor reads static hex
//! tables and returns an owned `ColorScheme` whose ANSI override is the upstream table.
use vstd::prelude::*;

use crate::error::{IrodzukiErrorView, Result};
use crate::scheme::{
    Color, ColorScheme, hex_list_reads, lemma_six_hex_digits, literal_views, parse_base16_and_ansi,
    parse_hex_color, parse_hex_list, six_hex_digits,
};

verus! {

/// `s` is the scheme named `name` read from the tables `base16` and `ansi`: no author, the
/// base colours are the base16 table read in order, and the ANSI override is the ANSI table.
pub open spec fn built_from_tables(s: ColorScheme, name: Seq<char>, base16: [&str; 16], ansi: [&str; 16]) -> bool {
    &&& s.name@ == name
    &&& s.author@ == Seq::<char>::empty()
    &&& s.ansi_palette is Some
    &&& parse_hex_list(literal_views(base16)) == Ok::<Seq<Color>, IrodzukiErrorView>(s.base16())
    &&& parse_hex_list(literal_views(ansi)) == Ok::<Seq<Color>, IrodzukiErrorView>(s.ansi_palette->0@)
}

/// Every literal of the table is six hexadecimal digits.
pub open spec fn table_is_hex(table: [&str; 16]) -> bool {
    forall|i: int| 0 <= i < 16 ==> six_hex_digits(#[trigger] table@[i]@)
}

/// A list of six-digit literals reads in order, and reads without error.
proof fn lemma_hex_list_reads(lits: Seq<Seq<char>>)
    requires
        forall|i: int| 0 <= i < lits.len() ==> six_hex_digits(#[trigger] lits[i]),
    ensures
        hex_list_reads(lits),
        parse_hex_list(lits) is Ok,
    decreases lits.len(),
{
    if lits.len() > 0 {
        let init = lits.drop_last();
        assert forall|i: int| 0 <= i < init.len() implies six_hex_digits(#[trigger] init[i]) by {
            assert(init[i] == lits[i]);
        }
        lemma_hex_list_reads(init);
        lemma_six_hex_digits(lits.last());
    }
}

/// A table of six-digit literals reads in order, and reads without error.
proof fn lemma_table_reads(table: [&str; 16])
    requires
        table_is_hex(table),
    ensures
        hex_list_reads(literal_views(table)),
        parse_hex_list(literal_views(table)) is Ok,
{
    let lits = literal_views(table);
    assert forall|i: int| 0 <= i < lits.len() implies six_hex_digits(#[trigger] lits[i]) by {
        assert(lits[i] == table@[i]@);
    }
    lemma_hex_list_reads(lits);
}

fn build(name: &str, base16: &[&str; 16], ansi: &[&str; 16]) -> (res: Result<ColorScheme>)
    requires
        table_is_hex(*base16),
        table_is_hex(*ansi),
    ensures
        res matches Ok(s) && built_from_tables(s, name@, *base16, *ansi),
{
    proof {
        lemma_table_reads(*base16);
        lemma_table_reads(*ansi);
    }
    ColorScheme::from_hex_array_with_ansi(name, base16, ansi)
}

pub const NORD_BASE16: [&'static str; 16] = [
    "2E3440", "3B4252", "434C5E", "4C566A",
    "D8DEE9", "E5E9F0", "ECEFF4", "8FBCBB",
    "BF616A", "D08770", "EBCB8B", "A3BE8C",
    "88C0D0", "81A1C1", "B48EAD", "5E81AC",
];

pub const NORD_ANSI: [&'static str; 16] = [
    "3B4252", "BF616A", "A3BE8C", "EBCB8B",
    "5E81AC", "B48EAD", "88C0D0", "E5E9F0",
    "4C566A", "BF616A", "A3BE8C", "EBCB8B",
    "81A1C1", "B48EAD", "8FBCBB", "ECEFF4",
];

proof fn lemma_nord_tables()
    ensures
        table_is_hex(NORD_BASE16),
        table_is_hex(NORD_ANSI),
{
    reveal_strlit("2E3440");
    reveal_strlit("3B4252");
    reveal_strlit("434C5E");
    reveal_strlit("4C566A");
    reveal_strlit("5E81AC");
    reveal_strlit("81A1C1");
    reveal_strlit("88C0D0");
    reveal_strlit("8FBCBB");
    reveal_strlit("A3BE8C");
    reveal_strlit("B48EAD");
    reveal_strlit("BF616A");
    reveal_strlit("D08770");
    reveal_strlit("D8DEE9");
    reveal_strlit("E5E9F0");
    reveal_strlit("EBCB8B");
    reveal_strlit("ECEFF4");
    assert(six_hex_digits(NORD_BASE16@[0]@));
    assert(six_hex_digits(NORD_BASE16@[1]@));
    assert(six_hex_digits(NORD_BASE16@[2]@));
    assert(six_hex_digits(NORD_BASE16@[3]@));
    assert(six_hex_digits(NORD_BASE16@[4]@));
    assert(six_hex_digits(NORD_BASE16@[5]@));
    assert(six_hex_digits(NORD_BASE16@[6]@));
    assert(six_hex_digits(NORD_BASE16@[7]@));
    assert(six_hex_digits(NORD_BASE16@[8]@));
    assert(six_hex_digits(NORD_BASE16@[9]@));
    assert(six_hex_digits(NORD_BASE16@[10]@));
    assert(six_hex_digits(NORD_BASE16@[11]@));
    assert(six_hex_digits(NORD_BASE16@[12]@));
    assert(six_hex_digits(NORD_BASE16@[13]@));
    assert(six_hex_digits(NORD_BASE16@[14]@));
    assert(six_hex_digits(NORD_BASE16@[15]@));
    assert(six_hex_digits(NORD_ANSI@[0]@));
    assert(six_hex_digits(NORD_ANSI@[1]@));
    assert(six_hex_digits(NORD_ANSI@[2]@));
    assert(six_hex_digits(NORD_ANSI@[3]@));
    assert(six_hex_digits(NORD_ANSI@[4]@));
    assert(six_hex_digits(NORD_ANSI@[5]@));
    assert(six_hex_digits(NORD_ANSI@[6]@));
    assert(six_hex_digits(NORD_ANSI@[7]@));
    assert(six_hex_digits(NORD_ANSI@[8]@));
    assert(six_hex_digits(NORD_ANSI@[9]@));
    assert(six_hex_digits(NORD_ANSI@[10]@));
    assert(six_hex_digits(NORD_ANSI@[11]@));
    assert(six_hex_digits(NORD_ANSI@[12]@));
    assert(six_hex_digits(NORD_ANSI@[13]@));
    assert(six_hex_digits(NORD_ANSI@[14]@));
    assert(six_hex_digits(NORD_ANSI@[15]@));
}

/// Nord — the arctic, north-bluish palette, with the official terminal ANSI table.
pub fn nord() -> (s: ColorScheme)
    ensures
        built_from_tables(s, "nord"@, NORD_BASE16, NORD_ANSI),
{
    proof {
        lemma_nord_tables();
    }
    build("nord", &NORD_BASE16, &NORD_ANSI).expect("nord hex is valid")
}

pub const DRACULA_BASE16: [&'static str; 16] = [
    "282A36", "44475A", "565664", "78787E",
    "F8F8F2", "F8F8F2", "FFFFFF", "BD93F9",
    "FF5555", "FFB86C", "F1FA8C", "50FA7B",
    "8BE9FD", "6272A4", "FF79C6", "BD93F9",
];

pub const DRACULA_ANSI: [&'static str; 16] = [
    "282A36", "FF5555", "50FA7B", "F1FA8C",
    "BD93F9", "FF79C6", "8BE9FD", "BFBFBF",
    "4D4D4D", "FF6E67", "5AF78E", "F4F99D",
    "CAA9FA", "FF92D0", "9AEDFE", "E6E6E6",
];

proof fn lemma_dracula_tables()
    ensures
        table_is_hex(DRACULA_BASE16),
        table_is_hex(DRACULA_ANSI),
{
    reveal_strlit("282A36");
    reveal_strlit("44475A");
    reveal_strlit("4D4D4D");
    reveal_strlit("50FA7B");
    reveal_strlit("565664");
    reveal_strlit("5AF78E");
    reveal_strlit("6272A4");
    reveal_strlit("78787E");
    reveal_strlit("8BE9FD");
    reveal_strlit("9AEDFE");
    reveal_strlit("BD93F9");
    reveal_strlit("BFBFBF");
    reveal_strlit("CAA9FA");
    reveal_strlit("E6E6E6");
    reveal_strlit("F1FA8C");
    reveal_strlit("F4F99D");
    reveal_strlit("F8F8F2");
    reveal_strlit("FF5555");
    reveal_strlit("FF6E67");
    reveal_strlit("FF79C6");
    reveal_strlit("FF92D0");
    reveal_strlit("FFB86C");
    reveal_strlit("FFFFFF");
    assert(six_hex_digits(DRACULA_BASE16@[0]@));
    assert(six_hex_digits(DRACULA_BASE16@[1]@));
    assert(six_hex_digits(DRACULA_BASE16@[2]@));
    assert(six_hex_digits(DRACULA_BASE16@[3]@));
    assert(six_hex_digits(DRACULA_BASE16@[4]@));
    assert(six_hex_digits(DRACULA_BASE16@[5]@));
    assert(six_hex_digits(DRACULA_BASE16@[6]@));
    assert(six_hex_digits(DRACULA_BASE16@[7]@));
    assert(six_hex_digits(DRACULA_BASE16@[8]@));
    assert(six_hex_digits(DRACULA_BASE16@[9]@));
    assert(six_hex_digits(DRACULA_BASE16@[10]@));
    assert(six_hex_digits(DRACULA_BASE16@[11]@));
    assert(six_hex_digits(DRACULA_BASE16@[12]@));
    assert(six_hex_digits(DRACULA_BASE16@[13]@));
    assert(six_hex_digits(DRACULA_BASE16@[14]@));
    assert(six_hex_digits(DRACULA_BASE16@[15]@));
    assert(six_hex_digits(DRACULA_ANSI@[0]@));
    assert(six_hex_digits(DRACULA_ANSI@[1]@));
    assert(six_hex_digits(DRACULA_ANSI@[2]@));
    assert(six_hex_digits(DRACULA_ANSI@[3]@));
    assert(six_hex_digits(DRACULA_ANSI@[4]@));
    assert(six_hex_digits(DRACULA_ANSI@[5]@));
    assert(six_hex_digits(DRACULA_ANSI@[6]@));
    assert(six_hex_digits(DRACULA_ANSI@[7]@));
    assert(six_hex_digits(DRACULA_ANSI@[8]@));
    assert(six_hex_digits(DRACULA_ANSI@[9]@));
    assert(six_hex_digits(DRACULA_ANSI@[10]@));
    assert(six_hex_digits(DRACULA_ANSI@[11]@));
    assert(six_hex_digits(DRACULA_ANSI@[12]@));
    assert(six_hex_digits(DRACULA_ANSI@[13]@));
    assert(six_hex_digits(DRACULA_ANSI@[14]@));
    assert(six_hex_digits(DRACULA_ANSI@[15]@));
}

/// Dracula.
pub fn dracula() -> (s: ColorScheme)
    ensures
        built_from_tables(s, "dracula"@, DRACULA_BASE16, DRACULA_ANSI),
{
    proof {
        lemma_dracula_tables();
    }
    build("dracula", &DRACULA_BASE16, &DRACULA_ANSI).expect("dracula hex is valid")
}

pub const SOLARIZED_DARK_BASE16: [&'static str; 16] = [
    "002B36", "073642", "586E75", "657B83",
    "839496", "93A1A1", "EEE8D5", "FDF6E3",
    "DC322F", "CB4B16", "B58900", "859900",
    "2AA198", "268BD2", "6C71C4", "D33682",
];

pub const SOLARIZED_DARK_ANSI: [&'static str; 16] = [
    "073642", "DC322F", "859900", "B58900",
    "268BD2", "D33682", "2AA198", "EEE8D5",
    "002B36", "CB4B16", "586E75", "657B83",
    "839496", "6C71C4", "93A1A1", "FDF6E3",
];

proof fn lemma_solarized_dark_tables()
    ensures
        table_is_hex(SOLARIZED_DARK_BASE16),
        table_is_hex(SOLARIZED_DARK_ANSI),
{
    reveal_strlit("002B36");
    reveal_strlit("073642");
    reveal_strlit("268BD2");
    reveal_strlit("2AA198");
    reveal_strlit("586E75");
    reveal_strlit("657B83");
    reveal_strlit("6C71C4");
    reveal_strlit("839496");
    reveal_strlit("859900");
    reveal_strlit("93A1A1");
    reveal_strlit("B58900");
    reveal_strlit("CB4B16");
    reveal_strlit("D33682");
    reveal_strlit("DC322F");
    reveal_strlit("EEE8D5");
    reveal_strlit("FDF6E3");
    assert(six_hex_digits(SOLARIZED_DARK_BASE16@[0]@));
    assert(six_hex_digits(SOLARIZED_DARK_BASE16@[1]@));
    assert(six_hex_digits(SOLARIZED_DARK_BASE16@[2]@));
    assert(six_hex_digits(SOLARIZED_DARK_BASE16@[3]@));
    assert(six_hex_digits(SOLARIZED_DARK_BASE16@[4]@));
    assert(six_hex_digits(SOLARIZED_DARK_BASE16@[5]@));
    assert(six_hex_digits(SOLARIZED_DARK_BASE16@[6]@));
    assert(six_hex_digits(SOLARIZED_DARK_BASE16@[7]@));
    assert(six_hex_digits(SOLARIZED_DARK_BASE16@[8]@));
    assert(six_hex_digits(SOLARIZED_DARK_BASE16@[9]@));
    assert(six_hex_digits(SOLARIZED_DARK_BASE16@[10]@));
    assert(six_hex_digits(SOLARIZED_DARK_BASE16@[11]@));
    assert(six_hex_digits(SOLARIZED_DARK_BASE16@[12]@));
    assert(six_hex_digits(SOLARIZED_DARK_BASE16@[13]@));
    assert(six_hex_digits(SOLARIZED_DARK_BASE16@[14]@));
    assert(six_hex_digits(SOLARIZED_DARK_BASE16@[15]@));
    assert(six_hex_digits(SOLARIZED_DARK_ANSI@[0]@));
    assert(six_hex_digits(SOLARIZED_DARK_ANSI@[1]@));
    assert(six_hex_digits(SOLARIZED_DARK_ANSI@[2]@));
    assert(six_hex_digits(SOLARIZED_DARK_ANSI@[3]@));
    assert(six_hex_digits(SOLARIZED_DARK_ANSI@[4]@));
    assert(six_hex_digits(SOLARIZED_DARK_ANSI@[5]@));
    assert(six_hex_digits(SOLARIZED_DARK_ANSI@[6]@));
    assert(six_hex_digits(SOLARIZED_DARK_ANSI@[7]@));
    assert(six_hex_digits(SOLARIZED_DARK_ANSI@[8]@));
    assert(six_hex_digits(SOLARIZED_DARK_ANSI@[9]@));
    assert(six_hex_digits(SOLARIZED_DARK_ANSI@[10]@));
    assert(six_hex_digits(SOLARIZED_DARK_ANSI@[11]@));
    assert(six_hex_digits(SOLARIZED_DARK_ANSI@[12]@));
    assert(six_hex_digits(SOLARIZED_DARK_ANSI@[13]@));
    assert(six_hex_digits(SOLARIZED_DARK_ANSI@[14]@));
    assert(six_hex_digits(SOLARIZED_DARK_ANSI@[15]@));
}

/// Solarized, dark variant.
pub fn solarized_dark() -> (s: ColorScheme)
    ensures
        built_from_tables(s, "solarized-dark"@, SOLARIZED_DARK_BASE16, SOLARIZED_DARK_ANSI),
{
    proof {
        lemma_solarized_dark_tables();
    }
    build("solarized-dark", &SOLARIZED_DARK_BASE16, &SOLARIZED_DARK_ANSI).expect("solarized-dark hex is valid")
}

pub const SOLARIZED_LIGHT_BASE16: [&'static str; 16] = [
    "FDF6E3", "EEE8D5", "93A1A1", "839496",
    "657B83", "586E75", "073642", "002B36",
    "DC322F", "CB4B16", "B58900", "859900",
    "2AA198", "268BD2", "6C71C4", "D33682",
];

pub const SOLARIZED_LIGHT_ANSI: [&'static str; 16] = [
    "EEE8D5", "DC322F", "859900", "B58900",
    "268BD2", "D33682", "2AA198", "073642",
    "FDF6E3", "CB4B16", "93A1A1", "839496",
    "657B83", "6C71C4", "586E75", "002B36",
];

proof fn lemma_solarized_light_tables()
    ensures
        table_is_hex(SOLARIZED_LIGHT_BASE16),
        table_is_hex(SOLARIZED_LIGHT_ANSI),
{
    reveal_strlit("002B36");
    reveal_strlit("073642");
    reveal_strlit("268BD2");
    reveal_strlit("2AA198");
    reveal_strlit("586E75");
    reveal_strlit("657B83");
    reveal_strlit("6C71C4");
    reveal_strlit("839496");
    reveal_strlit("859900");
    reveal_strlit("93A1A1");
    reveal_strlit("B58900");
    reveal_strlit("CB4B16");
    reveal_strlit("D33682");
    reveal_strlit("DC322F");
    reveal_strlit("EEE8D5");
    reveal_strlit("FDF6E3");
    assert(six_hex_digits(SOLARIZED_LIGHT_BASE16@[0]@));
    assert(six_hex_digits(SOLARIZED_LIGHT_BASE16@[1]@));
    assert(six_hex_digits(SOLARIZED_LIGHT_BASE16@[2]@));
    assert(six_hex_digits(SOLARIZED_LIGHT_BASE16@[3]@));
    assert(six_hex_digits(SOLARIZED_LIGHT_BASE16@[4]@));
    assert(six_hex_digits(SOLARIZED_LIGHT_BASE16@[5]@));
    assert(six_hex_digits(SOLARIZED_LIGHT_BASE16@[6]@));
    assert(six_hex_digits(SOLARIZED_LIGHT_BASE16@[7]@));
    assert(six_hex_digits(SOLARIZED_LIGHT_BASE16@[8]@));
    assert(six_hex_digits(SOLARIZED_LIGHT_BASE16@[9]@));
    assert(six_hex_digits(SOLARIZED_LIGHT_BASE16@[10]@));
    assert(six_hex_digits(SOLARIZED_LIGHT_BASE16@[11]@));
    assert(six_hex_digits(SOLARIZED_LIGHT_BASE16@[12]@));
    assert(six_hex_digits(SOLARIZED_LIGHT_BASE16@[13]@));
    assert(six_hex_digits(SOLARIZED_LIGHT_BASE16@[14]@));
    assert(six_hex_digits(SOLARIZED_LIGHT_BASE16@[15]@));
    assert(six_hex_digits(SOLARIZED_LIGHT_ANSI@[0]@));
    assert(six_hex_digits(SOLARIZED_LIGHT_ANSI@[1]@));
    assert(six_hex_digits(SOLARIZED_LIGHT_ANSI@[2]@));
    assert(six_hex_digits(SOLARIZED_LIGHT_ANSI@[3]@));
    assert(six_hex_digits(SOLARIZED_LIGHT_ANSI@[4]@));
    assert(six_hex_digits(SOLARIZED_LIGHT_ANSI@[5]@));
    assert(six_hex_digits(SOLARIZED_LIGHT_ANSI@[6]@));
    assert(six_hex_digits(SOLARIZED_LIGHT_ANSI@[7]@));
    assert(six_hex_digits(SOLARIZED_LIGHT_ANSI@[8]@));
    assert(six_hex_digits(SOLARIZED_LIGHT_ANSI@[9]@));
    assert(six_hex_digits(SOLARIZED_LIGHT_ANSI@[10]@));
    assert(six_hex_digits(SOLARIZED_LIGHT_ANSI@[11]@));
    assert(six_hex_digits(SOLARIZED_LIGHT_ANSI@[12]@));
    assert(six_hex_digits(SOLARIZED_LIGHT_ANSI@[13]@));
    assert(six_hex_digits(SOLARIZED_LIGHT_ANSI@[14]@));
    assert(six_hex_digits(SOLARIZED_LIGHT_ANSI@[15]@));
}

/// Solarized, light variant.
pub fn solarized_light() -> (s: ColorScheme)
    ensures
        built_from_tables(s, "solarized-light"@, SOLARIZED_LIGHT_BASE16, SOLARIZED_LIGHT_ANSI),
{
    proof {
        lemma_solarized_light_tables();
    }
    build("solarized-light", &SOLARIZED_LIGHT_BASE16, &SOLARIZED_LIGHT_ANSI).expect("solarized-light hex is valid")
}

pub const GRUVBOX_DARK_BASE16: [&'static str; 16] = [
    "282828", "3C3836", "504945", "665C54",
    "BDAE93", "D5C4A1", "EBDBB2", "FBF1C7",
    "FB4934", "FE8019", "FABD2F", "B8BB26",
    "8EC07C", "83A598", "D3869B", "D65D0E",
];

pub const GRUVBOX_DARK_ANSI: [&'static str; 16] = [
    "282828", "CC241D", "98971A", "D79921",
    "458588", "B16286", "689D6A", "A89984",
    "928374", "FB4934", "B8BB26", "FABD2F",
    "83A598", "D3869B", "8EC07C", "EBDBB2",
];

proof fn lemma_gruvbox_dark_tables()
    ensures
        table_is_hex(GRUVBOX_DARK_BASE16),
        table_is_hex(GRUVBOX_DARK_ANSI),
{
    reveal_strlit("282828");
    reveal_strlit("3C3836");
    reveal_strlit("458588");
    reveal_strlit("504945");
    reveal_strlit("665C54");
    reveal_strlit("689D6A");
    reveal_strlit("83A598");
    reveal_strlit("8EC07C");
    reveal_strlit("928374");
    reveal_strlit("98971A");
    reveal_strlit("A89984");
    reveal_strlit("B16286");
    reveal_strlit("B8BB26");
    reveal_strlit("BDAE93");
    reveal_strlit("CC241D");
    reveal_strlit("D3869B");
    reveal_strlit("D5C4A1");
    reveal_strlit("D65D0E");
    reveal_strlit("D79921");
    reveal_strlit("EBDBB2");
    reveal_strlit("FABD2F");
    reveal_strlit("FB4934");
    reveal_strlit("FBF1C7");
    reveal_strlit("FE8019");
    assert(six_hex_digits(GRUVBOX_DARK_BASE16@[0]@));
    assert(six_hex_digits(GRUVBOX_DARK_BASE16@[1]@));
    assert(six_hex_digits(GRUVBOX_DARK_BASE16@[2]@));
    assert(six_hex_digits(GRUVBOX_DARK_BASE16@[3]@));
    assert(six_hex_digits(GRUVBOX_DARK_BASE16@[4]@));
    assert(six_hex_digits(GRUVBOX_DARK_BASE16@[5]@));
    assert(six_hex_digits(GRUVBOX_DARK_BASE16@[6]@));
    assert(six_hex_digits(GRUVBOX_DARK_BASE16@[7]@));
    assert(six_hex_digits(GRUVBOX_DARK_BASE16@[8]@));
    assert(six_hex_digits(GRUVBOX_DARK_BASE16@[9]@));
    assert(six_hex_digits(GRUVBOX_DARK_BASE16@[10]@));
    assert(six_hex_digits(GRUVBOX_DARK_BASE16@[11]@));
    assert(six_hex_digits(GRUVBOX_DARK_BASE16@[12]@));
    assert(six_hex_digits(GRUVBOX_DARK_BASE16@[13]@));
    assert(six_hex_digits(GRUVBOX_DARK_BASE16@[14]@));
    assert(six_hex_digits(GRUVBOX_DARK_BASE16@[15]@));
    assert(six_hex_digits(GRUVBOX_DARK_ANSI@[0]@));
    assert(six_hex_digits(GRUVBOX_DARK_ANSI@[1]@));
    assert(six_hex_digits(GRUVBOX_DARK_ANSI@[2]@));
    assert(six_hex_digits(GRUVBOX_DARK_ANSI@[3]@));
    assert(six_hex_digits(GRUVBOX_DARK_ANSI@[4]@));
    assert(six_hex_digits(GRUVBOX_DARK_ANSI@[5]@));
    assert(six_hex_digits(GRUVBOX_DARK_ANSI@[6]@));
    assert(six_hex_digits(GRUVBOX_DARK_ANSI@[7]@));
    assert(six_hex_digits(GRUVBOX_DARK_ANSI@[8]@));
    assert(six_hex_digits(GRUVBOX_DARK_ANSI@[9]@));
    assert(six_hex_digits(GRUVBOX_DARK_ANSI@[10]@));
    assert(six_hex_digits(GRUVBOX_DARK_ANSI@[11]@));
    assert(six_hex_digits(GRUVBOX_DARK_ANSI@[12]@));
    assert(six_hex_digits(GRUVBOX_DARK_ANSI@[13]@));
    assert(six_hex_digits(GRUVBOX_DARK_ANSI@[14]@));
    assert(six_hex_digits(GRUVBOX_DARK_ANSI@[15]@));
}

/// Gruvbox, dark variant.
pub fn gruvbox_dark() -> (s: ColorScheme)
    ensures
        built_from_tables(s, "gruvbox-dark"@, GRUVBOX_DARK_BASE16, GRUVBOX_DARK_ANSI),
{
    proof {
        lemma_gruvbox_dark_tables();
    }
    build("gruvbox-dark", &GRUVBOX_DARK_BASE16, &GRUVBOX_DARK_ANSI).expect("gruvbox-dark hex is valid")
}

pub const ONE_DARK_BASE16: [&'static str; 16] = [
    "282C34", "353B45", "3E4451", "545862",
    "565C64", "ABB2BF", "B6BDCA", "C8CCD4",
    "E06C75", "D19A66", "E5C07B", "98C379",
    "56B6C2", "61AFEF", "C678DD", "BE5046",
];

pub const ONE_DARK_ANSI: [&'static str; 16] = [
    "282C34", "E06C75", "98C379", "E5C07B",
    "61AFEF", "C678DD", "56B6C2", "ABB2BF",
    "545862", "BE5046", "98C379", "E5C07B",
    "61AFEF", "C678DD", "56B6C2", "C8CCD4",
];

proof fn lemma_one_dark_tables()
    ensures
        table_is_hex(ONE_DARK_BASE16),
        table_is_hex(ONE_DARK_ANSI),
{
    reveal_strlit("282C34");
    reveal_strlit("353B45");
    reveal_strlit("3E4451");
    reveal_strlit("545862");
    reveal_strlit("565C64");
    reveal_strlit("56B6C2");
    reveal_strlit("61AFEF");
    reveal_strlit("98C379");
    reveal_strlit("ABB2BF");
    reveal_strlit("B6BDCA");
    reveal_strlit("BE5046");
    reveal_strlit("C678DD");
    reveal_strlit("C8CCD4");
    reveal_strlit("D19A66");
    reveal_strlit("E06C75");
    reveal_strlit("E5C07B");
    assert(six_hex_digits(ONE_DARK_BASE16@[0]@));
    assert(six_hex_digits(ONE_DARK_BASE16@[1]@));
    assert(six_hex_digits(ONE_DARK_BASE16@[2]@));
    assert(six_hex_digits(ONE_DARK_BASE16@[3]@));
    assert(six_hex_digits(ONE_DARK_BASE16@[4]@));
    assert(six_hex_digits(ONE_DARK_BASE16@[5]@));
    assert(six_hex_digits(ONE_DARK_BASE16@[6]@));
    assert(six_hex_digits(ONE_DARK_BASE16@[7]@));
    assert(six_hex_digits(ONE_DARK_BASE16@[8]@));
    assert(six_hex_digits(ONE_DARK_BASE16@[9]@));
    assert(six_hex_digits(ONE_DARK_BASE16@[10]@));
    assert(six_hex_digits(ONE_DARK_BASE16@[11]@));
    assert(six_hex_digits(ONE_DARK_BASE16@[12]@));
    assert(six_hex_digits(ONE_DARK_BASE16@[13]@));
    assert(six_hex_digits(ONE_DARK_BASE16@[14]@));
    assert(six_hex_digits(ONE_DARK_BASE16@[15]@));
    assert(six_hex_digits(ONE_DARK_ANSI@[0]@));
    assert(six_hex_digits(ONE_DARK_ANSI@[1]@));
    assert(six_hex_digits(ONE_DARK_ANSI@[2]@));
    assert(six_hex_digits(ONE_DARK_ANSI@[3]@));
    assert(six_hex_digits(ONE_DARK_ANSI@[4]@));
    assert(six_hex_digits(ONE_DARK_ANSI@[5]@));
    assert(six_hex_digits(ONE_DARK_ANSI@[6]@));
    assert(six_hex_digits(ONE_DARK_ANSI@[7]@));
    assert(six_hex_digits(ONE_DARK_ANSI@[8]@));
    assert(six_hex_digits(ONE_DARK_ANSI@[9]@));
    assert(six_hex_digits(ONE_DARK_ANSI@[10]@));
    assert(six_hex_digits(ONE_DARK_ANSI@[11]@));
    assert(six_hex_digits(ONE_DARK_ANSI@[12]@));
    assert(six_hex_digits(ONE_DARK_ANSI@[13]@));
    assert(six_hex_digits(ONE_DARK_ANSI@[14]@));
    assert(six_hex_digits(ONE_DARK_ANSI@[15]@));
}

/// One Dark.
pub fn one_dark() -> (s: ColorScheme)
    ensures
        built_from_tables(s, "one-dark"@, ONE_DARK_BASE16, ONE_DARK_ANSI),
{
    proof {
        lemma_one_dark_tables();
    }
    build("one-dark", &ONE_DARK_BASE16, &ONE_DARK_ANSI).expect("one-dark hex is valid")
}

pub const TOKYO_NIGHT_BASE16: [&'static str; 16] = [
    "1A1B26", "16161E", "2F3549", "444B6A",
    "787C99", "A9B1D6", "CBCCD1", "D5D6DB",
    "C0CAF5", "A9B1D6", "0DB9D7", "9ECE6A",
    "B4F9F8", "2AC3DE", "BB9AF7", "F7768E",
];

pub const TOKYO_NIGHT_ANSI: [&'static str; 16] = [
    "1A1B26", "F7768E", "9ECE6A", "E0AF68",
    "7AA2F7", "BB9AF7", "7DCFFF", "A9B1D6",
    "414868", "F7768E", "9ECE6A", "E0AF68",
    "7AA2F7", "BB9AF7", "7DCFFF", "C0CAF5",
];

proof fn lemma_tokyo_night_tables()
    ensures
        table_is_hex(TOKYO_NIGHT_BASE16),
        table_is_hex(TOKYO_NIGHT_ANSI),
{
    reveal_strlit("0DB9D7");
    reveal_strlit("16161E");
    reveal_strlit("1A1B26");
    reveal_strlit("2AC3DE");
    reveal_strlit("2F3549");
    reveal_strlit("414868");
    reveal_strlit("444B6A");
    reveal_strlit("787C99");
    reveal_strlit("7AA2F7");
    reveal_strlit("7DCFFF");
    reveal_strlit("9ECE6A");
    reveal_strlit("A9B1D6");
    reveal_strlit("B4F9F8");
    reveal_strlit("BB9AF7");
    reveal_strlit("C0CAF5");
    reveal_strlit("CBCCD1");
    reveal_strlit("D5D6DB");
    reveal_strlit("E0AF68");
    reveal_strlit("F7768E");
    assert(six_hex_digits(TOKYO_NIGHT_BASE16@[0]@));
    assert(six_hex_digits(TOKYO_NIGHT_BASE16@[1]@));
    assert(six_hex_digits(TOKYO_NIGHT_BASE16@[2]@));
    assert(six_hex_digits(TOKYO_NIGHT_BASE16@[3]@));
    assert(six_hex_digits(TOKYO_NIGHT_BASE16@[4]@));
    assert(six_hex_digits(TOKYO_NIGHT_BASE16@[5]@));
    assert(six_hex_digits(TOKYO_NIGHT_BASE16@[6]@));
    assert(six_hex_digits(TOKYO_NIGHT_BASE16@[7]@));
    assert(six_hex_digits(TOKYO_NIGHT_BASE16@[8]@));
    assert(six_hex_digits(TOKYO_NIGHT_BASE16@[9]@));
    assert(six_hex_digits(TOKYO_NIGHT_BASE16@[10]@));
    assert(six_hex_digits(TOKYO_NIGHT_BASE16@[11]@));
    assert(six_hex_digits(TOKYO_NIGHT_BASE16@[12]@));
    assert(six_hex_digits(TOKYO_NIGHT_BASE16@[13]@));
    assert(six_hex_digits(TOKYO_NIGHT_BASE16@[14]@));
    assert(six_hex_digits(TOKYO_NIGHT_BASE16@[15]@));
    assert(six_hex_digits(TOKYO_NIGHT_ANSI@[0]@));
    assert(six_hex_digits(TOKYO_NIGHT_ANSI@[1]@));
    assert(six_hex_digits(TOKYO_NIGHT_ANSI@[2]@));
    assert(six_hex_digits(TOKYO_NIGHT_ANSI@[3]@));
    assert(six_hex_digits(TOKYO_NIGHT_ANSI@[4]@));
    assert(six_hex_digits(TOKYO_NIGHT_ANSI@[5]@));
    assert(six_hex_digits(TOKYO_NIGHT_ANSI@[6]@));
    assert(six_hex_digits(TOKYO_NIGHT_ANSI@[7]@));
    assert(six_hex_digits(TOKYO_NIGHT_ANSI@[8]@));
    assert(six_hex_digits(TOKYO_NIGHT_ANSI@[9]@));
    assert(six_hex_digits(TOKYO_NIGHT_ANSI@[10]@));
    assert(six_hex_digits(TOKYO_NIGHT_ANSI@[11]@));
    assert(six_hex_digits(TOKYO_NIGHT_ANSI@[12]@));
    assert(six_hex_digits(TOKYO_NIGHT_ANSI@[13]@));
    assert(six_hex_digits(TOKYO_NIGHT_ANSI@[14]@));
    assert(six_hex_digits(TOKYO_NIGHT_ANSI@[15]@));
}

/// Tokyo Night.
pub fn tokyo_night() -> (s: ColorScheme)
    ensures
        built_from_tables(s, "tokyo-night"@, TOKYO_NIGHT_BASE16, TOKYO_NIGHT_ANSI),
{
    proof {
        lemma_tokyo_night_tables();
    }
    build("tokyo-night", &TOKYO_NIGHT_BASE16, &TOKYO_NIGHT_ANSI).expect("tokyo-night hex is valid")
}

pub const CATPPUCCIN_MOCHA_BASE16: [&'static str; 16] = [
    "1E1E2E", "181825", "313244", "45475A",
    "585B70", "CDD6F4", "F5E0DC", "B4BEFE",
    "F38BA8", "FAB387", "F9E2AF", "A6E3A1",
    "94E2D5", "89B4FA", "CBA6F7", "F2CDCD",
];

pub const CATPPUCCIN_MOCHA_ANSI: [&'static str; 16] = [
    "45475A", "F38BA8", "A6E3A1", "F9E2AF",
    "89B4FA", "F5C2E7", "94E2D5", "BAC2DE",
    "585B70", "F38BA8", "A6E3A1", "F9E2AF",
    "89B4FA", "F5C2E7", "94E2D5", "A6ADC8",
];

proof fn lemma_catppuccin_mocha_tables()
    ensures
        table_is_hex(CATPPUCCIN_MOCHA_BASE16),
        table_is_hex(CATPPUCCIN_MOCHA_ANSI),
{
    reveal_strlit("181825");
    reveal_strlit("1E1E2E");
    reveal_strlit("313244");
    reveal_strlit("45475A");
    reveal_strlit("585B70");
    reveal_strlit("89B4FA");
    reveal_strlit("94E2D5");
    reveal_strlit("A6ADC8");
    reveal_strlit("A6E3A1");
    reveal_strlit("B4BEFE");
    reveal_strlit("BAC2DE");
    reveal_strlit("CBA6F7");
    reveal_strlit("CDD6F4");
    reveal_strlit("F2CDCD");
    reveal_strlit("F38BA8");
    reveal_strlit("F5C2E7");
    reveal_strlit("F5E0DC");
    reveal_strlit("F9E2AF");
    reveal_strlit("FAB387");
    assert(six_hex_digits(CATPPUCCIN_MOCHA_BASE16@[0]@));
    assert(six_hex_digits(CATPPUCCIN_MOCHA_BASE16@[1]@));
    assert(six_hex_digits(CATPPUCCIN_MOCHA_BASE16@[2]@));
    assert(six_hex_digits(CATPPUCCIN_MOCHA_BASE16@[3]@));
    assert(six_hex_digits(CATPPUCCIN_MOCHA_BASE16@[4]@));
    assert(six_hex_digits(CATPPUCCIN_MOCHA_BASE16@[5]@));
    assert(six_hex_digits(CATPPUCCIN_MOCHA_BASE16@[6]@));
    assert(six_hex_digits(CATPPUCCIN_MOCHA_BASE16@[7]@));
    assert(six_hex_digits(CATPPUCCIN_MOCHA_BASE16@[8]@));
    assert(six_hex_digits(CATPPUCCIN_MOCHA_BASE16@[9]@));
    assert(six_hex_digits(CATPPUCCIN_MOCHA_BASE16@[10]@));
    assert(six_hex_digits(CATPPUCCIN_MOCHA_BASE16@[11]@));
    assert(six_hex_digits(CATPPUCCIN_MOCHA_BASE16@[12]@));
    assert(six_hex_digits(CATPPUCCIN_MOCHA_BASE16@[13]@));
    assert(six_hex_digits(CATPPUCCIN_MOCHA_BASE16@[14]@));
    assert(six_hex_digits(CATPPUCCIN_MOCHA_BASE16@[15]@));
    assert(six_hex_digits(CATPPUCCIN_MOCHA_ANSI@[0]@));
    assert(six_hex_digits(CATPPUCCIN_MOCHA_ANSI@[1]@));
    assert(six_hex_digits(CATPPUCCIN_MOCHA_ANSI@[2]@));
    assert(six_hex_digits(CATPPUCCIN_MOCHA_ANSI@[3]@));
    assert(six_hex_digits(CATPPUCCIN_MOCHA_ANSI@[4]@));
    assert(six_hex_digits(CATPPUCCIN_MOCHA_ANSI@[5]@));
    assert(six_hex_digits(CATPPUCCIN_MOCHA_ANSI@[6]@));
    assert(six_hex_digits(CATPPUCCIN_MOCHA_ANSI@[7]@));
    assert(six_hex_digits(CATPPUCCIN_MOCHA_ANSI@[8]@));
    assert(six_hex_digits(CATPPUCCIN_MOCHA_ANSI@[9]@));
    assert(six_hex_digits(CATPPUCCIN_MOCHA_ANSI@[10]@));
    assert(six_hex_digits(CATPPUCCIN_MOCHA_ANSI@[11]@));
    assert(six_hex_digits(CATPPUCCIN_MOCHA_ANSI@[12]@));
    assert(six_hex_digits(CATPPUCCIN_MOCHA_ANSI@[13]@));
    assert(six_hex_digits(CATPPUCCIN_MOCHA_ANSI@[14]@));
    assert(six_hex_digits(CATPPUCCIN_MOCHA_ANSI@[15]@));
}

/// Catppuccin, Mocha flavour.
pub fn catppuccin_mocha() -> (s: ColorScheme)
    ensures
        built_from_tables(s, "catppuccin-mocha"@, CATPPUCCIN_MOCHA_BASE16, CATPPUCCIN_MOCHA_ANSI),
{
    proof {
        lemma_catppuccin_mocha_tables();
    }
    build("catppuccin-mocha", &CATPPUCCIN_MOCHA_BASE16, &CATPPUCCIN_MOCHA_ANSI).expect("catppuccin-mocha hex is valid")
}

/// Every built-in preset, in the stable canonical order (alphabetical by id).
pub fn all() -> (v: Vec<ColorScheme>)
    ensures
        v.len() == 8,
        built_from_tables(v[0], "catppuccin-mocha"@, CATPPUCCIN_MOCHA_BASE16, CATPPUCCIN_MOCHA_ANSI),
        built_from_tables(v[1], "dracula"@, DRACULA_BASE16, DRACULA_ANSI),
        built_from_tables(v[2], "gruvbox-dark"@, GRUVBOX_DARK_BASE16, GRUVBOX_DARK_ANSI),
        built_from_tables(v[3], "nord"@, NORD_BASE16, NORD_ANSI),
        built_from_tables(v[4], "one-dark"@, ONE_DARK_BASE16, ONE_DARK_ANSI),
        built_from_tables(v[5], "solarized-dark"@, SOLARIZED_DARK_BASE16, SOLARIZED_DARK_ANSI),
        built_from_tables(v[6], "solarized-light"@, SOLARIZED_LIGHT_BASE16, SOLARIZED_LIGHT_ANSI),
        built_from_tables(v[7], "tokyo-night"@, TOKYO_NIGHT_BASE16, TOKYO_NIGHT_ANSI),
{
    let mut v = Vec::new();
    v.push(catppuccin_mocha());
    v.push(dracula());
    v.push(gruvbox_dark());
    v.push(nord());
    v.push(one_dark());
    v.push(solarized_dark());
    v.push(solarized_light());
    v.push(tokyo_night());
    v
}

} // verus!
