use irodzuki::{Base16Slot, Color, ColorScheme, IrodzukiError};

/// A channel as the fraction of full intensity it stands for.
fn unit(ch: u8) -> f32 {
    f32::from(ch) / 255.0
}

/// Luminance as a fraction, from the library's scaled luminance.
fn lum(c: &Color) -> f32 {
    c.luminance() as f32 / 2_550_000.0
}

#[test]
fn default_base16_is_exactly_the_nord_preset() {
    let d = ColorScheme::default();
    let p = irodzuki::presets::nord();
    let pairs: [(&str, Color, Color); 16] = [
        ("base00", d.base00, p.base00), ("base01", d.base01, p.base01),
        ("base02", d.base02, p.base02), ("base03", d.base03, p.base03),
        ("base04", d.base04, p.base04), ("base05", d.base05, p.base05),
        ("base06", d.base06, p.base06), ("base07", d.base07, p.base07),
        ("base08", d.base08, p.base08), ("base09", d.base09, p.base09),
        ("base0a", d.base0a, p.base0a), ("base0b", d.base0b, p.base0b),
        ("base0c", d.base0c, p.base0c), ("base0d", d.base0d, p.base0d),
        ("base0e", d.base0e, p.base0e), ("base0f", d.base0f, p.base0f),
    ];
    let bad: Vec<String> = pairs
        .iter()
        .filter(|(_, a, b)| a.to_array() != b.to_array())
        .map(|(n, a, b)| format!("{n}: default={:?} preset={:?}", a.to_array(), b.to_array()))
        .collect();
    assert!(bad.is_empty(), "{} slot(s) diverge:\n  {}", bad.len(), bad.join("\n  "));
}

#[test]
fn default_has_nords_purple_and_distinct_base07() {
    let d = ColorScheme::default();
    assert_eq!(d.base0e.to_hex().to_uppercase(), "#B48EAD", "base0e must be Nord's purple");
    assert_ne!(
        d.base07.to_array(), d.base06.to_array(),
        "base07 must not duplicate base06 (the exact shape of the old drift)"
    );
    assert_eq!(d.base07.to_hex().to_uppercase(), "#8FBCBB");
    assert_eq!(d.base0c.to_hex().to_uppercase(), "#88C0D0");
    assert_eq!(d.base0d.to_hex().to_uppercase(), "#81A1C1");
}

#[test]
fn color_from_hex() {
    let c = Color::from_hex("#2E3440").unwrap();
    assert!((unit(c.r) - 0.180).abs() < 0.01);
    assert_eq!(unit(c.a), 1.0);
}

#[test]
fn color_to_hex_roundtrip() {
    let c = Color::from_hex("#88C0D0").unwrap();
    assert_eq!(c.to_hex(), "#88C0D0");
}

#[test]
fn color_luminance() {
    let dark = Color::from_hex("#2E3440").unwrap();
    assert!(dark.is_dark());
    let light = Color::from_hex("#ECEFF4").unwrap();
    assert!(!light.is_dark());
}

#[test]
fn scheme_default_is_nord() {
    let s = ColorScheme::default();
    assert_eq!(s.name, "Nord");
    assert!(s.is_dark());
}

#[test]
fn scheme_from_hex_array() {
    let colors = [
        "#2E3440", "#3B4252", "#434C5E", "#4C566A", "#D8DEE9", "#E5E9F0", "#ECEFF4",
        "#ECEFF4", "#BF616A", "#D08770", "#EBCB8B", "#A3BE8C", "#8FBCBB", "#88C0D0",
        "#81A1C1", "#5E81AC",
    ];
    let s = ColorScheme::from_hex_array("Test", &colors).unwrap();
    assert_eq!(s.name, "Test");
}

#[test]
fn scheme_to_egaku_theme() {
    let s = ColorScheme::default();
    let t = s.to_egaku_theme();
    assert_eq!(t.background.to_array(), s.base00.to_array());
    assert_eq!(t.foreground.to_array(), s.base05.to_array());
}

#[test]
fn scheme_ansi_colors() {
    // Explicitly override-free: this exercises the base16 derivation path.
    let s = ColorScheme { ansi_palette: None, ..ColorScheme::default() };
    let ansi = s.to_ansi_colors();
    assert_eq!(ansi.len(), 16);
    // Black should be base00
    assert_eq!(ansi[0].to_array(), s.base00.to_array());
}

#[test]
fn default_ansi_is_the_official_override_not_the_base16_derivation() {
    let d = ColorScheme::default();
    assert!(d.ansi_palette.is_some(), "default must carry the ghostty-parity ANSI mapping");
    let ansi = d.to_ansi_colors();
    assert_eq!(ansi[15].to_array(), Color::from_hex("ECEFF4").unwrap().to_array(), "ansi 15 (bright white)");
    assert_eq!(ansi[7].to_array(), Color::from_hex("E5E9F0").unwrap().to_array(), "ansi 7 (white)");
    assert_ne!(ansi[15].to_array(), d.base07.to_array(), "must NOT be the base16 derivation");
}

#[test]
fn scheme_get_slot() {
    let s = ColorScheme::default();
    assert_eq!(s.get(Base16Slot::Base00).to_array(), s.base00.to_array());
    assert_eq!(s.get(Base16Slot::Base0D).to_array(), s.base0d.to_array());
}

#[test]
fn hex_rejects_short_string() {
    assert!(Color::from_hex("#ABC").is_err());
    assert!(Color::from_hex("").is_err());
}

#[test]
fn hex_rejects_overlong_string() {
    assert!(Color::from_hex("#AABBCCDD").is_err());
}

#[test]
fn hex_rejects_non_hex_digits() {
    assert!(Color::from_hex("#ZZZZZZ").is_err());
    assert!(Color::from_hex("#12345G").is_err());
}

#[test]
fn hex_accepts_lowercase_and_missing_prefix() {
    let a = Color::from_hex("#2e3440").unwrap();
    let b = Color::from_hex("2E3440").unwrap();
    // to_hex always normalises to uppercase so the two paths collapse after the round-trip.
    assert_eq!(a.to_hex(), b.to_hex());
}

#[test]
fn to_hex_always_uppercase() {
    let c = Color::from_hex("#abcdef").unwrap();
    let out = c.to_hex();
    assert_eq!(out, out.to_uppercase());
}

#[test]
fn luminance_weights_match_bt709() {
    // BT.709 weights: 0.2126 R + 0.7152 G + 0.0722 B.
    let red = Color::new(255, 0, 0, 255);
    let green = Color::new(0, 255, 0, 255);
    let blue = Color::new(0, 0, 255, 255);
    assert!((lum(&red) - 0.2126).abs() < 0.0001);
    assert!((lum(&green) - 0.7152).abs() < 0.0001);
    assert!((lum(&blue) - 0.0722).abs() < 0.0001);
}

#[test]
fn is_dark_boundary() {
    // Green channels of 0.69 and 0.71 of full intensity, to the nearest 8-bit step:
    // luminance ~0.4936 is dark, ~0.5077 is not (the comparison is a strict `<`).
    let low = Color::new(0, 176, 0, 255);
    let high = Color::new(0, 181, 0, 255);
    assert!(low.is_dark());
    assert!(!high.is_dark());
}

#[test]
fn base16_slot_all_has_16_entries_in_order() {
    assert_eq!(Base16Slot::ALL.len(), 16);
    assert_eq!(Base16Slot::ALL[0], Base16Slot::Base00);
    assert_eq!(Base16Slot::ALL[15], Base16Slot::Base0F);
}

#[test]
fn color_array_from_conversion_roundtrip() {
    let arr: [u8; 4] = [26, 51, 77, 102];
    let c: Color = arr.into();
    let back: [u8; 4] = c.into();
    assert_eq!(arr, back);
}

#[test]
fn scheme_from_hex_array_propagates_errors() {
    let mut colors = [
        "#2E3440", "#3B4252", "#434C5E", "#4C566A", "#D8DEE9", "#E5E9F0", "#ECEFF4",
        "#ECEFF4", "#BF616A", "#D08770", "#EBCB8B", "#A3BE8C", "#8FBCBB", "#88C0D0",
        "#81A1C1", "#5E81AC",
    ];
    colors[7] = "not-a-color";
    assert!(ColorScheme::from_hex_array("Bad", &colors).is_err());
}

#[test]
fn to_egaku_theme_fills_every_semantic_slot() {
    let s = ColorScheme::default();
    let t = s.to_egaku_theme();
    assert_ne!(t.background.to_array(), [0; 4]);
    assert_ne!(t.foreground.to_array(), [0; 4]);
    assert_ne!(t.accent.to_array(), [0; 4]);
    assert_ne!(t.error.to_array(), [0; 4]);
    assert_ne!(t.warning.to_array(), [0; 4]);
    assert_ne!(t.success.to_array(), [0; 4]);
    assert_ne!(t.selection.to_array(), [0; 4]);
    assert_ne!(t.muted.to_array(), [0; 4]);
    assert_ne!(t.border.to_array(), [0; 4]);
    assert!(t.spacing > 0);
    assert!(t.font_size > 0);
}

#[test]
fn ansi_colors_map_base16_to_standard_ordering() {
    // ANSI ordering: black, red, green, yellow, blue, magenta, cyan, white, then the
    // bright eight, from base00, base08, base0B, base0A, base0D, base0E, base0C, base05.
    let s = ColorScheme { ansi_palette: None, ..ColorScheme::default() };
    let ansi = s.to_ansi_colors();
    assert_eq!(ansi[0].to_array(), s.base00.to_array(), "ansi 0 (black)");
    assert_eq!(ansi[1].to_array(), s.base08.to_array(), "ansi 1 (red)");
    assert_eq!(ansi[2].to_array(), s.base0b.to_array(), "ansi 2 (green)");
    assert_eq!(ansi[3].to_array(), s.base0a.to_array(), "ansi 3 (yellow)");
    assert_eq!(ansi[4].to_array(), s.base0d.to_array(), "ansi 4 (blue)");
    assert_eq!(ansi[5].to_array(), s.base0e.to_array(), "ansi 5 (magenta)");
    assert_eq!(ansi[6].to_array(), s.base0c.to_array(), "ansi 6 (cyan)");
    assert_eq!(ansi[7].to_array(), s.base05.to_array(), "ansi 7 (white)");
    // Bright-black pulls from base03 (comments).
    assert_eq!(ansi[8].to_array(), s.base03.to_array(), "ansi 8 (bright black)");
}

// ── further cases ──────────────────────────────────────────────────

#[test]
fn hex_reads_exact_channels_and_opaque_alpha() {
    let c = Color::from_hex("#2E3440").unwrap();
    assert_eq!(c, Color::new(0x2E, 0x34, 0x40, 255));
}

#[test]
fn hex_strips_every_leading_hash() {
    let c = Color::from_hex("###88c0d0").unwrap();
    assert_eq!(c.to_hex(), "#88C0D0");
}

#[test]
fn hex_pairs_reject_a_sign() {
    // A sign is not a hexadecimal digit, even where integer parsing would accept it.
    match Color::from_hex("+F+F+F") {
        Err(IrodzukiError::InvalidColor(m)) => assert_eq!(m, "+F+F+F"),
        _ => panic!("expected an InvalidColor error"),
    }
    assert!(Color::from_hex("#+1+2+3").is_err());
    assert!(Color::from_hex("++1122").is_err());
    assert!(Color::from_hex("-11122").is_err());
    assert!(Color::from_hex("11+122").is_err());
}

#[test]
fn hex_reads_exactly_six_hex_digits_in_either_case() {
    for s in ["2e3440", "2E3440", "#2e3440", "##2E3440", "aBcDeF"] {
        let h = s.trim_start_matches('#');
        assert!(h.len() == 6 && h.bytes().all(|b| b.is_ascii_hexdigit()));
        let c = Color::from_hex(s).unwrap();
        assert_eq!(Color::from_hex(&s.to_ascii_lowercase()).unwrap(), c);
        assert_eq!(Color::from_hex(&s.to_ascii_uppercase()).unwrap(), c);
        assert_eq!(Color::from_hex(&format!("#{s}")).unwrap(), c);
    }
}

#[test]
fn hex_length_error_names_the_byte_count() {
    match Color::from_hex("#ABC") {
        Err(IrodzukiError::InvalidColor(m)) => assert_eq!(m, "expected 6 hex chars, got 3"),
        _ => panic!("expected an InvalidColor error"),
    }
    match Color::from_hex("#1234567890") {
        Err(IrodzukiError::InvalidColor(m)) => assert_eq!(m, "expected 6 hex chars, got 10"),
        _ => panic!("expected an InvalidColor error"),
    }
    match Color::from_hex("") {
        Err(IrodzukiError::InvalidColor(m)) => assert_eq!(m, "expected 6 hex chars, got 0"),
        _ => panic!("expected an InvalidColor error"),
    }
}

#[test]
fn hex_digit_error_repeats_the_body() {
    match Color::from_hex("##12345G") {
        Err(IrodzukiError::InvalidColor(m)) => assert_eq!(m, "12345G"),
        _ => panic!("expected an InvalidColor error"),
    }
}

#[test]
fn hex_counts_bytes_not_characters() {
    // Three two-byte characters make six bytes: the length passes, the digits do not.
    assert!(!Color::from_hex_panics("ééé"));
    match Color::from_hex("ééé") {
        Err(IrodzukiError::InvalidColor(m)) => assert_eq!(m, "ééé"),
        _ => panic!("expected an InvalidColor error"),
    }
    // Two two-byte characters make four bytes.
    match Color::from_hex("éé") {
        Err(IrodzukiError::InvalidColor(m)) => assert_eq!(m, "expected 6 hex chars, got 4"),
        _ => panic!("expected an InvalidColor error"),
    }
}

#[test]
fn hex_that_cuts_a_character_is_reported() {
    // The third byte continues `é`: the pairs cannot be taken.
    assert!(Color::from_hex_panics("aéxyz"));
    // The first pair reads and the fifth byte continues `é`.
    assert!(Color::from_hex_panics("12aéz"));
    // The first pair does not read, so the fifth byte is never reached.
    assert!(!Color::from_hex_panics("zzaéz"));
    assert!(Color::from_hex("zzaéz").is_err());
    assert!(!Color::from_hex_panics("#2E3440"));
}

#[test]
fn to_hex_round_trips_every_grey() {
    for v in 0..=255u8 {
        let c = Color::new(v, 255 - v, v / 2, 7);
        let back = Color::from_hex(&c.to_hex()).unwrap();
        assert_eq!(back, Color::new(v, 255 - v, v / 2, 255));
    }
}

#[test]
fn luminance_is_exact_in_scaled_units() {
    let white = Color::new(255, 255, 255, 255);
    assert_eq!(white.luminance(), 2_550_000);
    assert_eq!(Color::new(1, 1, 1, 0).luminance(), 10_000);
    assert!(!white.is_dark());
    assert!(Color::new(0, 0, 0, 255).is_dark());
}

#[test]
fn is_dark_agrees_with_bt709_in_single_precision() {
    // Near the one-half boundary the integer rule and the single-precision formula agree.
    for r in 0..=255u32 {
        for g in 0..=255u32 {
            for b in 0..=255u32 {
                let scaled = 2126 * r + 7152 * g + 722 * b;
                if scaled.abs_diff(1_275_000) > 3000 {
                    continue;
                }
                let (fr, fg, fb) = (r as f32 / 255.0, g as f32 / 255.0, b as f32 / 255.0);
                let l = 0.2126f32.mul_add(fr, 0.7152f32.mul_add(fg, 0.0722 * fb));
                let c = Color::new(r as u8, g as u8, b as u8, 255);
                assert_eq!(c.is_dark(), l < 0.5, "at {r},{g},{b}");
            }
        }
    }
}

#[test]
fn from_hex_array_reports_the_first_bad_literal() {
    let mut colors = ["#000000"; 16];
    colors[3] = "#GG0000";
    colors[9] = "#12";
    match ColorScheme::from_hex_array("Bad", &colors) {
        Err(IrodzukiError::InvalidColor(m)) => assert_eq!(m, "GG0000"),
        _ => panic!("expected an InvalidColor error"),
    }
}

#[test]
fn from_hex_array_keeps_slot_order_and_no_override() {
    let mut colors = ["#000000"; 16];
    let texts: Vec<String> = (0..16).map(|i| format!("#{:02X}0000", i * 16)).collect();
    for i in 0..16 {
        colors[i] = texts[i].as_str();
    }
    let s = ColorScheme::from_hex_array("Ramp", &colors).unwrap();
    assert_eq!(s.author, "");
    assert!(s.ansi_palette.is_none());
    for (i, slot) in Base16Slot::ALL.iter().enumerate() {
        assert_eq!(s.get(*slot), Color::new((i * 16) as u8, 0, 0, 255));
    }
}

#[test]
fn from_hex_array_with_ansi_attaches_the_palette() {
    let base = ["#111111"; 16];
    let mut ansi = ["#222222"; 16];
    ansi[15] = "#FFFFFF";
    let s = ColorScheme::from_hex_array_with_ansi("Two", &base, &ansi).unwrap();
    let a = s.to_ansi_colors();
    assert_eq!(a[0], Color::new(0x22, 0x22, 0x22, 255));
    assert_eq!(a[15], Color::new(0xFF, 0xFF, 0xFF, 255));
    ansi[4] = "nope";
    match ColorScheme::from_hex_array_with_ansi("Two", &base, &ansi) {
        Err(IrodzukiError::InvalidColor(m)) => assert_eq!(m, "expected 6 hex chars, got 4"),
        _ => panic!("expected an InvalidColor error"),
    }
}

#[test]
fn egaku_theme_aliases_and_metrics() {
    let s = irodzuki::presets::dracula();
    let t = s.to_egaku_theme();
    assert_eq!(t.accent, s.base0d);
    assert_eq!(t.error, s.base08);
    assert_eq!(t.warning, s.base0a);
    assert_eq!(t.success, s.base0b);
    assert_eq!(t.selection, s.base02);
    assert_eq!(t.muted, s.base03);
    assert_eq!(t.border, s.base01);
    assert_eq!(t.base0f, s.base0f);
    assert_eq!((t.spacing, t.font_size), (8, 14));
}

#[test]
fn ansi_bright_half_derives_from_base03_and_base07() {
    let s = ColorScheme { ansi_palette: None, ..irodzuki::presets::gruvbox_dark() };
    let a = s.to_ansi_colors();
    assert_eq!(a[8], s.base03);
    assert_eq!(a[9], s.base08);
    assert_eq!(a[14], s.base0c);
    assert_eq!(a[15], s.base07);
}

#[test]
fn slot_pick_works_on_any_colour_type() {
    let table: [u32; 16] = core::array::from_fn(|i| 100 + i as u32);
    for (i, slot) in Base16Slot::ALL.iter().enumerate() {
        assert_eq!(slot.number(), i);
        assert_eq!(slot.pick(&table), 100 + i as u32);
    }
}

#[test]
fn ansi_and_egaku_selections_work_on_any_colour_type() {
    let table: [u32; 16] = core::array::from_fn(|i| i as u32);
    let a = irodzuki::scheme::ansi_colors_from(&table, &None);
    assert_eq!(a, [0, 8, 11, 10, 13, 14, 12, 5, 3, 8, 11, 10, 13, 14, 12, 7]);
    let over: [u32; 16] = [9; 16];
    assert_eq!(irodzuki::scheme::ansi_colors_from(&table, &Some(over)), over);
    let t = irodzuki::scheme::EgakuTheme::from_base16(&table);
    assert_eq!(
        [t.background, t.foreground, t.accent, t.error, t.warning, t.success, t.selection, t.muted, t.border],
        [0, 5, 13, 8, 10, 11, 2, 3, 1]
    );
    assert_eq!((t.base07, t.base0f), (7, 15));
}

#[test]
fn hex_table_reads_tells_where_constructors_apply() {
    let good = ["#000000"; 16];
    assert!(irodzuki::scheme::hex_table_reads(&good));
    let mut cut = good;
    cut[5] = "aéxyz";
    assert!(!irodzuki::scheme::hex_table_reads(&cut));
    // A literal after the first failing one is never reached.
    let mut late = good;
    late[2] = "bad";
    late[5] = "aéxyz";
    assert!(irodzuki::scheme::hex_table_reads(&late));
    assert!(ColorScheme::from_hex_array("Late", &late).is_err());
}
