use irodzuki::presets::{all, nord};
use irodzuki::{Color, ColorScheme};

fn unit(ch: u8) -> f32 {
    f32::from(ch) / 255.0
}

#[test]
fn every_preset_parses() {
    let schemes = all();
    assert_eq!(schemes.len(), 8);
    for s in schemes {
        assert!(s.ansi_palette.is_some(), "{} missing ansi palette", s.name);
    }
}

#[test]
fn ansi_override_is_used() {
    let nord = nord();
    let ansi = nord.to_ansi_colors();
    // nord normal red = #BF616A → (0.749, 0.380, 0.416)
    assert!((unit(ansi[1].r) - 0.749).abs() < 0.01);
    assert!((unit(ansi[0].r) - 0.231).abs() < 0.01, "ansi black must be #3B4252");
    assert!((unit(ansi[4].b) - 0.675).abs() < 0.01, "ansi blue must be #5E81AC");
    assert!((unit(ansi[6].g) - 0.753).abs() < 0.01, "ansi cyan must be #88C0D0");
}

#[test]
fn presets_come_in_alphabetical_order_without_author() {
    let names: Vec<String> = all().into_iter().map(|s| s.name).collect();
    assert_eq!(
        names,
        [
            "catppuccin-mocha", "dracula", "gruvbox-dark", "nord", "one-dark",
            "solarized-dark", "solarized-light", "tokyo-night",
        ]
    );
    assert!(all().iter().all(|s| s.author.is_empty()));
}

#[test]
fn default_differs_from_nord_only_in_name_and_author() {
    let d = ColorScheme::default();
    let p = nord();
    assert_eq!(d.author, "Arctic Ice Studio");
    assert_eq!(p.name, "nord");
    assert_eq!(d.to_ansi_colors(), p.to_ansi_colors());
    assert_eq!(d.base0f, p.base0f);
}

#[test]
fn preset_colours_are_opaque_and_exact() {
    let p = nord();
    assert_eq!(p.base00, Color::new(0x2E, 0x34, 0x40, 255));
    assert_eq!(p.base0e, Color::new(0xB4, 0x8E, 0xAD, 255));
    for s in all() {
        for c in s.to_ansi_colors() {
            assert_eq!(c.a, 255);
        }
    }
    assert!(irodzuki::presets::solarized_light().is_dark() == false);
    assert!(irodzuki::presets::tokyo_night().is_dark());
}
