use irodzuki::shader::THEME_UNIFORMS_WGSL;
use irodzuki::{Color, ColorScheme, ThemeUniforms};

#[test]
fn uniforms_from_default() {
    let scheme = ColorScheme::default();
    let u = ThemeUniforms::from_scheme(&scheme);
    assert!(u.is_dark); // Nord is dark
    assert_eq!(u.background.to_array(), scheme.base00.to_array());
}

#[test]
fn wgsl_snippet_contains_struct() {
    assert!(THEME_UNIFORMS_WGSL.contains("ThemeUniforms"));
    assert!(THEME_UNIFORMS_WGSL.contains("background"));
    assert!(THEME_UNIFORMS_WGSL.contains("is_dark"));
}

#[test]
fn uniforms_non_dark_scheme_zero_flag() {
    // The dark flag must be off for light schemes.
    let light = ColorScheme {
        base00: Color::new(255, 255, 255, 255),
        ..ColorScheme::default()
    };
    let u = ThemeUniforms::from_scheme(&light);
    assert!(!u.is_dark);
}

#[test]
fn wgsl_snippet_declares_every_cpu_field() {
    for name in ["background", "foreground", "accent", "is_dark", "_pad"] {
        assert!(
            THEME_UNIFORMS_WGSL.contains(name),
            "WGSL snippet missing field `{name}`"
        );
    }
}

#[test]
fn uniforms_pick_the_semantic_slots() {
    let s = irodzuki::presets::solarized_light();
    let u = ThemeUniforms::from_scheme(&s);
    assert_eq!(u.foreground, s.base05);
    assert_eq!(u.accent, s.base0d);
    assert_eq!(u.error, s.base08);
    assert!(!u.is_dark);
}
