use irodzuki::{Base16Slot, ColorScheme, GpuColors};

fn unit(ch: u8) -> f32 {
    f32::from(ch) / 255.0
}

#[test]
fn gpu_colors_from_default_scheme() {
    let scheme = ColorScheme::default();
    let gpu = GpuColors::from_scheme(&scheme);
    assert_eq!(gpu.palette.len(), 16);
    // Clear color should be base00
    assert!((unit(gpu.clear.r) - unit(scheme.base00.r)).abs() < 0.001);
}

#[test]
fn gpu_clear_alpha_is_opaque() {
    let scheme = ColorScheme::default();
    let gpu = GpuColors::from_scheme(&scheme);
    assert!((unit(gpu.clear.a) - 1.0).abs() < 0.001);
}

#[test]
fn gpu_palette_matches_slot_order() {
    let scheme = ColorScheme::default();
    let gpu = GpuColors::from_scheme(&scheme);
    for (i, slot) in Base16Slot::ALL.iter().enumerate() {
        assert_eq!(
            gpu.palette[i].to_array(),
            scheme.get(*slot).to_array(),
            "palette index {i} doesn't match slot {slot:?}"
        );
    }
}

#[test]
fn gpu_semantic_slots_map_correctly() {
    let scheme = ColorScheme::default();
    let gpu = GpuColors::from_scheme(&scheme);
    assert_eq!(gpu.text.to_array(), scheme.base05.to_array());
    assert_eq!(gpu.accent.to_array(), scheme.base0d.to_array());
    assert_eq!(gpu.error.to_array(), scheme.base08.to_array());
    assert_eq!(gpu.selection.to_array(), scheme.base02.to_array());
    assert_eq!(gpu.cursor.to_array(), scheme.base04.to_array());
}

#[test]
fn gpu_palette_of_every_preset_follows_the_slots() {
    for scheme in irodzuki::presets::all() {
        let gpu = GpuColors::from_scheme(&scheme);
        assert_eq!(gpu.palette[0], scheme.base00);
        assert_eq!(gpu.palette[10], scheme.base0a);
        assert_eq!(gpu.palette[15], scheme.base0f);
        assert_eq!(gpu.clear, scheme.base00);
    }
}
