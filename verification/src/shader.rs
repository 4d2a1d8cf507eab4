//! Theme uniforms for WGSL post-processing: what a shader reads of the theme.
use vstd::prelude::*;

use crate::scheme::{Color, ColorScheme, color_is_dark};

verus! {

/// Theme uniforms for WGSL shaders: four colours, of any colour type, and the dark flag.
#[derive(Debug, Clone, Copy)]
pub struct ThemeUniforms<C> {
    pub background: C,
    pub foreground: C,
    pub accent: C,
    pub error: C,
    /// Whether the scheme is dark (uploaded as 1.0 or 0.0).
    pub is_dark: bool,
}

impl<C: Copy> ThemeUniforms<C> {
    /// The uniforms of sixteen base colours: background = base00, foreground = base05,
    /// accent = base0D, error = base08, with the given darkness.
    pub fn from_base16(base16: &[C; 16], is_dark: bool) -> (u: Self)
        ensures
            u.background == base16@[0],
            u.foreground == base16@[5],
            u.accent == base16@[13],
            u.error == base16@[8],
            u.is_dark == is_dark,
    {
        ThemeUniforms {
            background: base16[0],
            foreground: base16[5],
            accent: base16[13],
            error: base16[8],
            is_dark,
        }
    }
}

impl ThemeUniforms<Color> {
    /// Generate shader uniforms from a color scheme: background = base00,
    /// foreground = base05, accent = base0D, error = base08, and the scheme's darkness.
    pub fn from_scheme(scheme: &ColorScheme) -> (u: Self)
        ensures
            u.background == scheme.base00,
            u.foreground == scheme.base05,
            u.accent == scheme.base0d,
            u.error == scheme.base08,
            u.is_dark == color_is_dark(scheme.base00),
    {
        Self::from_base16(&scheme.base16_array(), scheme.is_dark())
    }
}

/// WGSL snippet that declares the `ThemeUniforms` struct. Apps can include this in
/// their shaders.
pub const THEME_UNIFORMS_WGSL: &'static str = r"
struct ThemeUniforms {
    background: vec4<f32>,
    foreground: vec4<f32>,
    accent: vec4<f32>,
    error_color: vec4<f32>,
    is_dark: f32,
    _pad: vec3<f32>,
}
";

} // verus!
