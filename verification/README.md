# irodzuki

Base16 colour schemes for GPU applications, verified with Verus.

- `src/` is the verified library: 8-bit RGBA colours read from and written as
  `#RRGGBB` text, base16 slots, colour schemes with their ANSI, egaku, GPU and
  shader colour selections (generic over the colour type, so `app/` applies them to
  `f32` colours unchanged), the built-in presets, and the laws that relate them
  (`src/laws.rs`).
- `app/` holds what works on `f32` channels (blending, luminance in floating
  point, the sRGB transfer curves), the `bytemuck` uniform buffer, the
  `egaku::Theme` conversion and the `serde`/`thiserror` copies of the types.
- `tests/` runs the library on concrete values.
