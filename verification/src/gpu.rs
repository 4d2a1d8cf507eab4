//! The colours a GPU render pipeline takes from a scheme.
use vstd::prelude::*;

use crate::scheme::{Base16Slot, Color, ColorScheme, lemma_all_slots_in_order};

verus! {

/// The colours of a render pipeline, picked from sixteen base colours of any colour type.
#[derive(Debug, Clone, Copy)]
pub struct GpuColors<C> {
    /// Background clear color.
    pub clear: C,
    /// Text foreground.
    pub text: C,
    /// Accent/highlight.
    pub accent: C,
    /// Error indicators.
    pub error: C,
    /// Selection background.
    pub selection: C,
    /// Cursor color.
    pub cursor: C,
    /// All 16 base16 colors, in slot order.
    pub palette: [C; 16],
}

impl<C: Copy> GpuColors<C> {
    /// The pipeline colours of sixteen base colours: clear = base00, text = base05,
    /// accent = base0D, error = base08, selection = base02, cursor = base04, and the
    /// palette lists the slots in the order of `Base16Slot::ALL`.
    pub fn from_base16(base16: &[C; 16]) -> (g: Self)
        ensures
            g.clear == base16@[0],
            g.text == base16@[5],
            g.accent == base16@[13],
            g.error == base16@[8],
            g.selection == base16@[2],
            g.cursor == base16@[4],
            g.palette@ == base16@,
            forall|i: int| 0 <= i < 16 ==> #[trigger] g.palette@[i] == base16@[Base16Slot::ALL@[i].position()],
    {
        proof {
            lemma_all_slots_in_order();
        }
        let mut palette = [base16[0]; 16];
        let mut i: usize = 0;
        while i < 16
            invariant
                i <= 16,
                forall|j: int| 0 <= j < i ==> #[trigger] palette@[j] == base16@[j],
            decreases 16 - i,
        {
            palette[i] = Base16Slot::ALL[i].pick(base16);
            i += 1;
        }
        assert(palette@ =~= base16@);
        GpuColors {
            clear: base16[0],
            text: base16[5],
            accent: base16[13],
            error: base16[8],
            selection: base16[2],
            cursor: base16[4],
            palette,
        }
    }
}

impl GpuColors<Color> {
    /// Compute GPU colors from a color scheme (see `from_base16`).
    pub fn from_scheme(scheme: &ColorScheme) -> (g: Self)
        ensures
            g.clear == scheme.base00,
            g.text == scheme.base05,
            g.accent == scheme.base0d,
            g.error == scheme.base08,
            g.selection == scheme.base02,
            g.cursor == scheme.base04,
            g.palette@ == scheme.base16(),
            forall|i: int| 0 <= i < 16 ==> #[trigger] g.palette@[i] == scheme.base16()[Base16Slot::ALL@[i].position()],
            // Palette entry `XY` is field `baseXY`.
            g.palette@ == seq![
                scheme.base00, scheme.base01, scheme.base02, scheme.base03,
                scheme.base04, scheme.base05, scheme.base06, scheme.base07,
                scheme.base08, scheme.base09, scheme.base0a, scheme.base0b,
                scheme.base0c, scheme.base0d, scheme.base0e, scheme.base0f,
            ],
    {
        Self::from_base16(&scheme.base16_array())
    }
}

} // verus!
