//! Irodzuki (色づき): GPU-app theming. Base16 colour schemes read from hex text, with the
//! colour data that GPU pipelines, shaders and terminal grids take from them.
pub mod error;
pub mod gpu;
pub mod hex;
pub mod laws;
pub mod presets;
pub mod scheme;
pub mod shader;

pub use error::IrodzukiError;
pub use gpu::GpuColors;
pub use scheme::{Base16Slot, Color, ColorScheme};
pub use shader::ThemeUniforms;
