//! An immediate-mode 2D drawing engine with a p5-style vocabulary.
//!
//! The engine owns the per-frame draw state — fill, stroke, colour
//! mode, rectangle mode and affine transform — and builds the paths of
//! the curved and rounded primitives.  All of its geometry and colour
//! arithmetic is exact fixed-point, so every path, transform and colour
//! it hands to a rasterizer is pinned down by a contract.  The
//! windowing loop, the rasterizer and the font service are external
//! collaborators fed from the plans this library produces.

pub mod color;
pub mod family;
pub mod fixed;
pub mod input;
pub mod path;
pub mod state;
pub mod transform;

pub use color::Color;
pub use color::ColorInput;
pub use color::ColorMode;
pub use color::ColorModel;
pub use family::FontFamily;
pub use fixed::Fx;
pub use input::Key;
pub use path::PathCmd;
pub use path::Pt;
pub use path::RectMode;
pub use path::RectRounding;
pub use state::DrawPlan;
pub use state::DrawState;
pub use state::PointPlan;
pub use state::TextPlan;
pub use transform::Affine;
