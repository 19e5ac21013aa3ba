//! A small 2D graphic-design toolkit: chart geometry, axis and label layout,
//! and drawing onto an RGBA pixel buffer.

pub mod background;
pub mod chart;
pub mod collage;
pub mod color;
pub mod diagrams;
pub mod elements;
pub mod error;
pub mod geometry;
pub mod gradients;
pub mod graphics;
pub mod image;
pub mod layout;
pub mod presets;
pub mod resize;
pub mod text;
mod raster;

pub use crate::chart::{Chart, ChartKind, Orientation};
pub use crate::color::{new_rgb, Rgb};
pub use crate::error::GraphicsError;
pub use crate::image::PhotonImage;
pub use crate::text::Font;
