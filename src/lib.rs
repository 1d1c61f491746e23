//! LaTeX-to-SVG rendering around a native typesetting engine.
//!
//! The engine is reached through the `NativeEngine` trait; this crate
//! drives each render through it (parse, extract, decode, post-process,
//! release) and corrects the geometry of the SVG that comes out: a `data-dpi`
//! annotation, then a height fix computed from the Y coordinates of the
//! document's paths, with the content recentered in a translated group.
pub mod color;
pub mod config;
pub mod dpi;
pub mod engine;
pub mod error;
pub mod fonts;
pub mod json;
pub mod metrics;
pub mod path_data;
pub mod payload;
pub mod recenter;
pub mod renderer;
pub mod test_control;
pub mod text;
pub mod xml;

pub use color::parse_color;
pub use config::RenderConfig;
pub use dpi::add_dpi_to_svg;
pub use engine::{FontMeta, NativeBuffer, NativeEngine, RenderHandle};
pub use error::RenderError;
pub use fonts::FontCatalog;
pub use metrics::{KeyCharMetrics, Ratio, RenderMetrics, RenderResult};
pub use path_data::{extract_y_coordinates, MICRO, PICO};
pub use payload::{decode_render_payload, key_char_metrics_from_fields, metrics_from_fields};
pub use recenter::{adjust_svg_height_and_center, recenter_pieces};
pub use renderer::{correct_svg, get_key_char_metrics, svg_from_bytes, MicroTex};
pub use test_control::TestShim;
pub use xml::{PieceKind, XmlPiece};
