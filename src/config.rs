//! The parameters of one render request.
use vstd::prelude::*;

verus! {

/// Parameters of one render. Line sizes are in millionths of a pixel.
#[derive(Clone, Copy, Debug, PartialEq, Eq)]
pub struct RenderConfig {
    /// Dots per inch of the output.
    pub dpi: i32,
    /// Line width, in millionths of a pixel.
    pub line_width: i64,
    /// Line height, in millionths of a pixel.
    pub line_height: i64,
    /// Text color as ARGB (`0xAARRGGBB`).
    pub text_color: u32,
    /// Whether the background is painted.
    pub has_background: bool,
    /// Whether glyphs are drawn as paths, which does not depend on system fonts.
    pub render_glyph_use_path: bool,
    /// Whether formulas are numbered.
    pub enable_formula_numbering: bool,
}

/// The configuration that `RenderConfig::default` gives: 720 dpi, lines 20
/// pixels wide and 20/3 high, opaque black text, no background, glyphs as
/// paths, no numbering.
pub open spec fn default_config() -> RenderConfig {
    RenderConfig {
        dpi: 720,
        line_width: 20_000_000,
        line_height: 6_666_667,
        text_color: 0xff000000,
        has_background: false,
        render_glyph_use_path: true,
        enable_formula_numbering: false,
    }
}

impl Default for RenderConfig {
    fn default() -> (r: Self)
        ensures
            r == default_config(),
    {
        RenderConfig {
            dpi: 720,
            line_width: 20_000_000,
            line_height: 6_666_667,
            text_color: 0xff000000,
            has_background: false,
            render_glyph_use_path: true,
            enable_formula_numbering: false,
        }
    }
}

} // verus!
