//! Dimensional metrics of a rendered formula, and the result of a render.
use vstd::prelude::*;

verus! {

/// An exact ratio `num / den`, with `den > 0`.
#[derive(Clone, Copy, Debug, PartialEq, Eq)]
pub struct Ratio {
    pub num: i32,
    pub den: i32,
}

/// Dimensions of a rendered formula, in the engine's units.
#[derive(Clone, Copy, Debug, PartialEq, Eq)]
pub struct RenderMetrics {
    /// The width of the rendered formula.
    pub width: i32,
    /// The total height (ascent plus depth).
    pub height: i32,
    /// The extent below the baseline.
    pub depth: i32,
    /// The extent above the baseline.
    pub ascent: i32,
}

impl RenderMetrics {
    pub fn new(width: i32, height: i32, depth: i32, ascent: i32) -> (r: Self)
        ensures
            r == (RenderMetrics { width, height, depth, ascent }),
    {
        RenderMetrics { width, height, depth, ascent }
    }

    /// The total height, ascent and depth together.
    pub fn total_height(&self) -> (r: i32)
        ensures
            r == self.height,
    {
        self.height
    }

    /// `width / height`, or one when the height is not positive.
    pub fn aspect_ratio(&self) -> (r: Ratio)
        ensures
            self.height > 0 ==> r == (Ratio { num: self.width, den: self.height }),
            self.height <= 0 ==> r == (Ratio { num: 1, den: 1 }),
    {
        if self.height > 0 {
            Ratio { num: self.width, den: self.height }
        } else {
            Ratio { num: 1, den: 1 }
        }
    }

    /// `ascent / height`, or one half when the height is not positive.
    pub fn baseline_ratio(&self) -> (r: Ratio)
        ensures
            self.height > 0 ==> r == (Ratio { num: self.ascent, den: self.height }),
            self.height <= 0 ==> r == (Ratio { num: 1, den: 2 }),
    {
        if self.height > 0 {
            Ratio { num: self.ascent, den: self.height }
        } else {
            Ratio { num: 1, den: 2 }
        }
    }
}

/// Heights of the top-level character boxes of a formula, with their
/// statistics. Fractional heights are in millionths of the engine's unit.
#[derive(Clone, Debug, PartialEq, Eq)]
pub struct KeyCharMetrics {
    pub key_char_heights: Vec<i32>,
    pub key_char_count: i32,
    /// Average key character height, in millionths.
    pub average_char_height: i64,
    pub max_char_height: i32,
    pub min_char_height: i32,
    /// Height of the box tree's root, in millionths.
    pub box_tree_height: i64,
}

impl KeyCharMetrics {
    pub fn new(
        key_char_heights: Vec<i32>,
        key_char_count: i32,
        average_char_height: i64,
        max_char_height: i32,
        min_char_height: i32,
        box_tree_height: i64,
    ) -> (r: Self)
        ensures
            r.key_char_heights@ == key_char_heights@,
            r.key_char_count == key_char_count,
            r.average_char_height == average_char_height,
            r.max_char_height == max_char_height,
            r.min_char_height == min_char_height,
            r.box_tree_height == box_tree_height,
    {
        KeyCharMetrics {
            key_char_heights,
            key_char_count,
            average_char_height,
            max_char_height,
            min_char_height,
            box_tree_height,
        }
    }
}

/// A rendered SVG document with its metrics.
#[derive(Clone, Debug)]
pub struct RenderResult {
    pub svg: String,
    pub metrics: RenderMetrics,
    /// Key character metrics, when the engine could give them.
    pub key_char_metrics: Option<KeyCharMetrics>,
}

impl RenderResult {
    pub fn new(svg: String, metrics: RenderMetrics) -> (r: Self)
        ensures
            r.svg@ == svg@,
            r.metrics == metrics,
            r.key_char_metrics is None,
    {
        RenderResult { svg, metrics, key_char_metrics: None }
    }

    pub fn with_key_char_metrics(
        svg: String,
        metrics: RenderMetrics,
        key_char_metrics: KeyCharMetrics,
    ) -> (r: Self)
        ensures
            r.svg@ == svg@,
            r.metrics == metrics,
            r.key_char_metrics == Some(key_char_metrics),
    {
        RenderResult { svg, metrics, key_char_metrics: Some(key_char_metrics) }
    }
}

} // verus!
