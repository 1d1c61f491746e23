//! Decoding of the engine's JSON outputs.
//!
//! The render payload `{"svg": ..., "metrics": {...}}` is decoded strictly:
//! a missing or mistyped field fails the whole decode. The key character
//! metrics are decoded leniently: each missing or mistyped field takes its
//! default.
use vstd::prelude::*;
use crate::error::{json_failure, RenderError};
use crate::json::{
    int_at, int_in, int_list_at, is_object_at, json_error_text, json_int_at, json_int_in,
    json_int_list_at, json_is_object_at, json_number_text_at, json_parses, json_str_at,
    number_text_at, parse_json, str_at,
};
use crate::metrics::{KeyCharMetrics, RenderMetrics};
use crate::path_data::{decimal_value, parse_decimal};
use crate::renderer::{correct_svg, corrected};

verus! {

/// `r` is `ParseJsonFailed` with this reason.
pub open spec fn fails_with<T>(r: Result<T, RenderError>, reason: Seq<char>) -> bool {
    r matches Err(RenderError::ParseJsonFailed(m)) && m@ == reason
}

/// The integer as `i32`, its low 32 bits (the `as` conversion).
pub open spec fn to_i32(x: i64) -> i32 {
    x as i32
}

fn field_i32(v: Option<i64>) -> (r: Option<i32>)
    ensures
        match v {
            Some(x) => r == Some(to_i32(x)),
            None => r is None,
        },
{
    match v {
        Some(x) => Some(#[verifier::truncate] (x as i32)),
        None => None,
    }
}

/// The reason for the first of the four fields, in the order width,
/// height, depth, ascent, that is missing or not an integer.
pub open spec fn field_failure(
    width: Option<i64>,
    height: Option<i64>,
    depth: Option<i64>,
    ascent: Option<i64>,
) -> Option<Seq<char>> {
    if width is None {
        Some("missing or invalid 'width'"@)
    } else if height is None {
        Some("missing or invalid 'height'"@)
    } else if depth is None {
        Some("missing or invalid 'depth'"@)
    } else if ascent is None {
        Some("missing or invalid 'ascent'"@)
    } else {
        None
    }
}

pub open spec fn metrics_value(
    width: Option<i64>,
    height: Option<i64>,
    depth: Option<i64>,
    ascent: Option<i64>,
) -> RenderMetrics {
    RenderMetrics {
        width: to_i32(width.unwrap()),
        height: to_i32(height.unwrap()),
        depth: to_i32(depth.unwrap()),
        ascent: to_i32(ascent.unwrap()),
    }
}

/// The metrics of a render payload from its four fields; each must be an
/// integer, checked in the order width, height, depth, ascent, and is
/// converted to `i32` with `as`.
pub fn metrics_from_fields(
    width: Option<i64>,
    height: Option<i64>,
    depth: Option<i64>,
    ascent: Option<i64>,
) -> (r: Result<RenderMetrics, RenderError>)
    ensures
        match field_failure(width, height, depth, ascent) {
            Some(reason) => fails_with(r, reason),
            None => r matches Ok(m) && m == metrics_value(width, height, depth, ascent),
        },
{
    let w = match field_i32(width) {
        Some(w) => w,
        None => return Err(json_failure("missing or invalid 'width'")),
    };
    let h = match field_i32(height) {
        Some(h) => h,
        None => return Err(json_failure("missing or invalid 'height'")),
    };
    let d = match field_i32(depth) {
        Some(d) => d,
        None => return Err(json_failure("missing or invalid 'depth'")),
    };
    let a = match field_i32(ascent) {
        Some(a) => a,
        None => return Err(json_failure("missing or invalid 'ascent'")),
    };
    Ok(RenderMetrics::new(w, h, d, a))
}

pub open spec fn metric_field(text: Seq<char>, key: Seq<char>) -> Option<i64> {
    json_int_in(text, "metrics"@, key)
}

/// Why a JSON document is not a render payload, if it is not: its `svg`
/// string is missing, its `metrics` object is missing, or a metric is.
pub open spec fn payload_failure(text: Seq<char>) -> Option<Seq<char>> {
    if json_str_at(text, "svg"@) is None {
        Some("missing 'svg' field"@)
    } else if !json_is_object_at(text, "metrics"@) {
        Some("missing 'metrics' field"@)
    } else {
        field_failure(
            metric_field(text, "width"@),
            metric_field(text, "height"@),
            metric_field(text, "depth"@),
            metric_field(text, "ascent"@),
        )
    }
}

/// The metrics of a render payload without failure.
pub open spec fn payload_metrics(text: Seq<char>) -> RenderMetrics {
    metrics_value(
        metric_field(text, "width"@),
        metric_field(text, "height"@),
        metric_field(text, "depth"@),
        metric_field(text, "ascent"@),
    )
}

/// What decoding the render payload `text` gives: the JSON error, the first
/// missing part, or the `svg` string corrected for `dpi` with the metrics.
pub open spec fn payload_decoded(
    r: Result<(String, RenderMetrics), RenderError>,
    text: Seq<char>,
    dpi: int,
) -> bool {
    if !json_parses(text) {
        r matches Err(RenderError::ParseJsonFailed(_))
    } else {
        match payload_failure(text) {
            Some(reason) => fails_with(r, reason),
            None => r matches Ok((s, m)) && s@ == corrected(json_str_at(text, "svg"@).unwrap(), dpi)
                && m == payload_metrics(text),
        }
    }
}

/// Decodes the render payload: the `svg` string, corrected for `dpi`, and
/// the `metrics` object.
pub fn decode_render_payload(json: &str, dpi: i32) -> (r: Result<(String, RenderMetrics), RenderError>)
    ensures
        payload_decoded(r, json@, dpi as int),
{
    match parse_json(json) {
        Ok(()) => {},
        Err(e) => return Err(RenderError::ParseJsonFailed(json_error_text(&e))),
    }
    let raw = match str_at(json, "svg") {
        Some(s) => s,
        None => return Err(json_failure("missing 'svg' field")),
    };
    let svg = correct_svg(raw.as_str(), dpi);
    if !is_object_at(json, "metrics") {
        return Err(json_failure("missing 'metrics' field"));
    }
    let metrics = match metrics_from_fields(
        int_in(json, "metrics", "width"),
        int_in(json, "metrics", "height"),
        int_in(json, "metrics", "depth"),
        int_in(json, "metrics", "ascent"),
    ) {
        Ok(m) => m,
        Err(e) => return Err(e),
    };
    Ok((svg, metrics))
}

pub open spec fn i32_or_zero(x: Option<i64>) -> i32 {
    match x {
        Some(v) => to_i32(v),
        None => 0,
    }
}

/// The heights that are integers, in order, each converted with `as i32`.
pub open spec fn kept_heights(s: Seq<Option<i64>>) -> Seq<i32>
    decreases s.len(),
{
    if s.len() == 0 {
        Seq::empty()
    } else {
        kept_heights(s.drop_last()) + if s.last() is Some {
            seq![to_i32(s.last().unwrap())]
        } else {
            Seq::empty()
        }
    }
}

/// A JSON number text in millionths, or zero when it is none.
pub open spec fn millionths_or_zero(t: Option<Seq<char>>) -> i64 {
    match t {
        Some(t) => match decimal_value(t) {
            Some(v) => v as i64,
            None => 0,
        },
        None => 0,
    }
}

/// Reads a JSON number text in millionths; zero when it reads as none.
fn millionths(t: Option<String>) -> (r: i64)
    ensures
        r == millionths_or_zero(
            match t {
                Some(s) => Some(s@),
                None => None,
            },
        ),
{
    match t {
        Some(s) => {
            let c = crate::text::chars_of(s.as_str());
            assert(c@.subrange(0, c@.len() as int) =~= c@);
            match parse_decimal(&c, 0, c.len()) {
                Some(v) => v as i64,
                None => 0,
            }
        },
        None => 0,
    }
}

/// Key character metrics from their fields, each missing or unusable one
/// taking its default (an empty list, or zero).
pub fn key_char_metrics_from_fields(
    heights: Option<Vec<Option<i64>>>,
    count: Option<i64>,
    average: Option<String>,
    max: Option<i64>,
    min: Option<i64>,
    box_tree: Option<String>,
) -> (r: KeyCharMetrics)
    ensures
        r.key_char_heights@ == match heights {
            Some(h) => kept_heights(h@),
            None => Seq::empty(),
        },
        r.key_char_count == i32_or_zero(count),
        r.average_char_height == millionths_or_zero(
            match average {
                Some(s) => Some(s@),
                None => None,
            },
        ),
        r.max_char_height == i32_or_zero(max),
        r.min_char_height == i32_or_zero(min),
        r.box_tree_height == millionths_or_zero(
            match box_tree {
                Some(s) => Some(s@),
                None => None,
            },
        ),
{
    let mut kept: Vec<i32> = Vec::new();
    match heights {
        Some(h) => {
            let mut i: usize = 0;
            while i < h.len()
                invariant
                    i <= h@.len(),
                    kept@ == kept_heights(h@.subrange(0, i as int)),
                decreases h@.len() - i,
            {
                assert(h@.subrange(0, i + 1).drop_last() =~= h@.subrange(0, i as int));
                match field_i32(h[i]) {
                    Some(x) => {
                        kept.push(x);
                    },
                    None => {},
                }
                assert(kept@ =~= kept_heights(h@.subrange(0, i + 1)));
                i += 1;
            }
            assert(h@.subrange(0, i as int) =~= h@);
        },
        None => {},
    }
    let c = match field_i32(count) {
        Some(x) => x,
        None => 0,
    };
    let mx = match field_i32(max) {
        Some(x) => x,
        None => 0,
    };
    let mn = match field_i32(min) {
        Some(x) => x,
        None => 0,
    };
    KeyCharMetrics::new(kept, c, millionths(average), mx, mn, millionths(box_tree))
}

/// `k` holds the key character metrics that JSON text `text` gives, each
/// missing or unusable field at its default.
pub open spec fn key_metrics_of(k: KeyCharMetrics, text: Seq<char>) -> bool {
    &&& k.key_char_heights@ == match json_int_list_at(text, "key_char_heights"@) {
        Some(h) => kept_heights(h),
        None => Seq::empty(),
    }
    &&& k.key_char_count == i32_or_zero(json_int_at(text, "key_char_count"@))
    &&& k.average_char_height == millionths_or_zero(
        json_number_text_at(text, "average_char_height"@),
    )
    &&& k.max_char_height == i32_or_zero(json_int_at(text, "max_char_height"@))
    &&& k.min_char_height == i32_or_zero(json_int_at(text, "min_char_height"@))
    &&& k.box_tree_height == millionths_or_zero(json_number_text_at(text, "box_tree_height"@))
}

impl KeyCharMetrics {
    /// Decodes key character metrics from the engine's JSON; only text that
    /// is not JSON at all fails.
    pub fn from_json(json: &str) -> (r: Result<KeyCharMetrics, RenderError>)
        ensures
            r is Ok == json_parses(json@),
            r matches Err(e) ==> e is ParseJsonFailed,
            r matches Ok(k) ==> key_metrics_of(k, json@),
    {
        match parse_json(json) {
            Ok(()) => {},
            Err(e) => return Err(RenderError::ParseJsonFailed(json_error_text(&e))),
        }
        Ok(
            key_char_metrics_from_fields(
                int_list_at(json, "key_char_heights"),
                int_at(json, "key_char_count"),
                number_text_at(json, "average_char_height"),
                int_at(json, "max_char_height"),
                int_at(json, "min_char_height"),
                number_text_at(json, "box_tree_height"),
            ),
        )
    }
}

} // verus!
