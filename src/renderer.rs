//! The renderer: starts the engine with an embedded math font and drives
//! each render through parse, extraction, decoding, correction and cleanup.
//!
//! The native engine keeps global state, and repeated renders through one
//! instance have been seen to crash it; a renderer is therefore not meant to
//! be shared between threads, and callers that render often should serialize
//! their renders.
use vstd::prelude::*;
use vstd::utf8::{decode_utf8, valid_utf8};
use crate::config::RenderConfig;
use crate::dpi::{add_dpi_to_svg, with_dpi};
use crate::engine::{same_answers, same_settings, NativeEngine, RenderHandle};
use crate::error::{utf8_string, RenderError};
use crate::fonts::FontCatalog;
use crate::json::{json_parses, json_str_at};
use crate::metrics::{KeyCharMetrics, RenderResult};
use crate::payload::{decode_render_payload, fails_with, key_metrics_of, payload_failure, payload_metrics};
use crate::recenter::{adjust_svg_height_and_center, adjusted};

verus! {

/// An SVG document as the library hands it out: DPI annotation first, then
/// height correction.
pub open spec fn corrected(svg: Seq<char>, dpi: int) -> Seq<char> {
    adjusted(with_dpi(svg, dpi))
}

/// Annotates an SVG document with its DPI and corrects its height.
pub fn correct_svg(svg: &str, dpi: i32) -> (r: String)
    ensures
        r@ == corrected(svg@, dpi as int),
{
    let annotated = add_dpi_to_svg(svg, dpi);
    adjust_svg_height_and_center(annotated.as_str())
}

/// What a render returns for extracted SVG bytes `b`.
pub open spec fn bytes_outcome(r: Result<String, RenderError>, b: Seq<u8>, dpi: int) -> bool {
    if b.len() == 0 {
        r matches Err(RenderError::EmptyOutput)
    } else if !valid_utf8(b) {
        r matches Err(RenderError::InvalidUtf8(_))
    } else {
        r matches Ok(s) && s@ == corrected(decode_utf8(b), dpi)
    }
}

/// What a render returns, given whether parsing succeeded and what the SVG
/// extraction gave (`None` for a null buffer).
pub open spec fn render_outcome(
    r: Result<String, RenderError>,
    parses: bool,
    svg: Option<Seq<u8>>,
    dpi: int,
) -> bool {
    if !parses {
        r matches Err(RenderError::ParseRenderFailed)
    } else {
        match svg {
            None => r matches Err(RenderError::EmptyOutput),
            Some(b) => bytes_outcome(r, b, dpi),
        }
    }
}

/// The SVG document that extracted bytes hold, annotated and corrected:
/// `EmptyOutput` for no bytes, `InvalidUtf8` for bytes that are not UTF-8.
pub fn svg_from_bytes(bytes: Vec<u8>, dpi: i32) -> (r: Result<String, RenderError>)
    ensures
        bytes_outcome(r, bytes@, dpi as int),
{
    if bytes.len() == 0 {
        return Err(RenderError::EmptyOutput);
    }
    match utf8_string(bytes) {
        Err(e) => Err(RenderError::InvalidUtf8(e)),
        Ok(s) => Ok(correct_svg(s.as_str(), dpi)),
    }
}

/// The text that extracted JSON bytes hold.
fn json_text(bytes: Vec<u8>) -> (r: Result<String, RenderError>)
    ensures
        bytes@.len() == 0 ==> r matches Err(RenderError::EmptyOutput),
        bytes@.len() > 0 && !valid_utf8(bytes@) ==> r matches Err(RenderError::InvalidUtf8(_)),
        bytes@.len() > 0 && valid_utf8(bytes@) ==> (r matches Ok(s) && s@ == decode_utf8(bytes@)),
{
    if bytes.len() == 0 {
        return Err(RenderError::EmptyOutput);
    }
    match utf8_string(bytes) {
        Err(e) => Err(RenderError::InvalidUtf8(e)),
        Ok(s) => Ok(s),
    }
}

/// What the key character fetch returns for extracted bytes `b`.
pub open spec fn key_bytes_outcome(r: Result<KeyCharMetrics, RenderError>, b: Seq<u8>) -> bool {
    if b.len() == 0 {
        r matches Err(RenderError::EmptyOutput)
    } else if !valid_utf8(b) {
        r matches Err(RenderError::InvalidUtf8(_))
    } else {
        &&& r is Ok == json_parses(decode_utf8(b))
        &&& r matches Err(e) ==> e is ParseJsonFailed
        &&& r matches Ok(k) ==> key_metrics_of(k, decode_utf8(b))
    }
}

/// The key character metrics a render with metrics carries, given what the
/// key character extraction gives: present exactly when the fetch succeeds.
pub open spec fn key_outcome(k: Option<KeyCharMetrics>, keys: Option<Seq<u8>>) -> bool {
    match keys {
        Some(b) => if b.len() > 0 && valid_utf8(b) && json_parses(decode_utf8(b)) {
            k matches Some(km) && key_metrics_of(km, decode_utf8(b))
        } else {
            k is None
        },
        None => k is None,
    }
}

/// What a render with metrics returns for extracted payload bytes `b`, the
/// key character extraction giving `keys`.
pub open spec fn payload_outcome(
    r: Result<RenderResult, RenderError>,
    b: Seq<u8>,
    dpi: int,
    keys: Option<Seq<u8>>,
) -> bool {
    if b.len() == 0 {
        r matches Err(RenderError::EmptyOutput)
    } else if !valid_utf8(b) {
        r matches Err(RenderError::InvalidUtf8(_))
    } else if !json_parses(decode_utf8(b)) {
        r matches Err(RenderError::ParseJsonFailed(_))
    } else {
        match payload_failure(decode_utf8(b)) {
            Some(reason) => fails_with(r, reason),
            None => r matches Ok(res) && res.svg@ == corrected(
                json_str_at(decode_utf8(b), "svg"@).unwrap(),
                dpi,
            ) && res.metrics == payload_metrics(decode_utf8(b)) && key_outcome(
                res.key_char_metrics,
                keys,
            ),
        }
    }
}

/// Key character metrics of a live render, through a second extraction.
/// The buffer is freed on every path.
pub fn get_key_char_metrics<E: NativeEngine>(engine: &mut E, handle: &RenderHandle) -> (r: Result<
    KeyCharMetrics,
    RenderError,
>)
    requires
        old(engine).wf(),
    ensures
        final(engine).wf(),
        final(engine).open_renders() == old(engine).open_renders(),
        final(engine).open_buffers() == old(engine).open_buffers(),
        final(engine).output_of(handle.id) == old(engine).output_of(handle.id),
        same_answers(*final(engine), *old(engine)),
        same_settings(*final(engine), *old(engine)),
        match old(engine).output_of(handle.id).2 {
            None => r matches Err(RenderError::EmptyOutput),
            Some(b) => key_bytes_outcome(r, b),
        },
{
    match engine.get_key_char_metrics(handle) {
        None => Err(RenderError::EmptyOutput),
        Some(buf) => {
            let r = match json_text(buf.bytes.clone()) {
                Err(e) => Err(e),
                Ok(text) => KeyCharMetrics::from_json(text.as_str()),
            };
            engine.free_buffer(buf);
            r
        },
    }
}

/// `after` is `before` once started with font data `font`: initialized
/// with it, its default font family `Serif`, glyphs drawn as paths, the font
/// metadata released, and every parse and extraction answered as before.
pub open spec fn started<E: NativeEngine>(after: E, before: E, font: Seq<u8>) -> bool {
    &&& after.wf()
    &&& after.started_with() == Some(font)
    &&& after.default_main_font() == "Serif"@
    &&& after.glyph_use_path()
    &&& after.open_font_metas() == before.open_font_metas()
    &&& after.released() == before.released()
    &&& after.open_renders() == before.open_renders()
    &&& after.open_buffers() == before.open_buffers()
    &&& same_answers(after, before)
}

/// What starting a renderer gives: `InitializationFailed` when the catalog
/// holds no candidate font or the engine refuses the preferred one's data,
/// and otherwise a renderer over the engine started with that font.
pub open spec fn new_outcome<E: NativeEngine>(
    r: Result<MicroTex<E>, RenderError>,
    engine: E,
    catalog: FontCatalog,
) -> bool {
    match catalog.preferred() {
        None => r matches Err(RenderError::InitializationFailed),
        Some(i) => if engine.init_succeeds(catalog.entries@[i].1@) {
            r matches Ok(m) && started(m.engine, engine, catalog.entries@[i].1@)
        } else {
            r matches Err(RenderError::InitializationFailed)
        },
    }
}

/// Starts the engine with the most preferred math font of the catalog:
/// initializes it with that font's data, sets the default font family to
/// `Serif` and glyph drawing to paths, and releases the font metadata. With
/// no candidate font in the catalog the engine is not called at all.
pub fn start_engine<E: NativeEngine>(engine: &mut E, catalog: &FontCatalog) -> (r: Result<(), RenderError>)
    requires
        old(engine).wf(),
    ensures
        match catalog.preferred() {
            None => r matches Err(RenderError::InitializationFailed) && *final(engine) == *old(
                engine,
            ),
            Some(i) => if old(engine).init_succeeds(catalog.entries@[i].1@) {
                r is Ok && started(*final(engine), *old(engine), catalog.entries@[i].1@)
            } else {
                r matches Err(RenderError::InitializationFailed) && final(engine).wf()
                    && final(engine).started_with() == Some(catalog.entries@[i].1@)
            },
        },
{
    let index = match catalog.select_font() {
        Some(i) => i,
        None => return Err(RenderError::InitializationFailed),
    };
    proof {
        crate::fonts::lemma_preferred_bounds(catalog.names(), 0);
    }
    let meta = match engine.init(&catalog.entries[index].1) {
        Some(m) => m,
        None => return Err(RenderError::InitializationFailed),
    };
    engine.set_default_main_font("Serif");
    engine.set_render_glyph_use_path(true);
    engine.release_font_meta(meta);
    Ok(())
}

/// A LaTeX renderer over a native engine.
///
/// The engine's global state is released by `release`, which takes the
/// renderer by value and so runs at most once. Dropping a renderer does not
/// release anything: call `release` once when done.
pub struct MicroTex<E: NativeEngine> {
    pub engine: E,
}


impl<E: NativeEngine> MicroTex<E> {
    /// Starts the engine (see `start_engine`) and keeps it. Fails with `InitializationFailed` when the catalog holds none
    /// of the candidate fonts, or when the engine's initialization fails.
    pub fn new(engine: E, catalog: &FontCatalog) -> (r: Result<Self, RenderError>)
        requires
            engine.wf(),
        ensures
            new_outcome(r, engine, *catalog),
    {
        let mut engine = engine;
        match start_engine(&mut engine, catalog) {
            Ok(()) => Ok(MicroTex { engine }),
            Err(e) => Err(e),
        }
    }

    /// Ends the renderer: releases the engine's global state, once, and
    /// hands the engine back. Every renderer should end here.
    pub fn release(self) -> (r: E)
        ensures
            r.released(),
    {
        let mut engine = self.engine;
        engine.release();
        engine
    }

    /// Renders LaTeX source to an SVG document: parse and render, extract the
    /// SVG, decode it as UTF-8, annotate its DPI and correct its height. The
    /// extracted buffer and the render handle are released on every path.
    pub fn render(&mut self, latex_source: &str, config: &RenderConfig) -> (r: Result<String, RenderError>)
        requires
            old(self).engine.wf(),
        ensures
            final(self).engine.wf(),
            final(self).engine.open_renders() == old(self).engine.open_renders(),
            final(self).engine.open_buffers() == old(self).engine.open_buffers(),
            same_answers(final(self).engine, old(self).engine),
            same_settings(final(self).engine, old(self).engine),
            render_outcome(
                r,
                old(self).engine.parse_succeeds(latex_source@, *config),
                old(self).engine.outputs(latex_source@, *config).0,
                config.dpi as int,
            ),
    {
        let handle = match self.engine.parse_render(latex_source, config) {
            Some(h) => h,
            None => return Err(RenderError::ParseRenderFailed),
        };
        let r = match self.engine.render_to_svg(&handle) {
            None => Err(RenderError::EmptyOutput),
            Some(buf) => {
                let r = svg_from_bytes(buf.bytes.clone(), config.dpi);
                self.engine.free_buffer(buf);
                r
            },
        };
        self.engine.delete_render(handle);
        r
    }

    /// Renders LaTeX source to an SVG document with its metrics, from the
    /// engine's JSON payload `{"svg": ..., "metrics": {"width", "height",
    /// "depth", "ascent"}}`. Key character metrics are added when a second
    /// extraction gives them; their failure fails nothing. The buffers and
    /// the render handle are released on every path.
    pub fn render_to_svg_with_metrics(&mut self, latex_source: &str, config: &RenderConfig) -> (r:
        Result<RenderResult, RenderError>)
        requires
            old(self).engine.wf(),
        ensures
            final(self).engine.wf(),
            final(self).engine.open_renders() == old(self).engine.open_renders(),
            final(self).engine.open_buffers() == old(self).engine.open_buffers(),
            same_answers(final(self).engine, old(self).engine),
            same_settings(final(self).engine, old(self).engine),
            !old(self).engine.parse_succeeds(latex_source@, *config) ==> r matches Err(
                RenderError::ParseRenderFailed,
            ),
            old(self).engine.parse_succeeds(latex_source@, *config) ==> match old(
                self,
            ).engine.outputs(latex_source@, *config).1 {
                None => r matches Err(RenderError::EmptyOutput),
                Some(b) => payload_outcome(
                    r,
                    b,
                    config.dpi as int,
                    old(self).engine.outputs(latex_source@, *config).2,
                ),
            },
    {
        let handle = match self.engine.parse_render(latex_source, config) {
            Some(h) => h,
            None => return Err(RenderError::ParseRenderFailed),
        };
        let r = match self.engine.render_to_svg_with_metrics(&handle) {
            None => Err(RenderError::EmptyOutput),
            Some(buf) => {
                let decoded = match json_text(buf.bytes.clone()) {
                    Err(e) => Err(e),
                    Ok(text) => decode_render_payload(text.as_str(), config.dpi),
                };
                let r = match decoded {
                    Err(e) => Err(e),
                    Ok((svg, metrics)) => match get_key_char_metrics(&mut self.engine, &handle) {
                        Ok(k) => Ok(RenderResult::with_key_char_metrics(svg, metrics, k)),
                        Err(_) => Ok(RenderResult::new(svg, metrics)),
                    },
                };
                self.engine.free_buffer(buf);
                r
            },
        };
        self.engine.delete_render(handle);
        r
    }
}

/// Starting a renderer succeeds whenever the catalog holds a font file named
/// after one of the candidate math fonts and the engine accepts font data
/// (as the stand-in engine does when its initialization is set to succeed).
pub proof fn law_new_succeeds_with_candidate_font(
    shim: crate::test_control::TestShim,
    catalog: FontCatalog,
    r: Result<MicroTex<crate::test_control::TestShim>, RenderError>,
    i: int,
    k: int,
)
    requires
        new_outcome(r, shim, catalog),
        shim.init_succeed,
        0 <= i < catalog.names().len(),
        0 <= k < crate::fonts::font_candidates().len(),
        catalog.names()[i] == crate::fonts::font_candidates()[k],
    ensures
        r is Ok,
{
    crate::fonts::lemma_candidate_font_is_selected(catalog.names(), i, k);
}

/// Starting a renderer fails with `InitializationFailed` when the catalog
/// holds no font file named after a candidate math font, whatever the engine.
pub proof fn law_new_fails_without_candidate_font<E: NativeEngine>(
    engine: E,
    catalog: FontCatalog,
    r: Result<MicroTex<E>, RenderError>,
)
    requires
        new_outcome(r, engine, catalog),
        forall|i: int, k: int|
            #![trigger catalog.names()[i], crate::fonts::font_candidates()[k]]
            0 <= i < catalog.names().len() && 0 <= k < crate::fonts::font_candidates().len()
                ==> catalog.names()[i] != crate::fonts::font_candidates()[k],
    ensures
        r matches Err(RenderError::InitializationFailed),
{
    crate::fonts::lemma_no_candidate_no_font(catalog.names());
}

/// With the deterministic stand-in engine, a render fails with
/// `ParseRenderFailed` exactly when parsing is set to fail, with
/// `EmptyOutput` exactly when parsing succeeds and the extraction hands
/// back nothing, and with `InvalidUtf8` exactly when it hands back bytes
/// that are not UTF-8.
pub proof fn law_render_errors_follow_settings(
    shim: crate::test_control::TestShim,
    src: Seq<char>,
    config: RenderConfig,
    r: Result<String, RenderError>,
)
    requires
        render_outcome(
            r,
            shim.parse_succeeds(src, config),
            shim.outputs(src, config).0,
            config.dpi as int,
        ),
    ensures
        r matches Err(RenderError::ParseRenderFailed) <==> !shim.parse_succeed,
        r matches Err(RenderError::EmptyOutput) <==> shim.parse_succeed && (shim.return_empty
            || shim.buffer@.len() == 0),
        r matches Err(RenderError::InvalidUtf8(_)) <==> shim.parse_succeed && !shim.return_empty
            && shim.buffer@.len() > 0 && !valid_utf8(shim.buffer@),
{
}

} // verus!
