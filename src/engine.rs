//! The boundary with the native typesetting engine.
//!
//! An engine is reached through `NativeEngine`; the library's render steps
//! are written against it, so that the engine behind can be the native one
//! or the deterministic stand-in of `test_control`. Render handles and output
//! buffers are tokens that the engine hands out and takes back by value, so
//! each can be released once only; the engine's counts of open handles and
//! buffers let contracts say that every path releases what it acquired.
use vstd::prelude::*;
use crate::config::RenderConfig;

verus! {

/// The font metadata that initialization gives back.
pub struct FontMeta {
    pub id: u64,
}

/// One render in progress inside the engine.
pub struct RenderHandle {
    pub id: u64,
}

/// A byte buffer that the engine filled; it goes back to the engine once
/// read.
pub struct NativeBuffer {
    pub id: u64,
    pub bytes: Vec<u8>,
}

/// What the three extractions of a render give: the SVG, the JSON of SVG
/// and metrics, and the JSON of key character metrics (`None` for a null
/// buffer).
pub type RenderOutputs = (Option<Seq<u8>>, Option<Seq<u8>>, Option<Seq<u8>>);

/// The spec functions describe an engine's state for verification. Their
/// default bodies exist only so that engines which are never verified (the
/// native one, outside this library) compile; they do not describe such an
/// engine, and the contracts here speak only of engines that define them
/// all, as the stand-in of `test_control` does.
pub trait NativeEngine: Sized {
    /// The engine's own invariant.
    closed spec fn wf(&self) -> bool {
        true
    }

    /// Render handles handed out and not yet deleted.
    closed spec fn open_renders(&self) -> nat {
        0
    }

    /// Buffers handed out and not yet freed.
    closed spec fn open_buffers(&self) -> nat {
        0
    }

    /// Font metadata handed out by initialization and not yet released.
    closed spec fn open_font_metas(&self) -> nat {
        0
    }

    /// The font data of the last initialization, if any.
    closed spec fn started_with(&self) -> Option<Seq<u8>> {
        None
    }

    /// The default main font family last set.
    closed spec fn default_main_font(&self) -> Seq<char> {
        Seq::empty()
    }

    /// Whether glyphs are drawn as paths.
    closed spec fn glyph_use_path(&self) -> bool {
        false
    }

    /// Whether the engine's global state was released.
    closed spec fn released(&self) -> bool {
        false
    }

    /// Whether initialization with this font data succeeds.
    closed spec fn init_succeeds(&self, font: Seq<u8>) -> bool {
        false
    }

    /// Whether parsing and rendering this source succeeds.
    closed spec fn parse_succeeds(&self, src: Seq<char>, config: RenderConfig) -> bool {
        false
    }

    /// What the extractions of a render of this source give.
    closed spec fn outputs(&self, src: Seq<char>, config: RenderConfig) -> RenderOutputs {
        (None, None, None)
    }

    /// What the extractions of the render with this handle give.
    closed spec fn output_of(&self, handle: u64) -> RenderOutputs {
        (None, None, None)
    }

    fn init(&mut self, font: &Vec<u8>) -> (r: Option<FontMeta>)
        requires
            old(self).wf(),
        ensures
            final(self).wf(),
            r is Some == old(self).init_succeeds(font@),
            final(self).started_with() == Some(font@),
            final(self).open_font_metas() == old(self).open_font_metas() + if r is Some {
                1nat
            } else {
                0nat
            },
            final(self).default_main_font() == old(self).default_main_font(),
            final(self).glyph_use_path() == old(self).glyph_use_path(),
            final(self).released() == old(self).released(),
            final(self).open_renders() == old(self).open_renders(),
            final(self).open_buffers() == old(self).open_buffers(),
            forall|s: Seq<char>, c: RenderConfig|
                #[trigger] final(self).parse_succeeds(s, c) == old(self).parse_succeeds(s, c),
            forall|s: Seq<char>, c: RenderConfig|
                #[trigger] final(self).outputs(s, c) == old(self).outputs(s, c),
    ;

    fn set_default_main_font(&mut self, name: &str)
        requires
            old(self).wf(),
        ensures
            final(self).wf(),
            final(self).default_main_font() == name@,
            final(self).started_with() == old(self).started_with(),
            final(self).open_font_metas() == old(self).open_font_metas(),
            final(self).glyph_use_path() == old(self).glyph_use_path(),
            final(self).released() == old(self).released(),
            final(self).open_renders() == old(self).open_renders(),
            final(self).open_buffers() == old(self).open_buffers(),
            forall|s: Seq<char>, c: RenderConfig|
                #[trigger] final(self).parse_succeeds(s, c) == old(self).parse_succeeds(s, c),
            forall|s: Seq<char>, c: RenderConfig|
                #[trigger] final(self).outputs(s, c) == old(self).outputs(s, c),
    ;

    fn set_render_glyph_use_path(&mut self, use_path: bool)
        requires
            old(self).wf(),
        ensures
            final(self).wf(),
            final(self).glyph_use_path() == use_path,
            final(self).started_with() == old(self).started_with(),
            final(self).open_font_metas() == old(self).open_font_metas(),
            final(self).default_main_font() == old(self).default_main_font(),
            final(self).released() == old(self).released(),
            final(self).open_renders() == old(self).open_renders(),
            final(self).open_buffers() == old(self).open_buffers(),
            forall|s: Seq<char>, c: RenderConfig|
                #[trigger] final(self).parse_succeeds(s, c) == old(self).parse_succeeds(s, c),
            forall|s: Seq<char>, c: RenderConfig|
                #[trigger] final(self).outputs(s, c) == old(self).outputs(s, c),
    ;

    fn release_font_meta(&mut self, meta: FontMeta)
        requires
            old(self).wf(),
            old(self).open_font_metas() > 0,
        ensures
            final(self).wf(),
            final(self).open_font_metas() == old(self).open_font_metas() - 1,
            final(self).started_with() == old(self).started_with(),
            final(self).default_main_font() == old(self).default_main_font(),
            final(self).glyph_use_path() == old(self).glyph_use_path(),
            final(self).released() == old(self).released(),
            final(self).open_renders() == old(self).open_renders(),
            final(self).open_buffers() == old(self).open_buffers(),
            forall|s: Seq<char>, c: RenderConfig|
                #[trigger] final(self).parse_succeeds(s, c) == old(self).parse_succeeds(s, c),
            forall|s: Seq<char>, c: RenderConfig|
                #[trigger] final(self).outputs(s, c) == old(self).outputs(s, c),
    ;

    fn parse_render(&mut self, src: &str, config: &RenderConfig) -> (r: Option<RenderHandle>)
        requires
            old(self).wf(),
        ensures
            final(self).wf(),
            r is Some == old(self).parse_succeeds(src@, *config),
            r matches Some(h) ==> final(self).open_renders() == old(self).open_renders() + 1
                && final(self).output_of(h.id) == old(self).outputs(src@, *config),
            r is None ==> final(self).open_renders() == old(self).open_renders(),
            final(self).open_buffers() == old(self).open_buffers(),
            final(self).started_with() == old(self).started_with(),
            final(self).open_font_metas() == old(self).open_font_metas(),
            final(self).default_main_font() == old(self).default_main_font(),
            final(self).glyph_use_path() == old(self).glyph_use_path(),
            final(self).released() == old(self).released(),
            forall|s: Seq<char>, c: RenderConfig|
                #[trigger] final(self).parse_succeeds(s, c) == old(self).parse_succeeds(s, c),
            forall|s: Seq<char>, c: RenderConfig|
                #[trigger] final(self).outputs(s, c) == old(self).outputs(s, c),
    ;

    fn render_to_svg(&mut self, handle: &RenderHandle) -> (r: Option<NativeBuffer>)
        requires
            old(self).wf(),
        ensures
            final(self).wf(),
            final(self).open_renders() == old(self).open_renders(),
            final(self).output_of(handle.id) == old(self).output_of(handle.id),
            match old(self).output_of(handle.id).0 {
                Some(b) => r matches Some(buf) && buf.bytes@ == b && final(self).open_buffers()
                    == old(self).open_buffers() + 1,
                None => r is None && final(self).open_buffers() == old(self).open_buffers(),
            },
            final(self).started_with() == old(self).started_with(),
            final(self).open_font_metas() == old(self).open_font_metas(),
            final(self).default_main_font() == old(self).default_main_font(),
            final(self).glyph_use_path() == old(self).glyph_use_path(),
            final(self).released() == old(self).released(),
            forall|s: Seq<char>, c: RenderConfig|
                #[trigger] final(self).parse_succeeds(s, c) == old(self).parse_succeeds(s, c),
            forall|s: Seq<char>, c: RenderConfig|
                #[trigger] final(self).outputs(s, c) == old(self).outputs(s, c),
    ;

    fn render_to_svg_with_metrics(&mut self, handle: &RenderHandle) -> (r: Option<NativeBuffer>)
        requires
            old(self).wf(),
        ensures
            final(self).wf(),
            final(self).open_renders() == old(self).open_renders(),
            final(self).output_of(handle.id) == old(self).output_of(handle.id),
            match old(self).output_of(handle.id).1 {
                Some(b) => r matches Some(buf) && buf.bytes@ == b && final(self).open_buffers()
                    == old(self).open_buffers() + 1,
                None => r is None && final(self).open_buffers() == old(self).open_buffers(),
            },
            final(self).started_with() == old(self).started_with(),
            final(self).open_font_metas() == old(self).open_font_metas(),
            final(self).default_main_font() == old(self).default_main_font(),
            final(self).glyph_use_path() == old(self).glyph_use_path(),
            final(self).released() == old(self).released(),
            forall|s: Seq<char>, c: RenderConfig|
                #[trigger] final(self).parse_succeeds(s, c) == old(self).parse_succeeds(s, c),
            forall|s: Seq<char>, c: RenderConfig|
                #[trigger] final(self).outputs(s, c) == old(self).outputs(s, c),
    ;

    fn get_key_char_metrics(&mut self, handle: &RenderHandle) -> (r: Option<NativeBuffer>)
        requires
            old(self).wf(),
        ensures
            final(self).wf(),
            final(self).open_renders() == old(self).open_renders(),
            final(self).output_of(handle.id) == old(self).output_of(handle.id),
            match old(self).output_of(handle.id).2 {
                Some(b) => r matches Some(buf) && buf.bytes@ == b && final(self).open_buffers()
                    == old(self).open_buffers() + 1,
                None => r is None && final(self).open_buffers() == old(self).open_buffers(),
            },
            final(self).started_with() == old(self).started_with(),
            final(self).open_font_metas() == old(self).open_font_metas(),
            final(self).default_main_font() == old(self).default_main_font(),
            final(self).glyph_use_path() == old(self).glyph_use_path(),
            final(self).released() == old(self).released(),
            forall|s: Seq<char>, c: RenderConfig|
                #[trigger] final(self).parse_succeeds(s, c) == old(self).parse_succeeds(s, c),
            forall|s: Seq<char>, c: RenderConfig|
                #[trigger] final(self).outputs(s, c) == old(self).outputs(s, c),
    ;

    fn free_buffer(&mut self, buffer: NativeBuffer)
        requires
            old(self).wf(),
            old(self).open_buffers() > 0,
        ensures
            final(self).wf(),
            final(self).open_renders() == old(self).open_renders(),
            final(self).open_buffers() == old(self).open_buffers() - 1,
            forall|h: u64| #[trigger] final(self).output_of(h) == old(self).output_of(h),
            final(self).started_with() == old(self).started_with(),
            final(self).open_font_metas() == old(self).open_font_metas(),
            final(self).default_main_font() == old(self).default_main_font(),
            final(self).glyph_use_path() == old(self).glyph_use_path(),
            final(self).released() == old(self).released(),
            forall|s: Seq<char>, c: RenderConfig|
                #[trigger] final(self).parse_succeeds(s, c) == old(self).parse_succeeds(s, c),
            forall|s: Seq<char>, c: RenderConfig|
                #[trigger] final(self).outputs(s, c) == old(self).outputs(s, c),
    ;

    fn delete_render(&mut self, handle: RenderHandle)
        requires
            old(self).wf(),
            old(self).open_renders() > 0,
        ensures
            final(self).wf(),
            final(self).open_renders() == old(self).open_renders() - 1,
            final(self).open_buffers() == old(self).open_buffers(),
            final(self).started_with() == old(self).started_with(),
            final(self).open_font_metas() == old(self).open_font_metas(),
            final(self).default_main_font() == old(self).default_main_font(),
            final(self).glyph_use_path() == old(self).glyph_use_path(),
            final(self).released() == old(self).released(),
            forall|s: Seq<char>, c: RenderConfig|
                #[trigger] final(self).parse_succeeds(s, c) == old(self).parse_succeeds(s, c),
            forall|s: Seq<char>, c: RenderConfig|
                #[trigger] final(self).outputs(s, c) == old(self).outputs(s, c),
    ;

    /// Releases the engine's global state.
    fn release(&mut self)
        ensures
            final(self).released(),
    ;
}

/// Two engine states answer every parse and extraction alike.
pub open spec fn same_answers<E: NativeEngine>(a: E, b: E) -> bool {
    &&& forall|s: Seq<char>, c: RenderConfig| #[trigger] a.parse_succeeds(s, c) == b.parse_succeeds(s, c)
    &&& forall|s: Seq<char>, c: RenderConfig| #[trigger] a.outputs(s, c) == b.outputs(s, c)
}

/// Two engine states agree on start-up settings and on release.
pub open spec fn same_settings<E: NativeEngine>(a: E, b: E) -> bool {
    &&& a.started_with() == b.started_with()
    &&& a.open_font_metas() == b.open_font_metas()
    &&& a.default_main_font() == b.default_main_font()
    &&& a.glyph_use_path() == b.glyph_use_path()
    &&& a.released() == b.released()
}

} // verus!
