//! A deterministic stand-in for the native engine, configured by value.
//!
//! It answers every call from its settings: initialization and parsing
//! succeed when told to, and each extraction hands back the configured
//! buffer (none when told to return nothing, or when the buffer is empty).
use vstd::prelude::*;
use crate::config::RenderConfig;
use crate::engine::{FontMeta, NativeBuffer, NativeEngine, RenderHandle, RenderOutputs};

verus! {

pub struct TestShim {
    pub init_succeed: bool,
    pub parse_succeed: bool,
    pub return_empty: bool,
    pub buffer: Vec<u8>,
    /// The font data of the last initialization.
    pub started_with: Option<Vec<u8>>,
    /// The default main font family last set.
    pub default_main_font: String,
    /// Whether glyphs are drawn as paths.
    pub glyph_use_path: bool,
    /// Whether `release` was called.
    pub released: bool,
    pub font_metas_open: Ghost<nat>,
    pub renders_open: Ghost<nat>,
    pub buffers_open: Ghost<nat>,
}

impl TestShim {
    /// What every extraction hands back.
    pub open spec fn extraction(&self) -> Option<Seq<u8>> {
        if self.return_empty || self.buffer@.len() == 0 {
            None
        } else {
            Some(self.buffer@)
        }
    }

    /// A stand-in whose initialization and parsing succeed, with an empty
    /// buffer.
    pub fn new() -> (r: Self)
        ensures
            r.init_succeed,
            r.parse_succeed,
            !r.return_empty,
            r.buffer@.len() == 0,
            !r.released,
            r.started_with is None,
            r.default_main_font@.len() == 0,
            !r.glyph_use_path,
            r.font_metas_open@ == 0,
            r.renders_open@ == 0,
            r.buffers_open@ == 0,
    {
        TestShim {
            init_succeed: true,
            parse_succeed: true,
            return_empty: false,
            buffer: Vec::new(),
            started_with: None,
            default_main_font: String::new(),
            glyph_use_path: false,
            released: false,
            font_metas_open: Ghost(0),
            renders_open: Ghost(0),
            buffers_open: Ghost(0),
        }
    }

    fn out_buffer(&self) -> (r: Option<NativeBuffer>)
        ensures
            match self.extraction() {
                Some(b) => r matches Some(buf) && buf.bytes@ == b,
                None => r is None,
            },
    {
        if self.return_empty || self.buffer.len() == 0 {
            None
        } else {
            Some(NativeBuffer { id: 3, bytes: self.buffer.clone() })
        }
    }
}

impl NativeEngine for TestShim {
    open spec fn wf(&self) -> bool {
        true
    }

    open spec fn open_renders(&self) -> nat {
        self.renders_open@
    }

    open spec fn open_buffers(&self) -> nat {
        self.buffers_open@
    }

    open spec fn open_font_metas(&self) -> nat {
        self.font_metas_open@
    }

    open spec fn started_with(&self) -> Option<Seq<u8>> {
        match self.started_with {
            Some(f) => Some(f@),
            None => None,
        }
    }

    open spec fn default_main_font(&self) -> Seq<char> {
        self.default_main_font@
    }

    open spec fn glyph_use_path(&self) -> bool {
        self.glyph_use_path
    }

    open spec fn released(&self) -> bool {
        self.released
    }

    open spec fn init_succeeds(&self, font: Seq<u8>) -> bool {
        self.init_succeed
    }

    open spec fn parse_succeeds(&self, src: Seq<char>, config: RenderConfig) -> bool {
        self.parse_succeed
    }

    open spec fn outputs(&self, src: Seq<char>, config: RenderConfig) -> RenderOutputs {
        (self.extraction(), self.extraction(), self.extraction())
    }

    open spec fn output_of(&self, handle: u64) -> RenderOutputs {
        (self.extraction(), self.extraction(), self.extraction())
    }

    fn init(&mut self, font: &Vec<u8>) -> (r: Option<FontMeta>) {
        self.started_with = Some(font.clone());
        if self.init_succeed {
            self.font_metas_open = Ghost(self.font_metas_open@ + 1);
            Some(FontMeta { id: 1 })
        } else {
            None
        }
    }

    fn set_default_main_font(&mut self, name: &str) {
        self.default_main_font = crate::error::text_of(name);
    }

    fn set_render_glyph_use_path(&mut self, use_path: bool) {
        self.glyph_use_path = use_path;
    }

    fn release_font_meta(&mut self, meta: FontMeta) {
        self.font_metas_open = Ghost((self.font_metas_open@ - 1) as nat);
    }

    fn parse_render(&mut self, src: &str, config: &RenderConfig) -> (r: Option<RenderHandle>) {
        if self.parse_succeed {
            self.renders_open = Ghost(self.renders_open@ + 1);
            Some(RenderHandle { id: 2 })
        } else {
            None
        }
    }

    fn render_to_svg(&mut self, handle: &RenderHandle) -> (r: Option<NativeBuffer>) {
        let r = self.out_buffer();
        if r.is_some() {
            self.buffers_open = Ghost(self.buffers_open@ + 1);
        }
        r
    }

    fn render_to_svg_with_metrics(&mut self, handle: &RenderHandle) -> (r: Option<NativeBuffer>) {
        let r = self.out_buffer();
        if r.is_some() {
            self.buffers_open = Ghost(self.buffers_open@ + 1);
        }
        r
    }

    fn get_key_char_metrics(&mut self, handle: &RenderHandle) -> (r: Option<NativeBuffer>) {
        let r = self.out_buffer();
        if r.is_some() {
            self.buffers_open = Ghost(self.buffers_open@ + 1);
        }
        r
    }

    fn free_buffer(&mut self, buffer: NativeBuffer) {
        self.buffers_open = Ghost((self.buffers_open@ - 1) as nat);
    }

    fn delete_render(&mut self, handle: RenderHandle) {
        self.renders_open = Ghost((self.renders_open@ - 1) as nat);
    }

    fn release(&mut self) {
        self.released = true;
    }
}

/// Sets whether the stand-in's initialization succeeds.
pub fn set_init_succeed(shim: &mut TestShim, v: bool)
    ensures
        *final(shim) == (TestShim { init_succeed: v, ..*old(shim) }),
{
    shim.init_succeed = v;
}

/// Sets whether the stand-in's parse step succeeds.
pub fn set_parse_succeed(shim: &mut TestShim, v: bool)
    ensures
        *final(shim) == (TestShim { parse_succeed: v, ..*old(shim) }),
{
    shim.parse_succeed = v;
}

/// Sets whether the stand-in's extractions hand back nothing.
pub fn set_return_empty(shim: &mut TestShim, v: bool)
    ensures
        *final(shim) == (TestShim { return_empty: v, ..*old(shim) }),
{
    shim.return_empty = v;
}

/// Invalid UTF-8 is configured through `set_buffer`; this setting changes
/// nothing.
pub fn set_invalid_utf8(shim: &mut TestShim, v: bool)
    ensures
        *final(shim) == *old(shim),
{
}

/// Sets the bytes that the stand-in's extractions hand back.
pub fn set_buffer(shim: &mut TestShim, data: &[u8])
    ensures
        final(shim).buffer@ == data@,
        final(shim).init_succeed == old(shim).init_succeed,
        final(shim).parse_succeed == old(shim).parse_succeed,
        final(shim).return_empty == old(shim).return_empty,
        final(shim).released == old(shim).released,
        final(shim).started_with == old(shim).started_with,
        final(shim).default_main_font == old(shim).default_main_font,
        final(shim).glyph_use_path == old(shim).glyph_use_path,
        final(shim).font_metas_open == old(shim).font_metas_open,
        final(shim).renders_open == old(shim).renders_open,
        final(shim).buffers_open == old(shim).buffers_open,
{
    let mut buffer: Vec<u8> = Vec::new();
    let mut i: usize = 0;
    while i < data.len()
        invariant
            i <= data@.len(),
            buffer@ == data@.subrange(0, i as int),
        decreases data@.len() - i,
    {
        buffer.push(data[i]);
        assert(buffer@ =~= data@.subrange(0, i + 1));
        i += 1;
    }
    assert(buffer@ =~= data@);
    shim.buffer = buffer;
}

pub fn get_init_succeed(shim: &TestShim) -> (r: bool)
    ensures
        r == shim.init_succeed,
{
    shim.init_succeed
}

pub fn get_parse_succeed(shim: &TestShim) -> (r: bool)
    ensures
        r == shim.parse_succeed,
{
    shim.parse_succeed
}

pub fn get_return_empty(shim: &TestShim) -> (r: bool)
    ensures
        r == shim.return_empty,
{
    shim.return_empty
}

/// The configured buffer and its length.
pub fn get_out_buffer_ptr(shim: &TestShim) -> (r: (&Vec<u8>, u64))
    ensures
        r.0@ == shim.buffer@,
        r.1 as int == shim.buffer@.len(),
{
    let n = shim.buffer.len();
    (&shim.buffer, n as u64)
}

} // verus!
