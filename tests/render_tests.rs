use microtex_rs::test_control::{
    get_init_succeed, get_out_buffer_ptr, get_parse_succeed, get_return_empty, set_buffer,
    set_init_succeed, set_invalid_utf8, set_parse_succeed, set_return_empty,
};
use microtex_rs::{
    decode_render_payload, get_key_char_metrics, NativeEngine, key_char_metrics_from_fields, metrics_from_fields, svg_from_bytes,
    FontCatalog, KeyCharMetrics, MicroTex, RenderConfig, RenderError, RenderMetrics, RenderResult,
    TestShim,
};

fn catalog() -> FontCatalog {
    let mut c = FontCatalog::new();
    for name in [
        "XITS-Regular.clm2",
        "XITSMath-Regular.clm2",
        "FiraMath-Regular.clm2",
        "latinmodern-math.clm2",
        "texgyredejavu-math.clm2",
    ] {
        c.insert(name, vec![7, 7, 7]);
    }
    c
}

fn renderer(shim: TestShim) -> MicroTex<TestShim> {
    MicroTex::new(shim, &catalog()).expect("init ok")
}

const PAYLOAD: &[u8] = br#"{
            "svg": "<svg>test formula</svg>",
            "metrics": {
                "width": 100,
                "height": 50,
                "depth": 10,
                "ascent": 40
            }
        }"#;

#[test]
fn test_available_clms() {
    let clms = catalog().available_fonts();
    assert!(!clms.is_empty());
    let has_math = clms.iter().any(|name| {
        name.contains("Math") || name.contains("math") || name.contains("XITS") || name.contains("Fira")
    });
    assert!(has_math, "No suitable math fonts found. Available: {:?}", clms);
}

#[test]
fn test_get_embedded_clm() {
    let c = catalog();
    for clm_name in c.available_fonts() {
        let result = c.get_font(&clm_name);
        assert!(result.is_some(), "Failed to get embedded CLM for {}", clm_name);
        let data = result.unwrap();
        assert!(!data.is_empty(), "CLM data is empty for {}", clm_name);
    }
}

#[test]
fn test_embedded_fonts_available() {
    let fonts = catalog().available_fonts();
    assert!(!fonts.is_empty(), "No embedded CLM fonts found");
}

#[test]
fn test_xits_font_accessible() {
    let c = catalog();
    let data = c.get_font("XITS-Regular.clm2");
    assert!(data.is_some(), "XITS-Regular.clm2 should be embedded");
    assert!(!data.unwrap().is_empty(), "XITS font data should not be empty");
}

#[test]
fn test_firamath_font_accessible() {
    let c = catalog();
    let data = c.get_font("FiraMath-Regular.clm2");
    assert!(data.is_some(), "FiraMath-Regular.clm2 should be embedded");
    assert!(!data.unwrap().is_empty(), "FiraMath font data should not be empty");
}

#[test]
fn select_font_prefers_math_fonts_in_order() {
    let mut c = FontCatalog::new();
    c.insert("XITS-Regular.clm2", vec![1]);
    c.insert("latinmodern-math.clm2", vec![2]);
    c.insert("FiraMath-Regular.clm2", vec![3]);
    assert_eq!(c.select_font(), Some(2));
    assert_eq!(c.get_font("nope.clm2"), None);
}

#[test]
fn test_microtex_new_success() {
    let mut shim = TestShim::new();
    set_init_succeed(&mut shim, true);
    let r = MicroTex::new(shim, &catalog());
    assert!(r.is_ok());
}

#[test]
fn new_succeeds_with_any_single_candidate_font() {
    for name in ["FiraMath-Regular.clm2", "texgyredejavu-math.clm2"] {
        let mut c = FontCatalog::new();
        c.insert(name, vec![1, 2]);
        assert!(MicroTex::new(TestShim::new(), &c).is_ok());
    }
}

#[test]
fn test_microtex_new_init_fail() {
    let mut shim = TestShim::new();
    set_init_succeed(&mut shim, false);
    let r = MicroTex::new(shim, &catalog());
    assert!(matches!(r, Err(RenderError::InitializationFailed)));
}

#[test]
fn new_fails_without_candidate_font() {
    let mut c = FontCatalog::new();
    c.insert("XITS-Regular.clm2", vec![1]);
    let r = MicroTex::new(TestShim::new(), &c);
    assert!(matches!(r, Err(RenderError::InitializationFailed)));
}

#[test]
fn test_render_parse_fail() {
    let mut shim = TestShim::new();
    set_init_succeed(&mut shim, true);
    set_parse_succeed(&mut shim, false);
    let mut m = renderer(shim);
    let r = m.render("x", &RenderConfig::default());
    assert!(matches!(r, Err(RenderError::ParseRenderFailed)));
}

#[test]
fn test_render_empty_output() {
    let mut shim = TestShim::new();
    set_init_succeed(&mut shim, true);
    set_parse_succeed(&mut shim, true);
    set_return_empty(&mut shim, true);
    let mut m = renderer(shim);
    let r = m.render("x", &RenderConfig::default());
    assert!(matches!(r, Err(RenderError::EmptyOutput)));
}

#[test]
fn render_empty_buffer_is_empty_output() {
    let mut m = renderer(TestShim::new());
    let r = m.render("x", &RenderConfig::default());
    assert!(matches!(r, Err(RenderError::EmptyOutput)));
}

#[test]
fn test_render_invalid_utf8() {
    let mut shim = TestShim::new();
    set_init_succeed(&mut shim, true);
    set_parse_succeed(&mut shim, true);
    set_return_empty(&mut shim, false);
    set_buffer(&mut shim, &[0xff, 0xff, 0xff]);
    let mut m = renderer(shim);
    let r = m.render("x", &RenderConfig::default());
    assert!(matches!(r, Err(RenderError::InvalidUtf8(_))));
}

#[test]
fn test_render_success() {
    let mut shim = TestShim::new();
    set_init_succeed(&mut shim, true);
    set_parse_succeed(&mut shim, true);
    set_return_empty(&mut shim, false);
    set_buffer(&mut shim, b"<svg>ok</svg>");
    let mut m = renderer(shim);
    let r = m.render("x", &RenderConfig::default());
    assert!(r.is_ok());
    assert!(r.unwrap().contains("<svg"));
}

#[test]
fn render_default_config_annotates_dpi_720() {
    let mut shim = TestShim::new();
    set_buffer(&mut shim, b"<svg>ok</svg>");
    let mut m = renderer(shim);
    let svg = m.render(r#"\[E = mc^2\]"#, &RenderConfig::default()).unwrap();
    assert!(svg.contains("<svg"));
    assert!(svg.contains(r#"data-dpi="720""#));
    assert_eq!(svg, r#"<svg data-dpi="720">ok</svg>"#);
}

#[test]
fn render_keeps_non_ascii_text() {
    let mut shim = TestShim::new();
    set_buffer(&mut shim, "<svg>é</svg>".as_bytes());
    let mut m = renderer(shim);
    let svg = m.render("x", &RenderConfig { dpi: 96, ..RenderConfig::default() }).unwrap();
    assert_eq!(svg, r#"<svg data-dpi="96">é</svg>"#);
}

#[test]
fn test_multiple_renders_same_instance() {
    let mut shim = TestShim::new();
    set_init_succeed(&mut shim, true);
    set_parse_succeed(&mut shim, true);
    set_return_empty(&mut shim, false);
    set_buffer(&mut shim, b"<svg>result1</svg>");
    let mut m = renderer(shim);

    let r1 = m.render("x^2", &RenderConfig::default());
    assert!(r1.is_ok());
    assert!(r1.unwrap().contains("result1"));

    set_buffer(&mut m.engine, b"<svg>result2</svg>");
    let r2 = m.render("y^2", &RenderConfig::default());
    assert!(r2.is_ok());
    assert!(r2.unwrap().contains("result2"));

    set_buffer(&mut m.engine, b"<svg>result3</svg>");
    let r3 = m.render("z^2", &RenderConfig::default());
    assert!(r3.is_ok());
    assert!(r3.unwrap().contains("result3"));
}

#[test]
fn release_releases_engine() {
    let m = renderer(TestShim::new());
    let shim = m.release();
    assert!(shim.released);
}

#[test]
fn test_render_to_svg_with_metrics_success() {
    let mut shim = TestShim::new();
    set_init_succeed(&mut shim, true);
    set_parse_succeed(&mut shim, true);
    set_return_empty(&mut shim, false);
    set_buffer(&mut shim, PAYLOAD);
    let mut m = renderer(shim);
    let r = m.render_to_svg_with_metrics("x^2", &RenderConfig::default());
    assert!(r.is_ok());
    let result = r.unwrap();
    assert!(result.svg.contains("<svg"));
    assert_eq!(result.metrics.width, 100);
    assert_eq!(result.metrics.height, 50);
    assert_eq!(result.metrics.depth, 10);
    assert_eq!(result.metrics.ascent, 40);
}

#[test]
fn render_with_metrics_exact_result() {
    let mut shim = TestShim::new();
    set_buffer(
        &mut shim,
        br#"{"svg":"<svg>t</svg>","metrics":{"width":100,"height":50,"depth":10,"ascent":40}}"#,
    );
    let mut m = renderer(shim);
    let result = m.render_to_svg_with_metrics("x", &RenderConfig::default()).unwrap();
    assert_eq!(result.svg, r#"<svg data-dpi="720">t</svg>"#);
    assert_eq!(result.metrics, RenderMetrics::new(100, 50, 10, 40));
    let ratio = result.metrics.aspect_ratio();
    assert_eq!(ratio.num as f32 / ratio.den as f32, 2.0);
    let keys = result.key_char_metrics.expect("lenient decode of the same payload");
    assert_eq!(keys, KeyCharMetrics::new(vec![], 0, 0, 0, 0, 0));
}

#[test]
fn test_render_to_svg_with_metrics_parse_fail() {
    let mut shim = TestShim::new();
    set_init_succeed(&mut shim, true);
    set_parse_succeed(&mut shim, false);
    let mut m = renderer(shim);
    let r = m.render_to_svg_with_metrics("x", &RenderConfig::default());
    assert!(matches!(r, Err(RenderError::ParseRenderFailed)));
}

#[test]
fn test_render_to_svg_with_metrics_empty_output() {
    let mut shim = TestShim::new();
    set_init_succeed(&mut shim, true);
    set_parse_succeed(&mut shim, true);
    set_return_empty(&mut shim, true);
    let mut m = renderer(shim);
    let r = m.render_to_svg_with_metrics("x", &RenderConfig::default());
    assert!(matches!(r, Err(RenderError::EmptyOutput)));
}

#[test]
fn test_render_to_svg_with_metrics_invalid_json() {
    let mut shim = TestShim::new();
    set_buffer(&mut shim, b"not valid json");
    let mut m = renderer(shim);
    let r = m.render_to_svg_with_metrics("x", &RenderConfig::default());
    assert!(matches!(r, Err(RenderError::ParseJsonFailed(_))));
}

#[test]
fn test_render_to_svg_with_metrics_missing_svg() {
    let mut shim = TestShim::new();
    set_buffer(
        &mut shim,
        br#"{
            "metrics": {
                "width": 100,
                "height": 50,
                "depth": 10,
                "ascent": 40
            }
        }"#,
    );
    let mut m = renderer(shim);
    let r = m.render_to_svg_with_metrics("x", &RenderConfig::default());
    assert!(matches!(r, Err(RenderError::ParseJsonFailed(_))));
}

#[test]
fn test_render_to_svg_with_metrics_missing_metrics() {
    let mut shim = TestShim::new();
    set_buffer(
        &mut shim,
        br#"{
            "svg": "<svg>test</svg>"
        }"#,
    );
    let mut m = renderer(shim);
    let r = m.render_to_svg_with_metrics("x", &RenderConfig::default());
    assert!(matches!(r, Err(RenderError::ParseJsonFailed(_))));
}

#[test]
fn test_render_to_svg_with_metrics_missing_width() {
    let mut shim = TestShim::new();
    set_buffer(
        &mut shim,
        br#"{
            "svg": "<svg>test</svg>",
            "metrics": {
                "height": 50,
                "depth": 10,
                "ascent": 40
            }
        }"#,
    );
    let mut m = renderer(shim);
    let r = m.render_to_svg_with_metrics("x", &RenderConfig::default());
    assert!(matches!(r, Err(RenderError::ParseJsonFailed(_))));
}

#[test]
fn payload_errors_name_the_field() {
    let r = decode_render_payload(r#"{"metrics":{}}"#, 1);
    assert!(matches!(r, Err(RenderError::ParseJsonFailed(m)) if m == "missing 'svg' field"));
    let r = decode_render_payload(r#"{"svg":"<svg/>","metrics":3}"#, 1);
    assert!(matches!(r, Err(RenderError::ParseJsonFailed(m)) if m == "missing 'metrics' field"));
    let r = decode_render_payload(r#"{"svg":"<svg/>","metrics":{"width":1,"height":"2"}}"#, 1);
    assert!(matches!(r, Err(RenderError::ParseJsonFailed(m)) if m == "missing or invalid 'height'"));
}

#[test]
fn metrics_from_fields_checks_each_field() {
    assert_eq!(
        metrics_from_fields(Some(1), Some(2), Some(3), Some(4)).unwrap(),
        RenderMetrics::new(1, 2, 3, 4)
    );
    let r = metrics_from_fields(Some(1), Some(2), Some(3), None);
    assert!(matches!(r, Err(RenderError::ParseJsonFailed(m)) if m == "missing or invalid 'ascent'"));
    let r = metrics_from_fields(Some(1), Some(2), None, Some(4));
    assert!(matches!(r, Err(RenderError::ParseJsonFailed(m)) if m == "missing or invalid 'depth'"));
    let m = metrics_from_fields(Some(5_000_000_000), Some(2), Some(1 << 40), Some(4)).unwrap();
    assert_eq!(m, RenderMetrics::new(5_000_000_000i64 as i32, 2, (1i64 << 40) as i32, 4));
}

#[test]
fn key_char_metrics_decode_is_lenient() {
    let k = KeyCharMetrics::from_json(
        r#"{"key_char_heights":[10,20,"x",30],"key_char_count":3,"average_char_height":15.5,"max_char_height":30,"min_char_height":"low","box_tree_height":42}"#,
    )
    .unwrap();
    assert_eq!(k.key_char_heights, vec![10, 20, 30]);
    assert_eq!(k.key_char_count, 3);
    assert_eq!(k.average_char_height, 15_500_000);
    assert_eq!(k.max_char_height, 30);
    assert_eq!(k.min_char_height, 0);
    assert_eq!(k.box_tree_height, 42_000_000);
    assert!(matches!(KeyCharMetrics::from_json("{"), Err(RenderError::ParseJsonFailed(_))));
}

#[test]
fn key_char_metrics_from_fields_defaults() {
    let k = key_char_metrics_from_fields(
        Some(vec![Some(5), None, Some(1 << 40)]),
        None,
        Some("2.25".to_string()),
        Some(9),
        None,
        Some("nope".to_string()),
    );
    assert_eq!(k, KeyCharMetrics::new(vec![5, (1i64 << 40) as i32], 0, 2_250_000, 9, 0, 0));
}

#[test]
fn svg_from_bytes_outcomes() {
    assert!(matches!(svg_from_bytes(vec![], 72), Err(RenderError::EmptyOutput)));
    assert!(matches!(svg_from_bytes(vec![0xc3], 72), Err(RenderError::InvalidUtf8(_))));
    assert_eq!(svg_from_bytes(b"<svg/>".to_vec(), 72).unwrap(), r#"<svg/ data-dpi="72">"#);
    assert_eq!(svg_from_bytes(b"<svg>".to_vec(), 72).unwrap(), r#"<svg data-dpi="72">"#);
}

#[test]
fn test_render_metrics_total_height() {
    let metrics = RenderMetrics::new(100, 50, 10, 40);
    assert_eq!(metrics.total_height() as f32, 50.0);
}

#[test]
fn test_render_metrics_aspect_ratio() {
    let metrics = RenderMetrics::new(200, 50, 10, 40);
    let r = metrics.aspect_ratio();
    assert_eq!(r.num as f32 / r.den as f32, 4.0);
}

#[test]
fn test_render_metrics_aspect_ratio_zero_height() {
    let metrics = RenderMetrics::new(100, 0, 0, 0);
    let r = metrics.aspect_ratio();
    assert_eq!(r.num as f32 / r.den as f32, 1.0);
}

#[test]
fn baseline_ratio_values() {
    let r = RenderMetrics::new(100, 50, 10, 40).baseline_ratio();
    assert_eq!(r.num as f32 / r.den as f32, 0.8);
    let r = RenderMetrics::new(100, -1, 0, 3).baseline_ratio();
    assert_eq!(r.num as f32 / r.den as f32, 0.5);
}

#[test]
fn test_render_result_creation() {
    let metrics = RenderMetrics::new(100, 50, 10, 40);
    let result = RenderResult::new("<svg>test</svg>".to_string(), metrics);
    assert_eq!(result.svg, "<svg>test</svg>");
    assert_eq!(result.metrics.width, 100);
    assert_eq!(result.metrics.height, 50);
}

#[test]
fn shim_getters_and_setters() {
    let mut shim = TestShim::new();
    set_parse_succeed(&mut shim, false);
    set_return_empty(&mut shim, true);
    set_invalid_utf8(&mut shim, true);
    set_buffer(&mut shim, b"abc");
    assert!(get_init_succeed(&shim));
    assert!(!get_parse_succeed(&shim));
    assert!(get_return_empty(&shim));
    let (buf, len) = get_out_buffer_ptr(&shim);
    assert_eq!(buf.as_slice(), b"abc");
    assert_eq!(len, 3);
}

#[test]
fn test_render_config_defaults() {
    let config = RenderConfig::default();
    assert_eq!(config.dpi, 720);
    assert_eq!(config.line_width as f64 / 1e6, 20.0);
    assert!(config.render_glyph_use_path);
    assert!(!config.has_background);
}

#[test]
fn test_render_config_customization() {
    let mut config = RenderConfig::default();
    config.dpi = 300;
    config.line_width = 15_000_000;
    config.text_color = 0xffffffff;
    assert_eq!(config.dpi, 300);
    assert_eq!(config.line_width as f64 / 1e6, 15.0);
    assert_eq!(config.text_color, 0xffffffff);
}

#[test]
fn test_render_error_display() {
    let error = RenderError::InitializationFailed;
    assert!(error.message().contains("font metadata"));
    let error = RenderError::ParseRenderFailed;
    assert!(error.message().contains("parse and render"));
    let error = RenderError::EmptyOutput;
    assert!(error.message().contains("empty"));
}

fn latex_to_svg(latex_content: &str, display: bool) -> Result<String, String> {
    let latex = latex_content.trim();
    if latex.is_empty() {
        return Err("LaTeX content is empty".to_string());
    }
    let latex_with_delimiters = if display {
        format!("\\[{}\\]", latex)
    } else {
        format!("${}$", latex)
    };
    let mut shim = TestShim::new();
    set_buffer(&mut shim, b"<svg>ok</svg>");
    let mut renderer = MicroTex::new(shim, &catalog())
        .map_err(|e| format!("Failed to initialize MicroTeX: {}", e.message()))?;
    renderer
        .render(&latex_with_delimiters, &RenderConfig::default())
        .map_err(|e| format!("Failed to render LaTeX: {}", e.message()))
}

#[test]
fn test_multiple_renders() {
    let result = latex_to_svg("x^2 + y^2 = z^2", false);
    assert!(result.is_ok());
    let result = latex_to_svg("\\int_0^\\infty e^{-x} dx", true);
    assert!(result.is_ok());
    let result = latex_to_svg("", true);
    assert!(result.is_err());
    let result = latex_to_svg("E = mc^2", false);
    assert!(result.is_ok());
    let result = latex_to_svg("a^2 + b^2 = c^2", true);
    assert!(result.is_ok());
    let result = latex_to_svg("x = \\frac{-b \\pm \\sqrt{b^2 - 4ac}}{2a}", true);
    assert!(result.is_ok());
    let result = latex_to_svg("\\sum_{i=1}^{n} i = \\frac{n(n+1)}{2}", true);
    assert!(result.is_ok());
    let result = latex_to_svg("\\int_0^\\infty e^{-x^2} dx = \\frac{\\sqrt{\\pi}}{2}", true);
    assert!(result.is_ok());
}

#[test]
fn error_messages_carry_causes() {
    let e = RenderError::ParseJsonFailed("missing 'svg' field".to_string());
    assert_eq!(e.message(), "failed to parse JSON metrics: missing 'svg' field");
    let bad = String::from_utf8(vec![0xff]).unwrap_err();
    let e = RenderError::InvalidUtf8(bad);
    assert!(e.message().starts_with("failed to convert SVG output to UTF-8: "));
    assert!(e.message().len() > "failed to convert SVG output to UTF-8: ".len());
}

#[test]
fn key_char_metrics_through_a_live_render() {
    let mut shim = TestShim::new();
    set_buffer(&mut shim, br#"{"key_char_heights":[4],"key_char_count":1}"#);
    let handle = shim.parse_render("x", &RenderConfig::default()).expect("parse ok");
    let k = get_key_char_metrics(&mut shim, &handle).unwrap();
    assert_eq!(k, KeyCharMetrics::new(vec![4], 1, 0, 0, 0, 0));
    set_return_empty(&mut shim, true);
    assert!(matches!(get_key_char_metrics(&mut shim, &handle), Err(RenderError::EmptyOutput)));
    shim.delete_render(handle);
}

#[test]
fn correct_svg_annotates_then_adjusts() {
    let out = microtex_rs::correct_svg(r#"<svg height="1"><path d="M 0 1.5"/></svg>"#, 300);
    assert_eq!(
        out,
        r#"<svg data-dpi="300" height="2"><g transform="translate(0, 0.25)"><path d="M 0 1.5"/></g></svg>"#
    );
}

#[test]
fn start_up_records_font_and_settings() {
    let mut c = FontCatalog::new();
    c.insert("FiraMath-Regular.clm2", vec![3, 4]);
    c.insert("XITSMath-Regular.clm2", vec![1, 2]);
    let m = MicroTex::new(TestShim::new(), &c).unwrap();
    assert_eq!(m.engine.started_with, Some(vec![1, 2]));
    assert_eq!(m.engine.default_main_font, "Serif");
    assert!(m.engine.glyph_use_path);
    assert!(!m.engine.released);
}

#[test]
fn start_engine_without_candidate_leaves_engine_alone() {
    let mut shim = TestShim::new();
    let r = microtex_rs::renderer::start_engine(&mut shim, &FontCatalog::new());
    assert!(matches!(r, Err(RenderError::InitializationFailed)));
    assert_eq!(shim.started_with, None);
    assert_eq!(shim.default_main_font, "");
}

#[test]
fn key_char_metrics_read_exponent_numbers() {
    let k = KeyCharMetrics::from_json(r#"{"average_char_height":1e-5,"box_tree_height":1e20}"#)
        .unwrap();
    assert_eq!(k.average_char_height, 10);
    assert_eq!(k.box_tree_height, 9_000_000_000_000_000_000);
    let k = key_char_metrics_from_fields(
        None,
        None,
        Some("-2.5e2".to_string()),
        None,
        None,
        Some("7E-1".to_string()),
    );
    assert_eq!(k.average_char_height, -250_000_000);
    assert_eq!(k.box_tree_height, 700_000);
}

#[test]
fn render_with_metrics_keeps_wide_integers_as_i32() {
    let mut shim = TestShim::new();
    set_buffer(
        &mut shim,
        br#"{"svg":"<svg/>","metrics":{"width":5000000000,"height":50,"depth":10,"ascent":40},"key_char_heights":[4294967297],"max_char_height":-4294967296}"#,
    );
    let mut m = renderer(shim);
    let result = m.render_to_svg_with_metrics("x", &RenderConfig::default()).unwrap();
    assert_eq!(result.metrics.width, 5_000_000_000i64 as i32);
    let keys = result.key_char_metrics.unwrap();
    assert_eq!(keys.key_char_heights, vec![1]);
    assert_eq!(keys.max_char_height, 0);
}
