//! The error taxonomy of rendering.
use vstd::prelude::*;
use vstd::utf8::{decode_utf8, valid_utf8};

verus! {

#[verifier::external_type_specification]
#[verifier::external_body]
pub struct ExFromUtf8Error(std::string::FromUtf8Error);

/// Relies on `String::from_utf8`: `Ok` exactly for valid UTF-8, holding the
/// text that the bytes encode.
#[verifier::external_body]
pub(crate) fn utf8_string(bytes: Vec<u8>) -> (r: Result<String, std::string::FromUtf8Error>)
    ensures
        r is Ok <==> valid_utf8(bytes@),
        r matches Ok(s) ==> s@ == decode_utf8(bytes@),
{
    String::from_utf8(bytes)
}

/// Relies on `Display` for `FromUtf8Error`: a description of the failure.
#[verifier::external_body]
fn utf8_error_text(e: &std::string::FromUtf8Error) -> String {
    e.to_string()
}

/// Why a render failed.
#[derive(Debug)]
pub enum RenderError {
    /// No usable embedded font was found, or the engine's initialization
    /// gave no font metadata.
    InitializationFailed,
    /// The engine could not parse and render the LaTeX source.
    ParseRenderFailed,
    /// The engine's output was missing or empty.
    EmptyOutput,
    /// The engine's SVG output is not valid UTF-8.
    InvalidUtf8(std::string::FromUtf8Error),
    /// The engine's JSON output could not be decoded; the text says why.
    ParseJsonFailed(String),
}

pub(crate) fn text_of(s: &str) -> (r: String)
    ensures
        r@ == s@,
{
    crate::text::string_of(&crate::text::chars_of(s))
}

/// `ParseJsonFailed` with the given reason.
pub(crate) fn json_failure(reason: &str) -> (r: RenderError)
    ensures
        r matches RenderError::ParseJsonFailed(m) && m@ == reason@,
{
    RenderError::ParseJsonFailed(text_of(reason))
}

impl RenderError {
    /// A description of the error for people.
    pub fn message(&self) -> (r: String)
        ensures
            self is InitializationFailed ==> r@ == "failed to initialize MicroTeX: font metadata is null"@,
            self is ParseRenderFailed ==> r@ == "failed to parse and render LaTeX source"@,
            self is EmptyOutput ==> r@ == "SVG rendering returned empty output"@,
            self is InvalidUtf8 ==> exists|d: Seq<char>|
                r@ == #[trigger] ("failed to convert SVG output to UTF-8: "@ + d),
            self matches RenderError::ParseJsonFailed(m) ==> r@ == "failed to parse JSON metrics: "@ + m@,
    {
        match self {
            RenderError::InitializationFailed => text_of("failed to initialize MicroTeX: font metadata is null"),
            RenderError::ParseRenderFailed => text_of("failed to parse and render LaTeX source"),
            RenderError::EmptyOutput => text_of("SVG rendering returned empty output"),
            RenderError::InvalidUtf8(e) => {
                let mut out = crate::text::chars_of("failed to convert SVG output to UTF-8: ");
                let detail = crate::text::chars_of(utf8_error_text(e).as_str());
                crate::text::push_all(&mut out, &detail);
                assert(out@ == "failed to convert SVG output to UTF-8: "@ + detail@);
                crate::text::string_of(&out)
            },
            RenderError::ParseJsonFailed(m) => {
                let mut out = crate::text::chars_of("failed to parse JSON metrics: ");
                let detail = crate::text::chars_of(m.as_str());
                crate::text::push_all(&mut out, &detail);
                crate::text::string_of(&out)
            },
        }
    }
}

} // verus!
