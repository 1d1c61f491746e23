//! XML reading through quick_xml: the events of a document, and the
//! attributes of a start tag, as plain values.
use vstd::prelude::*;
use quick_xml::events::Event;

verus! {

/// The kind of an XML event, as far as the geometry pass tells them apart.
#[derive(Clone, Copy, Debug, PartialEq, Eq)]
pub enum PieceKind {
    /// `<name ...>`; the text is what stands between `<` and `>`.
    Start,
    /// `</name>`; the text is the name.
    End,
    /// `<name .../>`; the text is what stands between `<` and `/>`.
    Empty,
    /// Any other event (text, comment, declaration, ...); the text is the
    /// event as an XML writer puts it out.
    Verbatim,
}

/// One event read from an XML document.
#[derive(Clone, Debug)]
pub struct XmlPiece {
    pub kind: PieceKind,
    pub text: String,
}

pub open spec fn piece_view(p: XmlPiece) -> (PieceKind, Seq<char>) {
    (p.kind, p.text@)
}

pub open spec fn pieces_view(v: Seq<XmlPiece>) -> Seq<(PieceKind, Seq<char>)> {
    v.map_values(|p: XmlPiece| piece_view(p))
}

pub open spec fn pairs_view(v: Seq<(String, String)>) -> Seq<(Seq<char>, Seq<char>)> {
    v.map_values(|p: (String, String)| (p.0@, p.1@))
}

/// The events that quick_xml's reader yields for a document, up to its end
/// or to the first error.
pub uninterp spec fn xml_pieces_of(doc: Seq<char>) -> Seq<(PieceKind, Seq<char>)>;

/// The well-formed attributes `(key, raw value)` that quick_xml reads from
/// the text of a start tag whose name takes its first `name_len` bytes.
pub uninterp spec fn tag_attributes_of(content: Seq<char>, name_len: nat) -> Seq<(Seq<char>, Seq<char>)>;

/// Relies on quick_xml's `Reader::read_event` over the document, and on its
/// `Writer::write_event` for the events other than start, end and empty
/// tags: the events in order, until the end of input or the first error.
#[verifier::external_body]
pub(crate) fn xml_pieces(doc: &str) -> (r: Vec<XmlPiece>)
    ensures
        pieces_view(r@) == xml_pieces_of(doc@),
{
    let mut reader = quick_xml::Reader::from_str(doc);
    let mut pieces = Vec::new();
    loop {
        let (kind, bytes) = match reader.read_event() {
            Ok(Event::Start(e)) => (PieceKind::Start, e.to_vec()),
            Ok(Event::End(e)) => (PieceKind::End, e.to_vec()),
            Ok(Event::Empty(e)) => (PieceKind::Empty, e.to_vec()),
            Ok(Event::Eof) | Err(_) => return pieces,
            Ok(other) => { let mut w = quick_xml::Writer::new(Vec::new()); let _ = w.write_event(other); (PieceKind::Verbatim, w.into_inner()) },
        };
        pieces.push(XmlPiece { kind, text: String::from_utf8_lossy(&bytes).into_owned() });
    }
}

/// Relies on quick_xml's `BytesStart::attributes`: the attributes of a start
/// tag that parse, each as its key and its value as written (not unescaped).
#[verifier::external_body]
pub(crate) fn tag_attributes(content: &str, name_len: usize) -> (r: Vec<(String, String)>)
    requires
        name_len <= content@.len(),
    ensures
        pairs_view(r@) == tag_attributes_of(content@, name_len as nat),
{
    let mut out = Vec::new();
    for a in quick_xml::events::BytesStart::from_content(content, name_len).attributes().flatten() {
        out.push((String::from_utf8_lossy(a.key.as_ref()).into_owned(), String::from_utf8_lossy(&a.value).into_owned()));
    }
    out
}

} // verus!
