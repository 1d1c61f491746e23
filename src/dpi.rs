//! The `data-dpi` annotation of an SVG root element.
use vstd::prelude::*;
use crate::text::{
    chars_of, find_char, find_from, matches_at, find_pattern, int_text, lemma_find_from_bounds, push_all,
    push_int, push_range, string_of,
};

verus! {

pub open spec fn svg_open() -> Seq<char> {
    seq!['<', 's', 'v', 'g']
}

/// ` data-dpi="<dpi>"`.
pub open spec fn dpi_attr(dpi: int) -> Seq<char> {
    seq![' ', 'd', 'a', 't', 'a', '-', 'd', 'p', 'i', '=', '"'] + int_text(dpi) + seq!['"']
}

/// `s` with the DPI attribute inserted just before the `>` that closes its
/// first `<svg` tag; `s` itself when there is no such tag or no `>` after it.
pub open spec fn with_dpi(s: Seq<char>, dpi: int) -> Seq<char> {
    match find_from(s, svg_open(), 0) {
        None => s,
        Some(st) => match find_from(s, seq!['>'], st) {
            None => s,
            Some(k) => s.subrange(0, k) + dpi_attr(dpi) + s.subrange(k, s.len() as int),
        },
    }
}

/// Adds the rendering DPI to the first `<svg` tag as a `data-dpi` attribute.
/// Input without an `<svg` tag, or whose tag is never closed by `>`, comes
/// back unchanged.
pub fn add_dpi_to_svg(svg: &str, dpi: i32) -> (r: String)
    ensures
        r@ == with_dpi(svg@, dpi as int),
{
    let s = chars_of(svg);
    let open = vec!['<', 's', 'v', 'g'];
    assert(open@ =~= svg_open());
    match find_pattern(&s, &open, 0) {
        None => string_of(&s),
        Some(st) => {
            proof {
                lemma_find_from_bounds(s@, svg_open(), 0);
            }
            match find_char(&s, '>', st) {
                None => string_of(&s),
                Some(k) => {
                    proof {
                        lemma_find_from_bounds(s@, seq!['>'], st as int);
                    }
                    let mut out: Vec<char> = Vec::new();
                    push_range(&mut out, &s, 0, k);
                    let head = vec![' ', 'd', 'a', 't', 'a', '-', 'd', 'p', 'i', '=', '"'];
                    push_all(&mut out, &head);
                    push_int(&mut out, dpi as i128);
                    out.push('"');
                    push_range(&mut out, &s, k, s.len());
                    assert(out@ =~= with_dpi(svg@, dpi as int));
                    string_of(&out)
                },
            }
        },
    }
}

proof fn lemma_no_match(s: Seq<char>, pat: Seq<char>, i: int)
    requires
        forall|k: int| !matches_at(s, pat, k),
    ensures
        find_from(s, pat, i) is None,
    decreases s.len() + 1 - i,
{
    if !(i < 0 || i + pat.len() > s.len()) {
        lemma_no_match(s, pat, i + 1);
    }
}

/// A document without any `<svg` tag comes back exactly as it was.
pub proof fn law_no_svg_tag_unchanged(s: Seq<char>, dpi: int)
    requires
        forall|k: int| !matches_at(s, svg_open(), k),
    ensures
        with_dpi(s, dpi) == s,
{
    lemma_no_match(s, svg_open(), 0);
}

} // verus!
