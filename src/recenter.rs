//! Height correction and vertical recentering of an SVG document.
//!
//! From the largest Y coordinate of its paths, the root `<svg>` gets a new
//! height (that coordinate rounded up to a whole unit, also written as the
//! fourth `viewBox` entry) and its content is wrapped in a group that shifts
//! it down by half of the added room.
use vstd::prelude::*;
use crate::path_data::{bounded, extract_y_coordinates, ints, is_space, y_bound, y_coordinates, PICO};
use crate::text::{chars_of, nat_digits, padded_digits, push_all, push_nat, push_padded, same_chars, string_of};
use crate::xml::{pairs_view, pieces_view, tag_attributes, tag_attributes_of, xml_pieces, xml_pieces_of, PieceKind, XmlPiece};

verus! {

/// Below this largest Y coordinate (two hundredths of a unit, in
/// trillionths) a document is left as it is.
pub const TOLERANCE: i128 = 20_000_000_000;

/// The largest element of a non-empty sequence.
pub open spec fn max_of(s: Seq<int>) -> int
    decreases s.len(),
{
    if s.len() <= 1 {
        s[0]
    } else {
        let m = max_of(s.drop_last());
        if s.last() > m {
            s.last()
        } else {
            m
        }
    }
}

/// The new height: `max_y` (in trillionths) rounded up to a whole unit.
pub open spec fn new_height(max_y: int) -> int {
    (max_y + PICO as int - 1) / (PICO as int)
}

/// The downward shift, in units of 10^-13: half of `new_height - max_y`.
pub open spec fn shift_tenths_of_pico(max_y: int) -> int {
    (new_height(max_y) * PICO as int - max_y) * 5
}

pub open spec fn strip_zeros(s: Seq<char>) -> Seq<char>
    decreases s.len(),
{
    if s.len() > 0 && s.last() == '0' {
        strip_zeros(s.drop_last())
    } else {
        s
    }
}

/// A non-negative number given in units of 10^-13, in shortest decimal form.
pub open spec fn decimal_text(v: nat) -> Seq<char> {
    let whole = v / 10_000_000_000_000;
    let frac = v % 10_000_000_000_000;
    if frac == 0 {
        nat_digits(whole)
    } else {
        nat_digits(whole) + seq!['.'] + strip_zeros(padded_digits(frac, 13))
    }
}

pub open spec fn attr_text(k: Seq<char>, v: Seq<char>) -> Seq<char> {
    seq![' '] + k + seq!['=', '"'] + v + seq!['"']
}

pub open spec fn height_key() -> Seq<char> {
    seq!['h', 'e', 'i', 'g', 'h', 't']
}

pub open spec fn viewbox_key() -> Seq<char> {
    seq!['v', 'i', 'e', 'w', 'B', 'o', 'x']
}

pub open spec fn svg_name() -> Seq<char> {
    seq!['s', 'v', 'g']
}

pub open spec fn nonempty(w: Seq<char>) -> Seq<Seq<char>> {
    if w.len() > 0 {
        seq![w]
    } else {
        Seq::empty()
    }
}

/// The whitespace-separated words of `v` from index `i` on, the current word
/// having begun at `start`.
pub open spec fn words_from(v: Seq<char>, i: int, start: int) -> Seq<Seq<char>>
    decreases v.len() - i,
{
    if i >= v.len() {
        nonempty(v.subrange(start, v.len() as int))
    } else if is_space(v[i]) {
        nonempty(v.subrange(start, i)) + words_from(v, i + 1, i + 1)
    } else {
        words_from(v, i + 1, start)
    }
}

pub open spec fn words(v: Seq<char>) -> Seq<Seq<char>> {
    words_from(v, 0, 0)
}

/// A `viewBox` value with its fourth entry replaced by the height, when it
/// has exactly four entries; the value as it was otherwise.
pub open spec fn viewbox_value(v: Seq<char>, h: Seq<char>) -> Seq<char> {
    let w = words(v);
    if w.len() == 4 {
        w[0] + seq![' '] + w[1] + seq![' '] + w[2] + seq![' '] + h
    } else {
        v
    }
}

/// One attribute of the root tag, rewritten: `height` is dropped, `viewBox`
/// gets the new height, every other attribute passes through.
pub open spec fn rebuilt_attr(a: (Seq<char>, Seq<char>), h: Seq<char>) -> Seq<char> {
    if a.0 == height_key() {
        Seq::empty()
    } else if a.0 == viewbox_key() {
        attr_text(a.0, viewbox_value(a.1, h))
    } else {
        attr_text(a.0, a.1)
    }
}

pub open spec fn rebuilt_attrs(attrs: Seq<(Seq<char>, Seq<char>)>, h: Seq<char>) -> Seq<char>
    decreases attrs.len(),
{
    if attrs.len() == 0 {
        Seq::empty()
    } else {
        rebuilt_attrs(attrs.drop_last(), h) + rebuilt_attr(attrs.last(), h)
    }
}

/// The rewritten root tag for start-tag text `c` and new height `h`.
pub open spec fn svg_start(c: Seq<char>, h: Seq<char>) -> Seq<char> {
    seq!['<', 's', 'v', 'g'] + rebuilt_attrs(tag_attributes_of(c, 3), h) + attr_text(height_key(), h)
        + seq!['>']
}

pub open spec fn g_start(t: Seq<char>) -> Seq<char> {
    seq!['<', 'g', ' ', 't', 'r', 'a', 'n', 's', 'f', 'o', 'r', 'm', '=', '"', 't', 'r', 'a', 'n', 's', 'l', 'a', 't', 'e', '(', '0', ',', ' ']
        + t + seq![')', '"', '>']
}

pub open spec fn g_end() -> Seq<char> {
    seq!['<', '/', 'g', '>']
}

/// The first index at or after `i` that holds a space, or the length.
pub open spec fn name_end(c: Seq<char>, i: int) -> int
    decreases c.len() - i,
{
    if i >= c.len() || is_space(c[i]) {
        i
    } else {
        name_end(c, i + 1)
    }
}

/// The tag name of start-tag text: all up to the first space.
pub open spec fn tag_name(c: Seq<char>) -> Seq<char> {
    c.subrange(0, name_end(c, 0))
}

pub open spec fn start_text(c: Seq<char>) -> Seq<char> {
    seq!['<'] + c + seq!['>']
}

pub open spec fn end_text(c: Seq<char>) -> Seq<char> {
    seq!['<', '/'] + c + seq!['>']
}

pub open spec fn empty_text(c: Seq<char>) -> Seq<char> {
    seq!['<'] + c + seq!['/', '>']
}

/// What one event puts out, and the state after it: whether the root tag
/// was seen, whether the group is open, and whether output stops there
/// (after the root's end tag).
pub open spec fn step(
    kind: PieceKind,
    c: Seq<char>,
    in_svg: bool,
    g_open: bool,
    h: Seq<char>,
    t: Seq<char>,
) -> (Seq<char>, bool, bool, bool) {
    match kind {
        PieceKind::Start => if tag_name(c) == svg_name() {
            (svg_start(c, h), true, g_open, false)
        } else if in_svg && !g_open {
            (g_start(t) + start_text(c), in_svg, true, false)
        } else {
            (start_text(c), in_svg, g_open, false)
        },
        PieceKind::End => if in_svg && c == svg_name() {
            ((if g_open { g_end() } else { Seq::empty() }) + end_text(c), in_svg, g_open, true)
        } else {
            (end_text(c), in_svg, g_open, false)
        },
        PieceKind::Empty => if in_svg && !g_open {
            (g_start(t) + empty_text(c), in_svg, true, false)
        } else {
            (empty_text(c), in_svg, g_open, false)
        },
        PieceKind::Verbatim => (c, in_svg, g_open, false),
    }
}

/// The output for events `ps[i..]`, from the given state.
pub open spec fn rewrite_from(
    ps: Seq<(PieceKind, Seq<char>)>,
    i: int,
    in_svg: bool,
    g_open: bool,
    h: Seq<char>,
    t: Seq<char>,
) -> Seq<char>
    decreases ps.len() - i,
{
    if i < 0 || i >= ps.len() {
        Seq::empty()
    } else {
        let (o, s2, g2, stop) = step(ps[i].0, ps[i].1, in_svg, g_open, h, t);
        if stop {
            o
        } else {
            o + rewrite_from(ps, i + 1, s2, g2, h, t)
        }
    }
}

/// The whole document rewritten for largest Y coordinate `max_y`.
pub open spec fn recentered(ps: Seq<(PieceKind, Seq<char>)>, max_y: int) -> Seq<char> {
    rewrite_from(
        ps,
        0,
        false,
        false,
        nat_digits(new_height(max_y) as nat),
        decimal_text(shift_tenths_of_pico(max_y) as nat),
    )
}

/// What the correction does to a document.
pub open spec fn adjusted(doc: Seq<char>) -> Seq<char> {
    let ys = y_coordinates(doc);
    if ys.len() == 0 || max_of(ys) < TOLERANCE {
        doc
    } else {
        recentered(xml_pieces_of(doc), max_of(ys))
    }
}

/// The new height covers the largest Y coordinate with less than one unit
/// to spare, so the downward shift lies in `[0, 1/2)` of a unit.
pub proof fn lemma_shift_bounds(max_y: int)
    requires
        max_y > 0,
    ensures
        new_height(max_y) * PICO as int >= max_y,
        new_height(max_y) * PICO as int - max_y < PICO as int,
        0 <= shift_tenths_of_pico(max_y) < 5_000_000_000_000,
        new_height(max_y) >= 1,
{
    let q = new_height(max_y);
    assert(q * PICO <= max_y + PICO - 1 < (q + 1) * PICO) by (nonlinear_arith)
        requires q == (max_y + PICO as int - 1) / (PICO as int), max_y > 0;
}


/// The largest element of a non-empty list of coordinates.
pub fn max_coordinate(ys: &Vec<i128>) -> (r: i128)
    requires
        ys@.len() > 0,
        bounded(ys@, y_bound()),
    ensures
        r as int == max_of(ints(ys@)),
        r < y_bound(),
{
    let mut m = ys[0];
    let mut i: usize = 1;
    assert(ints(ys@).subrange(0, 1) =~= seq![ys@[0] as int]);
    while i < ys.len()
        invariant
            1 <= i <= ys@.len(),
            m as int == max_of(ints(ys@).subrange(0, i as int)),
            m < y_bound(),
            bounded(ys@, y_bound()),
        decreases ys@.len() - i,
    {
        assert(ints(ys@).subrange(0, i + 1).drop_last() =~= ints(ys@).subrange(0, i as int));
        if ys[i] > m {
            m = ys[i];
        }
        i += 1;
    }
    assert(ints(ys@).subrange(0, i as int) =~= ints(ys@));
    m
}

/// Appends `decimal_text(v)`.
fn push_decimal(out: &mut Vec<char>, v: u128)
    ensures
        final(out)@ == old(out)@ + decimal_text(v as nat),
{
    let whole = v / 10_000_000_000_000;
    let frac = v % 10_000_000_000_000;
    push_nat(out, whole);
    if frac != 0 {
        out.push('.');
        let mut digits: Vec<char> = Vec::new();
        push_padded(&mut digits, frac, 13);
        assert(digits@ =~= padded_digits(frac as nat, 13));
        while digits.len() > 0 && digits[digits.len() - 1] == '0'
            invariant
                strip_zeros(digits@) == strip_zeros(padded_digits(frac as nat, 13)),
            decreases digits@.len(),
        {
            digits.pop();
        }
        push_all(out, &digits);
        assert(out@ =~= old(out)@ + decimal_text(v as nat));
    }
}

fn is_space_char(c: char) -> (r: bool)
    ensures
        r == is_space(c),
{
    c == ' ' || c == '\t' || c == '\n' || c == '\r'
}

pub open spec fn views(v: Seq<Vec<char>>) -> Seq<Seq<char>> {
    v.map_values(|w: Vec<char>| w@)
}

fn push_word(out: &mut Vec<Vec<char>>, v: &Vec<char>, a: usize, b: usize)
    requires
        a <= b <= v@.len(),
    ensures
        views(final(out)@) == views(old(out)@) + nonempty(v@.subrange(a as int, b as int)),
{
    if a < b {
        let mut w: Vec<char> = Vec::new();
        crate::text::push_range(&mut w, v, a, b);
        assert(w@ =~= v@.subrange(a as int, b as int));
        let ghost before = out@;
        out.push(w);
        assert(views(out@) =~= views(before) + nonempty(v@.subrange(a as int, b as int)));
    } else {
        assert(views(out@) =~= views(old(out)@) + nonempty(v@.subrange(a as int, b as int)));
    }
}

/// The whitespace-separated words of `v`.
fn words_exec(v: &Vec<char>) -> (r: Vec<Vec<char>>)
    ensures
        views(r@) == words(v@),
{
    let mut out: Vec<Vec<char>> = Vec::new();
    let mut start: usize = 0;
    let mut i: usize = 0;
    while i < v.len()
        invariant
            start <= i <= v@.len(),
            views(out@) + words_from(v@, i as int, start as int) == words(v@),
        decreases v@.len() - i,
    {
        if is_space_char(v[i]) {
            let ghost before = out@;
            push_word(&mut out, v, start, i);
            assert(views(out@) + words_from(v@, i + 1, i + 1) =~= views(before) + words_from(v@, i as int, start as int));
            start = i + 1;
        }
        i += 1;
    }
    let ghost before = out@;
    push_word(&mut out, v, start, v.len());
    assert(views(out@) =~= views(before) + words_from(v@, i as int, start as int));
    out
}

/// Appends ` key="value"`.
fn push_attr(out: &mut Vec<char>, k: &Vec<char>, v: &Vec<char>)
    ensures
        final(out)@ == old(out)@ + attr_text(k@, v@),
{
    out.push(' ');
    push_all(out, k);
    out.push('=');
    out.push('"');
    push_all(out, v);
    out.push('"');
    assert(out@ =~= old(out)@ + attr_text(k@, v@));
}

/// Appends one rewritten attribute of the root tag.
fn push_rebuilt_attr(out: &mut Vec<char>, k: &Vec<char>, v: &Vec<char>, h: &Vec<char>)
    ensures
        final(out)@ == old(out)@ + rebuilt_attr((k@, v@), h@),
{
    let height = vec!['h', 'e', 'i', 'g', 'h', 't'];
    assert(height@ =~= height_key());
    let viewbox = vec!['v', 'i', 'e', 'w', 'B', 'o', 'x'];
    assert(viewbox@ =~= viewbox_key());
    if same_chars(k, &height) {
        assert(out@ =~= old(out)@ + rebuilt_attr((k@, v@), h@));
    } else if same_chars(k, &viewbox) {
        let w = words_exec(v);
        if w.len() == 4 {
            let mut value: Vec<char> = Vec::new();
            push_all(&mut value, &w[0]);
            value.push(' ');
            push_all(&mut value, &w[1]);
            value.push(' ');
            push_all(&mut value, &w[2]);
            value.push(' ');
            push_all(&mut value, h);
            assert(views(w@)[0] == w@[0]@);
            assert(value@ =~= viewbox_value(v@, h@));
            push_attr(out, k, &value);
        } else {
            push_attr(out, k, v);
        }
    } else {
        push_attr(out, k, v);
    }
}

/// Appends the rewritten root tag for start-tag text `c`.
fn push_svg_start(out: &mut Vec<char>, c: &String, h: &Vec<char>)
    requires
        c@.len() >= 3,
    ensures
        final(out)@ == old(out)@ + svg_start(c@, h@),
{
    let attrs = tag_attributes(c.as_str(), 3);
    let ghost av = pairs_view(attrs@);
    let mut tag = vec!['<', 's', 'v', 'g'];
    let mut j: usize = 0;
    while j < attrs.len()
        invariant
            j <= attrs@.len(),
            av == pairs_view(attrs@),
            tag@ == seq!['<', 's', 'v', 'g'] + rebuilt_attrs(av.subrange(0, j as int), h@),
        decreases attrs@.len() - j,
    {
        let k = chars_of(attrs[j].0.as_str());
        let v = chars_of(attrs[j].1.as_str());
        assert(av.subrange(0, j + 1).drop_last() =~= av.subrange(0, j as int));
        assert(av[j as int] == (k@, v@));
        push_rebuilt_attr(&mut tag, &k, &v, h);
        assert(tag@ =~= seq!['<', 's', 'v', 'g'] + rebuilt_attrs(av.subrange(0, j + 1), h@));
        j += 1;
    }
    assert(av.subrange(0, j as int) =~= av);
    let height = vec!['h', 'e', 'i', 'g', 'h', 't'];
    assert(height@ =~= height_key());
    push_attr(&mut tag, &height, h);
    tag.push('>');
    push_all(out, &tag);
    assert(out@ =~= old(out)@ + svg_start(c@, h@));
}

/// Whether the tag name of start-tag text `c` is `svg`.
fn names_svg(c: &Vec<char>) -> (r: bool)
    ensures
        r == (tag_name(c@) == svg_name()),
        r ==> c@.len() >= 3,
{
    let mut i: usize = 0;
    while i < c.len() && !is_space_char(c[i])
        invariant
            i <= c@.len(),
            name_end(c@, i as int) == name_end(c@, 0),
        decreases c@.len() - i,
    {
        i += 1;
    }
    let mut name: Vec<char> = Vec::new();
    crate::text::push_range(&mut name, c, 0, i);
    let svg = vec!['s', 'v', 'g'];
    assert(svg@ =~= svg_name());
    assert(name@ =~= tag_name(c@));
    same_chars(&name, &svg)
}

fn push_g_start(out: &mut Vec<char>, t: &Vec<char>)
    ensures
        final(out)@ == old(out)@ + g_start(t@),
{
    let head = vec!['<', 'g', ' ', 't', 'r', 'a', 'n', 's', 'f', 'o', 'r', 'm', '=', '"', 't', 'r', 'a', 'n', 's', 'l', 'a', 't', 'e', '(', '0', ',', ' '];
    push_all(out, &head);
    push_all(out, t);
    out.push(')');
    out.push('"');
    out.push('>');
    assert(out@ =~= old(out)@ + g_start(t@));
}

fn push_wrapped(out: &mut Vec<char>, pre: &Vec<char>, c: &Vec<char>, post: &Vec<char>)
    ensures
        final(out)@ == old(out)@ + pre@ + c@ + post@,
{
    push_all(out, pre);
    push_all(out, c);
    push_all(out, post);
    assert(out@ =~= old(out)@ + pre@ + c@ + post@);
}

/// Appends what one event puts out; returns the state after it.
fn write_piece(
    out: &mut Vec<char>,
    kind: PieceKind,
    c: &Vec<char>,
    text: &String,
    in_svg: bool,
    g_open: bool,
    h: &Vec<char>,
    t: &Vec<char>,
) -> (r: (bool, bool, bool))
    requires
        text@ == c@,
    ensures
        ({
            let (o, s2, g2, stop) = step(kind, c@, in_svg, g_open, h@, t@);
            final(out)@ == old(out)@ + o && r == (s2, g2, stop)
        }),
{
    match kind {
        PieceKind::Start => {
            if names_svg(c) {
                push_svg_start(out, text, h);
                (true, g_open, false)
            } else if in_svg && !g_open {
                push_g_start(out, t);
                push_wrapped(out, &vec!['<'], c, &vec!['>']);
                assert(out@ =~= old(out)@ + (g_start(t@) + start_text(c@)));
                (in_svg, true, false)
            } else {
                push_wrapped(out, &vec!['<'], c, &vec!['>']);
                assert(out@ =~= old(out)@ + start_text(c@));
                (in_svg, g_open, false)
            }
        },
        PieceKind::End => {
            let svg = vec!['s', 'v', 'g'];
            assert(svg@ =~= svg_name());
            if in_svg && same_chars(c, &svg) {
                if g_open {
                    push_all(out, &vec!['<', '/', 'g', '>']);
                }
                push_wrapped(out, &vec!['<', '/'], c, &vec!['>']);
                assert(out@ =~= old(out)@ + ((if g_open { g_end() } else { Seq::empty() }) + end_text(c@)));
                (in_svg, g_open, true)
            } else {
                push_wrapped(out, &vec!['<', '/'], c, &vec!['>']);
                assert(out@ =~= old(out)@ + end_text(c@));
                (in_svg, g_open, false)
            }
        },
        PieceKind::Empty => {
            if in_svg && !g_open {
                push_g_start(out, t);
                push_wrapped(out, &vec!['<'], c, &vec!['/', '>']);
                assert(out@ =~= old(out)@ + (g_start(t@) + empty_text(c@)));
                (in_svg, true, false)
            } else {
                push_wrapped(out, &vec!['<'], c, &vec!['/', '>']);
                assert(out@ =~= old(out)@ + empty_text(c@));
                (in_svg, g_open, false)
            }
        },
        PieceKind::Verbatim => {
            push_all(out, c);
            (in_svg, g_open, false)
        },
    }
}

/// Writes the document whose events are `pieces` with the root tag's height
/// set to `max_y` (in trillionths) rounded up to a whole unit, and its
/// content wrapped in a group shifted down by half of the added room.
pub fn recenter_pieces(pieces: &Vec<XmlPiece>, max_y: i128) -> (r: String)
    requires
        0 < max_y < y_bound(),
    ensures
        r@ == recentered(pieces_view(pieces@), max_y as int),
{
    proof {
        lemma_shift_bounds(max_y as int);
    }
    let height = (max_y + (PICO - 1)) / PICO;
    let shift = (height * PICO - max_y) * 5;
    let mut h: Vec<char> = Vec::new();
    push_nat(&mut h, height as u128);
    let mut t: Vec<char> = Vec::new();
    push_decimal(&mut t, shift as u128);
    let ghost ps = pieces_view(pieces@);
    let ghost total = recentered(ps, max_y as int);
    assert(h@ == nat_digits(new_height(max_y as int) as nat));
    let mut out: Vec<char> = Vec::new();
    let mut in_svg = false;
    let mut g_open = false;
    let mut i: usize = 0;
    while i < pieces.len()
        invariant
            i <= pieces@.len(),
            ps == pieces_view(pieces@),
            total == recentered(ps, max_y as int),
            total == rewrite_from(ps, 0, false, false, h@, t@),
            out@ + rewrite_from(ps, i as int, in_svg, g_open, h@, t@) == total,
        decreases pieces@.len() - i,
    {
        let piece = &pieces[i];
        let c = chars_of(piece.text.as_str());
        assert(ps[i as int] == (piece.kind, c@));
        let ghost before = out@;
        let (s2, g2, stop) = write_piece(&mut out, piece.kind, &c, &piece.text, in_svg, g_open, &h, &t);
        if stop {
            assert(out@ =~= total);
            return string_of(&out);
        }
        assert(out@ + rewrite_from(ps, i + 1, s2, g2, h@, t@) =~= before + rewrite_from(ps, i as int, in_svg, g_open, h@, t@));
        in_svg = s2;
        g_open = g2;
        i += 1;
    }
    assert(out@ =~= total);
    string_of(&out)
}

/// Corrects the height of an SVG document and recenters its content.
///
/// With no path coordinates, or a largest Y coordinate below two
/// hundredths of a unit, the document comes back unchanged. Otherwise the
/// root `<svg>` gets `height` equal to that coordinate rounded up (its old
/// `height` dropped, the fourth `viewBox` entry replaced), and its content
/// is wrapped in `<g transform="translate(0, t)">` with `t` half of the added
/// room. The document is read event by event, so text inside attribute
/// values is never taken for markup; output stops after the root's end tag.
pub fn adjust_svg_height_and_center(svg: &str) -> (r: String)
    ensures
        r@ == adjusted(svg@),
        ({
            let ys = y_coordinates(svg@);
            ys.len() == 0 || max_of(ys) < TOLERANCE
        }) ==> r@ == svg@,
{
    let ys = extract_y_coordinates(svg);
    if ys.len() == 0 {
        return string_of(&chars_of(svg));
    }
    let max_y = max_coordinate(&ys);
    if max_y < TOLERANCE {
        return string_of(&chars_of(svg));
    }
    assert(ints(ys@)[0] == ys@[0] as int);
    let pieces = xml_pieces(svg);
    recenter_pieces(&pieces, max_y)
}

} // verus!
