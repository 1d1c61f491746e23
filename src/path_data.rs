//! Y coordinates of the `<path>` elements of an SVG document.
//!
//! Numbers are read exactly as decimals: a path number is held in millionths
//! of a user unit (digits past the sixth decimal are dropped), and a computed
//! Y coordinate in trillionths, so that the affine Y row `b*x + d*y + f` is
//! evaluated without rounding.
//!
//! An element's `d` and `transform="matrix(...)"` attributes are looked for
//! inside its own tag (up to its first `>`), and only where an attribute
//! begins, so that `id="..."` is never read as path data. Path data
//! numbers are runs of `-`, digits and `.`; matrix entries are
//! floating-point literals, with an optional sign and exponent.
//!
//! Known limitation, kept on purpose: the numbers of a path's data are paired
//! up as alternating X and Y values. That matches the output of the engine
//! this library drives, but it is not a general SVG path-data reader (`H` and
//! `V` take one coordinate, for instance).
use vstd::prelude::*;
use crate::text::{find_char, find_from, find_pattern, lemma_find_from_bounds, matches_at, matches_at_exec, opt_int, push_range};

verus! {

/// Millionths of a unit: the scale of a number read from path data.
pub const MICRO: i128 = 1_000_000;

/// Trillionths of a unit: the scale of a Y coordinate.
pub const PICO: i128 = 1_000_000_000_000;

/// Numbers whose integer part reaches this bound are read as the bound:
/// magnitudes are capped at nine trillion units, what the exact `i128`
/// evaluation of the affine Y row allows.
pub const INT_PART_LIMIT: u64 = 9_000_000_000_000;

/// The largest magnitude of a number, in millionths.
pub const NUMBER_CAP: i128 = 9_000_000_000_000_000_000;

pub open spec fn is_digit(c: char) -> bool {
    '0' <= c && c <= '9'
}

pub open spec fn is_number_char(c: char) -> bool {
    is_digit(c) || c == '-' || c == '.'
}

pub open spec fn is_space(c: char) -> bool {
    c == ' ' || c == '\t' || c == '\n' || c == '\r'
}

pub open spec fn all_digits(s: Seq<char>) -> bool {
    forall|i: int| 0 <= i < s.len() ==> is_digit(#[trigger] s[i])
}

/// The value of a run of decimal digits.
pub open spec fn digits_value(s: Seq<char>) -> nat
    decreases s.len(),
{
    if s.len() == 0 {
        0
    } else {
        digits_value(s.drop_last()) * 10 + (s.last() as int - '0' as int) as nat
    }
}

/// The first six digits of a fraction, padded with zeros.
pub open spec fn six_digits(f: Seq<char>) -> Seq<char> {
    Seq::new(6, |k: int| if k < f.len() { f[k] } else { '0' })
}

/// The index of the first `.` in `t`, or its length.
pub open spec fn dot_index(t: Seq<char>) -> int {
    match find_from(t, seq!['.'], 0) {
        Some(k) => k,
        None => t.len() as int,
    }
}

pub open spec fn number_sign(t: Seq<char>) -> bool {
    t.len() > 0 && t[0] == '-'
}

pub open spec fn number_body(t: Seq<char>) -> Seq<char> {
    if number_sign(t) {
        t.subrange(1, t.len() as int)
    } else {
        t
    }
}

/// The digits before the `.` (all of them when there is none).
pub open spec fn int_part(body: Seq<char>) -> Seq<char> {
    body.subrange(0, dot_index(body))
}

/// The text after the first `.` (empty when there is none).
pub open spec fn frac_part(body: Seq<char>) -> Seq<char> {
    if dot_index(body) < body.len() {
        body.subrange(dot_index(body) + 1, body.len() as int)
    } else {
        Seq::empty()
    }
}

/// The integer part, capped at the limit.
pub open spec fn capped(n: nat) -> nat {
    if n >= INT_PART_LIMIT {
        INT_PART_LIMIT as nat
    } else {
        n
    }
}

pub open spec fn parts_value(neg: bool, ip: Seq<char>, fp: Seq<char>) -> Option<int> {
    if all_digits(ip) && all_digits(fp) && ip.len() + fp.len() > 0 {
        let mag = if digits_value(ip) >= INT_PART_LIMIT {
            NUMBER_CAP as int
        } else {
            digits_value(ip) * MICRO + digits_value(six_digits(fp))
        };
        Some(if neg { -mag } else { mag })
    } else {
        None
    }
}

/// A number token of path data in millionths: an optional `-`, digits, and
/// an optional `.` followed by digits, with at least one digit in all.
/// Digits past the sixth decimal are dropped, and a magnitude of nine
/// trillion units or more is read as `NUMBER_CAP`.
pub open spec fn number_value(t: Seq<char>) -> Option<int> {
    parts_value(number_sign(t), int_part(number_body(t)), frac_part(number_body(t)))
}

pub open spec fn flush(run: Seq<char>) -> Seq<int> {
    match number_value(run) {
        Some(v) => seq![v],
        None => Seq::empty(),
    }
}

/// The index of the first `e` or `E` in `t` at or after `i`, or its length.
pub open spec fn exp_index(t: Seq<char>, i: int) -> int
    decreases t.len() - i,
{
    if i < 0 || i >= t.len() {
        t.len() as int
    } else if t[i] == 'e' || t[i] == 'E' {
        i
    } else {
        exp_index(t, i + 1)
    }
}

/// A decimal exponent: an optional sign and one to three digits.
pub open spec fn exponent_value(x: Seq<char>) -> Option<int> {
    let signed = x.len() > 0 && (x[0] == '-' || x[0] == '+');
    let body = if signed { x.subrange(1, x.len() as int) } else { x };
    if 0 < body.len() <= 3 && all_digits(body) {
        Some(if signed && x[0] == '-' { -digits_value(body) } else { digits_value(body) as int })
    } else {
        None
    }
}

/// `m / d` rounded toward zero.
pub open spec fn div_toward_zero(m: int, d: int) -> int {
    if m >= 0 {
        m / d
    } else {
        -((-m) / d)
    }
}

/// `v` held within `[-NUMBER_CAP, NUMBER_CAP]`.
pub open spec fn clamp_cap(v: int) -> int {
    if v > NUMBER_CAP {
        NUMBER_CAP as int
    } else if v < -NUMBER_CAP {
        -NUMBER_CAP
    } else {
        v
    }
}

/// `m` millionths times `10^e`, rounded toward zero and capped.
pub open spec fn scaled(m: int, e: int) -> int {
    if e >= 0 {
        if e <= 18 {
            clamp_cap(m * pow10(e as nat))
        } else {
            clamp_cap(m * pow10(19))
        }
    } else if e >= -18 {
        div_toward_zero(m, pow10((-e) as nat) as int)
    } else {
        0
    }
}

/// A decimal number in millionths: a path-data number, optionally followed
/// by `e` or `E` and an exponent.
pub open spec fn decimal_value(t: Seq<char>) -> Option<int> {
    let p = exp_index(t, 0);
    if p >= t.len() {
        number_value(t)
    } else {
        match (number_value(t.subrange(0, p)), exponent_value(t.subrange(p + 1, t.len() as int))) {
            (Some(m), Some(e)) => Some(scaled(m, e)),
            _ => None,
        }
    }
}

/// A floating-point literal in millionths: a decimal number with an
/// optional leading `+` (or the `-` of the decimal itself).
pub open spec fn float_value(t: Seq<char>) -> Option<int> {
    if t.len() > 0 && t[0] == '+' {
        if t.len() > 1 && t[1] == '-' {
            None
        } else {
            decimal_value(t.subrange(1, t.len() as int))
        }
    } else {
        decimal_value(t)
    }
}

pub open spec fn flush_float(item: Seq<char>) -> Seq<int> {
    match float_value(item) {
        Some(v) => seq![v],
        None => Seq::empty(),
    }
}

/// The numbers of path data `d` from index `i` on, where the current run of
/// number characters began at `run`.
pub open spec fn numbers_from(d: Seq<char>, i: int, run: int) -> Seq<int>
    decreases d.len() - i,
{
    if i >= d.len() {
        flush(d.subrange(run, d.len() as int))
    } else if is_number_char(d[i]) {
        numbers_from(d, i + 1, run)
    } else {
        flush(d.subrange(run, i)) + numbers_from(d, i + 1, i + 1)
    }
}

/// Every maximal run of digits, `-` and `.` in `d` that reads as a number.
pub open spec fn path_numbers(d: Seq<char>) -> Seq<int> {
    numbers_from(d, 0, 0)
}

/// An affine matrix `matrix(a, b, c, d, e, f)`, each entry in millionths.
#[derive(Clone, Copy, Debug, PartialEq, Eq)]
pub struct Matrix {
    pub a: i128,
    pub b: i128,
    pub c: i128,
    pub d: i128,
    pub e: i128,
    pub f: i128,
}

/// The Y coordinate, in trillionths, of the point `(x, y)` (in millionths).
pub open spec fn transformed_y(x: int, y: int, m: Option<Matrix>) -> int {
    match m {
        Some(m) => m.b * x + m.d * y + m.f * MICRO,
        None => y * MICRO,
    }
}

/// Numbers taken two by two as `(x, y)`; an odd last number is dropped.
pub open spec fn paired_ys(nums: Seq<int>, m: Option<Matrix>) -> Seq<int> {
    Seq::new(nums.len() / 2, |k: int| transformed_y(nums[2 * k], nums[2 * k + 1], m))
}

/// First index `k >= i` where attribute text `pat` begins after a space.
pub open spec fn find_attr(el: Seq<char>, pat: Seq<char>, i: int) -> Option<int>
    decreases el.len() + 1 - i,
{
    if i < 1 || i + pat.len() > el.len() {
        None
    } else if is_space(el[i - 1]) && matches_at(el, pat, i) {
        Some(i)
    } else {
        find_attr(el, pat, i + 1)
    }
}

pub open spec fn d_attr() -> Seq<char> {
    seq!['d', '=', '"']
}

pub open spec fn matrix_attr() -> Seq<char> {
    seq!['t', 'r', 'a', 'n', 's', 'f', 'o', 'r', 'm', '=', '"', 'm', 'a', 't', 'r', 'i', 'x', '(']
}

pub open spec fn path_tag() -> Seq<char> {
    seq!['<', 'p', 'a', 't', 'h']
}

/// The first index in `[a, b)` that is not a space, or `b`.
pub open spec fn skip_space_fwd(t: Seq<char>, a: int, b: int) -> int
    decreases b - a,
{
    if a < b && is_space(t[a]) {
        skip_space_fwd(t, a + 1, b)
    } else {
        a
    }
}

/// The end of `t[lo..b]` once trailing spaces are cut.
pub open spec fn skip_space_back(t: Seq<char>, lo: int, b: int) -> int
    decreases b - lo,
{
    if lo < b && is_space(t[b - 1]) {
        skip_space_back(t, lo, b - 1)
    } else {
        b
    }
}

/// `t[a..b]` with spaces trimmed at both ends, read as a floating-point
/// literal.
pub open spec fn item_value(t: Seq<char>, a: int, b: int) -> Seq<int> {
    let lo = skip_space_fwd(t, a, b);
    let hi = skip_space_back(t, lo, b);
    flush_float(t.subrange(lo, hi))
}

/// The comma-separated items of `t` from index `i` on that read as numbers,
/// the current item having begun at `start`.
pub open spec fn comma_values(t: Seq<char>, i: int, start: int) -> Seq<int>
    decreases t.len() - i,
{
    if i >= t.len() {
        item_value(t, start, t.len() as int)
    } else if t[i] == ',' {
        item_value(t, start, i) + comma_values(t, i + 1, i + 1)
    } else {
        comma_values(t, i + 1, start)
    }
}

pub open spec fn matrix_of(v: Seq<int>) -> Option<Matrix> {
    if v.len() >= 6 {
        Some(
            Matrix {
                a: v[0] as i128,
                b: v[1] as i128,
                c: v[2] as i128,
                d: v[3] as i128,
                e: v[4] as i128,
                f: v[5] as i128,
            },
        )
    } else {
        None
    }
}

/// The matrix of a `transform="matrix(...)"` attribute of the element, when
/// at least six of its entries read as numbers.
pub open spec fn element_matrix(el: Seq<char>) -> Option<Matrix> {
    match find_attr(el, matrix_attr(), 1) {
        None => None,
        Some(q) => {
            let st = q + matrix_attr().len();
            match find_from(el, seq![')'], st) {
                None => None,
                Some(c) => matrix_of(comma_values(el.subrange(st, c), 0, 0)),
            }
        },
    }
}

/// The text of the element's `d="..."` attribute, when it is closed.
pub open spec fn d_content(el: Seq<char>) -> Option<Seq<char>> {
    match find_attr(el, d_attr(), 1) {
        None => None,
        Some(q) => match find_from(el, seq!['"'], q + 3) {
            None => None,
            Some(c) => Some(el.subrange(q + 3, c)),
        },
    }
}

/// The Y coordinates of one `<path ...>` element.
pub open spec fn element_ys(el: Seq<char>) -> Seq<int> {
    match d_content(el) {
        None => Seq::empty(),
        Some(dc) => paired_ys(path_numbers(dc), element_matrix(el)),
    }
}

/// Where the element opened at `p` ends: its first `>`, or the end of text.
pub open spec fn element_end(s: Seq<char>, p: int) -> int {
    match find_from(s, seq!['>'], p) {
        Some(k) => k,
        None => s.len() as int,
    }
}

/// The Y coordinates of the `<path` elements of `s` that begin at `i` or later.
pub open spec fn ys_from(s: Seq<char>, i: int) -> Seq<int>
    decreases s.len() + 1 - i,
{
    match find_from(s, path_tag(), i) {
        None => Seq::empty(),
        Some(p) => if i <= p && p < s.len() {
            element_ys(s.subrange(p, element_end(s, p))) + ys_from(s, p + 1)
        } else {
            Seq::empty()
        },
    }
}

/// All Y coordinates of the document's `<path>` elements, in trillionths.
pub open spec fn y_coordinates(s: Seq<char>) -> Seq<int> {
    ys_from(s, 0)
}


pub open spec fn pow10(k: nat) -> nat
    decreases k,
{
    if k == 0 {
        1
    } else {
        10 * pow10((k - 1) as nat)
    }
}

/// Bound on a number read from path data, in millionths.
pub open spec fn number_bound() -> int {
    NUMBER_CAP + 1
}

/// Bound on a computed Y coordinate, in trillionths.
pub open spec fn y_bound() -> int {
    170_000_000_000_000_000_000_000_000_000_000_000_000
}

pub open spec fn ints(v: Seq<i128>) -> Seq<int> {
    v.map_values(|x: i128| x as int)
}

pub open spec fn bounded(v: Seq<i128>, bound: int) -> bool {
    forall|i: int| 0 <= i < v.len() ==> -bound < #[trigger] v[i] < bound
}

proof fn lemma_pow10_mono(k: nat)
    requires
        k < 6,
    ensures
        pow10(k) < 100_000 + 1,
    decreases 6 - k,
{
    if k < 5 {
        lemma_pow10_mono(k + 1);
        assert(pow10(k + 1) == 10 * pow10(k));
    } else {
        reveal_with_fuel(pow10, 6);
    }
}

proof fn lemma_find_single(t: Seq<char>, c: char, i: int, p: int)
    requires
        0 <= i <= p <= t.len(),
        forall|k: int| i <= k < p ==> t[k] != c,
        p == t.len() || t[p] == c,
    ensures
        find_from(t, seq![c], i) == (if p < t.len() { Some(p) } else { None::<int> }),
    decreases p - i,
{
    if i < p {
        assert(t.subrange(i, i + 1)[0] != seq![c][0]);
        assert(!matches_at(t, seq![c], i));
        lemma_find_single(t, c, i + 1, p);
    } else if p < t.len() {
        assert(t.subrange(p, p + 1) =~= seq![c]);
    }
}


fn digit_of(c: char) -> (r: u64)
    requires
        is_digit(c),
    ensures
        r == c as int - '0' as int,
        r < 10,
{
    (c as u32 - '0' as u32) as u64
}

fn is_digit_exec(c: char) -> (r: bool)
    ensures
        r == is_digit(c),
{
    '0' <= c && c <= '9'
}

fn is_space_exec(c: char) -> (r: bool)
    ensures
        r == is_space(c),
{
    c == ' ' || c == '\t' || c == '\n' || c == '\r'
}

/// Reads `s[a..b]` as a path-data number, in millionths.
pub fn parse_number(s: &Vec<char>, a: usize, b: usize) -> (r: Option<i128>)
    requires
        a <= b <= s@.len(),
    ensures
        match r {
            Some(v) => number_value(s@.subrange(a as int, b as int)) == Some(v as int),
            None => number_value(s@.subrange(a as int, b as int)) is None,
        },
        r matches Some(v) ==> -number_bound() < v < number_bound(),
{
    let ghost t = s@.subrange(a as int, b as int);
    let neg = a < b && s[a] == '-';
    assert(neg == number_sign(t));
    let start = if neg { a + 1 } else { a };
    let ghost body = s@.subrange(start as int, b as int);
    assert(body =~= number_body(t));
    let mut p = start;
    while p < b && s[p] != '.'
        invariant
            start <= p <= b <= s@.len(),
            forall|k: int| start <= k < p ==> s@[k] != '.',
        decreases b - p,
    {
        p += 1;
    }
    assert forall|k: int| 0 <= k < p - start implies body[k] != '.' by {
        assert(body[k] == s@[start + k]);
    }
    proof {
        lemma_find_single(body, '.', 0, p - start);
    }
    assert(dot_index(body) == p - start);
    let ghost ip = int_part(body);
    assert(ip =~= s@.subrange(start as int, p as int));
    let fstart = if p < b { p + 1 } else { b };
    let ghost fp = frac_part(body);
    assert(fp =~= s@.subrange(fstart as int, b as int));
    assert(number_value(t) == parts_value(neg, ip, fp));
    let mut v: u64 = 0;
    let mut i = start;
    while i < p
        invariant
            start <= i <= p <= b <= s@.len(),
            ip == s@.subrange(start as int, p as int),
            t == s@.subrange(a as int, b as int),
            number_value(t) == parts_value(neg, ip, fp),
            all_digits(s@.subrange(start as int, i as int)),
            v == capped(digits_value(s@.subrange(start as int, i as int))),
        decreases p - i,
    {
        let c = s[i];
        if !is_digit_exec(c) {
            assert(ip[i - start] == c);
            assert(parts_value(neg, ip, fp) is None);
            return None;
        }
        let ghost pre = s@.subrange(start as int, i + 1);
        assert(pre.drop_last() =~= s@.subrange(start as int, i as int));
        assert(all_digits(pre));
        assert(pre.last() == c);
        let d = digit_of(c);
        if v < INT_PART_LIMIT {
            v = v * 10 + d;
            if v > INT_PART_LIMIT {
                v = INT_PART_LIMIT;
            }
        }
        assert(v == capped(digits_value(pre)));
        i += 1;
    }
    assert(s@.subrange(start as int, i as int) =~= ip);
    let mut j = fstart;
    while j < b
        invariant
            fstart <= j <= b <= s@.len(),
            fp == s@.subrange(fstart as int, b as int),
            t == s@.subrange(a as int, b as int),
            number_value(t) == parts_value(neg, ip, fp),
            forall|k: int| fstart <= k < j ==> is_digit(s@[k]),
        decreases b - j,
    {
        if !is_digit_exec(s[j]) {
            assert(fp[j - fstart] == s@[j as int]);
            assert(parts_value(neg, ip, fp) is None);
            return None;
        }
        j += 1;
    }
    assert(all_digits(fp));
    if p - start == 0 && b - fstart == 0 {
        assert(parts_value(neg, ip, fp) is None);
        return None;
    }
    let ghost six = six_digits(fp);
    let mut f: u64 = 0;
    let mut k: usize = 0;
    while k < 6
        invariant
            k <= 6,
            fstart <= b <= s@.len(),
            fp == s@.subrange(fstart as int, b as int),
            six == six_digits(fp),
            all_digits(fp),
            f == digits_value(six.subrange(0, k as int)),
            f < pow10(k as nat),
        decreases 6 - k,
    {
        let c = if k < b - fstart { s[fstart + k] } else { '0' };
        assert(c == six[k as int]);
        assert(six.subrange(0, k + 1).drop_last() =~= six.subrange(0, k as int));
        assert(is_digit(c));
        proof {
            lemma_pow10_mono(k as nat);
        }
        f = f * 10 + digit_of(c);
        k += 1;
    }
    assert(six.subrange(0, 6) =~= six);
    assert(pow10(6) == 1_000_000) by {
        reveal_with_fuel(pow10, 7);
    }
    let mag = if v >= INT_PART_LIMIT {
        NUMBER_CAP
    } else {
        (v as i128) * MICRO + (f as i128)
    };
    if neg {
        Some(-mag)
    } else {
        Some(mag)
    }
}

fn pow10_exec(k: u32) -> (r: i128)
    requires
        k <= 18,
    ensures
        r == pow10(k as nat),
        1 <= r <= 1_000_000_000_000_000_000,
{
    let mut r: i128 = 1;
    let mut i: u32 = 0;
    while i < k
        invariant
            i <= k <= 18,
            r == pow10(i as nat),
            1 <= r <= pow10(i as nat),
        decreases k - i,
    {
        proof {
            lemma_pow10_bound(i as nat);
        }
        r = r * 10;
        i += 1;
    }
    proof {
        lemma_pow10_bound(k as nat);
    }
    r
}

proof fn lemma_pow10_bound(k: nat)
    requires
        k <= 18,
    ensures
        1 <= pow10(k) <= 1_000_000_000_000_000_000,
    decreases 18 - k,
{
    if k < 18 {
        lemma_pow10_bound(k + 1);
        assert(pow10(k + 1) == 10 * pow10(k));
    } else {
        reveal_with_fuel(pow10, 19);
    }
}

/// Reads an exponent `c[a..b]`.
fn parse_exponent(c: &Vec<char>, a: usize, b: usize) -> (r: Option<i32>)
    requires
        a <= b <= c@.len(),
    ensures
        match r {
            Some(e) => exponent_value(c@.subrange(a as int, b as int)) == Some(e as int),
            None => exponent_value(c@.subrange(a as int, b as int)) is None,
        },
        r matches Some(e) ==> -1000 < e < 1000,
{
    let ghost x = c@.subrange(a as int, b as int);
    let signed = a < b && (c[a] == '-' || c[a] == '+');
    let neg = signed && c[a] == '-';
    let start = if signed { a + 1 } else { a };
    let ghost body = c@.subrange(start as int, b as int);
    assert(body =~= (if signed { x.subrange(1, x.len() as int) } else { x }));
    if b - start == 0 || b - start > 3 {
        return None;
    }
    assert(pow10(0) == 1 && pow10(1) == 10 && pow10(2) == 100 && pow10(3) == 1000) by {
        reveal_with_fuel(pow10, 4);
    }
    let mut v: i32 = 0;
    let mut i = start;
    while i < b
        invariant
            start <= i <= b <= c@.len(),
            b - start <= 3,
            pow10(0) == 1 && pow10(1) == 10 && pow10(2) == 100 && pow10(3) == 1000,
            x == c@.subrange(a as int, b as int),
            signed == (x.len() > 0 && (x[0] == '-' || x[0] == '+')),
            body == (if signed { x.subrange(1, x.len() as int) } else { x }),
            body == c@.subrange(start as int, b as int),
            all_digits(c@.subrange(start as int, i as int)),
            v == digits_value(c@.subrange(start as int, i as int)),
            v < pow10((i - start) as nat),
        decreases b - i,
    {
        let ch = c[i];
        if !('0' <= ch && ch <= '9') {
            assert(body[i - start] == ch);
            return None;
        }
        let ghost pre = c@.subrange(start as int, i + 1);
        assert(pre.drop_last() =~= c@.subrange(start as int, i as int));
        assert(pre.last() == ch);
        assert(pow10((i + 1 - start) as nat) == 10 * pow10((i - start) as nat));
        v = v * 10 + (ch as u32 - '0' as u32) as i32;
        assert(v == digits_value(pre));
        i += 1;
    }
    assert(c@.subrange(start as int, i as int) =~= body);
    if neg {
        Some(-v)
    } else {
        Some(v)
    }
}

/// Reads `c[a..b]` as a decimal number with optional exponent, in
/// millionths.
pub fn parse_decimal(c: &Vec<char>, a: usize, b: usize) -> (r: Option<i128>)
    requires
        a <= b <= c@.len(),
    ensures
        match r {
            Some(v) => decimal_value(c@.subrange(a as int, b as int)) == Some(v as int),
            None => decimal_value(c@.subrange(a as int, b as int)) is None,
        },
        r matches Some(v) ==> -number_bound() < v < number_bound(),
{
    let ghost t = c@.subrange(a as int, b as int);
    let mut p: usize = a;
    while p < b && c[p] != 'e' && c[p] != 'E'
        invariant
            a <= p <= b <= c@.len(),
            t == c@.subrange(a as int, b as int),
            exp_index(t, p - a) == exp_index(t, 0),
        decreases b - p,
    {
        assert(t[p - a] == c@[p as int]);
        p += 1;
    }
    if p < b {
        assert(t[p - a] == c@[p as int]);
    }
    assert(exp_index(t, p - a) == p - a);
    if p == b {
        return parse_number(c, a, b);
    }
    assert(t.subrange(0, p - a) =~= c@.subrange(a as int, p as int));
    assert(t.subrange(p - a + 1, t.len() as int) =~= c@.subrange(p + 1, b as int));
    let m = match parse_number(c, a, p) {
        Some(m) => m,
        None => return None,
    };
    let e = match parse_exponent(c, p + 1, b) {
        Some(e) => e,
        None => return None,
    };
    assert(-1000 < e < 1000);
    let v: i128 = if e >= 0 {
        let f = if e <= 18 { pow10_exec(e as u32) } else { pow10_exec(18) * 10 };
        proof {
            lemma_pow10_bound(18);
            assert(pow10(19) == 10 * pow10(18));
        }
        assert(-number_bound() * 10_000_000_000_000_000_000 < m * f < number_bound() * 10_000_000_000_000_000_000) by (nonlinear_arith)
            requires -number_bound() < m < number_bound(), 1 <= f <= 10_000_000_000_000_000_000;
        let x = m * f;
        if x > NUMBER_CAP {
            NUMBER_CAP
        } else if x < -NUMBER_CAP {
            -NUMBER_CAP
        } else {
            x
        }
    } else if e >= -18 {
        let f = pow10_exec((-e) as u32);
        if m >= 0 {
            assert((m as int) / (f as int) <= m as int) by (nonlinear_arith)
                requires m as int >= 0, f as int >= 1;
            m / f
        } else {
            assert((-m as int) / (f as int) <= -m as int) by (nonlinear_arith)
                requires -m as int > 0, f as int >= 1;
            -((-m) / f)
        }
    } else {
        0
    };
    Some(v)
}

/// Reads `c[a..b]` as a floating-point literal, in millionths.
pub fn parse_float(c: &Vec<char>, a: usize, b: usize) -> (r: Option<i128>)
    requires
        a <= b <= c@.len(),
    ensures
        match r {
            Some(v) => float_value(c@.subrange(a as int, b as int)) == Some(v as int),
            None => float_value(c@.subrange(a as int, b as int)) is None,
        },
        r matches Some(v) ==> -number_bound() < v < number_bound(),
{
    let ghost t = c@.subrange(a as int, b as int);
    if a < b && c[a] == '+' {
        if b - a > 1 && c[a + 1] == '-' {
            assert(t[1] == c@[a + 1]);
            return None;
        }
        assert(t.subrange(1, t.len() as int) =~= c@.subrange(a + 1, b as int));
        parse_decimal(c, a + 1, b)
    } else {
        parse_decimal(c, a, b)
    }
}

proof fn lemma_ints_push(v: Seq<i128>, x: i128)
    ensures
        ints(v.push(x)) == ints(v).push(x as int),
{
    assert(ints(v.push(x)) =~= ints(v).push(x as int));
}

/// Pushes the number that `s[a..b]` holds, if any.
fn push_number(out: &mut Vec<i128>, s: &Vec<char>, a: usize, b: usize)
    requires
        a <= b <= s@.len(),
        bounded(old(out)@, number_bound()),
    ensures
        ints(final(out)@) == ints(old(out)@) + flush(s@.subrange(a as int, b as int)),
        bounded(final(out)@, number_bound()),
{
    let ghost before = out@;
    match parse_number(s, a, b) {
        Some(v) => {
            out.push(v);
            proof {
                lemma_ints_push(before, v);
            }
            assert(ints(out@) =~= ints(before) + flush(s@.subrange(a as int, b as int)));
        },
        None => {
            assert(ints(out@) =~= ints(before) + flush(s@.subrange(a as int, b as int)));
        },
    }
}

/// Pushes the floating-point literal that `s[a..b]` holds, if any.
fn push_float(out: &mut Vec<i128>, s: &Vec<char>, a: usize, b: usize)
    requires
        a <= b <= s@.len(),
        bounded(old(out)@, number_bound()),
    ensures
        ints(final(out)@) == ints(old(out)@) + flush_float(s@.subrange(a as int, b as int)),
        bounded(final(out)@, number_bound()),
{
    let ghost before = out@;
    match parse_float(s, a, b) {
        Some(v) => {
            out.push(v);
            proof {
                lemma_ints_push(before, v);
            }
            assert(ints(out@) =~= ints(before) + flush_float(s@.subrange(a as int, b as int)));
        },
        None => {
            assert(ints(out@) =~= ints(before) + flush_float(s@.subrange(a as int, b as int)));
        },
    }
}

fn is_number_char_exec(c: char) -> (r: bool)
    ensures
        r == is_number_char(c),
{
    ('0' <= c && c <= '9') || c == '-' || c == '.'
}

/// The numbers of path data, in millionths.
pub fn path_numbers_exec(d: &Vec<char>) -> (r: Vec<i128>)
    ensures
        ints(r@) == path_numbers(d@),
        bounded(r@, number_bound()),
{
    let mut out: Vec<i128> = Vec::new();
    let mut run: usize = 0;
    let mut i: usize = 0;
    while i < d.len()
        invariant
            run <= i <= d@.len(),
            bounded(out@, number_bound()),
            ints(out@) + numbers_from(d@, i as int, run as int) == path_numbers(d@),
        decreases d@.len() - i,
    {
        if !is_number_char_exec(d[i]) {
            let ghost before = out@;
            push_number(&mut out, d, run, i);
            assert(ints(out@) + numbers_from(d@, i + 1, i + 1) =~= ints(before) + numbers_from(d@, i as int, run as int));
            run = i + 1;
        }
        i += 1;
    }
    let ghost before = out@;
    push_number(&mut out, d, run, d.len());
    assert(ints(out@) =~= ints(before) + numbers_from(d@, i as int, run as int));
    out
}

fn skip_space_fwd_exec(t: &Vec<char>, a: usize, b: usize) -> (r: usize)
    requires
        a <= b <= t@.len(),
    ensures
        r == skip_space_fwd(t@, a as int, b as int),
        a <= r <= b,
{
    let mut i = a;
    while i < b && is_space_exec(t[i])
        invariant
            a <= i <= b <= t@.len(),
            skip_space_fwd(t@, i as int, b as int) == skip_space_fwd(t@, a as int, b as int),
        decreases b - i,
    {
        i += 1;
    }
    i
}

fn skip_space_back_exec(t: &Vec<char>, lo: usize, b: usize) -> (r: usize)
    requires
        lo <= b <= t@.len(),
    ensures
        r == skip_space_back(t@, lo as int, b as int),
        lo <= r <= b,
{
    let mut j = b;
    while lo < j && is_space_exec(t[j - 1])
        invariant
            lo <= j <= b <= t@.len(),
            skip_space_back(t@, lo as int, j as int) == skip_space_back(t@, lo as int, b as int),
        decreases j - lo,
    {
        j -= 1;
    }
    j
}

/// The comma-separated entries of `t` that read as numbers, in millionths.
pub fn comma_values_exec(t: &Vec<char>) -> (r: Vec<i128>)
    ensures
        ints(r@) == comma_values(t@, 0, 0),
        bounded(r@, number_bound()),
{
    let mut out: Vec<i128> = Vec::new();
    let mut start: usize = 0;
    let mut i: usize = 0;
    while i < t.len()
        invariant
            start <= i <= t@.len(),
            bounded(out@, number_bound()),
            ints(out@) + comma_values(t@, i as int, start as int) == comma_values(t@, 0, 0),
        decreases t@.len() - i,
    {
        if t[i] == ',' {
            let ghost before = out@;
            let lo = skip_space_fwd_exec(t, start, i);
            let hi = skip_space_back_exec(t, lo, i);
            push_float(&mut out, t, lo, hi);
            assert(ints(out@) + comma_values(t@, i + 1, i + 1) =~= ints(before) + comma_values(t@, i as int, start as int));
            start = i + 1;
        }
        i += 1;
    }
    let ghost before = out@;
    let lo = skip_space_fwd_exec(t, start, t.len());
    let hi = skip_space_back_exec(t, lo, t.len());
    push_float(&mut out, t, lo, hi);
    assert(ints(out@) =~= ints(before) + comma_values(t@, i as int, start as int));
    out
}

/// The first place at or after `from` where attribute text `pat` begins
/// right after a space.
pub fn find_attr_exec(el: &Vec<char>, pat: &Vec<char>, from: usize) -> (r: Option<usize>)
    requires
        from >= 1,
    ensures
        opt_int(r) == find_attr(el@, pat@, from as int),
{
    if pat.len() > el.len() {
        return None;
    }
    let last = el.len() - pat.len();
    let mut i = from;
    while i <= last
        invariant
            last == el@.len() - pat@.len(),
            1 <= from <= i,
            find_attr(el@, pat@, from as int) == find_attr(el@, pat@, i as int),
        decreases last + 1 - i,
    {
        if is_space_exec(el[i - 1]) && matches_at_exec(el, pat, i) {
            return Some(i);
        }
        if i == last {
            assert(find_attr(el@, pat@, i + 1) is None);
            return None;
        }
        i += 1;
    }
    None
}

fn copy_range(s: &Vec<char>, a: usize, b: usize) -> (r: Vec<char>)
    requires
        a <= b <= s@.len(),
    ensures
        r@ == s@.subrange(a as int, b as int),
{
    let mut out: Vec<char> = Vec::new();
    push_range(&mut out, s, a, b);
    assert(out@ =~= s@.subrange(a as int, b as int));
    out
}

fn matrix_pattern() -> (r: Vec<char>)
    ensures
        r@ == matrix_attr(),
{
    let r = vec!['t', 'r', 'a', 'n', 's', 'f', 'o', 'r', 'm', '=', '"', 'm', 'a', 't', 'r', 'i', 'x', '('];
    assert(r@ =~= matrix_attr());
    r
}

/// The element's `transform="matrix(...)"`, when six entries read as numbers.
pub fn element_matrix_exec(el: &Vec<char>) -> (r: Option<Matrix>)
    ensures
        r == element_matrix(el@),
        r matches Some(m) ==> -number_bound() < m.b < number_bound() && -number_bound() < m.d
            < number_bound() && -number_bound() < m.f < number_bound(),
{
    let pat = matrix_pattern();
    let n = el.len();
    match find_attr_exec(el, &pat, 1) {
        None => None,
        Some(q) => {
            proof {
                lemma_find_attr_bounds(el@, pat@, 1);
            }
            let st = q + pat.len();
            match find_char(el, ')', st) {
                None => None,
                Some(c) => {
                    proof {
                        lemma_find_from_bounds(el@, seq![')'], st as int);
                    }
                    let inner = copy_range(el, st, c);
                    let v = comma_values_exec(&inner);
                    if v.len() >= 6 {
                        assert(ints(v@)[1] == v@[1] as int);
                        Some(Matrix { a: v[0], b: v[1], c: v[2], d: v[3], e: v[4], f: v[5] })
                    } else {
                        None
                    }
                },
            }
        },
    }
}

proof fn lemma_find_attr_bounds(el: Seq<char>, pat: Seq<char>, i: int)
    ensures
        find_attr(el, pat, i) matches Some(k) ==> i <= k && k >= 1 && k + pat.len() <= el.len(),
    decreases el.len() + 1 - i,
{
    if i < 1 || i + pat.len() > el.len() {
    } else if is_space(el[i - 1]) && matches_at(el, pat, i) {
    } else {
        lemma_find_attr_bounds(el, pat, i + 1);
    }
}

/// The text of the element's `d="..."` attribute.
pub fn d_content_exec(el: &Vec<char>) -> (r: Option<Vec<char>>)
    ensures
        match r {
            Some(v) => d_content(el@) == Some(v@),
            None => d_content(el@) is None,
        },
{
    let pat = vec!['d', '=', '"'];
    assert(pat@ =~= d_attr());
    let n = el.len();
    match find_attr_exec(el, &pat, 1) {
        None => None,
        Some(q) => {
            proof {
                lemma_find_attr_bounds(el@, pat@, 1);
            }
            match find_char(el, '"', q + 3) {
                None => None,
                Some(c) => {
                    proof {
                        lemma_find_from_bounds(el@, seq!['"'], q + 3);
                    }
                    Some(copy_range(el, q + 3, c))
                },
            }
        },
    }
}

/// The Y coordinates, in trillionths, of the pairs of `nums`.
pub fn paired_ys_exec(nums: &Vec<i128>, m: Option<Matrix>) -> (r: Vec<i128>)
    requires
        bounded(nums@, number_bound()),
        m matches Some(m) ==> -number_bound() < m.b < number_bound() && -number_bound() < m.d
            < number_bound() && -number_bound() < m.f < number_bound(),
    ensures
        ints(r@) == paired_ys(ints(nums@), m),
        bounded(r@, y_bound()),
{
    let mut out: Vec<i128> = Vec::new();
    let mut k: usize = 0;
    let n = nums.len();
    let half = n / 2;
    while k < half
        invariant
            n == nums@.len(),
            half == nums@.len() / 2,
            k <= half,
            bounded(nums@, number_bound()),
            m matches Some(m) ==> -number_bound() < m.b < number_bound() && -number_bound() < m.d
                < number_bound() && -number_bound() < m.f < number_bound(),
            bounded(out@, y_bound()),
            ints(out@) == paired_ys(ints(nums@), m).subrange(0, k as int),
        decreases half - k,
    {
        let x = nums[2 * k];
        let y = nums[2 * k + 1];
        let v = match m {
            Some(m) => {
                assert(-number_bound() * number_bound() < m.b * x < number_bound() * number_bound()) by (nonlinear_arith)
                    requires -number_bound() < m.b < number_bound(), -number_bound() < x < number_bound();
                assert(-number_bound() * number_bound() < m.d * y < number_bound() * number_bound()) by (nonlinear_arith)
                    requires -number_bound() < m.d < number_bound(), -number_bound() < y < number_bound();
                m.b * x + m.d * y + m.f * MICRO
            },
            None => y * MICRO,
        };
        let ghost before = out@;
        out.push(v);
        proof {
            lemma_ints_push(before, v);
        }
        assert(ints(out@) =~= paired_ys(ints(nums@), m).subrange(0, k + 1));
        k += 1;
    }
    assert(paired_ys(ints(nums@), m).subrange(0, k as int) =~= paired_ys(ints(nums@), m));
    out
}

/// The Y coordinates of one `<path ...>` element's text.
pub fn element_ys_exec(el: &Vec<char>) -> (r: Vec<i128>)
    ensures
        ints(r@) == element_ys(el@),
        bounded(r@, y_bound()),
{
    match d_content_exec(el) {
        None => Vec::new(),
        Some(dc) => {
            let nums = path_numbers_exec(&dc);
            let m = element_matrix_exec(el);
            paired_ys_exec(&nums, m)
        },
    }
}

/// Extracts the Y coordinate of every `(x, y)` pair of every `<path>`
/// element's `d` data, after the element's `transform="matrix(a,b,c,d,e,f)"`
/// when it has one (`y' = b*x + d*y + f`), in trillionths of a unit.
pub fn extract_y_coordinates(svg: &str) -> (r: Vec<i128>)
    ensures
        ints(r@) == y_coordinates(svg@),
        bounded(r@, y_bound()),
{
    let s = crate::text::chars_of(svg);
    let tag = vec!['<', 'p', 'a', 't', 'h'];
    assert(tag@ =~= path_tag());
    let mut out: Vec<i128> = Vec::new();
    let mut i: usize = 0;
    loop
        invariant
            i <= s@.len(),
            s@ == svg@,
            tag@ == path_tag(),
            bounded(out@, y_bound()),
            ints(out@) + ys_from(s@, i as int) == y_coordinates(svg@),
        decreases s@.len() - i,
    {
        match find_pattern(&s, &tag, i) {
            None => {
                assert(ints(out@) =~= y_coordinates(svg@));
                return out;
            },
            Some(p) => {
                proof {
                    lemma_find_from_bounds(s@, path_tag(), i as int);
                }
                let end = match find_char(&s, '>', p) {
                    Some(k) => k,
                    None => s.len(),
                };
                proof {
                    lemma_find_from_bounds(s@, seq!['>'], p as int);
                }
                assert(end == element_end(s@, p as int));
                let el = copy_range(&s, p, end);
                let ys = element_ys_exec(&el);
                let ghost before = out@;
                let mut j: usize = 0;
                while j < ys.len()
                    invariant
                        j <= ys@.len(),
                        bounded(ys@, y_bound()),
                        bounded(out@, y_bound()),
                        out@ == before + ys@.subrange(0, j as int),
                    decreases ys@.len() - j,
                {
                    out.push(ys[j]);
                    assert(out@ =~= before + ys@.subrange(0, j + 1));
                    j += 1;
                }
                assert(ys@.subrange(0, j as int) =~= ys@);
                assert(ints(out@) =~= ints(before) + ints(ys@));
                i = p + 1;
            },
        }
    }
}

} // verus!
