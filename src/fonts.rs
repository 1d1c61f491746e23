//! The catalog of embedded font files and the choice of the math font.
use vstd::prelude::*;
use crate::text::chars_of;

verus! {

/// Font files by name, in the order they were added.
pub struct FontCatalog {
    pub entries: Vec<(String, Vec<u8>)>,
}

pub open spec fn string_views(v: Seq<String>) -> Seq<Seq<char>> {
    v.map_values(|s: String| s@)
}

/// The position of the first entry named `name` at or after `i`.
pub open spec fn index_from(names: Seq<Seq<char>>, name: Seq<char>, i: int) -> Option<int>
    decreases names.len() - i,
{
    if i < 0 || i >= names.len() {
        None
    } else if names[i] == name {
        Some(i)
    } else {
        index_from(names, name, i + 1)
    }
}

/// The math fonts the engine is started with, most preferred first.
pub open spec fn font_candidates() -> Seq<Seq<char>> {
    seq![
        "XITSMath-Regular.clm2"@,
        "FiraMath-Regular.clm2"@,
        "latinmodern-math.clm2"@,
        "texgyredejavu-math.clm2"@,
    ]
}

/// The entry of the first candidate, in order of preference from `k` on,
/// that the catalog holds.
pub open spec fn preferred_from(names: Seq<Seq<char>>, k: int) -> Option<int>
    decreases font_candidates().len() - k,
{
    if k < 0 || k >= font_candidates().len() {
        None
    } else {
        match index_from(names, font_candidates()[k], 0) {
            Some(i) => Some(i),
            None => preferred_from(names, k + 1),
        }
    }
}

pub proof fn lemma_index_bounds(names: Seq<Seq<char>>, name: Seq<char>, i: int)
    ensures
        index_from(names, name, i) matches Some(k) ==> i <= k < names.len() && names[k] == name,
    decreases names.len() - i,
{
    if i >= 0 && i < names.len() && names[i] != name {
        lemma_index_bounds(names, name, i + 1);
    }
}

pub proof fn lemma_preferred_bounds(names: Seq<Seq<char>>, k: int)
    ensures
        preferred_from(names, k) matches Some(i) ==> 0 <= i < names.len(),
    decreases font_candidates().len() - k,
{
    if 0 <= k < font_candidates().len() {
        lemma_index_bounds(names, font_candidates()[k], 0);
        lemma_preferred_bounds(names, k + 1);
    }
}

/// When the catalog holds a font file named after one of the candidate
/// math fonts, a font is selected.
pub proof fn lemma_candidate_font_is_selected(names: Seq<Seq<char>>, i: int, k: int)
    requires
        0 <= i < names.len(),
        0 <= k < font_candidates().len(),
        names[i] == font_candidates()[k],
    ensures
        preferred_from(names, 0) is Some,
{
    lemma_candidate_reached(names, i, k, 0);
}

proof fn lemma_index_found(names: Seq<Seq<char>>, name: Seq<char>, i: int, j: int)
    requires
        0 <= j <= i < names.len(),
        names[i] == name,
    ensures
        index_from(names, name, j) is Some,
    decreases i - j,
{
    if names[j] != name {
        lemma_index_found(names, name, i, j + 1);
    }
}

proof fn lemma_candidate_reached(names: Seq<Seq<char>>, i: int, k: int, j: int)
    requires
        0 <= i < names.len(),
        0 <= j <= k < font_candidates().len(),
        names[i] == font_candidates()[k],
    ensures
        preferred_from(names, j) is Some,
    decreases k - j,
{
    if index_from(names, font_candidates()[j], 0) is None {
        if j == k {
            lemma_index_found(names, font_candidates()[k], i, 0);
        } else {
            lemma_candidate_reached(names, i, k, j + 1);
        }
    }
}

/// When no font file is named after a candidate math font, none is
/// selected.
pub proof fn lemma_no_candidate_no_font(names: Seq<Seq<char>>)
    requires
        forall|i: int, k: int|
            #![trigger names[i], font_candidates()[k]]
            0 <= i < names.len() && 0 <= k < font_candidates().len() ==> names[i]
                != font_candidates()[k],
    ensures
        preferred_from(names, 0) is None,
{
    lemma_none_from(names, 0);
}

proof fn lemma_index_absent(names: Seq<Seq<char>>, name: Seq<char>, j: int)
    requires
        0 <= j,
        forall|i: int| 0 <= i < names.len() ==> names[i] != name,
    ensures
        index_from(names, name, j) is None,
    decreases names.len() - j,
{
    if j < names.len() {
        lemma_index_absent(names, name, j + 1);
    }
}

proof fn lemma_none_from(names: Seq<Seq<char>>, k: int)
    requires
        0 <= k,
        forall|i: int, c: int|
            #![trigger names[i], font_candidates()[c]]
            0 <= i < names.len() && 0 <= c < font_candidates().len() ==> names[i]
                != font_candidates()[c],
    ensures
        preferred_from(names, k) is None,
    decreases font_candidates().len() - k,
{
    if k < font_candidates().len() {
        assert forall|i: int| 0 <= i < names.len() implies names[i] != font_candidates()[k] by {}
        lemma_index_absent(names, font_candidates()[k], 0);
        lemma_none_from(names, k + 1);
    }
}

impl FontCatalog {
    pub open spec fn names(&self) -> Seq<Seq<char>> {
        self.entries@.map_values(|e: (String, Vec<u8>)| e.0@)
    }

    /// The entry that the engine is started with.
    pub open spec fn preferred(&self) -> Option<int> {
        preferred_from(self.names(), 0)
    }

    pub fn new() -> (r: Self)
        ensures
            r.entries@.len() == 0,
    {
        FontCatalog { entries: Vec::new() }
    }

    /// Adds a font file at the end.
    pub fn insert(&mut self, name: &str, data: Vec<u8>)
        ensures
            final(self).names() == old(self).names().push(name@),
            final(self).entries@.len() == old(self).entries@.len() + 1,
            final(self).entries@.last().1@ == data@,
            forall|i: int| 0 <= i < old(self).entries@.len() ==> #[trigger] final(self).entries@[i] == old(self).entries@[i],
    {
        let n = crate::text::string_of(&chars_of(name));
        self.entries.push((n, data));
        assert(self.names() =~= old(self).names().push(name@));
    }

    /// The names of all font files, in order.
    pub fn available_fonts(&self) -> (r: Vec<String>)
        ensures
            string_views(r@) == self.names(),
    {
        let mut out: Vec<String> = Vec::new();
        let mut i: usize = 0;
        while i < self.entries.len()
            invariant
                i <= self.entries@.len(),
                out@.len() == i,
                string_views(out@) == self.names().subrange(0, i as int),
            decreases self.entries@.len() - i,
        {
            let n = crate::text::string_of(&chars_of(self.entries[i].0.as_str()));
            let ghost before = out@;
            out.push(n);
            assert(out@ == before.push(n));
            assert(self.names()[i as int] == self.entries@[i as int].0@);
            assert(string_views(out@)[i as int] == n@);
            assert(string_views(out@) =~= self.names().subrange(0, i + 1));
            i += 1;
        }
        assert(self.names().subrange(0, i as int) =~= self.names());
        out
    }

    /// The position of the first font file named `name`.
    pub fn position(&self, name: &str) -> (r: Option<usize>)
        ensures
            crate::text::opt_int(r) == index_from(self.names(), name@, 0),
    {
        let target = chars_of(name);
        let mut i: usize = 0;
        while i < self.entries.len()
            invariant
                i <= self.entries@.len(),
                target@ == name@,
                index_from(self.names(), name@, 0) == index_from(self.names(), name@, i as int),
            decreases self.entries@.len() - i,
        {
            let n = chars_of(self.entries[i].0.as_str());
            assert(self.names()[i as int] == n@);
            if crate::text::same_chars(&n, &target) {
                return Some(i);
            }
            i += 1;
        }
        None
    }

    /// The data of the first font file named `name`.
    pub fn get_font(&self, name: &str) -> (r: Option<&Vec<u8>>)
        ensures
            match index_from(self.names(), name@, 0) {
                Some(i) => r matches Some(d) && d@ == self.entries@[i].1@,
                None => r is None,
            },
    {
        proof {
            lemma_index_bounds(self.names(), name@, 0);
        }
        match self.position(name) {
            Some(i) => Some(&self.entries[i].1),
            None => None,
        }
    }

    /// The entry of the most preferred math font that the catalog holds.
    pub fn select_font(&self) -> (r: Option<usize>)
        ensures
            crate::text::opt_int(r) == self.preferred(),
    {
        let candidates = [
            "XITSMath-Regular.clm2",
            "FiraMath-Regular.clm2",
            "latinmodern-math.clm2",
            "texgyredejavu-math.clm2",
        ];
        let mut k: usize = 0;
        while k < 4
            invariant
                k <= 4,
                forall|j: int| 0 <= j < 4 ==> #[trigger] candidates@[j]@ == font_candidates()[j],
                self.preferred() == preferred_from(self.names(), k as int),
            decreases 4 - k,
        {
            let found = self.position(candidates[k]);
            if found.is_some() {
                return found;
            }
            k += 1;
        }
        None
    }
}

} // verus!
