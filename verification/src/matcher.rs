//! The two matching strategies: contiguous substring and fuzzy subsequence.
//!
//! A matcher maps `(text, pattern)` to the set of matched character
//! offsets, or nothing when the pattern does not match.  The substring
//! strategy is implemented and verified here; the fuzzy strategy calls
//! into the skim algorithm of the `fuzzy_matcher` crate.

use vstd::prelude::*;
use vstd::string::*;

use fuzzy_matcher::FuzzyMatcher;

verus! {

/// `pat` occurs contiguously in `text` at character offset `i`.
pub open spec fn occurs_at(text: Seq<char>, pat: Seq<char>, i: int) -> bool {
    0 <= i && i + pat.len() <= text.len() && text.subrange(i, i + pat.len()) == pat
}

/// The earliest offset at or after `from` where `pat` occurs in `text`.
pub open spec fn find_from(text: Seq<char>, pat: Seq<char>, from: int) -> Option<int>
    decreases text.len() - from + 1,
{
    if from < 0 || from + pat.len() > text.len() {
        None
    } else if occurs_at(text, pat, from) {
        Some(from)
    } else {
        find_from(text, pat, from + 1)
    }
}

/// What the substring matcher reports: the offsets of the first
/// occurrence of `pat`, or nothing when `pat` never occurs.
pub open spec fn substring_positions(text: Seq<char>, pat: Seq<char>) -> Option<Seq<usize>> {
    match find_from(text, pat, 0) {
        Some(i) => Some(Seq::new(pat.len(), |k: int| (i + k) as usize)),
        None => None,
    }
}

/// `pat` is an in-order, not necessarily contiguous, subsequence of `text`.
pub open spec fn is_subsequence_of(pat: Seq<char>, text: Seq<char>) -> bool
    decreases text.len(),
{
    if pat.len() == 0 {
        true
    } else if text.len() == 0 {
        false
    } else if pat[0] == text[0] {
        is_subsequence_of(pat.skip(1), text.skip(1))
    } else {
        is_subsequence_of(pat, text.skip(1))
    }
}

/// What `SkimMatcherV2::fuzzy_indices` returns, under its default
/// configuration, for a given text and pattern.  The algorithm is
/// deterministic, so the result is a function of the two character
/// sequences alone.
pub uninterp spec fn fuzzy_positions(text: Seq<char>, pattern: Seq<char>) -> Option<Seq<usize>>;

/// Relies on `fuzzy_matcher::skim::SkimMatcherV2::fuzzy_indices` with the
/// default configuration: it succeeds at least whenever the pattern is an
/// exact in-order subsequence of the text, an empty pattern matches with
/// no positions, and reported positions are strictly increasing character
/// offsets into the text.
#[verifier::external_body]
fn skim_fuzzy_indices(text: &str, pattern: &str) -> (r: Option<Vec<usize>>)
    ensures
        r is Some <==> fuzzy_positions(text@, pattern@) is Some,
        r matches Some(v) ==> fuzzy_positions(text@, pattern@) == Some(v@),
        is_subsequence_of(pattern@, text@) ==> r is Some,
        r matches Some(v) ==> forall|a: int, b: int|
            0 <= a < b < v@.len() ==> v@[a] < v@[b],
        r matches Some(v) ==> forall|a: int| 0 <= a < v@.len() ==> (v@[a] as int) < text@.len(),
        pattern@.len() == 0 ==> (r matches Some(v) ==> v@ == Seq::<usize>::empty()),
{
    let m = fuzzy_matcher::skim::SkimMatcherV2::default();
    m.fuzzy_indices(text, pattern).map(|(_score, v)| v)
}

/// The matching strategy fixed for one interactive session.
#[derive(Debug, Clone, Copy, PartialEq, Eq, Structural)]
pub enum Matcher {
    Substring,
    Fuzzy,
}

impl Default for Matcher {
    fn default() -> (r: Self)
        ensures
            r == Matcher::Substring,
    {
        Matcher::Substring
    }
}

impl Matcher {
    pub fn substring() -> (r: Self)
        ensures
            r == Matcher::Substring,
    {
        Matcher::Substring
    }

    pub fn fuzzy() -> (r: Self)
        ensures
            r == Matcher::Fuzzy,
    {
        Matcher::Fuzzy
    }

    /// What this matcher reports for `text` against `pattern`.
    pub open spec fn spec_match(self, text: Seq<char>, pattern: Seq<char>) -> Option<Seq<usize>> {
        match self {
            Matcher::Substring => substring_positions(text, pattern),
            Matcher::Fuzzy => fuzzy_positions(text, pattern),
        }
    }

    pub fn match_indices(&self, text: &str, pattern: &str) -> (r: Option<Vec<usize>>)
        ensures
            r is Some <==> self.spec_match(text@, pattern@) is Some,
            r matches Some(v) ==> self.spec_match(text@, pattern@) == Some(v@),
            *self == Matcher::Fuzzy && is_subsequence_of(pattern@, text@) ==> r is Some,
    {
        match self {
            Matcher::Substring => substring_match(text, pattern),
            Matcher::Fuzzy => skim_fuzzy_indices(text, pattern),
        }
    }
}

fn substring_match(text: &str, pattern: &str) -> (r: Option<Vec<usize>>)
    ensures
        r is Some <==> substring_positions(text@, pattern@) is Some,
        r matches Some(v) ==> substring_positions(text@, pattern@) == Some(v@),
{
    let n = text.unicode_len();
    let m = pattern.unicode_len();
    if m > n {
        return None;
    }
    let mut i: usize = 0;
    loop
        invariant
            m <= n,
            n == text@.len(),
            m == pattern@.len(),
            i + m <= n + 1,
            find_from(text@, pattern@, 0) == find_from(text@, pattern@, i as int),
        decreases n - i,
    {
        if i > n - m {
            return None;
        }
        let mut j: usize = 0;
        let mut matched = true;
        while j < m
            invariant
                m <= n,
                n == text@.len(),
                m == pattern@.len(),
                i + m <= n,
                j <= m,
                matched <==> (forall|k: int| 0 <= k < j ==> text@[i + k] == pattern@[k]),
            decreases m - j,
        {
            let tc = text.get_char(i + j);
            let pc = pattern.get_char(j);
            if tc != pc {
                matched = false;
                j = m;
            } else {
                j = j + 1;
            }
        }
        if matched {
            proof {
                assert(text@.subrange(i as int, i + m) =~= pattern@);
                assert(occurs_at(text@, pattern@, i as int));
            }
            let mut v: Vec<usize> = Vec::new();
            let mut k: usize = 0;
            while k < m
                invariant
                    i + m <= n <= usize::MAX,
                    k <= m,
                    v@.len() == k,
                    forall|x: int| 0 <= x < k ==> v@[x] == i + x,
                decreases m - k,
            {
                v.push(i + k);
                k = k + 1;
            }
            proof {
                assert(v@ =~= Seq::new(pattern@.len(), |q: int| (i + q) as usize));
            }
            return Some(v);
        }
        proof {
            let ghost ii = i as int;
            assert(!occurs_at(text@, pattern@, ii)) by {
                if occurs_at(text@, pattern@, ii) {
                    let bad = choose|k: int|
                        0 <= k < m && text@[ii + k] != pattern@[k];
                    assert(text@.subrange(ii, ii + m as int)[bad] == text@[ii + bad]);
                }
            }
            assert(find_from(text@, pattern@, ii) == find_from(text@, pattern@, ii + 1));
        }
        i = i + 1;
    }
}

proof fn lemma_find_from_finds(text: Seq<char>, pat: Seq<char>, from: int, i: int)
    requires
        0 <= from <= i,
        occurs_at(text, pat, i),
    ensures
        find_from(text, pat, from) is Some,
    decreases i - from,
{
    if from < i && !occurs_at(text, pat, from) {
        lemma_find_from_finds(text, pat, from + 1, i);
    }
}

proof fn lemma_find_from_props(text: Seq<char>, pat: Seq<char>, from: int)
    requires
        from >= 0,
    ensures
        find_from(text, pat, from) matches Some(f) ==> from <= f && occurs_at(text, pat, f)
            && (forall|j: int| from <= j < f ==> !occurs_at(text, pat, j)),
        find_from(text, pat, from) is None ==> forall|j: int|
            j >= from ==> !occurs_at(text, pat, j),
    decreases text.len() - from + 1,
{
    if from + pat.len() > text.len() {
        assert forall|j: int| j >= from implies !occurs_at(text, pat, j) by {}
    } else if occurs_at(text, pat, from) {
    } else {
        lemma_find_from_props(text, pat, from + 1);
    }
}

/// The substring matcher succeeds exactly when the pattern occurs
/// contiguously somewhere in the text, and the reported offsets are the
/// consecutive range starting at the first occurrence.
pub proof fn lemma_substring_first_occurrence(text: Seq<char>, pat: Seq<char>)
    ensures
        substring_positions(text, pat) is Some <==> exists|i: int| occurs_at(text, pat, i),
        forall|f: int|
            find_from(text, pat, 0) == Some(f) ==> occurs_at(text, pat, f) && (forall|j: int|
                0 <= j < f ==> !occurs_at(text, pat, j)),
{
    lemma_find_from_props(text, pat, 0);
    if exists|i: int| occurs_at(text, pat, i) {
        let i = choose|i: int| occurs_at(text, pat, i);
        lemma_find_from_finds(text, pat, 0, i);
    }
}

} // verus!
