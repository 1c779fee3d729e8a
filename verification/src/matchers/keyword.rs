use vstd::prelude::*;
use crate::utils::text::{lowercase, to_lowercase, strings_view};

verus! {

/// An Aho-Corasick automaton of the `aho-corasick` crate.
#[verifier::external_type_specification]
#[verifier::external_body]
pub struct ExAhoCorasick(aho_corasick::AhoCorasick);

/// The patterns an automaton holds, in pattern-ID order, as they were handed
/// to the builder.
pub uninterp spec fn ac_patterns(ac: aho_corasick::AhoCorasick) -> Seq<Seq<char>>;

/// Whether an automaton was built with ASCII case insensitivity on and every
/// other builder setting (match semantics, start kind, automaton kind) at its
/// default.
pub uninterp spec fn ac_built_case_insensitive(ac: aho_corasick::AhoCorasick) -> bool;

/// Whether `AhoCorasickBuilder::build`, with ASCII case insensitivity on and
/// every other setting at its default, succeeds on `patterns`: it fails only
/// when the automaton would exceed the crate's internal size limits.
pub uninterp spec fn ac_builds_ci(patterns: Seq<Seq<char>>) -> bool;

/// What `AhoCorasick::find_iter` reports on `text` for an automaton built
/// from `patterns` with ASCII case insensitivity and the default (standard)
/// match semantics: the successive non-overlapping matches, each as its
/// pattern index, start byte offset and end byte offset.
pub uninterp spec fn ac_search_ci(patterns: Seq<Seq<char>>, text: Seq<char>) -> Seq<(int, int, int)>;

/// `AhoCorasick::builder().ascii_case_insensitive(true).build(patterns)`.
/// Claims: it succeeds exactly when `ac_builds_ci` holds of the patterns, and
/// the automaton then holds those patterns, in order, and was built with
/// ASCII case insensitivity and default settings. The build error is
/// dropped.
#[verifier::external_body]
fn ac_build_ci(patterns: &Vec<String>) -> (res: Option<aho_corasick::AhoCorasick>)
    ensures
        res is Some <==> ac_builds_ci(strings_view(patterns@)),
        res matches Some(ac) ==> ac_patterns(ac) == strings_view(patterns@) && ac_built_case_insensitive(ac),
{
    aho_corasick::AhoCorasick::builder().ascii_case_insensitive(true).build(patterns).ok()
}

/// Match triples as integers.
pub open spec fn triples_view(v: Seq<(usize, usize, usize)>) -> Seq<(int, int, int)> {
    v.map_values(|m: (usize, usize, usize)| (m.0 as int, m.1 as int, m.2 as int))
}

/// `AhoCorasick::find_iter` on `text`, each match taken as its pattern index,
/// start and end. Claims, for an automaton built with ASCII case
/// insensitivity and default settings: the matches are `ac_search_ci` of its
/// patterns on `text`.
#[verifier::external_body]
fn ac_find_ci(ac: &aho_corasick::AhoCorasick, text: &str) -> (res: Vec<(usize, usize, usize)>)
    requires
        ac_built_case_insensitive(*ac),
    ensures
        triples_view(res@) == ac_search_ci(ac_patterns(*ac), text@),
{
    ac.find_iter(text).map(|m| (m.pattern().as_usize(), m.start(), m.end())).collect()
}

/// One occurrence of a keyword.
#[derive(Debug, Clone)]
pub struct KeywordMatch {
    pub keyword: String,
    pub start: usize,
    pub end: usize,
}

/// The mathematical value of a `KeywordMatch`.
#[verifier::ext_equal]
pub struct KeywordMatchView {
    pub keyword: Seq<char>,
    pub start: int,
    pub end: int,
}

impl View for KeywordMatch {
    type V = KeywordMatchView;

    open spec fn view(&self) -> KeywordMatchView {
        KeywordMatchView { keyword: self.keyword@, start: self.start as int, end: self.end as int }
    }
}

/// The views of a list of keyword matches.
pub open spec fn keyword_matches_view(v: Seq<KeywordMatch>) -> Seq<KeywordMatchView> {
    v.map_values(|m: KeywordMatch| m@)
}

/// Each keyword in lowercase.
pub open spec fn lowered(keywords: Seq<Seq<char>>) -> Seq<Seq<char>> {
    keywords.map_values(|k: Seq<char>| lowercase(k))
}

/// The matches reported by the automaton, turned into keyword matches: each
/// names the keyword (as given, not lowercased) of its pattern index; a
/// match whose index names no keyword is dropped.
pub open spec fn keyword_hits(keywords: Seq<Seq<char>>, found: Seq<(int, int, int)>) -> Seq<KeywordMatchView>
    decreases found.len(),
{
    if found.len() == 0 {
        Seq::empty()
    } else {
        let rest = keyword_hits(keywords, found.drop_last());
        let (p, s, e) = found.last();
        if 0 <= p < keywords.len() {
            rest.push(KeywordMatchView { keyword: keywords[p], start: s, end: e })
        } else {
            rest
        }
    }
}

/// The keyword matches of `keywords` in `text`: an ASCII-case-insensitive
/// search for the lowercased keywords.
pub open spec fn keyword_search(keywords: Seq<Seq<char>>, text: Seq<char>) -> Seq<KeywordMatchView> {
    keyword_hits(keywords, ac_search_ci(lowered(keywords), text))
}

/// A multi-keyword matcher: finds every keyword at once, ignoring the case
/// of ASCII letters.
pub struct KeywordMatcher {
    ac: aho_corasick::AhoCorasick,
    keywords: Vec<String>,
}

impl KeywordMatcher {
    /// The automaton holds the lowercased keywords, in order, and ignores
    /// ASCII case.
    #[verifier::type_invariant]
    spec fn automaton_matches_keywords(self) -> bool {
        &&& ac_patterns(self.ac) == lowered(strings_view(self.keywords@))
        &&& ac_built_case_insensitive(self.ac)
    }

    /// The keywords, in order, as given.
    pub closed spec fn keywords(self) -> Seq<Seq<char>> {
        strings_view(self.keywords@)
    }

    /// Builds the matcher; `None` when the automaton for the lowercased
    /// keywords cannot be built.
    pub fn new(keywords: &[String]) -> (r: Option<Self>)
        ensures
            r is Some <==> ac_builds_ci(lowered(strings_view(keywords@))),
            r matches Some(m) ==> m.keywords() == strings_view(keywords@),
    {
        let mut patterns: Vec<String> = Vec::new();
        let mut kept: Vec<String> = Vec::new();
        let mut i: usize = 0;
        while i < keywords.len()
            invariant
                i <= keywords.len(),
                patterns.len() == i,
                kept.len() == i,
                forall|j: int| 0 <= j < i ==> #[trigger] patterns@[j]@ == lowercase(keywords@[j]@),
                forall|j: int| 0 <= j < i ==> #[trigger] kept@[j]@ == keywords@[j]@,
            decreases keywords.len() - i,
        {
            patterns.push(to_lowercase(keywords[i].as_str()));
            kept.push(keywords[i].clone());
            i = i + 1;
        }
        assert(strings_view(patterns@) =~= lowered(strings_view(keywords@)));
        assert(strings_view(kept@) =~= strings_view(keywords@));
        match ac_build_ci(&patterns) {
            Some(ac) => Some(KeywordMatcher { ac, keywords: kept }),
            None => None,
        }
    }

    /// Every keyword occurrence in `text`, in the order the automaton
    /// reports them.
    pub fn find_matches(&self, text: &str) -> (res: Vec<KeywordMatch>)
        ensures
            keyword_matches_view(res@) == keyword_search(self.keywords(), text@),
    {
        proof {
            use_type_invariant(self);
        }
        let found = ac_find_ci(&self.ac, text);
        let ghost fv = triples_view(found@);
        let mut res: Vec<KeywordMatch> = Vec::new();
        let mut i: usize = 0;
        while i < found.len()
            invariant
                i <= found.len(),
                fv == triples_view(found@),
                keyword_matches_view(res@) == keyword_hits(self.keywords(), fv.subrange(0, i as int)),
            decreases found.len() - i,
        {
            let (p, s, e) = found[i];
            assert(fv.subrange(0, i as int + 1).drop_last() =~= fv.subrange(0, i as int));
            if p < self.keywords.len() {
                let ghost prev = res@;
                res.push(KeywordMatch { keyword: self.keywords[p].clone(), start: s, end: e });
                assert(keyword_matches_view(res@) =~= keyword_matches_view(prev).push(res@.last()@));
            }
            i = i + 1;
        }
        assert(fv.subrange(0, fv.len() as int) =~= fv);
        res
    }
}

} // verus!
