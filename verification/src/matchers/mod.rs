pub mod keyword;
pub mod regex_matcher;

use vstd::prelude::*;
use keyword::{KeywordMatcher, KeywordMatch, KeywordMatchView, keyword_search, keyword_matches_view};
use regex_matcher::{RegexMatcher, RegexMatch, RegexMatchView, all_pattern_matches, regex_matches_view};

verus! {

/// One match of any matcher: what was searched for, the text that matched,
/// and its byte span.
#[derive(Debug, Clone)]
pub struct MatchResult {
    pub pattern: String,
    pub matched_text: String,
    pub start: usize,
    pub end: usize,
}

/// The mathematical value of a `MatchResult`.
#[verifier::ext_equal]
pub struct MatchResultView {
    pub pattern: Seq<char>,
    pub matched_text: Seq<char>,
    pub start: int,
    pub end: int,
}

impl View for MatchResult {
    type V = MatchResultView;

    open spec fn view(&self) -> MatchResultView {
        MatchResultView {
            pattern: self.pattern@,
            matched_text: self.matched_text@,
            start: self.start as int,
            end: self.end as int,
        }
    }
}

/// The views of a list of match results.
pub open spec fn match_results_view(v: Seq<MatchResult>) -> Seq<MatchResultView> {
    v.map_values(|m: MatchResult| m@)
}

/// A keyword match as a match result: the keyword stands for both the
/// pattern and the matched text.
pub open spec fn from_keyword_match(m: KeywordMatchView) -> MatchResultView {
    MatchResultView { pattern: m.keyword, matched_text: m.keyword, start: m.start, end: m.end }
}

/// A regex match as a match result.
pub open spec fn from_regex_match(m: RegexMatchView) -> MatchResultView {
    MatchResultView { pattern: m.pattern, matched_text: m.matched_text, start: m.start, end: m.end }
}

/// A searcher that reports its matches in a common form.
pub trait Matcher {
    /// The matches the searcher reports on `text`.
    spec fn matches_in(&self, text: Seq<char>) -> Seq<MatchResultView>;

    /// Every match in `text`.
    fn find_matches(&self, text: &str) -> (res: Vec<MatchResult>)
        ensures
            match_results_view(res@) == self.matches_in(text@),
    ;
}

impl Matcher for KeywordMatcher {
    open spec fn matches_in(&self, text: Seq<char>) -> Seq<MatchResultView> {
        keyword_search(self.keywords(), text).map_values(|m: KeywordMatchView| from_keyword_match(m))
    }

    fn find_matches(&self, text: &str) -> (res: Vec<MatchResult>) {
        let found: Vec<KeywordMatch> = KeywordMatcher::find_matches(self, text);
        let ghost fv = keyword_matches_view(found@);
        let mut res: Vec<MatchResult> = Vec::new();
        let mut i: usize = 0;
        while i < found.len()
            invariant
                i <= found.len(),
                fv == keyword_matches_view(found@),
                match_results_view(res@) == fv.subrange(0, i as int).map_values(|m: KeywordMatchView| from_keyword_match(m)),
            decreases found.len() - i,
        {
            let m = &found[i];
            let ghost prev = res@;
            res.push(MatchResult {
                pattern: m.keyword.clone(),
                matched_text: m.keyword.clone(),
                start: m.start,
                end: m.end,
            });
            assert(fv[i as int] == found@[i as int]@);
            assert(match_results_view(res@) =~= match_results_view(prev).push(from_keyword_match(fv[i as int])));
            assert(fv.subrange(0, i as int + 1).map_values(|m: KeywordMatchView| from_keyword_match(m)) =~= fv.subrange(
                0,
                i as int,
            ).map_values(|m: KeywordMatchView| from_keyword_match(m)).push(from_keyword_match(fv[i as int])));
            i = i + 1;
        }
        assert(fv.subrange(0, fv.len() as int) =~= fv);
        res
    }
}

impl Matcher for RegexMatcher {
    open spec fn matches_in(&self, text: Seq<char>) -> Seq<MatchResultView> {
        all_pattern_matches(self.patterns(), text).map_values(|m: RegexMatchView| from_regex_match(m))
    }

    fn find_matches(&self, text: &str) -> (res: Vec<MatchResult>) {
        let found: Vec<RegexMatch> = RegexMatcher::find_matches(self, text);
        let ghost fv = regex_matches_view(found@);
        let mut res: Vec<MatchResult> = Vec::new();
        let mut i: usize = 0;
        while i < found.len()
            invariant
                i <= found.len(),
                fv == regex_matches_view(found@),
                match_results_view(res@) == fv.subrange(0, i as int).map_values(|m: RegexMatchView| from_regex_match(m)),
            decreases found.len() - i,
        {
            let m = &found[i];
            let ghost prev = res@;
            res.push(MatchResult {
                pattern: m.pattern.clone(),
                matched_text: m.matched_text.clone(),
                start: m.start,
                end: m.end,
            });
            assert(fv[i as int] == found@[i as int]@);
            assert(match_results_view(res@) =~= match_results_view(prev).push(from_regex_match(fv[i as int])));
            assert(fv.subrange(0, i as int + 1).map_values(|m: RegexMatchView| from_regex_match(m)) =~= fv.subrange(
                0,
                i as int,
            ).map_values(|m: RegexMatchView| from_regex_match(m)).push(from_regex_match(fv[i as int])));
            i = i + 1;
        }
        assert(fv.subrange(0, fv.len() as int) =~= fv);
        res
    }
}

} // verus!
