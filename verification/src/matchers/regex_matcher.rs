use vstd::prelude::*;
use vstd::string::*;
use crate::utils::text::{byte_len, is_boundary, text_between, byte_slice};

verus! {

/// A compiled regular expression of the `regex` crate.
#[verifier::external_type_specification]
#[verifier::external_body]
pub struct ExRegex(regex::Regex);

/// Whether `Regex::new` accepts `pattern`: its syntax is valid and the
/// compiled program fits the crate's default size limit.
pub uninterp spec fn regex_compiles(pattern: Seq<char>) -> bool;

/// The pattern a compiled regex was built from, as `Regex::as_str` returns it.
pub uninterp spec fn regex_source(re: regex::Regex) -> Seq<char>;

/// Whether a compiled regex came from `Regex::new`, with every setting at
/// its default.
pub uninterp spec fn regex_built_by_default(re: regex::Regex) -> bool;

/// The byte spans `(start, end)` of the successive non-overlapping
/// leftmost-first matches that `Regex::find_iter` reports for `pattern` on
/// `text`.
pub uninterp spec fn regex_match_spans(pattern: Seq<char>, text: Seq<char>) -> Seq<(int, int)>;

/// The message of the error `Regex::new` reports for `pattern`, as its
/// `Display` writes it.
pub uninterp spec fn regex_error_message(pattern: Seq<char>) -> Seq<char>;

/// `Regex::new`. Claims: it succeeds exactly when `regex_compiles(pattern)`;
/// a compiled regex's source (what `Regex::as_str` returns) is `pattern`, as
/// the crate documents, and it was built with default settings; a failure
/// carries `regex_error_message(pattern)`.
#[verifier::external_body]
pub(crate) fn regex_new(pattern: &str) -> (res: Result<regex::Regex, String>)
    ensures
        res is Ok <==> regex_compiles(pattern@),
        res matches Ok(re) ==> regex_source(re) == pattern@ && regex_built_by_default(re),
        res matches Err(m) ==> m@ == regex_error_message(pattern@),
{
    regex::Regex::new(pattern).map_err(|e| e.to_string())
}

/// Byte spans as integers.
pub open spec fn spans_view(spans: Seq<(usize, usize)>) -> Seq<(int, int)> {
    spans.map_values(|p: (usize, usize)| (p.0 as int, p.1 as int))
}

/// Every span lies inside `text`, starts no later than it ends, and both
/// ends fall on character boundaries.
pub open spec fn spans_in_text(text: Seq<char>, spans: Seq<(int, int)>) -> bool {
    forall|i: int|
        0 <= i < spans.len() ==> {
            let (s, e) = #[trigger] spans[i];
            &&& 0 <= s <= e <= byte_len(text)
            &&& is_boundary(text, s)
            &&& is_boundary(text, e)
        }
}

/// `Regex::find_iter`, each match taken as its start and end byte offsets.
/// Claims, for a regex built with default settings: the spans are
/// `regex_match_spans(source, text)`; and, as the
/// crate documents for every `Match`, start ≤ end, both are valid UTF-8
/// boundaries of `text`, and the span lies inside `text`.
#[verifier::external_body]
pub(crate) fn regex_find_spans(re: &regex::Regex, text: &str) -> (spans: Vec<(usize, usize)>)
    requires
        regex_built_by_default(*re),
    ensures
        spans_view(spans@) == regex_match_spans(regex_source(*re), text@),
        spans_in_text(text@, spans_view(spans@)),
{
    re.find_iter(text).map(|m| (m.start(), m.end())).collect()
}

/// One match of one pattern.
#[derive(Debug, Clone)]
pub struct RegexMatch {
    pub pattern: String,
    pub matched_text: String,
    pub start: usize,
    pub end: usize,
}

/// The mathematical value of a `RegexMatch`.
#[verifier::ext_equal]
pub struct RegexMatchView {
    pub pattern: Seq<char>,
    pub matched_text: Seq<char>,
    pub start: int,
    pub end: int,
}

impl View for RegexMatch {
    type V = RegexMatchView;

    open spec fn view(&self) -> RegexMatchView {
        RegexMatchView {
            pattern: self.pattern@,
            matched_text: self.matched_text@,
            start: self.start as int,
            end: self.end as int,
        }
    }
}

/// The views of a list of matches.
pub open spec fn regex_matches_view(v: Seq<RegexMatch>) -> Seq<RegexMatchView> {
    v.map_values(|m: RegexMatch| m@)
}

/// The matches of one pattern on `text`, given its spans, in order.
pub open spec fn pattern_matches(pattern: Seq<char>, text: Seq<char>, spans: Seq<(int, int)>) -> Seq<RegexMatchView> {
    spans.map_values(|sp: (int, int)| RegexMatchView {
        pattern: pattern,
        matched_text: text_between(text, sp.0, sp.1),
        start: sp.0,
        end: sp.1,
    })
}

/// The matches of every pattern on `text`: all matches of the first
/// pattern, then all of the second, and so on.
pub open spec fn all_pattern_matches(patterns: Seq<Seq<char>>, text: Seq<char>) -> Seq<RegexMatchView>
    decreases patterns.len(),
{
    if patterns.len() == 0 {
        Seq::empty()
    } else {
        all_pattern_matches(patterns.drop_last(), text) + pattern_matches(
            patterns.last(),
            text,
            regex_match_spans(patterns.last(), text),
        )
    }
}

/// A pattern that could not be compiled, with the compiler's message.
#[derive(Debug, Clone)]
pub struct InvalidPattern {
    pub pattern: String,
    pub message: String,
}

/// A set of compiled regular expressions, searched one after another.
pub struct RegexMatcher {
    regexes: Vec<(String, regex::Regex)>,
}

impl RegexMatcher {
    /// Each regex was compiled from the pattern kept beside it.
    #[verifier::type_invariant]
    spec fn sources_match(self) -> bool {
        forall|i: int|
            0 <= i < self.regexes@.len() ==> regex_source(#[trigger] self.regexes@[i].1) == self.regexes@[i].0@
                && regex_built_by_default(self.regexes@[i].1)
    }

    /// The patterns, in order.
    pub closed spec fn patterns(self) -> Seq<Seq<char>> {
        self.regexes@.map_values(|p: (String, regex::Regex)| p.0@)
    }

    /// Compiles every pattern; fails on the first one that does not compile.
    pub fn new(patterns: &[String]) -> (res: Result<Self, InvalidPattern>)
        ensures
            res is Ok <==> forall|i: int| 0 <= i < patterns@.len() ==> regex_compiles(#[trigger] patterns@[i]@),
            res matches Ok(m) ==> m.patterns() == patterns@.map_values(|p: String| p@),
            res matches Err(e) ==> exists|i: int| 0 <= i < patterns@.len() && e.pattern@ == patterns@[i]@
                && !regex_compiles(patterns@[i]@)
                && forall|j: int| 0 <= j < i ==> regex_compiles(#[trigger] patterns@[j]@),
        res matches Err(e) ==> e.message@ == regex_error_message(e.pattern@),
    {
        let mut regexes: Vec<(String, regex::Regex)> = Vec::new();
        let mut i: usize = 0;
        while i < patterns.len()
            invariant
                i <= patterns.len(),
                regexes.len() == i,
                forall|j: int| 0 <= j < i ==> regex_compiles(#[trigger] patterns@[j]@),
                forall|j: int| 0 <= j < i ==> #[trigger] regexes@[j].0@ == patterns@[j]@,
                forall|j: int| 0 <= j < i ==> regex_source(#[trigger] regexes@[j].1) == regexes@[j].0@
                    && regex_built_by_default(regexes@[j].1),
            decreases patterns.len() - i,
        {
            match regex_new(patterns[i].as_str()) {
                Ok(re) => {
                    regexes.push((patterns[i].clone(), re));
                },
                Err(message) => {
                    return Err(InvalidPattern { pattern: patterns[i].clone(), message });
                },
            }
            i = i + 1;
        }
        let m = RegexMatcher { regexes };
        assert(m.patterns() =~= patterns@.map_values(|p: String| p@));
        Ok(m)
    }

    /// Every match of every pattern in `text`, pattern by pattern.
    pub fn find_matches(&self, text: &str) -> (res: Vec<RegexMatch>)
        ensures
            regex_matches_view(res@) == all_pattern_matches(self.patterns(), text@),
    {
        proof {
            use_type_invariant(self);
        }
        let mut res: Vec<RegexMatch> = Vec::new();
        let mut i: usize = 0;
        while i < self.regexes.len()
            invariant
                i <= self.regexes.len(),
                forall|j: int|
                    0 <= j < self.regexes@.len() ==> regex_source(#[trigger] self.regexes@[j].1) == self.regexes@[j].0@
                        && regex_built_by_default(self.regexes@[j].1),
                regex_matches_view(res@) == all_pattern_matches(self.patterns().subrange(0, i as int), text@),
            decreases self.regexes.len() - i,
        {
            let pattern = &self.regexes[i].0;
            let spans = regex_find_spans(&self.regexes[i].1, text);
            let ghost before = regex_matches_view(res@);
            let ghost sv = spans_view(spans@);
            let mut k: usize = 0;
            while k < spans.len()
                invariant
                    k <= spans.len(),
                    sv == spans_view(spans@),
                    spans_in_text(text@, sv),
                    regex_matches_view(res@) == before + pattern_matches(pattern@, text@, sv.subrange(0, k as int)),
                decreases spans.len() - k,
            {
                let (s, e) = spans[k];
                assert(sv[k as int] == (s as int, e as int));
                let matched = byte_slice(text, s, e);
                let ghost prev = res@;
                res.push(RegexMatch {
                    pattern: pattern.clone(),
                    matched_text: String::from_str(matched),
                    start: s,
                    end: e,
                });
                assert(regex_matches_view(res@) =~= regex_matches_view(prev).push(res@.last()@));
                assert(pattern_matches(pattern@, text@, sv.subrange(0, k as int + 1)) =~= pattern_matches(
                    pattern@,
                    text@,
                    sv.subrange(0, k as int),
                ).push(res@.last()@));
                k = k + 1;
            }
            proof {
                let ps = self.patterns().subrange(0, i as int + 1);
                assert(ps.drop_last() =~= self.patterns().subrange(0, i as int));
                assert(ps.last() == pattern@);
                assert(sv.subrange(0, sv.len() as int) =~= sv);
            }
            i = i + 1;
        }
        assert(self.patterns().subrange(0, self.patterns().len() as int) =~= self.patterns());
        res
    }
}

} // verus!
