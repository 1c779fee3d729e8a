use vstd::prelude::*;
use vstd::string::*;
use crate::utils::text::{chars_of, string_from_chars, byte_len, is_boundary, text_between, byte_slice, strings_view, strs_view};
use crate::utils::text_clean::{clean, cleaned};
use crate::utils::luhn::{self, luhn_valid};
use crate::utils::idcard::{self, id_valid};
use crate::matchers::regex_matcher::{
    regex_new, regex_find_spans, regex_compiles, regex_source, regex_built_by_default, regex_match_spans, spans_view,
    spans_in_text,
};
use crate::detectors::state_machine::{GenericStateMachine, keywords_found};

verus! {

/// The kinds of sensitive data the detector recognizes.
#[derive(Debug, Clone, Copy, PartialEq, Eq, Hash, Structural)]
pub enum SensitiveType {
    BankCard,
    IdCard,
    VerificationCode,
    PayPassword,
}

impl SensitiveType {
    pub open spec fn as_str_spec(self) -> Seq<char> {
        match self {
            SensitiveType::BankCard => "bank_card"@,
            SensitiveType::IdCard => "id_card"@,
            SensitiveType::VerificationCode => "verification_code"@,
            SensitiveType::PayPassword => "pay_password"@,
        }
    }

    pub fn as_str(&self) -> (s: &'static str)
        ensures
            s@ == self.as_str_spec(),
    {
        match self {
            SensitiveType::BankCard => "bank_card",
            SensitiveType::IdCard => "id_card",
            SensitiveType::VerificationCode => "verification_code",
            SensitiveType::PayPassword => "pay_password",
        }
    }
}

/// One piece of sensitive data found in a text: its kind, its masked value
/// and the byte offset where it starts.
#[derive(Debug, Clone)]
pub struct SensitiveInfo {
    pub sensitive_type: SensitiveType,
    pub value: String,
    pub position: usize,
}

/// The mathematical value of a `SensitiveInfo`.
#[verifier::ext_equal]
pub struct SensitiveInfoView {
    pub sensitive_type: SensitiveType,
    pub value: Seq<char>,
    pub position: int,
}

impl View for SensitiveInfo {
    type V = SensitiveInfoView;

    open spec fn view(&self) -> SensitiveInfoView {
        SensitiveInfoView {
            sensitive_type: self.sensitive_type,
            value: self.value@,
            position: self.position as int,
        }
    }
}

/// Finds bank card numbers, identity numbers, verification codes and
/// payment passwords in a text.
pub struct SensitiveDetector {
    bank_card_regex: regex::Regex,
    id_card_regex: regex::Regex,
    code_regex: regex::Regex,
    code_context_keywords: Vec<String>,
    pay_context_keywords: Vec<String>,
}

/// The configuration of a detector: its three patterns and two word lists.
#[verifier::ext_equal]
pub struct SensitiveDetectorView {
    pub bank_card_pattern: Seq<char>,
    pub id_card_pattern: Seq<char>,
    pub code_pattern: Seq<char>,
    pub code_context_keywords: Seq<Seq<char>>,
    pub pay_context_keywords: Seq<Seq<char>>,
}

impl SensitiveDetector {
    /// The three regexes came from `Regex::new` with default settings.
    #[verifier::type_invariant]
    spec fn regexes_built_by_default(self) -> bool {
        &&& regex_built_by_default(self.bank_card_regex)
        &&& regex_built_by_default(self.id_card_regex)
        &&& regex_built_by_default(self.code_regex)
    }
}

impl View for SensitiveDetector {
    type V = SensitiveDetectorView;

    closed spec fn view(&self) -> SensitiveDetectorView {
        SensitiveDetectorView {
            bank_card_pattern: regex_source(self.bank_card_regex),
            id_card_pattern: regex_source(self.id_card_regex),
            code_pattern: regex_source(self.code_regex),
            code_context_keywords: strings_view(self.code_context_keywords@),
            pay_context_keywords: strings_view(self.pay_context_keywords@),
        }
    }
}

/// The views of a list of findings.
pub open spec fn infos_view(v: Seq<SensitiveInfo>) -> Seq<SensitiveInfoView> {
    v.map_values(|s: SensitiveInfo| s@)
}

/// `value` with all but its first `keep_start` and last `keep_end`
/// characters replaced by `*`; unchanged when it is no longer than that.
pub open spec fn masked(value: Seq<char>, keep_start: int, keep_end: int) -> Seq<char> {
    if value.len() <= keep_start + keep_end {
        value
    } else {
        Seq::new(value.len(), |i: int| if i < keep_start || i >= value.len() - keep_end { value[i] } else { '*' })
    }
}

/// The pattern for bank card number candidates: 16 to 19 digits.
pub open spec fn bank_card_pattern() -> Seq<char> {
    "\\d{16,19}"@
}

/// The pattern for identity number candidates.
pub open spec fn id_card_pattern() -> Seq<char> {
    "[1-9]\\d{5}(?:18|19|20)\\d{2}(?:0[1-9]|1[0-2])(?:0[1-9]|[12]\\d|3[01])\\d{3}[\\dXx]"@
}

/// The pattern for codes and passwords: 6 digits.
pub open spec fn code_pattern() -> Seq<char> {
    "\\d{6}"@
}

/// The words that mark a 6-digit number as a verification code.
pub open spec fn code_context_words() -> Seq<Seq<char>> {
    seq!["验证码"@, "动态码"@, "校验码"@, "确认码"@, "安全码"@]
}

/// The words that mark a 6-digit number as a payment password.
pub open spec fn pay_context_words() -> Seq<Seq<char>> {
    seq!["转账"@, "付款"@, "支付"@, "汇款"@, "充值"@]
}

/// The bank card numbers among the candidate spans: those that pass the
/// Luhn check, masked but for 4 characters at each end.
pub open spec fn bank_findings(t: Seq<char>, spans: Seq<(int, int)>) -> Seq<SensitiveInfoView>
    decreases spans.len(),
{
    if spans.len() == 0 {
        Seq::empty()
    } else {
        let prev = bank_findings(t, spans.drop_last());
        let (s, e) = spans.last();
        let candidate = text_between(t, s, e);
        if luhn_valid(candidate) {
            prev.push(SensitiveInfoView {
                sensitive_type: SensitiveType::BankCard,
                value: masked(candidate, 4, 4),
                position: s,
            })
        } else {
            prev
        }
    }
}

/// The identity numbers among the candidate spans: those that pass the
/// check-digit test, masked but for the first 3 and last 4 characters.
pub open spec fn id_findings(t: Seq<char>, spans: Seq<(int, int)>) -> Seq<SensitiveInfoView>
    decreases spans.len(),
{
    if spans.len() == 0 {
        Seq::empty()
    } else {
        let prev = id_findings(t, spans.drop_last());
        let (s, e) = spans.last();
        let candidate = text_between(t, s, e);
        if id_valid(candidate) {
            prev.push(SensitiveInfoView {
                sensitive_type: SensitiveType::IdCard,
                value: masked(candidate, 3, 4),
                position: s,
            })
        } else {
            prev
        }
    }
}

/// The start of the context window around byte offset `p`: 30 bytes before,
/// or the start of the text.
pub open spec fn window_start(p: int) -> int {
    if p >= 30 { p - 30 } else { 0 }
}

/// The end of the context window around byte offset `p`: 30 bytes after, or
/// the end of the text.
pub open spec fn window_end(t: Seq<char>, p: int) -> int {
    if p + 30 < byte_len(t) { p + 30 } else { byte_len(t) }
}

/// Both ends of the window around `p` fall on character boundaries, so the
/// window can be cut out of the text.
pub open spec fn window_cuttable(t: Seq<char>, p: int) -> bool {
    is_boundary(t, window_start(p)) && is_boundary(t, window_end(t, p))
}

/// Every window around the starts of `spans` can be cut out of the text.
pub open spec fn windows_cuttable(t: Seq<char>, spans: Seq<(int, int)>) -> bool {
    forall|i: int| 0 <= i < spans.len() ==> window_cuttable(t, (#[trigger] spans[i]).0)
}

/// Some word of `words` occurs, in lowercase, in the window around `p`.
pub open spec fn context_has(t: Seq<char>, p: int, words: Seq<Seq<char>>) -> bool {
    keywords_found(text_between(t, window_start(p), window_end(t, p)), words).len() > 0
}

/// The verification codes: 6-digit numbers with a code word nearby.
pub open spec fn code_findings(t: Seq<char>, spans: Seq<(int, int)>, words: Seq<Seq<char>>) -> Seq<SensitiveInfoView>
    decreases spans.len(),
{
    if spans.len() == 0 {
        Seq::empty()
    } else {
        let prev = code_findings(t, spans.drop_last(), words);
        let s = spans.last().0;
        if context_has(t, s, words) {
            prev.push(SensitiveInfoView {
                sensitive_type: SensitiveType::VerificationCode,
                value: "******"@,
                position: s,
            })
        } else {
            prev
        }
    }
}

/// Some finding of `found` is a verification code at `p`.
pub open spec fn code_at(found: Seq<SensitiveInfoView>, p: int) -> bool {
    exists|j: int| 0 <= j < found.len() && (#[trigger] found[j]).position == p
        && found[j].sensitive_type == SensitiveType::VerificationCode
}

/// The payment passwords: 6-digit numbers with a payment word nearby that
/// were not already taken for verification codes.
pub open spec fn pay_findings(
    t: Seq<char>,
    spans: Seq<(int, int)>,
    words: Seq<Seq<char>>,
    codes: Seq<SensitiveInfoView>,
) -> Seq<SensitiveInfoView>
    decreases spans.len(),
{
    if spans.len() == 0 {
        Seq::empty()
    } else {
        let prev = pay_findings(t, spans.drop_last(), words, codes);
        let s = spans.last().0;
        if context_has(t, s, words) && !code_at(codes, s) {
            prev.push(SensitiveInfoView {
                sensitive_type: SensitiveType::PayPassword,
                value: "******"@,
                position: s,
            })
        } else {
            prev
        }
    }
}

/// Everything found in a (cleaned) text, given the candidate spans of the
/// three patterns and the two lists of context words: bank cards, then
/// identity numbers, then verification codes, then payment passwords.
pub open spec fn findings(
    t: Seq<char>,
    bank_spans: Seq<(int, int)>,
    id_spans: Seq<(int, int)>,
    code_spans: Seq<(int, int)>,
    code_words: Seq<Seq<char>>,
    pay_words: Seq<Seq<char>>,
) -> Seq<SensitiveInfoView> {
    let codes = code_findings(t, code_spans, code_words);
    bank_findings(t, bank_spans) + id_findings(t, id_spans) + codes + pay_findings(t, code_spans, pay_words, codes)
}

/// The configuration of the built-in detector.
pub open spec fn default_detector() -> SensitiveDetectorView {
    SensitiveDetectorView {
        bank_card_pattern: bank_card_pattern(),
        id_card_pattern: id_card_pattern(),
        code_pattern: code_pattern(),
        code_context_keywords: code_context_words(),
        pay_context_keywords: pay_context_words(),
    }
}

/// What a detector configured as `d` finds in `text`: the findings in the
/// cleaned text, from the spans its three patterns match there.
pub open spec fn detection(d: SensitiveDetectorView, text: Seq<char>) -> Seq<SensitiveInfoView> {
    let t = cleaned(text);
    findings(
        t,
        regex_match_spans(d.bank_card_pattern, t),
        regex_match_spans(d.id_card_pattern, t),
        regex_match_spans(d.code_pattern, t),
        d.code_context_keywords,
        d.pay_context_keywords,
    )
}

/// Whether detection can run on `text`: every context window around a
/// 6-digit candidate in the cleaned text can be cut at character
/// boundaries.
pub open spec fn detection_defined(d: SensitiveDetectorView, text: Seq<char>) -> bool {
    let t = cleaned(text);
    windows_cuttable(t, regex_match_spans(d.code_pattern, t))
}

impl SensitiveDetector {
    /// The built-in detector; `None` when one of its three patterns does not
    /// compile.
    pub fn new() -> (r: Option<Self>)
        ensures
            r is Some <==> (regex_compiles(bank_card_pattern()) && regex_compiles(id_card_pattern())
                && regex_compiles(code_pattern())),
            r matches Some(d) ==> d@ == default_detector(),
    {
        let bank_card_regex = match regex_new("\\d{16,19}") {
            Ok(re) => re,
            Err(_) => return None,
        };
        let id_card_regex = match regex_new(
            "[1-9]\\d{5}(?:18|19|20)\\d{2}(?:0[1-9]|1[0-2])(?:0[1-9]|[12]\\d|3[01])\\d{3}[\\dXx]",
        ) {
            Ok(re) => re,
            Err(_) => return None,
        };
        let code_regex = match regex_new("\\d{6}") {
            Ok(re) => re,
            Err(_) => return None,
        };
        let code_context_keywords = word_list(&["验证码", "动态码", "校验码", "确认码", "安全码"]);
        let pay_context_keywords = word_list(&["转账", "付款", "支付", "汇款", "充值"]);
        let d = SensitiveDetector {
            bank_card_regex,
            id_card_regex,
            code_regex,
            code_context_keywords,
            pay_context_keywords,
        };
        assert(d@ =~~= default_detector());
        Some(d)
    }

    /// The sensitive data in `text` (after cleaning); `None` when the window
    /// around some 6-digit candidate cannot be cut at character boundaries.
    pub fn detect(&self, text: &str) -> (r: Option<Vec<SensitiveInfo>>)
        ensures
            r is Some <==> detection_defined(self@, text@),
            r matches Some(v) ==> infos_view(v@) == detection(self@, text@),
    {
        proof {
            use_type_invariant(self);
        }
        let cleaned_text = clean(text);
        let t = cleaned_text.as_str();
        let bank_spans = regex_find_spans(&self.bank_card_regex, t);
        let id_spans = regex_find_spans(&self.id_card_regex, t);
        let code_spans = regex_find_spans(&self.code_regex, t);
        findings_in(t, &bank_spans, &id_spans, &code_spans, &self.code_context_keywords, &self.pay_context_keywords)
    }

    /// Masks `value` but for its first `keep_start` and last `keep_end`
    /// characters.
    pub fn mask_value(value: &str, keep_start: usize, keep_end: usize) -> (r: String)
        requires
            keep_start + keep_end <= usize::MAX,
        ensures
            r@ == masked(value@, keep_start as int, keep_end as int),
    {
        let chars = chars_of(value);
        let len = chars.len();
        if len <= keep_start + keep_end {
            return String::from_str(value);
        }
        let mut out: Vec<char> = Vec::new();
        let mut i: usize = 0;
        while i < len
            invariant
                i <= len,
                len == chars.len(),
                len > keep_start + keep_end,
                out.len() == i,
                forall|j: int| 0 <= j < i ==> #[trigger] out@[j] == (if j < keep_start || j >= len - keep_end { chars@[j] } else { '*' }),
            decreases len - i,
        {
            if i < keep_start || i >= len - keep_end {
                out.push(chars[i]);
            } else {
                out.push('*');
            }
            i = i + 1;
        }
        assert(out@ =~= masked(value@, keep_start as int, keep_end as int));
        string_from_chars(&out)
    }
}

proof fn lemma_bank_types(t: Seq<char>, spans: Seq<(int, int)>)
    ensures
        forall|j: int| 0 <= j < bank_findings(t, spans).len() ==> (#[trigger] bank_findings(t, spans)[j]).sensitive_type == SensitiveType::BankCard,
    decreases spans.len(),
{
    if spans.len() > 0 {
        lemma_bank_types(t, spans.drop_last());
    }
}

proof fn lemma_id_types(t: Seq<char>, spans: Seq<(int, int)>)
    ensures
        forall|j: int| 0 <= j < id_findings(t, spans).len() ==> (#[trigger] id_findings(t, spans)[j]).sensitive_type == SensitiveType::IdCard,
    decreases spans.len(),
{
    if spans.len() > 0 {
        lemma_id_types(t, spans.drop_last());
    }
}

proof fn lemma_pay_types(t: Seq<char>, spans: Seq<(int, int)>, words: Seq<Seq<char>>, codes: Seq<SensitiveInfoView>)
    ensures
        forall|j: int| 0 <= j < pay_findings(t, spans, words, codes).len() ==> (#[trigger] pay_findings(t, spans, words, codes)[j]).sensitive_type == SensitiveType::PayPassword,
    decreases spans.len(),
{
    if spans.len() > 0 {
        lemma_pay_types(t, spans.drop_last(), words, codes);
    }
}

proof fn lemma_bank_findings_sound(t: Seq<char>, spans: Seq<(int, int)>)
    ensures
        forall|j: int|
            0 <= j < bank_findings(t, spans).len() ==> exists|i: int|
                0 <= i < spans.len() && (#[trigger] bank_findings(t, spans)[j]).position == spans[i].0
                    && luhn_valid(text_between(t, spans[i].0, spans[i].1))
                    && bank_findings(t, spans)[j].value == masked(text_between(t, spans[i].0, spans[i].1), 4, 4),
        forall|i: int|
            0 <= i < spans.len() && luhn_valid(text_between(t, (#[trigger] spans[i]).0, spans[i].1)) ==> exists|j: int|
                0 <= j < bank_findings(t, spans).len() && bank_findings(t, spans)[j].position == spans[i].0,
    decreases spans.len(),
{
    if spans.len() > 0 {
        let p = spans.drop_last();
        lemma_bank_findings_sound(t, p);
        let prev = bank_findings(t, p);
        let cur = bank_findings(t, spans);
        let last = spans.len() - 1;
        assert forall|j: int| 0 <= j < prev.len() implies #[trigger] cur[j] == prev[j] by {}
        assert forall|j: int|
            0 <= j < cur.len() implies exists|i: int|
                0 <= i < spans.len() && (#[trigger] cur[j]).position == spans[i].0
                    && luhn_valid(text_between(t, spans[i].0, spans[i].1))
                    && cur[j].value == masked(text_between(t, spans[i].0, spans[i].1), 4, 4) by {
            if j < prev.len() {
                let i = choose|i: int|
                    0 <= i < p.len() && prev[j].position == p[i].0 && luhn_valid(text_between(t, p[i].0, p[i].1))
                        && prev[j].value == masked(text_between(t, p[i].0, p[i].1), 4, 4);
                assert(p[i] == spans[i]);
            } else {
                assert(spans[last] == spans.last());
            }
        }
        assert forall|i: int|
            0 <= i < spans.len() && luhn_valid(text_between(t, (#[trigger] spans[i]).0, spans[i].1)) implies exists|j: int|
                0 <= j < cur.len() && cur[j].position == spans[i].0 by {
            if i < last {
                assert(p[i] == spans[i]);
                let j = choose|j: int| 0 <= j < prev.len() && prev[j].position == p[i].0;
                assert(cur[j] == prev[j]);
            } else {
                assert(spans.last() == spans[i]);
                assert(cur[prev.len() as int].position == spans[i].0);
            }
        }
    }
}

proof fn lemma_id_findings_sound(t: Seq<char>, spans: Seq<(int, int)>)
    ensures
        forall|j: int|
            0 <= j < id_findings(t, spans).len() ==> exists|i: int|
                0 <= i < spans.len() && (#[trigger] id_findings(t, spans)[j]).position == spans[i].0
                    && id_valid(text_between(t, spans[i].0, spans[i].1))
                    && id_findings(t, spans)[j].value == masked(text_between(t, spans[i].0, spans[i].1), 3, 4),
        forall|i: int|
            0 <= i < spans.len() && id_valid(text_between(t, (#[trigger] spans[i]).0, spans[i].1)) ==> exists|j: int|
                0 <= j < id_findings(t, spans).len() && id_findings(t, spans)[j].position == spans[i].0,
    decreases spans.len(),
{
    if spans.len() > 0 {
        let p = spans.drop_last();
        lemma_id_findings_sound(t, p);
        let prev = id_findings(t, p);
        let cur = id_findings(t, spans);
        let last = spans.len() - 1;
        assert forall|j: int| 0 <= j < prev.len() implies #[trigger] cur[j] == prev[j] by {}
        assert forall|j: int|
            0 <= j < cur.len() implies exists|i: int|
                0 <= i < spans.len() && (#[trigger] cur[j]).position == spans[i].0
                    && id_valid(text_between(t, spans[i].0, spans[i].1))
                    && cur[j].value == masked(text_between(t, spans[i].0, spans[i].1), 3, 4) by {
            if j < prev.len() {
                let i = choose|i: int|
                    0 <= i < p.len() && prev[j].position == p[i].0 && id_valid(text_between(t, p[i].0, p[i].1))
                        && prev[j].value == masked(text_between(t, p[i].0, p[i].1), 3, 4);
                assert(p[i] == spans[i]);
            } else {
                assert(spans[last] == spans.last());
            }
        }
        assert forall|i: int|
            0 <= i < spans.len() && id_valid(text_between(t, (#[trigger] spans[i]).0, spans[i].1)) implies exists|j: int|
                0 <= j < cur.len() && cur[j].position == spans[i].0 by {
            if i < last {
                assert(p[i] == spans[i]);
                let j = choose|j: int| 0 <= j < prev.len() && prev[j].position == p[i].0;
                assert(cur[j] == prev[j]);
            } else {
                assert(spans.last() == spans[i]);
                assert(cur[prev.len() as int].position == spans[i].0);
            }
        }
    }
}

proof fn lemma_code_findings_sound(t: Seq<char>, spans: Seq<(int, int)>, words: Seq<Seq<char>>)
    ensures
        forall|j: int|
            0 <= j < code_findings(t, spans, words).len() ==> exists|i: int|
                0 <= i < spans.len() && (#[trigger] code_findings(t, spans, words)[j]).position == spans[i].0
                    && context_has(t, spans[i].0, words) && code_findings(t, spans, words)[j].value == "******"@,
        forall|i: int|
            0 <= i < spans.len() && context_has(t, (#[trigger] spans[i]).0, words) ==> exists|j: int|
                0 <= j < code_findings(t, spans, words).len() && code_findings(t, spans, words)[j].position == spans[i].0,
    decreases spans.len(),
{
    if spans.len() > 0 {
        let p = spans.drop_last();
        lemma_code_findings_sound(t, p, words);
        let prev = code_findings(t, p, words);
        let cur = code_findings(t, spans, words);
        let last = spans.len() - 1;
        assert forall|j: int| 0 <= j < prev.len() implies #[trigger] cur[j] == prev[j] by {}
        assert forall|j: int|
            0 <= j < cur.len() implies exists|i: int|
                0 <= i < spans.len() && (#[trigger] cur[j]).position == spans[i].0 && context_has(t, spans[i].0, words)
                    && cur[j].value == "******"@ by {
            if j < prev.len() {
                let i = choose|i: int|
                    0 <= i < p.len() && prev[j].position == p[i].0 && context_has(t, p[i].0, words) && prev[j].value
                        == "******"@;
                assert(p[i] == spans[i]);
            } else {
                assert(spans[last] == spans.last());
            }
        }
        assert forall|i: int|
            0 <= i < spans.len() && context_has(t, (#[trigger] spans[i]).0, words) implies exists|j: int|
                0 <= j < cur.len() && cur[j].position == spans[i].0 by {
            if i < last {
                assert(p[i] == spans[i]);
                let j = choose|j: int| 0 <= j < prev.len() && prev[j].position == p[i].0;
                assert(cur[j] == prev[j]);
            } else {
                assert(spans.last() == spans[i]);
                assert(cur[prev.len() as int].position == spans[i].0);
            }
        }
    }
}

proof fn lemma_pay_findings_sound(
    t: Seq<char>,
    spans: Seq<(int, int)>,
    words: Seq<Seq<char>>,
    codes: Seq<SensitiveInfoView>,
)
    ensures
        forall|j: int|
            0 <= j < pay_findings(t, spans, words, codes).len() ==> exists|i: int|
                0 <= i < spans.len() && (#[trigger] pay_findings(t, spans, words, codes)[j]).position == spans[i].0
                    && context_has(t, spans[i].0, words) && !code_at(codes, spans[i].0)
                    && pay_findings(t, spans, words, codes)[j].value == "******"@,
        forall|i: int|
            0 <= i < spans.len() && context_has(t, (#[trigger] spans[i]).0, words) && !code_at(codes, spans[i].0)
                ==> exists|j: int|
                0 <= j < pay_findings(t, spans, words, codes).len() && pay_findings(t, spans, words, codes)[j].position
                    == spans[i].0,
    decreases spans.len(),
{
    if spans.len() > 0 {
        let p = spans.drop_last();
        lemma_pay_findings_sound(t, p, words, codes);
        let prev = pay_findings(t, p, words, codes);
        let cur = pay_findings(t, spans, words, codes);
        let last = spans.len() - 1;
        assert forall|j: int| 0 <= j < prev.len() implies #[trigger] cur[j] == prev[j] by {}
        assert forall|j: int|
            0 <= j < cur.len() implies exists|i: int|
                0 <= i < spans.len() && (#[trigger] cur[j]).position == spans[i].0 && context_has(t, spans[i].0, words)
                    && !code_at(codes, spans[i].0) && cur[j].value == "******"@ by {
            if j < prev.len() {
                let i = choose|i: int|
                    0 <= i < p.len() && prev[j].position == p[i].0 && context_has(t, p[i].0, words) && !code_at(
                        codes,
                        p[i].0,
                    ) && prev[j].value == "******"@;
                assert(p[i] == spans[i]);
            } else {
                assert(spans[last] == spans.last());
            }
        }
        assert forall|i: int|
            0 <= i < spans.len() && context_has(t, (#[trigger] spans[i]).0, words) && !code_at(codes, spans[i].0)
                implies exists|j: int| 0 <= j < cur.len() && cur[j].position == spans[i].0 by {
            if i < last {
                assert(p[i] == spans[i]);
                let j = choose|j: int| 0 <= j < prev.len() && prev[j].position == p[i].0;
                assert(cur[j] == prev[j]);
            } else {
                assert(spans.last() == spans[i]);
                assert(cur[prev.len() as int].position == spans[i].0);
            }
        }
    }
}

/// Appends the bank card numbers among the candidate spans.
fn detect_bank_cards(text: &str, spans: &Vec<(usize, usize)>, results: &mut Vec<SensitiveInfo>)
    requires
        spans_in_text(text@, spans_view(spans@)),
    ensures
        infos_view(final(results)@) == infos_view(old(results)@) + bank_findings(text@, spans_view(spans@)),
{
    let ghost base = infos_view(results@);
    let ghost sv = spans_view(spans@);
    let mut k: usize = 0;
    while k < spans.len()
        invariant
            k <= spans.len(),
            sv == spans_view(spans@),
            spans_in_text(text@, sv),
            infos_view(results@) == base + bank_findings(text@, sv.subrange(0, k as int)),
        decreases spans.len() - k,
    {
        let (s, e) = spans[k];
        assert(sv[k as int] == (s as int, e as int));
        assert(sv.subrange(0, k as int + 1).drop_last() =~= sv.subrange(0, k as int));
        let candidate = byte_slice(text, s, e);
        if luhn::validate(candidate) {
            let ghost prev = results@;
            results.push(SensitiveInfo {
                sensitive_type: SensitiveType::BankCard,
                value: SensitiveDetector::mask_value(candidate, 4, 4),
                position: s,
            });
            assert(infos_view(results@) =~= infos_view(prev).push(results@.last()@));
        }
        k = k + 1;
    }
    assert(sv.subrange(0, sv.len() as int) =~= sv);
}

/// Appends the identity numbers among the candidate spans.
fn detect_id_cards(text: &str, spans: &Vec<(usize, usize)>, results: &mut Vec<SensitiveInfo>)
    requires
        spans_in_text(text@, spans_view(spans@)),
    ensures
        infos_view(final(results)@) == infos_view(old(results)@) + id_findings(text@, spans_view(spans@)),
{
    let ghost base = infos_view(results@);
    let ghost sv = spans_view(spans@);
    let mut k: usize = 0;
    while k < spans.len()
        invariant
            k <= spans.len(),
            sv == spans_view(spans@),
            spans_in_text(text@, sv),
            infos_view(results@) == base + id_findings(text@, sv.subrange(0, k as int)),
        decreases spans.len() - k,
    {
        let (s, e) = spans[k];
        assert(sv[k as int] == (s as int, e as int));
        assert(sv.subrange(0, k as int + 1).drop_last() =~= sv.subrange(0, k as int));
        let candidate = byte_slice(text, s, e);
        if idcard::validate(candidate) {
            let ghost prev = results@;
            results.push(SensitiveInfo {
                sensitive_type: SensitiveType::IdCard,
                value: SensitiveDetector::mask_value(candidate, 3, 4),
                position: s,
            });
            assert(infos_view(results@) =~= infos_view(prev).push(results@.last()@));
        }
        k = k + 1;
    }
    assert(sv.subrange(0, sv.len() as int) =~= sv);
}

/// The bounds of the context window around `position`.
fn window(text: &str, position: usize) -> (w: (usize, usize))
    requires
        position <= byte_len(text@),
    ensures
        w.0 == window_start(position as int),
        w.1 == window_end(text@, position as int),
        w.0 <= position <= w.1 <= byte_len(text@),
{
    let len = text.as_bytes().len();
    let start = if position >= 30 { position - 30 } else { 0 };
    let end = if len - position > 30 { position + 30 } else { len };
    (start, end)
}

/// Whether a word of `keywords` occurs, in lowercase, in the window around
/// `position`.
fn has_context_keywords(text: &str, position: usize, keywords: &Vec<String>) -> (b: bool)
    requires
        position <= byte_len(text@),
        window_cuttable(text@, position as int),
    ensures
        b == context_has(text@, position as int, strings_view(keywords@)),
{
    let (start, end) = window(text, position);
    let context = byte_slice(text, start, end);
    let found = GenericStateMachine::check_keywords_match(context, keywords);
    found.len() > 0
}

/// Appends the verification codes: 6-digit numbers with a code word nearby.
fn detect_verification_codes(
    text: &str,
    spans: &Vec<(usize, usize)>,
    keywords: &Vec<String>,
    results: &mut Vec<SensitiveInfo>,
)
    requires
        spans_in_text(text@, spans_view(spans@)),
        windows_cuttable(text@, spans_view(spans@)),
    ensures
        infos_view(final(results)@) == infos_view(old(results)@) + code_findings(
            text@,
            spans_view(spans@),
            strings_view(keywords@),
        ),
{
    let ghost base = infos_view(results@);
    let ghost sv = spans_view(spans@);
    let ghost words = strings_view(keywords@);
    let mut k: usize = 0;
    while k < spans.len()
        invariant
            k <= spans.len(),
            sv == spans_view(spans@),
            words == strings_view(keywords@),
            spans_in_text(text@, sv),
            windows_cuttable(text@, sv),
            infos_view(results@) == base + code_findings(text@, sv.subrange(0, k as int), words),
        decreases spans.len() - k,
    {
        let (s, _e) = spans[k];
        assert(sv[k as int] == (s as int, _e as int));
        assert(sv.subrange(0, k as int + 1).drop_last() =~= sv.subrange(0, k as int));
        if has_context_keywords(text, s, keywords) {
            let ghost prev = results@;
            results.push(SensitiveInfo {
                sensitive_type: SensitiveType::VerificationCode,
                value: String::from_str("******"),
                position: s,
            });
            assert(infos_view(results@) =~= infos_view(prev).push(results@.last()@));
        }
        k = k + 1;
    }
    assert(sv.subrange(0, sv.len() as int) =~= sv);
}

/// Whether some finding is a verification code at `position`.
fn code_already_found(results: &Vec<SensitiveInfo>, position: usize) -> (b: bool)
    ensures
        b == code_at(infos_view(results@), position as int),
{
    let mut i: usize = 0;
    while i < results.len()
        invariant
            i <= results.len(),
            forall|j: int| 0 <= j < i ==> !(results@[j].position == position
                && results@[j].sensitive_type == SensitiveType::VerificationCode),
        decreases results.len() - i,
    {
        if results[i].position == position && results[i].sensitive_type == SensitiveType::VerificationCode {
            assert(infos_view(results@)[i as int] == results@[i as int]@);
            return true;
        }
        i = i + 1;
    }
    assert forall|j: int| 0 <= j < infos_view(results@).len() implies !(#[trigger] infos_view(results@)[j].position
        == position && infos_view(results@)[j].sensitive_type == SensitiveType::VerificationCode) by {
        assert(infos_view(results@)[j] == results@[j]@);
    }
    false
}

/// Appends the payment passwords: 6-digit numbers with a payment word
/// nearby that are not already verification codes.
fn detect_pay_passwords(
    text: &str,
    spans: &Vec<(usize, usize)>,
    keywords: &Vec<String>,
    results: &mut Vec<SensitiveInfo>,
    Ghost(head): Ghost<Seq<SensitiveInfoView>>,
    Ghost(codes): Ghost<Seq<SensitiveInfoView>>,
)
    requires
        spans_in_text(text@, spans_view(spans@)),
        windows_cuttable(text@, spans_view(spans@)),
        infos_view(old(results)@) == head + codes,
        forall|j: int| 0 <= j < head.len() ==> (#[trigger] head[j]).sensitive_type != SensitiveType::VerificationCode,
    ensures
        infos_view(final(results)@) == infos_view(old(results)@) + pay_findings(
            text@,
            spans_view(spans@),
            strings_view(keywords@),
            codes,
        ),
{
    let ghost base = infos_view(results@);
    let ghost sv = spans_view(spans@);
    let ghost words = strings_view(keywords@);
    let mut k: usize = 0;
    while k < spans.len()
        invariant
            k <= spans.len(),
            sv == spans_view(spans@),
            words == strings_view(keywords@),
            spans_in_text(text@, sv),
            windows_cuttable(text@, sv),
            base == head + codes,
            forall|j: int| 0 <= j < head.len() ==> (#[trigger] head[j]).sensitive_type != SensitiveType::VerificationCode,
            infos_view(results@) == base + pay_findings(text@, sv.subrange(0, k as int), words, codes),
        decreases spans.len() - k,
    {
        let (s, _e) = spans[k];
        assert(sv[k as int] == (s as int, _e as int));
        assert(sv.subrange(0, k as int + 1).drop_last() =~= sv.subrange(0, k as int));
        if has_context_keywords(text, s, keywords) {
            let already = code_already_found(results, s);
            proof {
                let all = infos_view(results@);
                let pays = pay_findings(text@, sv.subrange(0, k as int), words, codes);
                lemma_pay_types(text@, sv.subrange(0, k as int), words, codes);
                if code_at(all, s as int) {
                    let j = choose|j: int| 0 <= j < all.len() && (#[trigger] all[j]).position == s as int
                        && all[j].sensitive_type == SensitiveType::VerificationCode;
                    if j < head.len() {
                        assert(all[j] == head[j]);
                    } else if j < head.len() + codes.len() {
                        assert(all[j] == codes[j - head.len()]);
                    } else {
                        assert(all[j] == pays[j - head.len() - codes.len()]);
                    }
                }
                if code_at(codes, s as int) {
                    let j = choose|j: int| 0 <= j < codes.len() && (#[trigger] codes[j]).position == s as int
                        && codes[j].sensitive_type == SensitiveType::VerificationCode;
                    assert(all[head.len() + j] == codes[j]);
                }
            }
            if !already {
                let ghost prev = results@;
                results.push(SensitiveInfo {
                    sensitive_type: SensitiveType::PayPassword,
                    value: String::from_str("******"),
                    position: s,
                });
                assert(infos_view(results@) =~= infos_view(prev).push(results@.last()@));
            }
        }
        k = k + 1;
    }
    assert(sv.subrange(0, sv.len() as int) =~= sv);
}

/// Whether every window around the starts of `spans` can be cut out.
fn all_windows_cuttable(text: &str, spans: &Vec<(usize, usize)>) -> (b: bool)
    requires
        spans_in_text(text@, spans_view(spans@)),
    ensures
        b == windows_cuttable(text@, spans_view(spans@)),
{
    let ghost sv = spans_view(spans@);
    let mut k: usize = 0;
    while k < spans.len()
        invariant
            k <= spans.len(),
            sv == spans_view(spans@),
            spans_in_text(text@, sv),
            forall|j: int| 0 <= j < k ==> window_cuttable(text@, (#[trigger] sv[j]).0),
        decreases spans.len() - k,
    {
        let (s, _e) = spans[k];
        assert(sv[k as int] == (s as int, _e as int));
        let (start, end) = window(text, s);
        if !(text.is_char_boundary(start) && text.is_char_boundary(end)) {
            return false;
        }
        k = k + 1;
    }
    true
}

/// Everything found in `text` given the candidate spans of the three
/// patterns and the two lists of context words; `None` when the window
/// around some 6-digit candidate cannot be cut at character boundaries (the
/// case where slicing the text would fail).
pub fn findings_in(
    text: &str,
    bank_spans: &Vec<(usize, usize)>,
    id_spans: &Vec<(usize, usize)>,
    code_spans: &Vec<(usize, usize)>,
    code_keywords: &Vec<String>,
    pay_keywords: &Vec<String>,
) -> (r: Option<Vec<SensitiveInfo>>)
    requires
        spans_in_text(text@, spans_view(bank_spans@)),
        spans_in_text(text@, spans_view(id_spans@)),
        spans_in_text(text@, spans_view(code_spans@)),
    ensures
        r is Some <==> windows_cuttable(text@, spans_view(code_spans@)),
        r matches Some(v) ==> infos_view(v@) == findings(
            text@,
            spans_view(bank_spans@),
            spans_view(id_spans@),
            spans_view(code_spans@),
            strings_view(code_keywords@),
            strings_view(pay_keywords@),
        ),
{
    if !all_windows_cuttable(text, code_spans) {
        return None;
    }
    let mut results: Vec<SensitiveInfo> = Vec::new();
    assert(infos_view(results@) =~= Seq::<SensitiveInfoView>::empty());
    detect_bank_cards(text, bank_spans, &mut results);
    detect_id_cards(text, id_spans, &mut results);
    let ghost head = infos_view(results@);
    proof {
        lemma_bank_types(text@, spans_view(bank_spans@));
        lemma_id_types(text@, spans_view(id_spans@));
        let b = bank_findings(text@, spans_view(bank_spans@));
        let i = id_findings(text@, spans_view(id_spans@));
        assert(head =~= b + i);
        assert forall|j: int| 0 <= j < head.len() implies (#[trigger] head[j]).sensitive_type != SensitiveType::VerificationCode by {
            if j < b.len() {
                assert(head[j] == b[j]);
            } else {
                assert(head[j] == i[j - b.len()]);
            }
        }
    }
    detect_verification_codes(text, code_spans, code_keywords, &mut results);
    let ghost codes = code_findings(text@, spans_view(code_spans@), strings_view(code_keywords@));
    detect_pay_passwords(text, code_spans, pay_keywords, &mut results, Ghost(head), Ghost(codes));
    Some(results)
}

/// Owned copies of `words`.
fn word_list(words: &[&str]) -> (v: Vec<String>)
    ensures
        strings_view(v@) == strs_view(words@),
{
    let mut v: Vec<String> = Vec::new();
    let mut i: usize = 0;
    while i < words.len()
        invariant
            i <= words.len(),
            v.len() == i,
            strings_view(v@) == strs_view(words@.subrange(0, i as int)),
        decreases words.len() - i,
    {
        let w: &str = words[i];
        let ghost old_v = v@;
        v.push(String::from_str(w));
        assert forall|j: int| 0 <= j < i + 1 implies strings_view(v@)[j] == strs_view(
            words@.subrange(0, i as int + 1),
        )[j] by {
            if j < i {
                assert(strings_view(old_v)[j] == strs_view(words@.subrange(0, i as int))[j]);
            }
        }
        assert(strings_view(v@) =~= strs_view(words@.subrange(0, i as int + 1)));
        i = i + 1;
    }
    assert(words@.subrange(0, words@.len() as int) == words@);
    v
}


/// Masking keeps the length of a value and its first `keep_start` and last
/// `keep_end` characters, and hides every character between them.
pub proof fn lemma_masked_shape(value: Seq<char>, keep_start: int, keep_end: int)
    requires
        0 <= keep_start,
        0 <= keep_end,
    ensures
        masked(value, keep_start, keep_end).len() == value.len(),
        forall|i: int|
            0 <= i < value.len() && (i < keep_start || i >= value.len() - keep_end) ==> #[trigger] masked(
                value,
                keep_start,
                keep_end,
            )[i] == value[i],
        value.len() > keep_start + keep_end ==> forall|i: int|
            keep_start <= i < value.len() - keep_end ==> #[trigger] masked(value, keep_start, keep_end)[i] == '*',
{
}


proof fn lemma_code_types(t: Seq<char>, spans: Seq<(int, int)>, words: Seq<Seq<char>>)
    ensures
        forall|j: int| 0 <= j < code_findings(t, spans, words).len() ==> (#[trigger] code_findings(t, spans, words)[j]).sensitive_type == SensitiveType::VerificationCode,
    decreases spans.len(),
{
    if spans.len() > 0 {
        lemma_code_types(t, spans.drop_last(), words);
    }
}

/// Identity numbers are reported exactly when they pass the check-digit
/// test: every identity-number finding of a detection stands at the start of
/// a candidate of the identity pattern in the cleaned text whose digits pass
/// `id_valid`, and every candidate that passes is reported at its start.
#[verifier::spinoff_prover]
#[verifier::rlimit(40)]
pub proof fn lemma_detected_ids_pass_check(d: SensitiveDetectorView, text: Seq<char>)
    ensures
        ({
            let t = cleaned(text);
            let spans = regex_match_spans(d.id_card_pattern, t);
            let found = detection(d, text);
            &&& forall|j: int|
                0 <= j < found.len() && (#[trigger] found[j]).sensitive_type == SensitiveType::IdCard
                    ==> exists|i: int|
                    0 <= i < spans.len() && found[j].position == spans[i].0 && id_valid(
                        text_between(t, spans[i].0, spans[i].1),
                    )
            &&& forall|i: int|
                0 <= i < spans.len() && id_valid(text_between(t, (#[trigger] spans[i]).0, spans[i].1))
                    ==> exists|j: int|
                    0 <= j < found.len() && found[j].sensitive_type == SensitiveType::IdCard && found[j].position
                        == spans[i].0
        }),
{
    let t = cleaned(text);
    let bs = regex_match_spans(d.bank_card_pattern, t);
    let spans = regex_match_spans(d.id_card_pattern, t);
    let cs = regex_match_spans(d.code_pattern, t);
    let b = bank_findings(t, bs);
    let ids = id_findings(t, spans);
    let codes = code_findings(t, cs, d.code_context_keywords);
    let pays = pay_findings(t, cs, d.pay_context_keywords, codes);
    let found = detection(d, text);
    assert(found == b + ids + codes + pays);
    lemma_bank_types(t, bs);
    lemma_id_types(t, spans);
    lemma_code_types(t, cs, d.code_context_keywords);
    lemma_pay_types(t, cs, d.pay_context_keywords, codes);
    lemma_id_findings_sound(t, spans);
    assert forall|j: int|
        0 <= j < found.len() && (#[trigger] found[j]).sensitive_type == SensitiveType::IdCard implies exists|i: int|
            0 <= i < spans.len() && found[j].position == spans[i].0 && id_valid(text_between(t, spans[i].0, spans[i].1)) by {
        if j < b.len() {
            assert(found[j] == b[j]);
        } else if j < b.len() + ids.len() {
            assert(found[j] == ids[j - b.len()]);
        } else if j < b.len() + ids.len() + codes.len() {
            assert(found[j] == codes[j - b.len() - ids.len()]);
        } else {
            assert(found[j] == pays[j - b.len() - ids.len() - codes.len()]);
        }
    }
    assert forall|i: int|
        0 <= i < spans.len() && id_valid(text_between(t, (#[trigger] spans[i]).0, spans[i].1)) implies exists|j: int|
            0 <= j < found.len() && found[j].sensitive_type == SensitiveType::IdCard && found[j].position == spans[i].0 by {
        let k = choose|k: int| 0 <= k < ids.len() && ids[k].position == spans[i].0;
        assert(found[b.len() + k] == ids[k]);
    }
}

/// Bank card numbers are reported exactly when they pass the Luhn check:
/// every bank-card finding of a detection stands at the start of a candidate
/// of the card pattern in the cleaned text whose digits pass `luhn_valid`,
/// and every candidate that passes is reported at its start.
#[verifier::spinoff_prover]
#[verifier::rlimit(40)]
pub proof fn lemma_detected_cards_pass_luhn(d: SensitiveDetectorView, text: Seq<char>)
    ensures
        ({
            let t = cleaned(text);
            let spans = regex_match_spans(d.bank_card_pattern, t);
            let found = detection(d, text);
            &&& forall|j: int|
                0 <= j < found.len() && (#[trigger] found[j]).sensitive_type == SensitiveType::BankCard
                    ==> exists|i: int|
                    0 <= i < spans.len() && found[j].position == spans[i].0 && luhn_valid(
                        text_between(t, spans[i].0, spans[i].1),
                    )
            &&& forall|i: int|
                0 <= i < spans.len() && luhn_valid(text_between(t, (#[trigger] spans[i]).0, spans[i].1))
                    ==> exists|j: int|
                    0 <= j < found.len() && found[j].sensitive_type == SensitiveType::BankCard
                        && found[j].position == spans[i].0
        }),
{
    let t = cleaned(text);
    let spans = regex_match_spans(d.bank_card_pattern, t);
    let is = regex_match_spans(d.id_card_pattern, t);
    let cs = regex_match_spans(d.code_pattern, t);
    let b = bank_findings(t, spans);
    let ids = id_findings(t, is);
    let codes = code_findings(t, cs, d.code_context_keywords);
    let pays = pay_findings(t, cs, d.pay_context_keywords, codes);
    let found = detection(d, text);
    assert(found == b + ids + codes + pays);
    lemma_bank_types(t, spans);
    lemma_id_types(t, is);
    lemma_code_types(t, cs, d.code_context_keywords);
    lemma_pay_types(t, cs, d.pay_context_keywords, codes);
    lemma_bank_findings_sound(t, spans);
    assert forall|j: int|
        0 <= j < found.len() && (#[trigger] found[j]).sensitive_type == SensitiveType::BankCard implies exists|i: int|
            0 <= i < spans.len() && found[j].position == spans[i].0 && luhn_valid(text_between(t, spans[i].0, spans[i].1)) by {
        if j < b.len() {
            assert(found[j] == b[j]);
        } else if j < b.len() + ids.len() {
            assert(found[j] == ids[j - b.len()]);
        } else if j < b.len() + ids.len() + codes.len() {
            assert(found[j] == codes[j - b.len() - ids.len()]);
        } else {
            assert(found[j] == pays[j - b.len() - ids.len() - codes.len()]);
        }
    }
    assert forall|i: int|
        0 <= i < spans.len() && luhn_valid(text_between(t, (#[trigger] spans[i]).0, spans[i].1)) implies exists|j: int|
            0 <= j < found.len() && found[j].sensitive_type == SensitiveType::BankCard && found[j].position == spans[i].0 by {
        let k = choose|k: int| 0 <= k < b.len() && b[k].position == spans[i].0;
        assert(found[k] == b[k]);
    }
}



/// A detection is the bank cards, then the identity numbers, then the
/// verification codes, then the payment passwords; a verification code is
/// found at `p` exactly when the code part has one there.
#[verifier::spinoff_prover]
#[verifier::rlimit(40)]
proof fn lemma_detection_parts(d: SensitiveDetectorView, text: Seq<char>)
    ensures
        ({
            let t = cleaned(text);
            let cs = regex_match_spans(d.code_pattern, t);
            let b = bank_findings(t, regex_match_spans(d.bank_card_pattern, t));
            let ids = id_findings(t, regex_match_spans(d.id_card_pattern, t));
            let codes = code_findings(t, cs, d.code_context_keywords);
            let pays = pay_findings(t, cs, d.pay_context_keywords, codes);
            let found = detection(d, text);
            let off = b.len() + ids.len();
            &&& found == b + ids + codes + pays
            &&& forall|k: int| 0 <= k < off ==> (#[trigger] found[k]).sensitive_type != SensitiveType::VerificationCode
                && found[k].sensitive_type != SensitiveType::PayPassword
            &&& forall|k: int| 0 <= k < codes.len() ==> #[trigger] found[off + k] == codes[k]
            &&& forall|k: int| 0 <= k < pays.len() ==> #[trigger] found[off + codes.len() + k] == pays[k]
            &&& forall|k: int|
                off <= k < off + codes.len() ==> (#[trigger] found[k]) == codes[k - off]
            &&& forall|k: int| off + codes.len() <= k < found.len() ==> (#[trigger] found[k]) == pays[k - off - codes.len()]
            &&& forall|p: int|
                (exists|k: int|
                    0 <= k < found.len() && (#[trigger] found[k]).position == p && found[k].sensitive_type
                        == SensitiveType::VerificationCode) <==> code_at(codes, p)
        }),
{
    let t = cleaned(text);
    let bs = regex_match_spans(d.bank_card_pattern, t);
    let is = regex_match_spans(d.id_card_pattern, t);
    let cs = regex_match_spans(d.code_pattern, t);
    let b = bank_findings(t, bs);
    let ids = id_findings(t, is);
    let codes = code_findings(t, cs, d.code_context_keywords);
    let pays = pay_findings(t, cs, d.pay_context_keywords, codes);
    let found = detection(d, text);
    let off = b.len() + ids.len();
    assert(found == b + ids + codes + pays);
    lemma_bank_types(t, bs);
    lemma_id_types(t, is);
    lemma_code_types(t, cs, d.code_context_keywords);
    lemma_pay_types(t, cs, d.pay_context_keywords, codes);
    assert forall|k: int| 0 <= k < off implies (#[trigger] found[k]).sensitive_type != SensitiveType::VerificationCode
        && found[k].sensitive_type != SensitiveType::PayPassword by {
        if k < b.len() {
            assert(found[k] == b[k]);
        } else {
            assert(found[k] == ids[k - b.len()]);
        }
    }
    assert forall|p: int|
        (exists|k: int|
            0 <= k < found.len() && (#[trigger] found[k]).position == p && found[k].sensitive_type
                == SensitiveType::VerificationCode) <==> code_at(codes, p) by {
        if exists|k: int|
            0 <= k < found.len() && (#[trigger] found[k]).position == p && found[k].sensitive_type
                == SensitiveType::VerificationCode {
            let k = choose|k: int|
                0 <= k < found.len() && (#[trigger] found[k]).position == p && found[k].sensitive_type
                    == SensitiveType::VerificationCode;
            if k >= off + codes.len() {
                assert(found[k] == pays[k - off - codes.len()]);
            }
            assert(found[k] == codes[k - off]);
        }
        if code_at(codes, p) {
            let k = choose|k: int|
                0 <= k < codes.len() && (#[trigger] codes[k]).position == p && codes[k].sensitive_type
                    == SensitiveType::VerificationCode;
            assert(found[off + k] == codes[k]);
        }
    }
}

/// A verification code is reported by its context alone: a finding of that
/// kind stands, fully masked, at the start of a six-digit candidate of the
/// cleaned text with a code word (compared in lowercase) within 30 bytes of
/// it, and every such candidate is reported.
#[verifier::spinoff_prover]
#[verifier::rlimit(40)]
pub proof fn lemma_detected_codes_need_context(d: SensitiveDetectorView, text: Seq<char>)
    ensures
        ({
            let t = cleaned(text);
            let cs = regex_match_spans(d.code_pattern, t);
            let found = detection(d, text);
            &&& forall|j: int|
                0 <= j < found.len() && (#[trigger] found[j]).sensitive_type == SensitiveType::VerificationCode
                    ==> found[j].value == "******"@ && exists|i: int|
                    0 <= i < cs.len() && found[j].position == cs[i].0 && keywords_found(
                    text_between(
                        t,
                        if cs[i].0 >= 30 { cs[i].0 - 30 } else { 0 },
                        if cs[i].0 + 30 < byte_len(t) { cs[i].0 + 30 } else { byte_len(t) },
                    ),
                    d.code_context_keywords,
                ).len() > 0
            &&& forall|i: int|
                0 <= i < cs.len() && keywords_found(
                    text_between(
                        t,
                        if (#[trigger] cs[i].0) >= 30 { cs[i].0 - 30 } else { 0 },
                        if cs[i].0 + 30 < byte_len(t) { cs[i].0 + 30 } else { byte_len(t) },
                    ),
                    d.code_context_keywords,
                ).len() > 0 ==> exists|j: int|
                    0 <= j < found.len() && found[j].sensitive_type == SensitiveType::VerificationCode
                        && found[j].position == cs[i].0
        }),
{
    let t = cleaned(text);
    let cs = regex_match_spans(d.code_pattern, t);
    let b = bank_findings(t, regex_match_spans(d.bank_card_pattern, t));
    let ids = id_findings(t, regex_match_spans(d.id_card_pattern, t));
    let codes = code_findings(t, cs, d.code_context_keywords);
    let pays = pay_findings(t, cs, d.pay_context_keywords, codes);
    let found = detection(d, text);
    let off = b.len() + ids.len();
    lemma_detection_parts(d, text);
    lemma_code_types(t, cs, d.code_context_keywords);
    lemma_pay_types(t, cs, d.pay_context_keywords, codes);
    lemma_code_findings_sound(t, cs, d.code_context_keywords);
    assert forall|j: int|
        0 <= j < found.len() && (#[trigger] found[j]).sensitive_type == SensitiveType::VerificationCode implies found[j].value
            == "******"@ && exists|i: int| 0 <= i < cs.len() && found[j].position == cs[i].0 && keywords_found(
                    text_between(
                        t,
                        if cs[i].0 >= 30 { cs[i].0 - 30 } else { 0 },
                        if cs[i].0 + 30 < byte_len(t) { cs[i].0 + 30 } else { byte_len(t) },
                    ),
                    d.code_context_keywords,
                ).len() > 0 by {
        if j >= off + codes.len() {
            assert(found[j] == pays[j - off - codes.len()]);
        }
        let c = codes[j - off];
        assert(found[j] == c);
        let i = choose|i: int|
            0 <= i < cs.len() && c.position == cs[i].0 && context_has(t, cs[i].0, d.code_context_keywords)
                && c.value == "******"@;
    }
    assert forall|i: int| 0 <= i < cs.len() && keywords_found(
                    text_between(
                        t,
                        if (#[trigger] cs[i].0) >= 30 { cs[i].0 - 30 } else { 0 },
                        if cs[i].0 + 30 < byte_len(t) { cs[i].0 + 30 } else { byte_len(t) },
                    ),
                    d.code_context_keywords,
                ).len() > 0 implies exists|j: int|
        0 <= j < found.len() && found[j].sensitive_type == SensitiveType::VerificationCode && found[j].position
            == cs[i].0 by {
        assert(context_has(t, cs[i].0, d.code_context_keywords));
        let k = choose|k: int| 0 <= k < codes.len() && codes[k].position == cs[i].0;
        assert(found[off + k] == codes[k]);
    }
}

/// A payment password is reported by its context alone: a finding of that
/// kind stands, fully masked, at the start of a six-digit candidate of the
/// cleaned text with a payment word (compared in lowercase) within 30 bytes
/// of it and no verification code reported there.
#[verifier::spinoff_prover]
#[verifier::rlimit(40)]
pub proof fn lemma_detected_passwords_need_context(d: SensitiveDetectorView, text: Seq<char>)
    ensures
        ({
            let t = cleaned(text);
            let cs = regex_match_spans(d.code_pattern, t);
            let found = detection(d, text);
            &&& forall|j: int|
                0 <= j < found.len() && (#[trigger] found[j]).sensitive_type == SensitiveType::PayPassword
                    ==> found[j].value == "******"@ && exists|i: int|
                    0 <= i < cs.len() && found[j].position == cs[i].0 && keywords_found(
                    text_between(
                        t,
                        if cs[i].0 >= 30 { cs[i].0 - 30 } else { 0 },
                        if cs[i].0 + 30 < byte_len(t) { cs[i].0 + 30 } else { byte_len(t) },
                    ),
                    d.pay_context_keywords,
                ).len() > 0 && forall|k: int|
                        0 <= k < found.len() && found[k].position == cs[i].0 ==> found[k].sensitive_type
                            != SensitiveType::VerificationCode
        }),
{
    let t = cleaned(text);
    let cs = regex_match_spans(d.code_pattern, t);
    let b = bank_findings(t, regex_match_spans(d.bank_card_pattern, t));
    let ids = id_findings(t, regex_match_spans(d.id_card_pattern, t));
    let codes = code_findings(t, cs, d.code_context_keywords);
    let pays = pay_findings(t, cs, d.pay_context_keywords, codes);
    let found = detection(d, text);
    let off = b.len() + ids.len();
    lemma_detection_parts(d, text);
    lemma_code_types(t, cs, d.code_context_keywords);
    lemma_pay_types(t, cs, d.pay_context_keywords, codes);
    lemma_pay_findings_sound(t, cs, d.pay_context_keywords, codes);
    assert forall|j: int|
        0 <= j < found.len() && (#[trigger] found[j]).sensitive_type == SensitiveType::PayPassword implies found[j].value
            == "******"@ && exists|i: int|
            0 <= i < cs.len() && found[j].position == cs[i].0 && keywords_found(
                    text_between(
                        t,
                        if cs[i].0 >= 30 { cs[i].0 - 30 } else { 0 },
                        if cs[i].0 + 30 < byte_len(t) { cs[i].0 + 30 } else { byte_len(t) },
                    ),
                    d.pay_context_keywords,
                ).len() > 0 && forall|k: int|
                0 <= k < found.len() && found[k].position == cs[i].0 ==> found[k].sensitive_type
                    != SensitiveType::VerificationCode by {
        if off <= j < off + codes.len() {
            assert(found[j] == codes[j - off]);
        }
        let c = pays[j - off - codes.len()];
        assert(found[j] == c);
        let i = choose|i: int|
            0 <= i < cs.len() && c.position == cs[i].0 && context_has(t, cs[i].0, d.pay_context_keywords) && !code_at(
                codes,
                cs[i].0,
            ) && c.value == "******"@;
        assert forall|k: int| 0 <= k < found.len() && found[k].position == cs[i].0 implies found[k].sensitive_type
            != SensitiveType::VerificationCode by {
            if found[k].sensitive_type == SensitiveType::VerificationCode {
                assert(exists|k2: int|
                    0 <= k2 < found.len() && (#[trigger] found[k2]).position == cs[i].0 && found[k2].sensitive_type
                        == SensitiveType::VerificationCode);
            }
        }
    }
}

/// Every six-digit candidate of the cleaned text with a payment word
/// (compared in lowercase) within 30 bytes of it and no verification code
/// reported there is reported as a payment password.
#[verifier::spinoff_prover]
#[verifier::rlimit(40)]
pub proof fn lemma_passwords_with_context_are_detected(d: SensitiveDetectorView, text: Seq<char>)
    ensures
        ({
            let t = cleaned(text);
            let cs = regex_match_spans(d.code_pattern, t);
            let found = detection(d, text);
            &&& forall|i: int|
                0 <= i < cs.len() && keywords_found(
                    text_between(
                        t,
                        if (#[trigger] cs[i].0) >= 30 { cs[i].0 - 30 } else { 0 },
                        if cs[i].0 + 30 < byte_len(t) { cs[i].0 + 30 } else { byte_len(t) },
                    ),
                    d.pay_context_keywords,
                ).len() > 0 && (forall|k: int|
                    0 <= k < found.len() && found[k].position == cs[i].0 ==> found[k].sensitive_type
                        != SensitiveType::VerificationCode) ==> exists|j: int|
                    0 <= j < found.len() && found[j].sensitive_type == SensitiveType::PayPassword
                        && found[j].position == cs[i].0
        }),
{
    let t = cleaned(text);
    let cs = regex_match_spans(d.code_pattern, t);
    let b = bank_findings(t, regex_match_spans(d.bank_card_pattern, t));
    let ids = id_findings(t, regex_match_spans(d.id_card_pattern, t));
    let codes = code_findings(t, cs, d.code_context_keywords);
    let pays = pay_findings(t, cs, d.pay_context_keywords, codes);
    let found = detection(d, text);
    let off = b.len() + ids.len();
    lemma_detection_parts(d, text);
    lemma_code_types(t, cs, d.code_context_keywords);
    lemma_pay_types(t, cs, d.pay_context_keywords, codes);
    lemma_pay_findings_sound(t, cs, d.pay_context_keywords, codes);
    assert forall|i: int|
        0 <= i < cs.len() && keywords_found(
                    text_between(
                        t,
                        if (#[trigger] cs[i].0) >= 30 { cs[i].0 - 30 } else { 0 },
                        if cs[i].0 + 30 < byte_len(t) { cs[i].0 + 30 } else { byte_len(t) },
                    ),
                    d.pay_context_keywords,
                ).len() > 0 && (forall|k: int|
            0 <= k < found.len() && found[k].position == cs[i].0 ==> found[k].sensitive_type
                != SensitiveType::VerificationCode) implies exists|j: int|
            0 <= j < found.len() && found[j].sensitive_type == SensitiveType::PayPassword && found[j].position
                == cs[i].0 by {
        assert(context_has(t, cs[i].0, d.pay_context_keywords));
        if code_at(codes, cs[i].0) {
            let k = choose|k: int|
                0 <= k < codes.len() && (#[trigger] codes[k]).position == cs[i].0 && codes[k].sensitive_type
                    == SensitiveType::VerificationCode;
            assert(found[off + k] == codes[k]);
        }
        let k = choose|k: int| 0 <= k < pays.len() && pays[k].position == cs[i].0;
        assert(found[off + codes.len() + k] == pays[k]);
    }
}

} // verus!
