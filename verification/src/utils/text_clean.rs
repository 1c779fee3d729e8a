use vstd::prelude::*;
use crate::utils::text::{chars_of, string_from_chars};

verus! {

/// Invisible formatting characters that are removed from the text:
/// zero-width spaces and joiners, direction marks and embeddings, the byte
/// order mark, the word joiner and the invisible operators.
pub open spec fn is_zero_width(c: char) -> bool {
    c == '\u{200B}' || c == '\u{200C}' || c == '\u{200D}' || c == '\u{200E}' || c == '\u{200F}'
        || c == '\u{FEFF}' || c == '\u{2060}' || c == '\u{180E}' || c == '\u{202A}'
        || c == '\u{202B}' || c == '\u{202C}' || c == '\u{202D}' || c == '\u{202E}'
        || c == '\u{2061}' || c == '\u{2062}' || c == '\u{2063}' || c == '\u{2064}'
}

/// The characters with the Unicode `White_Space` property (what
/// `char::is_whitespace` tests).
pub open spec fn is_whitespace(c: char) -> bool {
    ('\u{9}' <= c && c <= '\u{D}') || c == ' ' || c == '\u{85}' || c == '\u{A0}' || c == '\u{1680}'
        || ('\u{2000}' <= c && c <= '\u{200A}') || c == '\u{2028}' || c == '\u{2029}'
        || c == '\u{202F}' || c == '\u{205F}' || c == '\u{3000}'
}

/// A full-width ASCII digit or letter.
pub open spec fn is_full_width_alnum(c: char) -> bool {
    ('\u{FF10}' <= c && c <= '\u{FF19}') || ('\u{FF21}' <= c && c <= '\u{FF3A}')
        || ('\u{FF41}' <= c && c <= '\u{FF5A}')
}

/// Full-width digits and letters become their ASCII forms, the ideographic
/// space becomes a space, every other character stays.
pub open spec fn half_width_char(c: char) -> char {
    if is_full_width_alnum(c) {
        ((c as u32 - 0xFEE0) as u8) as char
    } else if c == '\u{3000}' {
        ' '
    } else {
        c
    }
}

/// `s` without its zero-width characters.
pub open spec fn strip_zero_width(s: Seq<char>) -> Seq<char>
    decreases s.len(),
{
    if s.len() == 0 {
        Seq::empty()
    } else if is_zero_width(s.last()) {
        strip_zero_width(s.drop_last())
    } else {
        strip_zero_width(s.drop_last()).push(s.last())
    }
}

/// `s` with every character mapped by `half_width_char`.
pub open spec fn half_width(s: Seq<char>) -> Seq<char> {
    s.map_values(|c: char| half_width_char(c))
}

/// `s` with every run of whitespace replaced by one space.
pub open spec fn collapse_whitespace(s: Seq<char>) -> Seq<char>
    decreases s.len(),
{
    if s.len() == 0 {
        Seq::empty()
    } else {
        let p = s.drop_last();
        let c = s.last();
        if is_whitespace(c) {
            if p.len() > 0 && is_whitespace(p.last()) {
                collapse_whitespace(p)
            } else {
                collapse_whitespace(p).push(' ')
            }
        } else {
            collapse_whitespace(p).push(c)
        }
    }
}

/// `s` without leading whitespace.
pub open spec fn trim_start(s: Seq<char>) -> Seq<char>
    decreases s.len(),
{
    if s.len() > 0 && is_whitespace(s[0]) {
        trim_start(s.drop_first())
    } else {
        s
    }
}

/// `s` without trailing whitespace.
pub open spec fn trim_end(s: Seq<char>) -> Seq<char>
    decreases s.len(),
{
    if s.len() > 0 && is_whitespace(s.last()) {
        trim_end(s.drop_last())
    } else {
        s
    }
}

/// `s` without leading or trailing whitespace.
pub open spec fn trim(s: Seq<char>) -> Seq<char> {
    trim_end(trim_start(s))
}

/// The cleaned form of a text: zero-width characters removed, full-width
/// characters made half-width, whitespace runs collapsed to one space, and
/// the ends trimmed.
pub open spec fn cleaned(s: Seq<char>) -> Seq<char> {
    trim(collapse_whitespace(half_width(strip_zero_width(s))))
}

fn zero_width(c: char) -> (b: bool)
    ensures
        b == is_zero_width(c),
{
    c == '\u{200B}' || c == '\u{200C}' || c == '\u{200D}' || c == '\u{200E}' || c == '\u{200F}'
        || c == '\u{FEFF}' || c == '\u{2060}' || c == '\u{180E}' || c == '\u{202A}'
        || c == '\u{202B}' || c == '\u{202C}' || c == '\u{202D}' || c == '\u{202E}'
        || c == '\u{2061}' || c == '\u{2062}' || c == '\u{2063}' || c == '\u{2064}'
}

/// Exec counterpart of `is_whitespace`.
pub fn whitespace(c: char) -> (b: bool)
    ensures
        b == is_whitespace(c),
{
    ('\u{9}' <= c && c <= '\u{D}') || c == ' ' || c == '\u{85}' || c == '\u{A0}' || c == '\u{1680}'
        || ('\u{2000}' <= c && c <= '\u{200A}') || c == '\u{2028}' || c == '\u{2029}'
        || c == '\u{202F}' || c == '\u{205F}' || c == '\u{3000}'
}

fn to_half_width(c: char) -> (h: char)
    ensures
        h == half_width_char(c),
{
    if ('\u{FF10}' <= c && c <= '\u{FF19}') || ('\u{FF21}' <= c && c <= '\u{FF3A}')
        || ('\u{FF41}' <= c && c <= '\u{FF5A}') {
        ((c as u32 - 0xFEE0) as u8) as char
    } else if c == '\u{3000}' {
        ' '
    } else {
        c
    }
}

/// Normalizes a text before it is searched: see `cleaned`.
pub fn clean(text: &str) -> (res: String)
    ensures
        res@ == cleaned(text@),
{
    let no_zero_width = remove_zero_width_chars(text);
    let half = full_width_to_half_width(no_zero_width.as_str());
    normalize_whitespace(half.as_str())
}

fn full_width_to_half_width(text: &str) -> (res: String)
    ensures
        res@ == half_width(text@),
{
    let chars = chars_of(text);
    let mut out: Vec<char> = Vec::new();
    let mut i: usize = 0;
    while i < chars.len()
        invariant
            i <= chars.len(),
            out@ == half_width(chars@.subrange(0, i as int)),
        decreases chars.len() - i,
    {
        out.push(to_half_width(chars[i]));
        i = i + 1;
        assert(out@ =~= half_width(chars@.subrange(0, i as int)));
    }
    assert(chars@.subrange(0, chars@.len() as int) == chars@);
    string_from_chars(&out)
}

fn normalize_whitespace(text: &str) -> (res: String)
    ensures
        res@ == trim(collapse_whitespace(text@)),
{
    let chars = chars_of(text);
    let mut out: Vec<char> = Vec::new();
    let mut prev_was_space = false;
    let mut i: usize = 0;
    while i < chars.len()
        invariant
            i <= chars.len(),
            out@ == collapse_whitespace(chars@.subrange(0, i as int)),
            prev_was_space == (i > 0 && is_whitespace(chars@[i - 1])),
        decreases chars.len() - i,
    {
        let c = chars[i];
        assert(chars@.subrange(0, i as int + 1).drop_last() == chars@.subrange(0, i as int));
        if whitespace(c) {
            if !prev_was_space {
                out.push(' ');
                prev_was_space = true;
            }
        } else {
            out.push(c);
            prev_was_space = false;
        }
        i = i + 1;
    }
    assert(chars@.subrange(0, chars@.len() as int) == chars@);
    let trimmed = trim_chars(&out);
    string_from_chars(&trimmed)
}

proof fn lemma_trim_start_skip(s: Seq<char>, k: int)
    requires
        0 <= k <= s.len(),
        forall|j: int| 0 <= j < k ==> is_whitespace(#[trigger] s[j]),
    ensures
        trim_start(s) == trim_start(s.subrange(k, s.len() as int)),
    decreases k,
{
    if k > 0 {
        assert(s.drop_first().subrange(k - 1, s.drop_first().len() as int) == s.subrange(k, s.len() as int));
        assert(is_whitespace(s[0]));
        lemma_trim_start_skip(s.drop_first(), k - 1);
    } else {
        assert(s.subrange(k, s.len() as int) == s);
    }
}

proof fn lemma_trim_end_drop(s: Seq<char>, k: int)
    requires
        0 <= k <= s.len(),
        forall|j: int| k <= j < s.len() ==> is_whitespace(#[trigger] s[j]),
    ensures
        trim_end(s) == trim_end(s.subrange(0, k)),
    decreases s.len() - k,
{
    if k < s.len() {
        assert(s.drop_last().subrange(0, k) == s.subrange(0, k));
        lemma_trim_end_drop(s.drop_last(), k);
    } else {
        assert(s.subrange(0, k) == s);
    }
}

/// `chars` without leading or trailing whitespace.
fn trim_chars(chars: &Vec<char>) -> (res: Vec<char>)
    ensures
        res@ == trim(chars@),
{
    let n = chars.len();
    let mut start: usize = 0;
    while start < n && whitespace(chars[start])
        invariant
            start <= n,
            n == chars.len(),
            forall|j: int| 0 <= j < start ==> is_whitespace(#[trigger] chars@[j]),
        decreases n - start,
    {
        start = start + 1;
    }
    proof {
        lemma_trim_start_skip(chars@, start as int);
    }
    let ghost rest = chars@.subrange(start as int, n as int);
    assert(trim_start(chars@) == rest) by {
        if rest.len() > 0 {
            assert(rest[0] == chars@[start as int]);
        }
    }
    let mut end: usize = n;
    while end > start && whitespace(chars[end - 1])
        invariant
            start <= end <= n,
            n == chars.len(),
            forall|j: int| end <= j < n ==> is_whitespace(#[trigger] chars@[j]),
        decreases end - start,
    {
        end = end - 1;
    }
    proof {
        assert forall|j: int| (end - start) <= j < rest.len() implies is_whitespace(#[trigger] rest[j]) by {
            assert(rest[j] == chars@[start + j]);
        }
        lemma_trim_end_drop(rest, end - start);
        let r = rest.subrange(0, end - start);
        if r.len() > 0 {
            assert(r.last() == chars@[end - 1]);
        }
    }
    let mut res: Vec<char> = Vec::new();
    let mut i: usize = start;
    while i < end
        invariant
            start <= i <= end,
            end <= n,
            n == chars.len(),
            res@ == chars@.subrange(start as int, i as int),
        decreases end - i,
    {
        res.push(chars[i]);
        i = i + 1;
    }
    assert(res@ == rest.subrange(0, end - start));
    res
}

fn remove_zero_width_chars(text: &str) -> (res: String)
    ensures
        res@ == strip_zero_width(text@),
{
    let chars = chars_of(text);
    let mut out: Vec<char> = Vec::new();
    let mut i: usize = 0;
    while i < chars.len()
        invariant
            i <= chars.len(),
            out@ == strip_zero_width(chars@.subrange(0, i as int)),
        decreases chars.len() - i,
    {
        let c = chars[i];
        assert(chars@.subrange(0, i as int + 1).drop_last() == chars@.subrange(0, i as int));
        if !zero_width(c) {
            out.push(c);
        }
        i = i + 1;
    }
    assert(chars@.subrange(0, chars@.len() as int) == chars@);
    string_from_chars(&out)
}


/// A character that cleaning leaves as it is: neither zero-width nor a
/// full-width digit or letter.
pub open spec fn is_plain(c: char) -> bool {
    !is_zero_width(c) && !is_full_width_alnum(c)
}

/// A text in the normal form that cleaning produces: no zero-width
/// character, no full-width digit or letter, no whitespace but the plain
/// space (so no ideographic space), no two whitespace characters side by
/// side, and no whitespace at either end.
pub open spec fn in_normal_form(c: Seq<char>) -> bool {
    &&& forall|i: int| 0 <= i < c.len() ==> is_plain(#[trigger] c[i])
    &&& forall|i: int| 0 <= i < c.len() && is_whitespace(#[trigger] c[i]) ==> c[i] == ' '
    &&& forall|i: int, j: int|
        #![trigger c[i], c[j]]
        0 <= i && j == i + 1 && j < c.len() ==> !(is_whitespace(c[i]) && is_whitespace(c[j]))
    &&& c.len() > 0 ==> !is_whitespace(c[0]) && !is_whitespace(c.last())
}

proof fn lemma_strip_zero_width(s: Seq<char>)
    ensures
        forall|i: int| 0 <= i < strip_zero_width(s).len() ==> !is_zero_width(#[trigger] strip_zero_width(s)[i]),
    decreases s.len(),
{
    if s.len() > 0 {
        let p = s.drop_last();
        lemma_strip_zero_width(p);
        if !is_zero_width(s.last()) {
            let r = strip_zero_width(s);
            assert forall|i: int| 0 <= i < r.len() implies !is_zero_width(#[trigger] r[i]) by {
                if i < r.len() - 1 {
                    assert(r[i] == strip_zero_width(p)[i]);
                }
            }
        }
    }
}

proof fn lemma_half_width_keeps_visible(s: Seq<char>)
    requires
        forall|i: int| 0 <= i < s.len() ==> !is_zero_width(#[trigger] s[i]),
    ensures
        forall|i: int| 0 <= i < half_width(s).len() ==> is_plain(#[trigger] half_width(s)[i]),
{
    assert forall|i: int| 0 <= i < half_width(s).len() implies is_plain(#[trigger] half_width(s)[i]) by {
        let c = s[i];
        assert(!is_zero_width(c));
        if is_full_width_alnum(c) {
            let v = (c as u32 - 0xFEE0) as u8;
            assert(0x30 <= c as u32 - 0xFEE0 <= 0x7A);
            assert(v as u32 == c as u32 - 0xFEE0);
            assert((v as char) as u32 == v as u32);
        }
    }
}

proof fn lemma_collapse_shape(s: Seq<char>)
    requires
        forall|i: int| 0 <= i < s.len() ==> is_plain(#[trigger] s[i]),
    ensures
        ({
            let o = collapse_whitespace(s);
            &&& forall|i: int| 0 <= i < o.len() ==> is_plain(#[trigger] o[i])
            &&& forall|i: int| 0 <= i < o.len() && is_whitespace(#[trigger] o[i]) ==> o[i] == ' '
            &&& forall|i: int, j: int|
                #![trigger o[i], o[j]]
                0 <= i && j == i + 1 && j < o.len() ==> !(is_whitespace(o[i]) && is_whitespace(o[j]))
            &&& (s.len() > 0 <==> o.len() > 0)
            &&& o.len() > 0 ==> (is_whitespace(o.last()) <==> is_whitespace(s.last()))
        }),
    decreases s.len(),
{
    if s.len() > 0 {
        let p = s.drop_last();
        assert forall|i: int| 0 <= i < p.len() implies is_plain(#[trigger] p[i]) by {
            assert(p[i] == s[i]);
        }
        lemma_collapse_shape(p);
        let op = collapse_whitespace(p);
        let o = collapse_whitespace(s);
        let c = s.last();
        assert(is_plain(c));
        if is_whitespace(c) && p.len() > 0 && is_whitespace(p.last()) {
            assert(o == op);
        } else {
            assert(o.drop_last() == op);
            assert forall|i: int| 0 <= i < op.len() implies #[trigger] o[i] == op[i] by {}
            assert forall|i: int, j: int|
                #![trigger o[i], o[j]]
                0 <= i && j == i + 1 && j < o.len() implies !(is_whitespace(o[i]) && is_whitespace(o[j])) by {
                if j < op.len() {
                    assert(o[i] == op[i] && o[j] == op[j]);
                } else {
                    assert(o[i] == op.last());
                }
            }
        }
    }
}

proof fn lemma_trim_start_shape(s: Seq<char>) -> (k: int)
    ensures
        0 <= k <= s.len(),
        trim_start(s) == s.subrange(k, s.len() as int),
        trim_start(s).len() > 0 ==> !is_whitespace(trim_start(s)[0]),
    decreases s.len(),
{
    if s.len() > 0 && is_whitespace(s[0]) {
        let k = lemma_trim_start_shape(s.drop_first());
        assert(s.drop_first().subrange(k, s.drop_first().len() as int) =~= s.subrange(k + 1, s.len() as int));
        k + 1
    } else {
        assert(s.subrange(0, s.len() as int) =~= s);
        0
    }
}

proof fn lemma_trim_end_shape(s: Seq<char>) -> (k: int)
    ensures
        0 <= k <= s.len(),
        trim_end(s) == s.subrange(0, k),
        trim_end(s).len() > 0 ==> !is_whitespace(trim_end(s).last()),
    decreases s.len(),
{
    if s.len() > 0 && is_whitespace(s.last()) {
        let k = lemma_trim_end_shape(s.drop_last());
        assert(s.drop_last().subrange(0, k) =~= s.subrange(0, k));
        k
    } else {
        assert(s.subrange(0, s.len() as int) =~= s);
        s.len() as int
    }
}

/// Cleaning always yields a text in normal form: no zero-width character,
/// whitespace only as single plain spaces between other characters, and
/// nothing to trim at either end.
pub proof fn lemma_cleaned_normal_form(s: Seq<char>)
    ensures
        in_normal_form(cleaned(s)),
{
    let a = strip_zero_width(s);
    lemma_strip_zero_width(s);
    let b = half_width(a);
    lemma_half_width_keeps_visible(a);
    let o = collapse_whitespace(b);
    lemma_collapse_shape(b);
    let ts = trim_start(o);
    let k1 = lemma_trim_start_shape(o);
    let c = trim_end(ts);
    let k2 = lemma_trim_end_shape(ts);
    assert(c == cleaned(s));
    assert forall|i: int| 0 <= i < c.len() implies #[trigger] c[i] == o[k1 + i] by {
        assert(c[i] == ts[i]);
    }
    assert forall|i: int| 0 <= i < c.len() implies is_plain(#[trigger] c[i]) by {
        assert(c[i] == o[k1 + i]);
    }
    assert forall|i: int| 0 <= i < c.len() && is_whitespace(#[trigger] c[i]) implies c[i] == ' ' by {
        assert(c[i] == o[k1 + i]);
    }
    assert forall|i: int, j: int|
        #![trigger c[i], c[j]]
        0 <= i && j == i + 1 && j < c.len() implies !(is_whitespace(c[i]) && is_whitespace(c[j])) by {
        assert(c[i] == o[k1 + i] && c[j] == o[k1 + j]);
    }
    if c.len() > 0 {
        assert(c[0] == ts[0]);
    }
}


proof fn lemma_strip_keeps_visible(s: Seq<char>)
    requires
        forall|i: int| 0 <= i < s.len() ==> !is_zero_width(#[trigger] s[i]),
    ensures
        strip_zero_width(s) == s,
    decreases s.len(),
{
    if s.len() > 0 {
        let p = s.drop_last();
        assert forall|i: int| 0 <= i < p.len() implies !is_zero_width(#[trigger] p[i]) by {
            assert(p[i] == s[i]);
        }
        lemma_strip_keeps_visible(p);
        assert(p.push(s.last()) =~= s);
    }
}

proof fn lemma_collapse_keeps_spaced(s: Seq<char>)
    requires
        forall|i: int| 0 <= i < s.len() && is_whitespace(#[trigger] s[i]) ==> s[i] == ' ',
        forall|i: int, j: int|
            #![trigger s[i], s[j]]
            0 <= i && j == i + 1 && j < s.len() ==> !(is_whitespace(s[i]) && is_whitespace(s[j])),
    ensures
        collapse_whitespace(s) == s,
    decreases s.len(),
{
    if s.len() > 0 {
        let p = s.drop_last();
        assert forall|i: int| 0 <= i < p.len() && is_whitespace(#[trigger] p[i]) implies p[i] == ' ' by {
            assert(p[i] == s[i]);
        }
        assert forall|i: int, j: int|
            #![trigger p[i], p[j]]
            0 <= i && j == i + 1 && j < p.len() implies !(is_whitespace(p[i]) && is_whitespace(p[j])) by {
            assert(p[i] == s[i] && p[j] == s[j]);
        }
        lemma_collapse_keeps_spaced(p);
        let n = s.len() - 1;
        if is_whitespace(s.last()) {
            assert(s[n] == ' ');
            if p.len() > 0 {
                assert(p.last() == s[n - 1]);
                assert(!(is_whitespace(s[n - 1]) && is_whitespace(s[n])));
            }
        }
        assert(p.push(s.last()) =~= s);
    }
}

/// Cleaning a cleaned text changes nothing: a text in normal form has no
/// zero-width or full-width character to convert, no run of whitespace to
/// collapse and nothing to trim.
pub proof fn lemma_clean_idempotent(s: Seq<char>)
    ensures
        cleaned(cleaned(s)) == cleaned(s),
{
    let c = cleaned(s);
    lemma_cleaned_normal_form(s);
    assert forall|i: int| 0 <= i < c.len() implies !is_zero_width(#[trigger] c[i]) by {
        assert(is_plain(c[i]));
    }
    lemma_strip_keeps_visible(c);
    assert forall|i: int| 0 <= i < c.len() implies #[trigger] half_width_char(c[i]) == c[i] by {
        assert(is_plain(c[i]));
        if c[i] == '\u{3000}' {
            assert(is_whitespace(c[i]));
        }
    }
    assert(half_width(c) =~= c);
    lemma_collapse_keeps_spaced(c);
    assert(trim_start(c) == c);
    assert(trim_end(c) == c);
}

} // verus!
