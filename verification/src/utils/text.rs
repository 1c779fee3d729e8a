use vstd::prelude::*;
use vstd::string::*;
use vstd::utf8::*;

verus! {

/// The characters of `s`, in order.
pub fn chars_of(s: &str) -> (v: Vec<char>)
    ensures
        v@ == s@,
{
    let mut v: Vec<char> = Vec::new();
    for c in it: s.chars()
        invariant
            v.len() == it.index(),
            it.seq() == s@,
            v@ == it.seq().subrange(0, it.index() as int),
    {
        v.push(c);
    }
    v
}

/// `String::from_iter` over borrowed characters: the string made of `v`'s characters.
#[verifier::external_body]
pub(crate) fn string_from_chars(v: &Vec<char>) -> (s: String)
    ensures
        s@ == v@,
{
    String::from_iter(v.iter())
}

/// An ASCII decimal digit, `'0'` to `'9'`.
pub open spec fn is_ascii_digit(c: char) -> bool {
    '0' <= c && c <= '9'
}

/// The value of an ASCII decimal digit.
pub open spec fn digit_value(c: char) -> int {
    c as int - '0' as int
}

/// Exec counterpart of `is_ascii_digit`.
pub fn ascii_digit(c: char) -> (b: bool)
    ensures
        b == is_ascii_digit(c),
{
    '0' <= c && c <= '9'
}

/// The value of an ASCII digit as a `u32`.
pub fn digit_u32(c: char) -> (d: u32)
    requires
        is_ascii_digit(c),
    ensures
        d == digit_value(c),
        d <= 9,
{
    (c as u32) - ('0' as u32)
}

/// What `str::to_lowercase` gives for a text: its Unicode lowercase mapping.
pub uninterp spec fn lowercase(s: Seq<char>) -> Seq<char>;

/// `str::to_lowercase`: the Unicode lowercase form of `s`. Its result is named
/// by `lowercase`; the mapping tables themselves are not stated.
#[verifier::external_body]
pub(crate) fn to_lowercase(s: &str) -> (res: String)
    ensures
        res@ == lowercase(s@),
{
    s.to_lowercase()
}

/// `needle` occurs in `hay` starting at position `i`.
pub open spec fn occurs_at(hay: Seq<char>, needle: Seq<char>, i: int) -> bool {
    0 <= i && i + needle.len() <= hay.len() && hay.subrange(i, i + needle.len()) == needle
}

/// `needle` occurs somewhere in `hay` (the empty text occurs everywhere).
pub open spec fn contains_seq(hay: Seq<char>, needle: Seq<char>) -> bool {
    exists|i: int| occurs_at(hay, needle, i)
}

fn occurs_at_exec(hay: &Vec<char>, needle: &Vec<char>, i: usize) -> (b: bool)
    requires
        i + needle.len() <= hay.len(),
    ensures
        b == occurs_at(hay@, needle@, i as int),
{
    let mut j: usize = 0;
    while j < needle.len()
        invariant
            j <= needle.len(),
            i + needle.len() <= hay.len(),
            forall|k: int| 0 <= k < j ==> hay@[i + k] == needle@[k],
        decreases needle.len() - j,
    {
        if hay[i + j] != needle[j] {
            assert(hay@.subrange(i as int, i + needle.len())[j as int] != needle@[j as int]);
            return false;
        }
        j = j + 1;
    }
    assert(hay@.subrange(i as int, i + needle.len()) =~= needle@);
    true
}

/// Whether `needle` occurs in `hay` (what `str::contains` tests).
pub fn contains_chars(hay: &Vec<char>, needle: &Vec<char>) -> (b: bool)
    ensures
        b == contains_seq(hay@, needle@),
{
    if needle.len() > hay.len() {
        return false;
    }
    let last = hay.len() - needle.len();
    let mut i: usize = 0;
    loop
        invariant
            last + needle.len() == hay.len(),
            i <= last,
            forall|k: int| 0 <= k < i ==> !occurs_at(hay@, needle@, k),
        decreases last - i,
    {
        if occurs_at_exec(hay, needle, i) {
            return true;
        }
        if i == last {
            return false;
        }
        i = i + 1;
    }
}

/// Whether the text `needle` occurs in the text `hay`.
pub fn str_contains(hay: &str, needle: &str) -> (b: bool)
    ensures
        b == contains_seq(hay@, needle@),
{
    let h = chars_of(hay);
    let n = chars_of(needle);
    contains_chars(&h, &n)
}

/// `parts` joined by `sep`.
pub open spec fn join(parts: Seq<Seq<char>>, sep: Seq<char>) -> Seq<char>
    decreases parts.len(),
{
    if parts.len() == 0 {
        Seq::empty()
    } else if parts.len() == 1 {
        parts[0]
    } else {
        join(parts.drop_last(), sep) + sep + parts.last()
    }
}

/// One more part joined onto a join.
pub proof fn lemma_join_step(parts: Seq<Seq<char>>, sep: Seq<char>, i: int)
    requires
        0 <= i < parts.len(),
    ensures
        join(parts.subrange(0, i + 1), sep) == if i == 0 {
            parts[0]
        } else {
            join(parts.subrange(0, i), sep) + sep + parts[i]
        },
{
    let sub = parts.subrange(0, i + 1);
    assert(sub.drop_last() =~= parts.subrange(0, i));
    assert(sub.last() == parts[i]);
}

/// The views of a list of strings.
pub open spec fn strings_view(v: Seq<String>) -> Seq<Seq<char>> {
    v.map_values(|s: String| s@)
}

/// A copy of a list of strings.
pub fn copy_strings(v: &[String]) -> (r: Vec<String>)
    ensures
        strings_view(r@) == strings_view(v@),
{
    let mut r: Vec<String> = Vec::new();
    let mut i: usize = 0;
    while i < v.len()
        invariant
            i <= v.len(),
            r.len() == i,
            forall|j: int| 0 <= j < i ==> #[trigger] r@[j]@ == v@[j]@,
        decreases v.len() - i,
    {
        r.push(v[i].clone());
        i = i + 1;
    }
    assert(strings_view(r@) =~= strings_view(v@));
    r
}

/// The views of a list of string slices.
pub open spec fn strs_view(v: Seq<&str>) -> Seq<Seq<char>> {
    v.map_values(|w: &str| w@)
}

/// `parts` joined by `sep`, computed.
pub fn join_strs(parts: &Vec<&str>, sep: &str) -> (res: String)
    ensures
        res@ == join(strs_view(parts@), sep@),
{
    let ghost views = strs_view(parts@);
    let mut out = String::new();
    let mut i: usize = 0;
    while i < parts.len()
        invariant
            i <= parts.len(),
            views == strs_view(parts@),
            out@ == join(views.subrange(0, i as int), sep@),
        decreases parts.len() - i,
    {
        proof {
            lemma_join_step(views, sep@, i as int);
        }
        let ghost before = out@;
        if i > 0 {
            out.append(sep);
        }
        out.append(parts[i]);
        assert(views[i as int] == parts@[i as int]@);
        if i == 0 {
            assert(join(views.subrange(0, 0), sep@) == Seq::<char>::empty());
            assert(out@ =~= parts@[0]@);
        } else {
            assert(out@ =~= before + sep@ + parts@[i as int]@);
        }
        i = i + 1;
    }
    assert(views.subrange(0, views.len() as int) == views);
    out
}

/// The length of `t` in UTF-8 bytes (what `str::len` gives).
pub open spec fn byte_len(t: Seq<char>) -> int {
    encode_utf8(t).len() as int
}

/// Byte offset `i` of `t`'s UTF-8 encoding falls between two characters.
pub open spec fn is_boundary(t: Seq<char>, i: int) -> bool {
    is_char_boundary(encode_utf8(t), i)
}

/// The text whose UTF-8 encoding is bytes `start..end` of `t`'s encoding.
pub open spec fn text_between(t: Seq<char>, start: int, end: int) -> Seq<char> {
    decode_utf8(encode_utf8(t).subrange(start, end))
}

proof fn lemma_boundary_in_prefix(bytes: Seq<u8>, start: int, end: int)
    requires
        valid_utf8(bytes),
        0 <= start <= end <= bytes.len(),
        is_char_boundary(bytes, start),
        is_char_boundary(bytes, end),
    ensures
        valid_utf8(bytes.subrange(0, end)),
        is_char_boundary(bytes.subrange(0, end), start),
{
    valid_utf8_split(bytes, end);
    let head = bytes.subrange(0, end);
    if start == 0 {
    } else if start == end {
        is_char_boundary_start_end_of_seq(head);
    } else {
        is_char_boundary_iff_not_is_continuation_byte(bytes, start);
        is_char_boundary_iff_not_is_continuation_byte(head, start);
        assert(head[start] == bytes[start]);
    }
}

/// Bytes `start..end` of `text`, both offsets at character boundaries.
pub fn byte_slice<'a>(text: &'a str, start: usize, end: usize) -> (r: &'a str)
    requires
        start <= end <= byte_len(text@),
        is_boundary(text@, start as int),
        is_boundary(text@, end as int),
    ensures
        r@ == text_between(text@, start as int, end as int),
{
    proof {
        encode_utf8_valid_utf8(text@);
        lemma_boundary_in_prefix(text.spec_bytes(), start as int, end as int);
    }
    let (head, _tail) = text.split_at(end);
    let (_lead, mid) = head.split_at(start);
    proof {
        let bytes = text.spec_bytes();
        assert(mid.spec_bytes() =~= bytes.subrange(start as int, end as int));
        encode_utf8_decode_utf8(mid@);
    }
    mid
}

} // verus!
