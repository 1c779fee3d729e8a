use vstd::prelude::*;
use vstd::string::*;
use crate::utils::text::{chars_of, string_from_chars, lowercase, to_lowercase, strings_view};

verus! {

/// The answer to a URL or app lookup.
#[derive(Debug, Clone)]
pub struct ThreatResult {
    pub is_malicious: bool,
    pub threat_type: Option<String>,
    pub source: String,
}

/// The mathematical value of a `ThreatResult`.
#[verifier::ext_equal]
pub struct ThreatResultView {
    pub is_malicious: bool,
    pub threat_type: Option<Seq<char>>,
    pub source: Seq<char>,
}

impl View for ThreatResult {
    type V = ThreatResultView;

    open spec fn view(&self) -> ThreatResultView {
        ThreatResultView {
            is_malicious: self.is_malicious,
            threat_type: match self.threat_type {
                Some(t) => Some(t@),
                None => None,
            },
            source: self.source@,
        }
    }
}

/// Looks URLs and app names up in local blacklists. Each blacklist is kept
/// as a vector with no entry twice and is read as a set.
pub struct ThreatIntelChecker {
    url_blacklist: Vec<String>,
    app_blacklist: Vec<String>,
}

/// The mathematical value of a checker: its two blacklists.
#[verifier::ext_equal]
pub struct ThreatIntelView {
    pub urls: Set<Seq<char>>,
    pub apps: Set<Seq<char>>,
}

impl ThreatIntelChecker {
    /// Neither blacklist holds an entry twice.
    #[verifier::type_invariant]
    spec fn no_repeats(self) -> bool {
        strings_view(self.url_blacklist@).no_duplicates() && strings_view(self.app_blacklist@).no_duplicates()
    }
}

impl View for ThreatIntelChecker {
    type V = ThreatIntelView;

    closed spec fn view(&self) -> ThreatIntelView {
        ThreatIntelView {
            urls: strings_view(self.url_blacklist@).to_set(),
            apps: strings_view(self.app_blacklist@).to_set(),
        }
    }
}

/// `s` starts with `prefix`.
pub open spec fn starts_with(s: Seq<char>, prefix: Seq<char>) -> bool {
    prefix.len() <= s.len() && s.subrange(0, prefix.len() as int) == prefix
}

/// `https://` as characters.
pub open spec fn https_prefix() -> Seq<char> {
    seq!['h', 't', 't', 'p', 's', ':', '/', '/']
}

/// `http://` as characters.
pub open spec fn http_prefix() -> Seq<char> {
    seq!['h', 't', 't', 'p', ':', '/', '/']
}

/// `url` without a leading `https://` or `http://`.
pub open spec fn strip_scheme(url: Seq<char>) -> Seq<char> {
    if starts_with(url, https_prefix()) {
        url.skip(8)
    } else if starts_with(url, http_prefix()) {
        url.skip(7)
    } else {
        url
    }
}

/// The part of `s` before the first `c` (all of `s` when there is none).
pub open spec fn before_char(s: Seq<char>, c: char) -> Seq<char>
    decreases s.len(),
{
    if s.len() == 0 {
        s
    } else if s[0] == c {
        Seq::empty()
    } else {
        seq![s[0]] + before_char(s.drop_first(), c)
    }
}

/// The host of a URL: after the scheme, before the first `/` and the first
/// `:`, in lowercase; none when that part is empty.
pub open spec fn domain_of(url: Seq<char>) -> Option<Seq<char>> {
    let host = before_char(before_char(strip_scheme(url), '/'), ':');
    if host.len() == 0 {
        None
    } else {
        Some(lowercase(host))
    }
}

/// A URL is blacklisted when its lowercase form, or the host of that form,
/// is in the URL blacklist.
pub open spec fn url_listed(urls: Set<Seq<char>>, url: Seq<char>) -> bool {
    let lower = lowercase(url);
    urls.contains(lower) || (domain_of(lower) matches Some(d) && urls.contains(d))
}

/// The built-in URL blacklist.
pub open spec fn default_urls() -> Set<Seq<char>> {
    set!["fake-invest.com"@, "malicious-app.download"@, "phishing-bank.cn"@]
}

/// The built-in app blacklist.
pub open spec fn default_apps() -> Set<Seq<char>> {
    set!["fake invest pro"@, "刷单神器"@, "内幕消息"@]
}

proof fn lemma_before_char(s: Seq<char>, c: char, k: int)
    requires
        0 <= k <= s.len(),
        forall|j: int| 0 <= j < k ==> s[j] != c,
        k == s.len() || s[k] == c,
    ensures
        before_char(s, c) == s.subrange(0, k),
    decreases k,
{
    if k == 0 {
        if s.len() > 0 {
            assert(s.subrange(0, 0) =~= Seq::<char>::empty());
        } else {
            assert(s.subrange(0, 0) =~= s);
        }
    } else {
        lemma_before_char(s.drop_first(), c, k - 1);
        assert(s.subrange(0, k) =~= seq![s[0]] + s.drop_first().subrange(0, k - 1));
    }
}

/// The part of `s` before the first `c`.
fn prefix_before(s: &Vec<char>, c: char) -> (r: Vec<char>)
    ensures
        r@ == before_char(s@, c),
{
    let mut r: Vec<char> = Vec::new();
    let mut k: usize = 0;
    while k < s.len() && s[k] != c
        invariant
            k <= s.len(),
            forall|j: int| 0 <= j < k ==> s@[j] != c,
            r@ == s@.subrange(0, k as int),
        decreases s.len() - k,
    {
        r.push(s[k]);
        k = k + 1;
    }
    proof {
        lemma_before_char(s@, c, k as int);
    }
    r
}

/// Whether `s` starts with the characters of `prefix`.
fn has_prefix(s: &Vec<char>, prefix: &Vec<char>) -> (b: bool)
    ensures
        b == starts_with(s@, prefix@),
{
    if prefix.len() > s.len() {
        return false;
    }
    let mut i: usize = 0;
    while i < prefix.len()
        invariant
            i <= prefix.len(),
            prefix.len() <= s.len(),
            forall|j: int| 0 <= j < i ==> s@[j] == prefix@[j],
        decreases prefix.len() - i,
    {
        if s[i] != prefix[i] {
            assert(s@.subrange(0, prefix@.len() as int)[i as int] != prefix@[i as int]);
            return false;
        }
        i = i + 1;
    }
    assert(s@.subrange(0, prefix@.len() as int) =~= prefix@);
    true
}

/// `s` from position `from` on.
fn skip_chars(s: &Vec<char>, from: usize) -> (r: Vec<char>)
    requires
        from <= s.len(),
    ensures
        r@ == s@.skip(from as int),
{
    let mut r: Vec<char> = Vec::new();
    let mut k: usize = from;
    while k < s.len()
        invariant
            from <= k <= s.len(),
            r@ == s@.subrange(from as int, k as int),
        decreases s.len() - k,
    {
        r.push(s[k]);
        k = k + 1;
    }
    r
}

/// Whether `list` holds a string equal to `item`.
fn list_contains(list: &Vec<String>, item: &String) -> (b: bool)
    ensures
        b == strings_view(list@).contains(item@),
{
    let mut i: usize = 0;
    while i < list.len()
        invariant
            i <= list.len(),
            forall|j: int| 0 <= j < i ==> list@[j]@ != item@,
        decreases list.len() - i,
    {
        if list[i] == *item {
            assert(strings_view(list@)[i as int] == item@);
            return true;
        }
        i = i + 1;
    }
    assert forall|j: int| 0 <= j < strings_view(list@).len() implies strings_view(list@)[j] != item@ by {
        assert(strings_view(list@)[j] == list@[j]@);
    }
    false
}

/// `items` without repeated entries, first occurrences kept.
fn dedup(items: Vec<String>) -> (r: Vec<String>)
    ensures
        strings_view(r@).no_duplicates(),
        strings_view(r@).to_set() == strings_view(items@).to_set(),
{
    let mut r: Vec<String> = Vec::new();
    let mut i: usize = 0;
    while i < items.len()
        invariant
            i <= items.len(),
            strings_view(r@).no_duplicates(),
            strings_view(r@).to_set() == strings_view(items@.subrange(0, i as int)).to_set(),
        decreases items.len() - i,
    {
        let ghost before = r@;
        let ghost prev = strings_view(items@.subrange(0, i as int));
        let ghost next = strings_view(items@.subrange(0, i as int + 1));
        assert(next =~= prev.push(items@[i as int]@));
        if !list_contains(&r, &items[i]) {
            r.push(items[i].clone());
            assert(strings_view(r@) =~= strings_view(before).push(items@[i as int]@));
        } else {
            assert(r@ == before);
        }
        proof {
            let x = items@[i as int]@;
            prev.lemma_push_to_set_commute(x);
            if strings_view(r@).len() > before.len() {
                strings_view(before).lemma_push_to_set_commute(x);
            } else {
                assert(strings_view(r@) == strings_view(before));
                assert(strings_view(before).to_set().contains(x));
                assert(prev.to_set().insert(x) =~= prev.to_set());
            }
        }
        i = i + 1;
    }
    assert(items@.subrange(0, items@.len() as int) == items@);
    r
}

impl ThreatIntelChecker {
    /// A checker with the built-in blacklists.
    pub fn new() -> (c: Self)
        ensures
            c@.urls == default_urls(),
            c@.apps == default_apps(),
    {
        ThreatIntelChecker {
            url_blacklist: Self::default_url_blacklist(),
            app_blacklist: Self::default_app_blacklist(),
        }
    }

    /// A checker with the given blacklists.
    pub fn with_blacklists(url_blacklist: Vec<String>, app_blacklist: Vec<String>) -> (c: Self)
        ensures
            c@.urls == strings_view(url_blacklist@).to_set(),
            c@.apps == strings_view(app_blacklist@).to_set(),
    {
        ThreatIntelChecker { url_blacklist: dedup(url_blacklist), app_blacklist: dedup(app_blacklist) }
    }

    /// Looks a URL up: it is malicious when its lowercase form or its host is
    /// blacklisted.
    pub fn check_url(&self, url: &str) -> (r: ThreatResult)
        ensures
            r@.is_malicious == url_listed(self@.urls, url@),
            r@.threat_type == (if r@.is_malicious { Some("phishing"@) } else { None }),
            r@.source == "local_blacklist"@,
    {
        let lower = to_lowercase(url);
        let domain = Self::extract_domain(lower.as_str());
        let listed = list_contains(&self.url_blacklist, &lower);
        let is_malicious = listed || match &domain {
            Some(d) => list_contains(&self.url_blacklist, d),
            None => false,
        };
        ThreatResult {
            is_malicious,
            threat_type: if is_malicious { Some(String::from_str("phishing")) } else { None },
            source: String::from_str("local_blacklist"),
        }
    }

    /// Looks an app name up: it is dangerous when its lowercase form is
    /// blacklisted.
    pub fn check_app(&self, app_name: &str) -> (r: ThreatResult)
        ensures
            r@.is_malicious == self@.apps.contains(lowercase(app_name@)),
            r@.threat_type == (if r@.is_malicious { Some("fraud_app"@) } else { None }),
            r@.source == "local_blacklist"@,
    {
        let lower = to_lowercase(app_name);
        let is_dangerous = list_contains(&self.app_blacklist, &lower);
        ThreatResult {
            is_malicious: is_dangerous,
            threat_type: if is_dangerous { Some(String::from_str("fraud_app")) } else { None },
            source: String::from_str("local_blacklist"),
        }
    }

    /// The host of a URL: see `domain_of`.
    pub fn extract_domain(url: &str) -> (d: Option<String>)
        ensures
            match d {
                Some(s) => domain_of(url@) == Some(s@),
                None => domain_of(url@) is None,
            },
    {
        let chars = chars_of(url);
        let https: Vec<char> = vec!['h', 't', 't', 'p', 's', ':', '/', '/'];
        let http: Vec<char> = vec!['h', 't', 't', 'p', ':', '/', '/'];
        assert(https@ == https_prefix());
        assert(http@ == http_prefix());
        let without_scheme = if has_prefix(&chars, &https) {
            skip_chars(&chars, 8)
        } else if has_prefix(&chars, &http) {
            skip_chars(&chars, 7)
        } else {
            chars
        };
        let path_cut = prefix_before(&without_scheme, '/');
        let host = prefix_before(&path_cut, ':');
        if host.len() == 0 {
            None
        } else {
            let host_str = string_from_chars(&host);
            Some(to_lowercase(host_str.as_str()))
        }
    }

    fn default_url_blacklist() -> (v: Vec<String>)
        ensures
            strings_view(v@).to_set() == default_urls(),
            strings_view(v@).no_duplicates(),
    {
        let mut v: Vec<String> = Vec::new();
        v.push(String::from_str("fake-invest.com"));
        v.push(String::from_str("malicious-app.download"));
        v.push(String::from_str("phishing-bank.cn"));
        proof {
            reveal_strlit("fake-invest.com");
            reveal_strlit("malicious-app.download");
            reveal_strlit("phishing-bank.cn");
        }
        assert(strings_view(v@) =~= seq!["fake-invest.com"@, "malicious-app.download"@, "phishing-bank.cn"@]);
        assert("fake-invest.com"@[0] != "malicious-app.download"@[0]);
        assert("fake-invest.com"@[0] != "phishing-bank.cn"@[0]);
        assert("malicious-app.download"@[0] != "phishing-bank.cn"@[0]);
        assert(strings_view(v@).to_set() =~= default_urls());
        v
    }

    fn default_app_blacklist() -> (v: Vec<String>)
        ensures
            strings_view(v@).to_set() == default_apps(),
            strings_view(v@).no_duplicates(),
    {
        let mut v: Vec<String> = Vec::new();
        v.push(String::from_str("fake invest pro"));
        v.push(String::from_str("刷单神器"));
        v.push(String::from_str("内幕消息"));
        proof {
            reveal_strlit("fake invest pro");
            reveal_strlit("刷单神器");
            reveal_strlit("内幕消息");
        }
        assert(strings_view(v@) =~= seq!["fake invest pro"@, "刷单神器"@, "内幕消息"@]);
        assert("fake invest pro"@[0] != "刷单神器"@[0]);
        assert("fake invest pro"@[0] != "内幕消息"@[0]);
        assert("刷单神器"@[0] != "内幕消息"@[0]);
        assert(strings_view(v@).to_set() =~= default_apps());
        v
    }
}


impl Default for ThreatIntelChecker {
    /// A checker with the built-in blacklists.
    fn default() -> (c: Self)
        ensures
            c@.urls == default_urls(),
            c@.apps == default_apps(),
    {
        Self::new()
    }
}

/// Blacklisting a URL or a host flags it whatever the letter case it is
/// written in: a URL whose lowercase form is listed, or whose host is
/// listed, is malicious.
pub proof fn lemma_listed_url_is_flagged(urls: Set<Seq<char>>, url: Seq<char>)
    requires
        urls.contains(lowercase(url)) || (domain_of(lowercase(url)) matches Some(d) && urls.contains(d)),
    ensures
        url_listed(urls, url),
{
}


proof fn lemma_before_char_append(h: Seq<char>, t: Seq<char>, c: char)
    requires
        forall|i: int| 0 <= i < h.len() ==> h[i] != c,
    ensures
        before_char(h + t, c) == h + before_char(t, c),
    decreases h.len(),
{
    if h.len() == 0 {
        assert(h + t =~= t);
        assert(h + before_char(t, c) =~= before_char(t, c));
    } else {
        let h1 = h.drop_first();
        assert forall|i: int| 0 <= i < h1.len() implies h1[i] != c by {
            assert(h1[i] == h[i + 1]);
        }
        lemma_before_char_append(h1, t, c);
        assert((h + t).drop_first() =~= h1 + t);
        assert((h + t)[0] == h[0]);
        assert(seq![h[0]] + (h1 + before_char(t, c)) =~= h + before_char(t, c));
    }
}

/// The host of a URL is exactly the text between its scheme and the first
/// `/` or `:` after it, in lowercase: for any non-empty `host` holding
/// neither `/` nor `:`, followed by anything that is empty or starts with
/// `/` or `:`, and preceded by `https://`, by `http://`, or by nothing (when
/// the whole does not itself start with one of those), the host found is
/// `host` in lowercase; nothing more is cut from its front.
pub proof fn lemma_host_follows_scheme(scheme: Seq<char>, host: Seq<char>, rest: Seq<char>)
    requires
        scheme == seq!['h', 't', 't', 'p', 's', ':', '/', '/'] || scheme == seq!['h', 't', 't', 'p', ':', '/', '/']
            || (scheme.len() == 0 && !seq!['h', 't', 't', 'p', 's', ':', '/', '/'].is_prefix_of(host + rest)
            && !seq!['h', 't', 't', 'p', ':', '/', '/'].is_prefix_of(host + rest)),
        host.len() > 0,
        forall|i: int| 0 <= i < host.len() ==> host[i] != '/' && host[i] != ':',
        rest.len() == 0 || rest[0] == '/' || rest[0] == ':',
    ensures
        domain_of(scheme + host + rest) == Some(lowercase(host)),
{
    let url = scheme + host + rest;
    let x = host + rest;
    assert(url =~= scheme + x);
    if scheme.len() == 8 {
        assert(url.subrange(0, 8) =~= scheme);
        assert(url.skip(8) =~= x);
        assert(strip_scheme(url) == x);
    } else if scheme.len() == 7 {
        assert(url[4] == ':');
        assert(https_prefix()[4] == 's');
        if url.len() >= 8 {
            assert(url.subrange(0, 8)[4] == ':');
        }
        assert(!starts_with(url, https_prefix()));
        assert(url.subrange(0, 7) =~= scheme);
        assert(url.skip(7) =~= x);
        assert(strip_scheme(url) == x);
    } else {
        assert(url =~= x);
        assert(strip_scheme(url) == x);
    }
    lemma_before_char_append(host, rest, '/');
    let r1 = before_char(rest, '/');
    if rest.len() > 0 && rest[0] == ':' {
        assert(r1 == seq![rest[0]] + before_char(rest.drop_first(), '/'));
        assert(r1[0] == ':');
    }
    lemma_before_char_append(host, r1, ':');
    assert(before_char(r1, ':') =~= Seq::<char>::empty());
    assert(host + Seq::<char>::empty() =~= host);
}

/// A URL whose host is blacklisted is flagged, whatever follows the host:
/// when the lowercase form of a URL is a scheme, a host and a rest as in
/// `lemma_host_follows_scheme`, and the lowercase host is listed, the URL is
/// listed.
pub proof fn lemma_listed_host_flags_url(
    urls: Set<Seq<char>>,
    url: Seq<char>,
    scheme: Seq<char>,
    host: Seq<char>,
    rest: Seq<char>,
)
    requires
        lowercase(url) == scheme + host + rest,
        scheme == seq!['h', 't', 't', 'p', 's', ':', '/', '/'] || scheme == seq!['h', 't', 't', 'p', ':', '/', '/']
            || (scheme.len() == 0 && !seq!['h', 't', 't', 'p', 's', ':', '/', '/'].is_prefix_of(host + rest)
            && !seq!['h', 't', 't', 'p', ':', '/', '/'].is_prefix_of(host + rest)),
        host.len() > 0,
        forall|i: int| 0 <= i < host.len() ==> host[i] != '/' && host[i] != ':',
        rest.len() == 0 || rest[0] == '/' || rest[0] == ':',
        urls.contains(lowercase(host)),
    ensures
        url_listed(urls, url),
{
    lemma_host_follows_scheme(scheme, host, rest);
}

} // verus!
