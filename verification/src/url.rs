//! URL normalization: turns raw address-bar input into a well-formed
//! navigable target, falling back to a search-engine query for free text.

use vstd::prelude::*;
use vstd::string::*;

verus! {

/// A normalized, navigable address: an absolute URL or a synthesized
/// search-engine query URL. Callers never build one directly; only
/// `normalize` and `blank_target` produce values of this type.
pub struct NavigationTarget {
    pub s: String,
}

impl View for NavigationTarget {
    type V = Seq<char>;

    open spec fn view(&self) -> Seq<char> {
        self.s@
    }
}

impl Clone for NavigationTarget {
    fn clone(&self) -> (r: Self)
        ensures
            r@ == self@,
    {
        NavigationTarget { s: self.s.clone() }
    }
}

/// `p` is a prefix of `s`.
pub open spec fn starts_with(s: Seq<char>, p: Seq<char>) -> bool {
    p.len() <= s.len() && s.subrange(0, p.len() as int) == p
}

/// Executable prefix test, exact against `starts_with`.
pub fn str_starts_with(s: &str, p: &str) -> (r: bool)
    ensures
        r == starts_with(s@, p@),
{
    let n = p.unicode_len();
    let m = s.unicode_len();
    if m < n {
        return false;
    }
    let mut i: usize = 0;
    while i < n
        invariant
            i <= n,
            n == p@.len(),
            n <= s@.len(),
            forall|j: int| 0 <= j < i ==> s@[j] == p@[j],
        decreases n - i,
    {
        if s.get_char(i) != p.get_char(i) {
            assert(s@.subrange(0, p@.len() as int)[i as int] != p@[i as int]);
            return false;
        }
        i += 1;
    }
    assert(s@.subrange(0, p@.len() as int) =~= p@);
    true
}

/// Executable string equality on views.
pub fn str_eq(s: &str, p: &str) -> (r: bool)
    ensures
        r == (s@ == p@),
{
    let n = s.unicode_len();
    let m = p.unicode_len();
    if n != m {
        return false;
    }
    let r = str_starts_with(s, p);
    proof {
        if starts_with(s@, p@) {
            assert(s@.subrange(0, p@.len() as int) =~= s@);
        } else if s@ == p@ {
            assert(s@.subrange(0, p@.len() as int) =~= p@);
        }
    }
    r
}

pub open spec fn is_space_char(c: char) -> bool {
    c == ' ' || c == '\t' || c == '\n' || c == '\r'
}

pub open spec fn has_whitespace(s: Seq<char>) -> bool {
    exists|i: int| 0 <= i < s.len() && is_space_char(s[i])
}

pub open spec fn has_dot(s: Seq<char>) -> bool {
    exists|i: int| 0 <= i < s.len() && s[i] == '.'
}

fn contains_dot(s: &str) -> (r: bool)
    ensures
        r == has_dot(s@),
{
    let n = s.unicode_len();
    let mut i: usize = 0;
    while i < n
        invariant
            i <= n,
            n == s@.len(),
            forall|j: int| 0 <= j < i ==> s@[j] != '.',
        decreases n - i,
    {
        if s.get_char(i) == '.' {
            assert(s@[i as int] == '.');
            return true;
        }
        i += 1;
    }
    false
}

fn contains_whitespace(s: &str) -> (r: bool)
    ensures
        r == has_whitespace(s@),
{
    let n = s.unicode_len();
    let mut i: usize = 0;
    while i < n
        invariant
            i <= n,
            n == s@.len(),
            forall|j: int| 0 <= j < i ==> !is_space_char(s@[j]),
        decreases n - i,
    {
        let c = s.get_char(i);
        if c == ' ' || c == '\t' || c == '\n' || c == '\r' {
            assert(is_space_char(s@[i as int]));
            return true;
        }
        i += 1;
    }
    false
}

/// What `urlencoding::encode` returns for a given input; a function of
/// the input characters alone.
pub uninterp spec fn percent_encoded(s: Seq<char>) -> Seq<char>;

/// Relies on `urlencoding::encode`: percent-encodes every byte of the
/// UTF-8 form of the input except ASCII alphanumerics and `-`, `_`,
/// `.`, `~`; the result depends on the input characters alone, and an
/// empty input encodes to an empty string.
#[verifier::external_body]
fn percent_encode(s: &str) -> (r: String)
    ensures
        r@ == percent_encoded(s@),
        s@.len() == 0 ==> r@.len() == 0,
{
    urlencoding::encode(s).into_owned()
}

/// The input begins with one of the two recognized schemes.
pub open spec fn scheme_prefixed(s: Seq<char>) -> bool {
    starts_with(s, "http://"@) || starts_with(s, "https://"@)
}

/// The bare-domain heuristic: at least one `.` and no whitespace.
pub open spec fn domain_like(s: Seq<char>) -> bool {
    has_dot(s) && !has_whitespace(s)
}

/// What `normalize` produces: scheme-prefixed input verbatim; a bare
/// domain behind `https://`; anything else embedded, percent-encoded,
/// in the fixed search template.
pub open spec fn normalized_of(s: Seq<char>) -> Seq<char> {
    if scheme_prefixed(s) {
        s
    } else if domain_like(s) {
        "https://"@ + s
    } else {
        "https://www.google.com/search?q="@ + percent_encoded(s)
    }
}

/// A well-formed target: the blank sentinel, or an absolute URL under
/// one of the two recognized schemes.
pub open spec fn target_wf(s: Seq<char>) -> bool {
    s == "about:blank"@ || scheme_prefixed(s)
}

pub proof fn lemma_starts_with_concat(a: Seq<char>, b: Seq<char>, p: Seq<char>)
    requires
        starts_with(a, p),
    ensures
        starts_with(a + b, p),
{
    assert((a + b).subrange(0, p.len() as int) =~= a.subrange(0, p.len() as int));
}

proof fn lemma_search_template_prefix()
    ensures
        starts_with("https://www.google.com/search?q="@, "https://"@),
{
    reveal_strlit("https://www.google.com/search?q=");
    reveal_strlit("https://");
    assert("https://www.google.com/search?q="@.subrange(0, "https://"@.len() as int)
        =~= "https://"@);
}

/// The blank sentinel target a fresh tab starts with.
pub fn blank_target() -> (t: NavigationTarget)
    ensures
        t@ == "about:blank"@,
        target_wf(t@),
{
    NavigationTarget { s: String::from_str("about:blank") }
}

/// Turn raw address-bar input into a navigable target. Total: ambiguous
/// input degrades to a search query, never an error.
pub fn normalize(raw: &str) -> (t: NavigationTarget)
    ensures
        t@ == normalized_of(raw@),
        target_wf(t@),
{
    if str_starts_with(raw, "http://") || str_starts_with(raw, "https://") {
        NavigationTarget { s: String::from_str(raw) }
    } else if contains_dot(raw) && !contains_whitespace(raw) {
        let mut out = String::from_str("https://");
        out.append(raw);
        proof {
            assert(("https://"@ + raw@).subrange(0, "https://"@.len() as int) =~= "https://"@);
        }
        NavigationTarget { s: out }
    } else {
        let enc = percent_encode(raw);
        let mut out = String::from_str("https://www.google.com/search?q=");
        out.append(enc.as_str());
        proof {
            lemma_search_template_prefix();
            lemma_starts_with_concat(
                "https://www.google.com/search?q="@,
                percent_encoded(raw@),
                "https://"@,
            );
        }
        NavigationTarget { s: out }
    }
}

/// Every input without whitespace and with at least one `.` that does
/// not already carry the plain-HTTP scheme normalizes to a target that
/// begins with `https://`. (Input beginning with `http://` keeps that
/// scheme verbatim, so it is left out here.)
pub proof fn lemma_normalize_secure_prefix(s: Seq<char>)
    requires
        has_dot(s),
        !has_whitespace(s),
        !starts_with(s, "http://"@),
    ensures
        starts_with(normalized_of(s), "https://"@),
{
    if starts_with(s, "https://"@) {
    } else {
        assert("https://"@.subrange(0, "https://"@.len() as int) =~= "https://"@);
        lemma_starts_with_concat("https://"@, s, "https://"@);
    }
}

/// Input already carrying a scheme is returned verbatim.
pub proof fn lemma_normalize_scheme_verbatim(s: Seq<char>)
    requires
        scheme_prefixed(s),
    ensures
        normalized_of(s) == s,
{
}

/// Number of characters before the first `/` (the whole length when
/// there is none).
pub open spec fn host_len(s: Seq<char>) -> int
    decreases s.len(),
{
    if s.len() == 0 {
        0
    } else if s[0] == '/' {
        0
    } else {
        1 + host_len(s.subrange(1, s.len() as int))
    }
}

/// The leading host component: everything before the first `/`.
pub open spec fn host_of(s: Seq<char>) -> Seq<char> {
    s.subrange(0, host_len(s))
}

/// The fallback display title for a target: a fixed placeholder for the
/// blank sentinel, the host component for an absolute URL, the target
/// itself otherwise.
pub open spec fn title_of(s: Seq<char>) -> Seq<char> {
    if s == "about:blank"@ {
        "New Tab"@
    } else if starts_with(s, "https://"@) {
        host_of(s.subrange("https://"@.len() as int, s.len() as int))
    } else if starts_with(s, "http://"@) {
        host_of(s.subrange("http://"@.len() as int, s.len() as int))
    } else {
        s
    }
}

proof fn lemma_host_len_at(s: Seq<char>, i: int)
    requires
        0 <= i <= s.len(),
        forall|j: int| 0 <= j < i ==> s[j] != '/',
        i == s.len() || s[i] == '/',
    ensures
        host_len(s) == i,
    decreases i,
{
    if i == 0 {
    } else {
        let t = s.subrange(1, s.len() as int);
        assert(forall|j: int| 0 <= j < i - 1 ==> t[j] == s[j + 1] && t[j] != '/');
        assert(i - 1 == t.len() || t[i - 1] == s[i]);
        lemma_host_len_at(t, i - 1);
    }
}

fn host_prefix(s: &str) -> (r: String)
    ensures
        r@ == host_of(s@),
{
    let n = s.unicode_len();
    let mut i: usize = 0;
    while i < n
        invariant
            i <= n,
            n == s@.len(),
            forall|j: int| 0 <= j < i ==> s@[j] != '/',
        decreases n - i,
    {
        if s.get_char(i) == '/' {
            proof {
                lemma_host_len_at(s@, i as int);
            }
            return String::from_str(s.substring_char(0, i));
        }
        i += 1;
    }
    proof {
        lemma_host_len_at(s@, n as int);
    }
    assert(s@.subrange(0, n as int) =~= s@);
    String::from_str(s.substring_char(0, n))
}

/// Derive a human-readable title from a target when the content fetch
/// supplies none.
pub fn get_title_from_url(url: &str) -> (r: String)
    ensures
        r@ == title_of(url@),
{
    if str_eq(url, "about:blank") {
        return String::from_str("New Tab");
    }
    let n = url.unicode_len();
    if str_starts_with(url, "https://") {
        proof {
            reveal_strlit("https://");
        }
        let rest = url.substring_char(8, n);
        return host_prefix(rest);
    }
    if str_starts_with(url, "http://") {
        proof {
            reveal_strlit("http://");
        }
        let rest = url.substring_char(7, n);
        return host_prefix(rest);
    }
    String::from_str(url)
}

/// Every input that neither carries a scheme nor looks like a bare
/// domain becomes the fixed search template with the percent-encoded
/// input embedded after it; the result begins with `https://`.
pub proof fn lemma_normalize_search_query(s: Seq<char>)
    requires
        !scheme_prefixed(s),
        !domain_like(s),
    ensures
        normalized_of(s) == "https://www.google.com/search?q="@ + percent_encoded(s),
        starts_with(normalized_of(s), "https://"@),
{
    lemma_search_template_prefix();
    lemma_starts_with_concat("https://www.google.com/search?q="@, percent_encoded(s), "https://"@);
}

} // verus!
