//! The decisions of a browser tab: what an address typed into its URL bar
//! loads, which page it opens first, and which address changes are kept.
use vstd::prelude::*;

use crate::text::str_equal;

verus! {

pub open spec fn has_prefix(s: Seq<char>, p: Seq<char>) -> bool {
    p.len() <= s.len() && s.subrange(0, p.len() as int) == p
}

/// Every space turned into `+`.
pub open spec fn spaces_to_plus(s: Seq<char>) -> Seq<char> {
    s.map_values(|c: char| if c == ' ' { '+' } else { c })
}

/// The address loaded for text typed into the URL bar: kept when it
/// starts with `http://` or `https://`; else made an https address when it
/// holds a dot; else a web search for it.
pub open spec fn normalized_url(s: Seq<char>) -> Seq<char> {
    if has_prefix(s, "http://"@) || has_prefix(s, "https://"@) {
        s
    } else if s.contains('.') {
        "https://"@ + s
    } else {
        "https://www.google.com/search?q="@ + spaces_to_plus(s)
    }
}

/// Whether `s` starts with `p`.
pub fn starts_with(s: &str, p: &str) -> (r: bool)
    ensures
        r == has_prefix(s@, p@),
{
    let n = s.unicode_len();
    let m = p.unicode_len();
    if m > n {
        return false;
    }
    let mut i: usize = 0;
    while i < m
        invariant
            n == s@.len(),
            m == p@.len(),
            m <= n,
            0 <= i <= m,
            forall|j: int| 0 <= j < i ==> #[trigger] s@[j] == p@[j],
        decreases m - i,
    {
        if s.get_char(i) != p.get_char(i) {
            assert(s@.subrange(0, m as int)[i as int] != p@[i as int]);
            return false;
        }
        i = i + 1;
    }
    assert(s@.subrange(0, m as int) =~= p@);
    true
}

/// Whether `s` holds the character `c`.
pub fn contains_char(s: &str, c: char) -> (r: bool)
    ensures
        r == s@.contains(c),
{
    let n = s.unicode_len();
    let mut i: usize = 0;
    while i < n
        invariant
            n == s@.len(),
            0 <= i <= n,
            forall|j: int| 0 <= j < i ==> #[trigger] s@[j] != c,
        decreases n - i,
    {
        if s.get_char(i) == c {
            assert(s@[i as int] == c);
            return true;
        }
        i = i + 1;
    }
    false
}

/// `s.replace(' ', "+")`.
pub fn replace_spaces_with_plus(s: &str) -> (r: String)
    ensures
        r@ == spaces_to_plus(s@),
{
    let n = s.unicode_len();
    let mut out = String::new();
    let mut i: usize = 0;
    while i < n
        invariant
            n == s@.len(),
            0 <= i <= n,
            out@ == spaces_to_plus(s@.subrange(0, i as int)),
        decreases n - i,
    {
        let c = s.get_char(i);
        if c == ' ' {
            proof {
                reveal_strlit("+");
            }
            assert("+"@ =~= seq!['+']);
            out.append("+");
        } else {
            let piece = s.substring_char(i, i + 1);
            assert(piece@ =~= seq![c]);
            out.append(piece);
        }
        assert(spaces_to_plus(s@.subrange(0, i + 1)) =~= spaces_to_plus(s@.subrange(0, i as int))
            + seq![if c == ' ' { '+' } else { c }]);
        i = i + 1;
    }
    assert(s@.subrange(0, n as int) =~= s@);
    out
}

/// The address to load for text typed into the URL bar.
pub fn normalize_url_input(text: &str) -> (r: String)
    ensures
        r@ == normalized_url(text@),
{
    proof {
        reveal_strlit("http://");
        reveal_strlit("https://");
        reveal_strlit("https://www.google.com/search?q=");
    }
    if !starts_with(text, "http://") && !starts_with(text, "https://") {
        if contains_char(text, '.') {
            let mut out = "https://".to_owned();
            out.append(text);
            out
        } else {
            let mut out = "https://www.google.com/search?q=".to_owned();
            let q = replace_spaces_with_plus(text);
            out.append(q.as_str());
            out
        }
    } else {
        text.to_owned()
    }
}

/// Loading an address that came out of the URL bar once more changes
/// nothing: every normalized address starts with `http://` or `https://`.
pub proof fn law_normalized_url_is_stable(s: Seq<char>)
    ensures
        normalized_url(normalized_url(s)) == normalized_url(s),
        has_prefix(normalized_url(s), "http://"@) || has_prefix(normalized_url(s), "https://"@),
{
    reveal_strlit("http://");
    reveal_strlit("https://");
    reveal_strlit("https://www.google.com/search?q=");
    let r = normalized_url(s);
    if !(has_prefix(s, "http://"@) || has_prefix(s, "https://"@)) {
        assert(r.subrange(0, 8) =~= "https://"@);
    }
}

/// What the URL bar loads, case by case: text that starts with `http://`
/// or `https://` as it is; other text with a dot, after `https://`; and
/// other text without a dot (a search, such as `weather`) as
/// `https://www.google.com/search?q=` followed by the text with each space
/// made a `+`.
pub proof fn law_url_bar_cases(s: Seq<char>)
    ensures
        has_prefix(s, "http://"@) || has_prefix(s, "https://"@) ==> normalized_url(s) == s,
        !has_prefix(s, "http://"@) && !has_prefix(s, "https://"@) && s.contains('.')
            ==> normalized_url(s) == "https://"@ + s,
        !has_prefix(s, "http://"@) && !has_prefix(s, "https://"@) && !s.contains('.') ==> {
            let q = "https://www.google.com/search?q="@;
            let r = normalized_url(s);
            &&& r.len() == q.len() + s.len()
            &&& r.subrange(0, q.len() as int) == q
            &&& forall|j: int|
                0 <= j < s.len() ==> #[trigger] r[q.len() + j] == (if s[j] == ' ' {
                    '+'
                } else {
                    s[j]
                })
        },
{
    reveal_strlit("https://www.google.com/search?q=");
    let q = "https://www.google.com/search?q="@;
    let r = normalized_url(s);
    if !has_prefix(s, "http://"@) && !has_prefix(s, "https://"@) && !s.contains('.') {
        assert(r == q + spaces_to_plus(s));
        assert(r.subrange(0, q.len() as int) =~= q);
    }
}

/// The page a new browser tab opens: its restored address, else the
/// default start page.
pub fn initial_load_uri(initial_uri: Option<&str>) -> (r: String)
    ensures
        r@ == (match initial_uri {
            Some(u) => u@,
            None => "https://google.com"@,
        }),
{
    match initial_uri {
        Some(u) => u.to_owned(),
        None => "https://google.com".to_owned(),
    }
}

/// Which address changes of a browser tab are recorded. A restored tab
/// ignores the empty and `about:blank` addresses it passes through before
/// its saved page loads.
pub struct UriTracker {
    pub restoring: bool,
}

impl UriTracker {
    pub fn new(initial_uri: Option<&str>) -> (r: UriTracker)
        ensures
            r.restoring == initial_uri.is_some(),
    {
        UriTracker { restoring: initial_uri.is_some() }
    }

    /// The view reports address `uri`; returns whether it is recorded as
    /// the tab's address.
    pub fn on_uri_changed(&mut self, uri: &str) -> (record: bool)
        ensures
            record == !(old(self).restoring && (uri@.len() == 0 || uri@ == "about:blank"@)),
            final(self).restoring == (old(self).restoring && !record),
    {
        proof {
            reveal_strlit("about:blank");
        }
        if self.restoring && (uri.unicode_len() == 0 || str_equal(uri, "about:blank")) {
            return false;
        }
        self.restoring = false;
        true
    }
}

} // verus!
