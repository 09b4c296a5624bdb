//! The `URL` and `URLSearchParams` constructors: the parts of a parsed URL
//! as the script sees them, and the pairs of a query string.

use vstd::prelude::*;
use vstd::string::StringExecFns;
use crate::text::{decimal, decimal_string, str_chars, string_from_chars, chars_slice};

verus! {

/// The components of a URL as the `url` crate parses it: the serialization,
/// the scheme, the host, the port, the path, the query and the fragment.
pub struct UrlComponents {
    pub href: String,
    pub scheme: String,
    pub host: Option<String>,
    pub port: Option<u16>,
    pub path: String,
    pub query: Option<String>,
    pub fragment: Option<String>,
}

/// The view of an optional string.
pub open spec fn opt_view(o: Option<String>) -> Option<Seq<char>> {
    match o {
        Some(s) => Some(s@),
        None => None,
    }
}

/// The plain value of URL components.
pub type UrlView = (Seq<char>, Seq<char>, Option<Seq<char>>, Option<u16>, Seq<char>, Option<Seq<char>>, Option<Seq<char>>);

impl UrlComponents {
    /// The components as plain values.
    pub open spec fn view_parts(&self) -> UrlView {
        (self.href@, self.scheme@, opt_view(self.host), self.port, self.path@, opt_view(self.query), opt_view(self.fragment))
    }
}

/// What `url::Url::parse` makes of `s`: its components, or `None` where `s`
/// is not an absolute URL.
pub uninterp spec fn url_parsed(s: Seq<char>) -> Option<UrlView>;

/// `url::Url::parse`, read through `as_str`, `scheme`, `host_str`, `port`,
/// `path`, `query` and `fragment`.
#[verifier::external_body]
fn parse_url(s: &str) -> (r: Option<UrlComponents>)
    ensures
        r is Some ==> url_parsed(s@) == Some(r->0.view_parts()),
        r is None ==> url_parsed(s@) is None,
{
    let u = url::Url::parse(s).ok()?;
    Some(UrlComponents {
        href: u.as_str().to_string(),
        scheme: u.scheme().to_string(),
        host: u.host_str().map(|h| h.to_string()),
        port: u.port(),
        path: u.path().to_string(),
        query: u.query().map(|q| q.to_string()),
        fragment: u.fragment().map(|f| f.to_string()),
    })
}

/// The properties a `URL` object gets.
#[derive(Debug)]
pub struct UrlParts {
    pub href: String,
    pub protocol: String,
    pub host: String,
    pub hostname: String,
    pub port: String,
    pub pathname: String,
    pub search: String,
    pub hash: String,
    /// The query without `?`, handed to `URLSearchParams`.
    pub query: String,
}

/// The text of an optional part, empty where absent.
pub open spec fn or_empty(o: Option<Seq<char>>) -> Seq<char> {
    match o {
        Some(s) => s,
        None => Seq::empty(),
    }
}

/// `prefix` followed by the part, or nothing where the part is absent.
pub open spec fn prefixed_or_empty(prefix: Seq<char>, o: Option<Seq<char>>) -> Seq<char> {
    match o {
        Some(s) => prefix + s,
        None => Seq::empty(),
    }
}

/// The decimal port, or nothing.
pub open spec fn port_text(p: Option<u16>) -> Seq<char> {
    match p {
        Some(n) => decimal(n as nat),
        None => Seq::empty(),
    }
}

/// Whether `p` holds the properties of the URL with components `c`.
pub open spec fn parts_of(p: UrlParts, c: UrlView) -> bool {
    let (href, scheme, host, port, path, query, fragment) = c;
    &&& p.href@ == href
    &&& p.protocol@ == scheme + ":"@
    &&& p.hostname@ == or_empty(host)
    &&& p.host@ == (match port {
        Some(n) => or_empty(host) + ":"@ + decimal(n as nat),
        None => or_empty(host),
    })
    &&& p.port@ == port_text(port)
    &&& p.pathname@ == path
    &&& p.search@ == prefixed_or_empty("?"@, query)
    &&& p.hash@ == prefixed_or_empty("#"@, fragment)
    &&& p.query@ == or_empty(query)
}

fn text_or_empty(o: &Option<String>) -> (r: String)
    ensures
        r@ == or_empty(opt_view(*o)),
{
    match o {
        Some(s) => s.clone(),
        None => String::new(),
    }
}

fn prefixed(prefix: &str, o: &Option<String>) -> (r: String)
    ensures
        r@ == prefixed_or_empty(prefix@, opt_view(*o)),
{
    match o {
        Some(s) => {
            let mut t = String::from_str(prefix);
            t.append(s.as_str());
            t
        },
        None => String::new(),
    }
}

fn parts_from(c: &UrlComponents) -> (r: UrlParts)
    ensures
        parts_of(r, c.view_parts()),
{
    let mut protocol = c.scheme.clone();
    protocol.append(":");
    let hostname = text_or_empty(&c.host);
    let (host, port) = match c.port {
        Some(n) => {
            let digits = decimal_string(n as usize);
            let mut h = hostname.clone();
            h.append(":");
            h.append(digits.as_str());
            (h, digits)
        },
        None => (hostname.clone(), String::new()),
    };
    UrlParts {
        href: c.href.clone(),
        protocol,
        host,
        hostname,
        port,
        pathname: c.path.clone(),
        search: prefixed("?", &c.query),
        hash: prefixed("#", &c.fragment),
        query: text_or_empty(&c.query),
    }
}

/// What the `URL` constructor sets: the parts of `s` parsed as a URL, or,
/// where it does not parse, those of `http://localhost/`.
pub fn url_parts(s: &str) -> (r: Option<UrlParts>)
    ensures
        match url_parsed(s@) {
            Some(c) => r is Some && parts_of(r->0, c),
            None => match url_parsed("http://localhost/"@) {
                Some(c) => r is Some && parts_of(r->0, c),
                None => r is None,
            },
        },
{
    match parse_url(s) {
        Some(c) => Some(parts_from(&c)),
        None => match parse_url("http://localhost/") {
            Some(c) => Some(parts_from(&c)),
            None => None,
        },
    }
}

/// The pieces of `s` between `&` separators, as `str::split('&')` cuts
/// them: `n` separators make `n + 1` pieces.
pub open spec fn amp_segments(s: Seq<char>) -> Seq<Seq<char>>
    decreases s.len(),
{
    if s.len() == 0 {
        seq![Seq::<char>::empty()]
    } else {
        let p = amp_segments(s.drop_last());
        if s.last() == '&' {
            p.push(Seq::<char>::empty())
        } else {
            p.update(p.len() - 1, p.last().push(s.last()))
        }
    }
}

proof fn lemma_segments_nonempty(s: Seq<char>)
    ensures
        amp_segments(s).len() >= 1,
    decreases s.len(),
{
    if s.len() > 0 {
        lemma_segments_nonempty(s.drop_last());
    }
}

/// The index of the first `=` in `seg`, if any.
pub open spec fn first_eq(seg: Seq<char>) -> Option<int>
    decreases seg.len(),
{
    if seg.len() == 0 {
        None
    } else {
        match first_eq(seg.drop_last()) {
            Some(k) => Some(k),
            None => if seg.last() == '=' {
                Some(seg.len() - 1)
            } else {
                None
            },
        }
    }
}

/// The pair a query piece gives: the text before and after its first `=`,
/// or the whole piece and an empty value; an empty piece gives none.
pub open spec fn pair_of(seg: Seq<char>) -> Option<(Seq<char>, Seq<char>)> {
    match first_eq(seg) {
        Some(k) => Some((seg.subrange(0, k), seg.subrange(k + 1, seg.len() as int))),
        None => if seg.len() > 0 {
            Some((seg, Seq::<char>::empty()))
        } else {
            None
        },
    }
}

/// The pairs of the pieces, in order.
pub open spec fn pairs_of(segs: Seq<Seq<char>>) -> Seq<(Seq<char>, Seq<char>)>
    decreases segs.len(),
{
    if segs.len() == 0 {
        Seq::empty()
    } else {
        let r = pairs_of(segs.drop_last());
        match pair_of(segs.last()) {
            Some(p) => r.push(p),
            None => r,
        }
    }
}

/// The pairs of a query string such as `a=1&b=2`, in order.
pub open spec fn query_pairs(q: Seq<char>) -> Seq<(Seq<char>, Seq<char>)> {
    pairs_of(amp_segments(q))
}

/// The view of a pair of strings.
pub open spec fn pair_view(p: (String, String)) -> (Seq<char>, Seq<char>) {
    (p.0@, p.1@)
}

/// The view of a list of string pairs.
pub open spec fn pairs_view(v: Seq<(String, String)>) -> Seq<(Seq<char>, Seq<char>)> {
    v.map_values(|p: (String, String)| pair_view(p))
}

fn segment_pair(seg: &[char]) -> (r: Option<(String, String)>)
    ensures
        match pair_of(seg@) {
            Some(p) => r is Some && pair_view(r->0) == p,
            None => r is None,
        },
{
    let mut i: usize = 0;
    while i < seg.len()
        invariant
            i <= seg@.len(),
            first_eq(seg@.subrange(0, i as int)) is None,
        decreases seg@.len() - i,
    {
        assert(seg@.subrange(0, i + 1).drop_last() =~= seg@.subrange(0, i as int));
        if seg[i] == '=' {
            proof {
                lemma_first_eq_prefix(seg@, i as int);
            }
            let key = string_from_chars(chars_slice(seg, 0, i).as_slice());
            let value = string_from_chars(chars_slice(seg, i + 1, seg.len()).as_slice());
            return Some((key, value));
        }
        i = i + 1;
    }
    assert(seg@.subrange(0, seg@.len() as int) =~= seg@);
    if seg.len() > 0 {
        Some((string_from_chars(seg), String::new()))
    } else {
        None
    }
}

proof fn lemma_first_eq_prefix(seg: Seq<char>, i: int)
    requires
        0 <= i < seg.len(),
        first_eq(seg.subrange(0, i)) is None,
        seg[i] == '=',
    ensures
        first_eq(seg) == Some(i),
    decreases seg.len(),
{
    if i < seg.len() - 1 {
        assert(seg.drop_last().subrange(0, i) =~= seg.subrange(0, i));
        lemma_first_eq_prefix(seg.drop_last(), i);
    } else {
        assert(seg.drop_last() =~= seg.subrange(0, i));
    }
}

/// `URLSearchParams`' reading of its initial query string: the pieces
/// between `&`, each split at its first `=` (a piece without one is a key
/// with an empty value; an empty piece is skipped), in order.
pub fn parse_query(q: &str) -> (r: Vec<(String, String)>)
    ensures
        pairs_view(r@) == query_pairs(q@),
{
    let chars = str_chars(q);
    let mut out: Vec<(String, String)> = Vec::new();
    let mut cur: Vec<char> = Vec::new();
    let mut i: usize = 0;
    proof {
        lemma_segments_nonempty(chars@.subrange(0, 0));
        assert(chars@.subrange(0, 0) =~= Seq::<char>::empty());
    }
    while i < chars.len()
        invariant
            i <= chars@.len(),
            amp_segments(chars@.subrange(0, i as int)).len() >= 1,
            cur@ == amp_segments(chars@.subrange(0, i as int)).last(),
            pairs_view(out@) == pairs_of(amp_segments(chars@.subrange(0, i as int)).drop_last()),
        decreases chars@.len() - i,
    {
        let ghost pre = chars@.subrange(0, i as int);
        let ghost next = chars@.subrange(0, i + 1);
        assert(next.drop_last() =~= pre);
        proof {
            lemma_segments_nonempty(next);
        }
        let c = chars[i];
        if c == '&' {
            let p = segment_pair(cur.as_slice());
            let ghost before = out@;
            match p {
                Some(kv) => {
                    out.push(kv);
                    assert(pairs_view(out@) =~= pairs_view(before).push(pair_view(kv)));
                },
                None => {},
            }
            assert(amp_segments(next).drop_last() =~= amp_segments(pre));
            cur = Vec::new();
        } else {
            cur.push(c);
            assert(amp_segments(next).drop_last() =~= amp_segments(pre).drop_last());
        }
        i = i + 1;
    }
    assert(chars@.subrange(0, chars@.len() as int) =~= q@);
    let ghost segs = amp_segments(q@);
    let p = segment_pair(cur.as_slice());
    let ghost before = out@;
    match p {
        Some(kv) => {
            out.push(kv);
            assert(pairs_view(out@) =~= pairs_view(before).push(pair_view(kv)));
        },
        None => {},
    }
    assert(segs.drop_last().push(segs.last()) =~= segs);
    out
}

} // verus!
