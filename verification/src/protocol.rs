//! Parsing of custom-protocol deep links.
//!
//! A deep link is `{scheme}://{host}?{query}`: the host names the action
//! (`open`, `import` or `pro`) and the query carries the payload as a
//! form-urlencoded string. The grammar below covers the shape these links
//! take: an ASCII scheme, an authority whose host is read up to a
//! userinfo mark, port or path, a raw query kept verbatim for the payload
//! decoder, and a fragment that ends everything.

use vstd::prelude::*;
use crate::json::{self, JsonScalar, SpecScalar};
use crate::messages::{ImportWorkspaceMsg, OpenWorkspaceMsg, SetupProMsg, UiMessage};
use crate::strutil::{
    find_from,
    lemma_find_from,
    find_char,
    string_range,
    str_eq,
    to_lower_ascii,
    lower_chars,
    push_char,
};

verus! {

/// Failure to read a deep link.
#[derive(Debug, Clone)]
pub enum ParseError {
    /// The link's host is not an allowed action.
    UnsupportedHost(String),
    /// The link or its query cannot be parsed; carries the offending
    /// text.
    InvalidQuery(String),
}

/// A parsed deep link: the action host and the raw query string.
pub struct Request {
    pub host: String,
    pub query: String,
}

/// ASCII letter.
pub open spec fn is_alpha_char(c: char) -> bool {
    ('a' <= c <= 'z') || ('A' <= c <= 'Z')
}

/// Character allowed in a scheme after the first.
pub open spec fn is_scheme_char(c: char) -> bool {
    is_alpha_char(c) || ('0' <= c <= '9') || c == '+' || c == '-' || c == '.'
}

/// A well-formed scheme: a letter, then letters, digits, `+`, `-`, `.`.
pub open spec fn spec_valid_scheme(s: Seq<char>) -> bool {
    s.len() >= 1 && is_alpha_char(s[0]) && forall|i: int| 0 <= i < s.len() ==> is_scheme_char(#[trigger] s[i])
}

/// The host and raw query denoted by a link, or nothing when the link
/// cannot be parsed. The text is cut at the first `#`; the scheme runs to
/// the first `:`. With `//` an authority follows: the host is what stands
/// after a userinfo mark and before a port, path or query, lower-cased;
/// without `//` there is no host and the placeholder stands in. The query
/// is whatever follows the first `?`, verbatim.
pub open spec fn spec_parse_url(s: Seq<char>) -> Option<(Seq<char>, Seq<char>)> {
    let frag = match find_from(s, 0, '#') {
        Some(f) => f,
        None => s.len() as int,
    };
    let t = s.take(frag);
    match find_from(t, 0, ':') {
        None => None,
        Some(p) => {
            if !spec_valid_scheme(t.take(p)) {
                None
            } else if p + 2 < t.len() && t[p + 1] == '/' && t[p + 2] == '/' {
                let a0 = p + 3;
                let slash = find_from(t, a0, '/');
                let qm = find_from(t, a0, '?');
                let auth_end = if slash is Some && (qm is None || slash->0 <= qm->0) {
                    slash->0
                } else if qm is Some {
                    qm->0
                } else {
                    t.len() as int
                };
                let host_start = match find_from(t, a0, '@') {
                    Some(at) => if at < auth_end {
                        at + 1
                    } else {
                        a0
                    },
                    None => a0,
                };
                let host_end = match find_from(t, host_start, ':') {
                    Some(c) => if c < auth_end {
                        c
                    } else {
                        auth_end
                    },
                    None => auth_end,
                };
                let host = lower_chars(t.subrange(host_start, host_end));
                let query = match qm {
                    Some(q) => t.skip(q + 1),
                    None => Seq::<char>::empty(),
                };
                Some((host, query))
            } else {
                let query = match find_from(t, p + 1, '?') {
                    Some(q) => t.skip(q + 1),
                    None => Seq::<char>::empty(),
                };
                Some(("no host"@, query))
            }
        },
    }
}

pub struct UrlParser {}

impl UrlParser {
    /// Whether a host names an allowed action.
    pub fn is_allowed_method(host_str: &str) -> (r: bool)
        ensures
            r == (host_str@ == "open"@ || host_str@ == "import"@ || host_str@ == "pro"@),
    {
        str_eq(host_str, "open") || str_eq(host_str, "import") || str_eq(host_str, "pro")
    }

    /// Parses a deep link. An unreadable link fails with the whole link
    /// as the offending text; a readable one whose host is not an allowed
    /// action fails with that host.
    #[verifier::rlimit(50)]
    pub fn parse(url_scheme: &str) -> (r: Result<Request, ParseError>)
        ensures
            match spec_parse_url(url_scheme@) {
                None => r is Err,
                Some(hq) => {
                    if hq.0 == "open"@ || hq.0 == "import"@ || hq.0 == "pro"@ {
                        match r {
                            Ok(req) => req.host@ == hq.0 && req.query@ == hq.1,
                            Err(_) => false,
                        }
                    } else {
                        r is Err
                    }
                },
            },
    {
        let len = url_scheme.unicode_len();
        let frag = match find_char(url_scheme, 0, '#') {
            Some(f) => {
                proof {
                    lemma_find_from(url_scheme@, 0, '#');
                }
                f
            },
            None => len,
        };
        let t_str = url_scheme.substring_char(0, frag);
        let ghost t = url_scheme@.take(frag as int);
        let tlen = frag;
        proof {
            assert(t_str@ =~= t);
        }
        let p = match find_char(t_str, 0, ':') {
            Some(p) => {
                proof {
                    lemma_find_from(t, 0, ':');
                }
                p
            },
            None => {
                return Err(ParseError::InvalidQuery(url_scheme.to_owned()));
            },
        };
        // validate the scheme
        if p < 1 {
            return Err(ParseError::InvalidQuery(url_scheme.to_owned()));
        }
        let c0 = t_str.get_char(0);
        if !((c0 >= 'a' && c0 <= 'z') || (c0 >= 'A' && c0 <= 'Z')) {
            proof {
                assert(!spec_valid_scheme(t.take(p as int)));
            }
            return Err(ParseError::InvalidQuery(url_scheme.to_owned()));
        }
        let mut i: usize = 0;
        while i < p
            invariant
                0 <= i <= p < tlen,
                tlen == t.len(),
                t_str@ == t,
                t == url_scheme@.take(
                    match find_from(url_scheme@, 0, '#') {
                        Some(f) => f,
                        None => url_scheme@.len() as int,
                    },
                ),
                find_from(t, 0, ':') == Some(p as int),
                forall|j: int| 0 <= j < i ==> is_scheme_char(#[trigger] t.take(p as int)[j]),
            decreases p - i,
        {
            let c = t_str.get_char(i);
            let ok = (c >= 'a' && c <= 'z') || (c >= 'A' && c <= 'Z') || (c >= '0' && c <= '9')
                || c == '+' || c == '-' || c == '.';
            if !ok {
                proof {
                    assert(t.take(p as int)[i as int] == t[i as int]);
                    assert(!spec_valid_scheme(t.take(p as int)));
                }
                return Err(ParseError::InvalidQuery(url_scheme.to_owned()));
            }
            proof {
                assert(t.take(p as int)[i as int] == t[i as int]);
            }
            i = i + 1;
        }
        proof {
            assert(spec_valid_scheme(t.take(p as int)));
        }
        let host: String;
        let query: String;
        if tlen - p > 2 && t_str.get_char(p + 1) == '/' && t_str.get_char(p + 2) == '/' {
            let a0 = p + 3;
            let slash = find_char(t_str, a0, '/');
            let qm = find_char(t_str, a0, '?');
            proof {
                lemma_find_from(t, a0 as int, '/');
                lemma_find_from(t, a0 as int, '?');
            }
            let auth_end: usize = match (slash, qm) {
                (Some(sl), None) => sl,
                (Some(sl), Some(q)) => if sl <= q {
                    sl
                } else {
                    q
                },
                (None, Some(q)) => q,
                (None, None) => tlen,
            };
            let host_start: usize = match find_char(t_str, a0, '@') {
                Some(at) => {
                    proof {
                        lemma_find_from(t, a0 as int, '@');
                    }
                    if at < auth_end {
                        at + 1
                    } else {
                        a0
                    }
                },
                None => a0,
            };
            proof {
                assert(host_start <= tlen);
            }
            let host_end: usize = match find_char(t_str, host_start, ':') {
                Some(c) => {
                    proof {
                        lemma_find_from(t, host_start as int, ':');
                    }
                    if c < auth_end {
                        c
                    } else {
                        auth_end
                    }
                },
                None => auth_end,
            };
            proof {
                assert(host_start <= host_end <= tlen);
            }
            let host_raw = string_range(t_str, host_start, host_end);
            host = to_lower_ascii(host_raw.as_str());
            query = match qm {
                Some(q) => string_range(t_str, q + 1, tlen),
                None => String::new(),
            };
        } else {
            host = String::from_str("no host");
            query = match find_char(t_str, p + 1, '?') {
                Some(q) => {
                    proof {
                        lemma_find_from(t, p as int + 1, '?');
                    }
                    string_range(t_str, q + 1, tlen)
                },
                None => String::new(),
            };
        }
        if UrlParser::is_allowed_method(host.as_str()) {
            Ok(Request { host, query })
        } else {
            Err(ParseError::UnsupportedHost(host))
        }
    }
}

/// Hexadecimal digit.
pub open spec fn is_hex_char(c: char) -> bool {
    ('0' <= c <= '9') || ('a' <= c <= 'f') || ('A' <= c <= 'F')
}

/// Value of a hexadecimal digit.
pub open spec fn hex_val(c: char) -> int {
    if '0' <= c <= '9' {
        c as u32 - '0' as u32
    } else if 'a' <= c <= 'f' {
        c as u32 - 'a' as u32 + 10
    } else {
        c as u32 - 'A' as u32 + 10
    }
}

/// Percent-decoding of form-urlencoded text: `%xy` becomes the byte it
/// names, `+` becomes a space, everything else stands for itself. An
/// incomplete escape, or one naming a byte outside ASCII, is outside the
/// grammar.
pub open spec fn spec_pct_decode(s: Seq<char>) -> Option<Seq<char>>
    decreases s.len()
{
    if s.len() == 0 {
        Some(Seq::<char>::empty())
    } else if s[0] == '%' {
        if s.len() >= 3 && is_hex_char(s[1]) && is_hex_char(s[2]) {
            let b = 16 * hex_val(s[1]) + hex_val(s[2]);
            if b < 0x80 {
                match spec_pct_decode(s.skip(3)) {
                    Some(r) => Some(seq![((b as u8) as char)] + r),
                    None => None,
                }
            } else {
                None
            }
        } else {
            None
        }
    } else if s[0] == '+' {
        match spec_pct_decode(s.skip(1)) {
            Some(r) => Some(seq![' '] + r),
            None => None,
        }
    } else {
        match spec_pct_decode(s.skip(1)) {
            Some(r) => Some(seq![s[0]] + r),
            None => None,
        }
    }
}

/// Percent-decodes one form-urlencoded token.
pub fn pct_decode(s: &str) -> (r: Option<String>)
    ensures
        match r {
            Some(v) => spec_pct_decode(s@) == Some(v@),
            None => spec_pct_decode(s@) is None,
        },
{
    let len = s.unicode_len();
    let mut out = String::new();
    let mut i: usize = 0;
    proof {
        assert(s@.skip(0) =~= s@);
        if spec_pct_decode(s@) is Some {
            let t = spec_pct_decode(s@)->0;
            assert(out@ + t =~= t);
        }
    }
    loop
        invariant
            0 <= i <= len,
            len == s@.len(),
            match spec_pct_decode(s@.skip(i as int)) {
                Some(t) => spec_pct_decode(s@) == Some(out@ + t),
                None => spec_pct_decode(s@) is None,
            },
        decreases len - i,
    {
        let ghost rem = s@.skip(i as int);
        let ghost pre = out@;
        if i >= len {
            proof {
                assert(rem =~= Seq::<char>::empty());
                assert(pre + Seq::<char>::empty() =~= pre);
            }
            return Some(out);
        }
        proof {
            assert(rem[0] == s@[i as int]);
        }
        let c = s.get_char(i);
        if c == '%' {
            if len - i < 3 {
                proof {
                    assert(rem.len() < 3);
                }
                return None;
            }
            proof {
                assert(rem[1] == s@[i as int + 1]);
                assert(rem[2] == s@[i as int + 2]);
            }
            let h1 = s.get_char(i + 1);
            let h2 = s.get_char(i + 2);
            let v1 = hex_digit_value(h1);
            let v2 = hex_digit_value(h2);
            match (v1, v2) {
                (Some(a), Some(b)) => {
                    let byte: u8 = a * 16 + b;
                    if byte >= 0x80 {
                        return None;
                    }
                    push_char(&mut out, byte as char);
                    proof {
                        assert(rem.skip(3) =~= s@.skip(i as int + 3));
                        assert(out@ =~= pre + seq![byte as char]);
                        if spec_pct_decode(s@.skip(i as int + 3)) is Some {
                            let t = spec_pct_decode(s@.skip(i as int + 3))->0;
                            assert(pre + (seq![byte as char] + t) =~= out@ + t);
                        }
                    }
                    i = i + 3;
                },
                _ => {
                    return None;
                },
            }
        } else {
            let d: char = if c == '+' {
                ' '
            } else {
                c
            };
            push_char(&mut out, d);
            proof {
                assert(rem.skip(1) =~= s@.skip(i as int + 1));
                assert(out@ =~= pre + seq![d]);
                if spec_pct_decode(s@.skip(i as int + 1)) is Some {
                    let t = spec_pct_decode(s@.skip(i as int + 1))->0;
                    assert(pre + (seq![d] + t) =~= out@ + t);
                }
            }
            i = i + 1;
        }
    }
}

/// The value of one hexadecimal digit character.
pub fn hex_digit_value(c: char) -> (r: Option<u8>)
    ensures
        match r {
            Some(v) => is_hex_char(c) && v == hex_val(c) && v < 16,
            None => !is_hex_char(c),
        },
{
    if c >= '0' && c <= '9' {
        Some(((c as u32) - ('0' as u32)) as u8)
    } else if c >= 'a' && c <= 'f' {
        Some(((c as u32) - ('a' as u32) + 10) as u8)
    } else if c >= 'A' && c <= 'F' {
        Some(((c as u32) - ('A' as u32) + 10) as u8)
    } else {
        None
    }
}

/// One `key=value` segment: an empty segment carries nothing; a missing
/// `=` leaves the value empty; key and value are percent-decoded.
pub open spec fn spec_seg_pair(seg: Seq<char>) -> Option<Option<(Seq<char>, Seq<char>)>> {
    if seg.len() == 0 {
        Some(None)
    } else {
        let kraw = match find_from(seg, 0, '=') {
            Some(e) => seg.take(e),
            None => seg,
        };
        let vraw = match find_from(seg, 0, '=') {
            Some(e) => seg.skip(e + 1),
            None => Seq::<char>::empty(),
        };
        match (spec_pct_decode(kraw), spec_pct_decode(vraw)) {
            (Some(k), Some(v)) => Some(Some((k, v))),
            _ => None,
        }
    }
}

/// The decoded pairs of a form-urlencoded string, in order; empty
/// segments are skipped.
pub open spec fn spec_form_pairs(s: Seq<char>) -> Option<Seq<(Seq<char>, Seq<char>)>>
    decreases s.len() when true via spec_form_pairs_decreases
{
    if s.len() == 0 {
        Some(Seq::<(Seq<char>, Seq<char>)>::empty())
    } else {
        let seg = match find_from(s, 0, '&') {
            Some(a) => s.take(a),
            None => s,
        };
        let rest = match find_from(s, 0, '&') {
            Some(a) => s.skip(a + 1),
            None => Seq::<char>::empty(),
        };
        match spec_form_pairs(rest) {
            None => None,
            Some(tail) => match spec_seg_pair(seg) {
                None => None,
                Some(None) => Some(tail),
                Some(Some(kv)) => Some(seq![kv] + tail),
            },
        }
    }
}

#[via_fn]
proof fn spec_form_pairs_decreases(s: Seq<char>) {
    if s.len() > 0 {
        lemma_find_from(s, 0, '&');
    }
}

/// Parses one `key=value` segment.
pub fn seg_pair(seg: &str) -> (r: Option<Option<(String, String)>>)
    ensures
        match r {
            Some(Some(kv)) => spec_seg_pair(seg@) == Some(Some((kv.0@, kv.1@))),
            Some(None) => spec_seg_pair(seg@) == Some(None::<(Seq<char>, Seq<char>)>),
            None => spec_seg_pair(seg@) is None,
        },
{
    let len = seg.unicode_len();
    if len == 0 {
        return Some(None);
    }
    let (kraw, vraw) = match find_char(seg, 0, '=') {
        Some(e) => {
            proof {
                lemma_find_from(seg@, 0, '=');
            }
            let k = seg.substring_char(0, e);
            let v = seg.substring_char(e + 1, len);
            proof {
                assert(v@ =~= seg@.skip(e as int + 1));
            }
            (k, v)
        },
        None => {
            let v = seg.substring_char(len, len);
            proof {
                assert(seg@.subrange(0, seg@.len() as int) =~= seg@);
                assert(v@ =~= Seq::<char>::empty());
            }
            (seg.substring_char(0, len), v)
        },
    };
    match (pct_decode(kraw), pct_decode(vraw)) {
        (Some(k), Some(v)) => Some(Some((k, v))),
        _ => None,
    }
}

/// Decodes a form-urlencoded string into its pairs.
pub fn parse_form_pairs(s: &str) -> (r: Option<Vec<(String, String)>>)
    ensures
        match r {
            Some(ps) => spec_form_pairs(s@) == Some(pair_views(ps@)),
            None => spec_form_pairs(s@) is None,
        },
{
    let len = s.unicode_len();
    let mut out: Vec<(String, String)> = Vec::new();
    let mut i: usize = 0;
    proof {
        assert(s@.skip(0) =~= s@);
        assert(pair_views(out@) =~= Seq::<(Seq<char>, Seq<char>)>::empty());
        if spec_form_pairs(s@) is Some {
            let t = spec_form_pairs(s@)->0;
            assert(pair_views(out@) + t =~= t);
        }
    }
    loop
        invariant
            0 <= i <= len,
            len == s@.len(),
            match spec_form_pairs(s@.skip(i as int)) {
                Some(t) => spec_form_pairs(s@) == Some(pair_views(out@) + t),
                None => spec_form_pairs(s@) is None,
            },
        decreases len + 1 - i,
    {
        let ghost rem = s@.skip(i as int);
        let ghost pre = pair_views(out@);
        if i >= len {
            proof {
                assert(rem =~= Seq::<char>::empty());
                assert(pre + Seq::<(Seq<char>, Seq<char>)>::empty() =~= pre);
            }
            return Some(out);
        }
        let rem_str = s.substring_char(i, len);
        proof {
            assert(rem_str@ =~= rem);
            lemma_find_from(rem, 0, '&');
        }
        let rlen = len - i;
        let (seg_end, next_i) = match find_char(rem_str, 0, '&') {
            Some(a) => (a, i + a + 1),
            None => (rlen, len),
        };
        let seg_str = rem_str.substring_char(0, seg_end);
        proof {
            match find_from(rem, 0, '&') {
                Some(a) => {
                    assert(seg_str@ =~= rem.take(a));
                    assert(s@.skip(next_i as int) =~= rem.skip(a + 1));
                },
                None => {
                    assert(seg_str@ =~= rem);
                    assert(s@.skip(len as int) =~= Seq::<char>::empty());
                },
            }
        }
        match seg_pair(seg_str) {
            None => {
                return None;
            },
            Some(None) => {},
            Some(Some(kv)) => {
                let ghost kvv = (kv.0@, kv.1@);
                out.push(kv);
                proof {
                    assert(pair_views(out@) =~= pre.push(kvv));
                    if spec_form_pairs(s@.skip(next_i as int)) is Some {
                        let t = spec_form_pairs(s@.skip(next_i as int))->0;
                        assert(pre + (seq![kvv] + t) =~= pair_views(out@) + t);
                    }
                }
            },
        }
        i = next_i;
    }
}

/// The views of a pair list.
pub open spec fn pair_views(v: Seq<(String, String)>) -> Seq<(Seq<char>, Seq<char>)> {
    v.map_values(|p: (String, String)| (p.0@, p.1@))
}

/// The value of the last pair with the given key, if any: later values
/// win, as in a map built front to back.
pub open spec fn spec_map_get(ps: Seq<(Seq<char>, Seq<char>)>, k: Seq<char>) -> Option<Seq<char>>
    decreases ps.len()
{
    if ps.len() == 0 {
        None
    } else if ps.last().0 == k {
        Some(ps.last().1)
    } else {
        spec_map_get(ps.drop_last(), k)
    }
}

/// Looks a key up among decoded pairs; the last value wins.
pub fn map_get(ps: &Vec<(String, String)>, k: &str) -> (r: Option<String>)
    ensures
        match r {
            Some(v) => spec_map_get(pair_views(ps@), k@) == Some(v@),
            None => spec_map_get(pair_views(ps@), k@) is None,
        },
{
    let ghost all = pair_views(ps@);
    let mut cur: Option<String> = None;
    let mut i: usize = 0;
    proof {
        assert(all.take(0) =~= Seq::<(Seq<char>, Seq<char>)>::empty());
    }
    while i < ps.len()
        invariant
            0 <= i <= ps@.len(),
            all == pair_views(ps@),
            match cur {
                Some(v) => spec_map_get(all.take(i as int), k@) == Some(v@),
                None => spec_map_get(all.take(i as int), k@) is None,
            },
        decreases ps@.len() - i,
    {
        proof {
            assert(all[i as int] == (ps@[i as int].0@, ps@[i as int].1@));
            assert(all.take(i as int + 1).drop_last() =~= all.take(i as int));
            assert(all.take(i as int + 1).last() == all[i as int]);
        }
        if str_eq(ps[i].0.as_str(), k) {
            cur = Some(ps[i].1.clone());
        }
        i = i + 1;
    }
    proof {
        assert(all.take(ps@.len() as int) =~= all);
    }
    cur
}

/// Whether two optional strings denote the same optional text.
pub open spec fn opt_str_is(o: Option<String>, s: Option<Seq<char>>) -> bool {
    match (o, s) {
        (Some(a), Some(b)) => a@ == b,
        (None, None) => true,
        _ => false,
    }
}

/// A key the open-workspace payload knows.
pub open spec fn spec_known_open_key(k: Seq<char>) -> bool {
    k == "workspace"@ || k == "provider"@ || k == "ide"@ || k == "source"@
}

/// The open-workspace payload of a query: every pair must use a known
/// key; each field is the last value given for its key.
pub open spec fn spec_open_msg(q: Seq<char>) -> Option<(
    Option<Seq<char>>,
    Option<Seq<char>>,
    Option<Seq<char>>,
    Option<Seq<char>>,
)> {
    match spec_form_pairs(q) {
        None => None,
        Some(ps) => if forall|i: int| 0 <= i < ps.len() ==> spec_known_open_key(#[trigger] ps[i].0) {
            Some(
                (
                    spec_map_get(ps, "workspace"@),
                    spec_map_get(ps, "provider"@),
                    spec_map_get(ps, "ide"@),
                    spec_map_get(ps, "source"@),
                ),
            )
        } else {
            None
        },
    }
}

/// Parses the query of an `open` deep link.
pub fn parse_open_workspace_msg(query: &str) -> (r: Result<OpenWorkspaceMsg, ParseError>)
    ensures
        match spec_open_msg(query@) {
            None => r is Err,
            Some(t) => match r {
                Ok(m) => opt_str_is(m.workspace_id, t.0) && opt_str_is(m.provider_id, t.1)
                    && opt_str_is(m.ide, t.2) && opt_str_is(m.source, t.3),
                Err(_) => false,
            },
        },
{
    let ps = match parse_form_pairs(query) {
        Some(ps) => ps,
        None => {
            return Err(ParseError::InvalidQuery(query.to_owned()));
        },
    };
    let ghost all = pair_views(ps@);
    let mut i: usize = 0;
    while i < ps.len()
        invariant
            0 <= i <= ps@.len(),
            all == pair_views(ps@),
            spec_form_pairs(query@) == Some(all),
            forall|j: int| 0 <= j < i ==> spec_known_open_key(#[trigger] all[j].0),
        decreases ps@.len() - i,
    {
        proof {
            assert(all[i as int] == (ps@[i as int].0@, ps@[i as int].1@));
        }
        let k = ps[i].0.as_str();
        let known = str_eq(k, "workspace") || str_eq(k, "provider") || str_eq(k, "ide") || str_eq(
            k,
            "source",
        );
        if !known {
            proof {
                assert(!spec_known_open_key(all[i as int].0));
            }
            return Err(ParseError::InvalidQuery(query.to_owned()));
        }
        i = i + 1;
    }
    Ok(
        OpenWorkspaceMsg {
            workspace_id: map_get(&ps, "workspace"),
            provider_id: map_get(&ps, "provider"),
            ide: map_get(&ps, "ide"),
            source: map_get(&ps, "source"),
        },
    )
}

/// A key the import payload consumes; everything else rides along as an
/// option.
pub open spec fn spec_known_import_key(k: Seq<char>) -> bool {
    k == "workspace-id"@ || k == "workspace-uid"@ || k == "devpod-pro-host"@ || k == "project"@
}

/// The pairs whose keys the import payload does not consume, in order.
pub open spec fn spec_residual(ps: Seq<(Seq<char>, Seq<char>)>) -> Seq<(Seq<char>, Seq<char>)>
    decreases ps.len()
{
    if ps.len() == 0 {
        Seq::<(Seq<char>, Seq<char>)>::empty()
    } else if !spec_known_import_key(ps.last().0) {
        spec_residual(ps.drop_last()).push(ps.last())
    } else {
        spec_residual(ps.drop_last())
    }
}

/// The import payload of a query: the four named fields are required —
/// the last value wins — and the remaining pairs become options.
pub open spec fn spec_import_msg(q: Seq<char>) -> Option<(
    Seq<char>,
    Seq<char>,
    Seq<char>,
    Seq<char>,
    Seq<(Seq<char>, Seq<char>)>,
)> {
    match spec_form_pairs(q) {
        None => None,
        Some(ps) => match (
            spec_map_get(ps, "workspace-id"@),
            spec_map_get(ps, "workspace-uid"@),
            spec_map_get(ps, "devpod-pro-host"@),
            spec_map_get(ps, "project"@),
        ) {
            (Some(a), Some(b), Some(c), Some(d)) => Some((a, b, c, d, spec_residual(ps))),
            _ => None,
        },
    }
}

/// Parses the query of an `import` deep link.
pub fn parse_import_workspace_msg(query: &str) -> (r: Result<ImportWorkspaceMsg, ParseError>)
    ensures
        match spec_import_msg(query@) {
            None => r is Err,
            Some(t) => match r {
                Ok(m) => m.workspace_id@ == t.0 && m.workspace_uid@ == t.1
                    && m.devpod_pro_host@ == t.2 && m.project@ == t.3 && pair_views(m.options@)
                    == t.4,
                Err(_) => false,
            },
        },
{
    let ps = match parse_form_pairs(query) {
        Some(ps) => ps,
        None => {
            return Err(ParseError::InvalidQuery(query.to_owned()));
        },
    };
    let workspace_id = match map_get(&ps, "workspace-id") {
        Some(v) => v,
        None => {
            return Err(ParseError::InvalidQuery(query.to_owned()));
        },
    };
    let workspace_uid = match map_get(&ps, "workspace-uid") {
        Some(v) => v,
        None => {
            return Err(ParseError::InvalidQuery(query.to_owned()));
        },
    };
    let devpod_pro_host = match map_get(&ps, "devpod-pro-host") {
        Some(v) => v,
        None => {
            return Err(ParseError::InvalidQuery(query.to_owned()));
        },
    };
    let project = match map_get(&ps, "project") {
        Some(v) => v,
        None => {
            return Err(ParseError::InvalidQuery(query.to_owned()));
        },
    };
    let ghost all = pair_views(ps@);
    let mut options: Vec<(String, String)> = Vec::new();
    let mut i: usize = 0;
    proof {
        assert(all.take(0) =~= Seq::<(Seq<char>, Seq<char>)>::empty());
        assert(pair_views(options@) =~= spec_residual(all.take(0)));
    }
    while i < ps.len()
        invariant
            0 <= i <= ps@.len(),
            all == pair_views(ps@),
            pair_views(options@) == spec_residual(all.take(i as int)),
        decreases ps@.len() - i,
    {
        let ghost pre = pair_views(options@);
        proof {
            assert(all[i as int] == (ps@[i as int].0@, ps@[i as int].1@));
            assert(all.take(i as int + 1).drop_last() =~= all.take(i as int));
            assert(all.take(i as int + 1).last() == all[i as int]);
        }
        let k = ps[i].0.as_str();
        let known = str_eq(k, "workspace-id") || str_eq(k, "workspace-uid") || str_eq(
            k,
            "devpod-pro-host",
        ) || str_eq(k, "project");
        if !known {
            let kv = (ps[i].0.clone(), ps[i].1.clone());
            options.push(kv);
            proof {
                assert(pair_views(options@) =~= pre.push(all[i as int]));
            }
        }
        i = i + 1;
    }
    proof {
        assert(all.take(ps@.len() as int) =~= all);
    }
    Ok(ImportWorkspaceMsg { workspace_id, workspace_uid, devpod_pro_host, project, options })
}

/// A string-valued JSON object: every value of the flat object must be a
/// string.
pub open spec fn spec_fold_strmap(pairs: Seq<(Seq<char>, SpecScalar)>) -> Option<Seq<(
    Seq<char>,
    Seq<char>,
)>>
    decreases pairs.len()
{
    if pairs.len() == 0 {
        Some(Seq::<(Seq<char>, Seq<char>)>::empty())
    } else {
        match pairs[0].1 {
            SpecScalar::Str(v) => match spec_fold_strmap(pairs.skip(1)) {
                Some(t) => Some(seq![(pairs[0].0, v)] + t),
                None => None,
            },
            _ => None,
        }
    }
}

/// The string map denoted by a JSON document.
pub open spec fn spec_json_string_map(s: Seq<char>) -> Option<Seq<(Seq<char>, Seq<char>)>> {
    match json::spec_flat_object(s) {
        Some(pairs) => spec_fold_strmap(pairs),
        None => None,
    }
}

/// Reads a string-valued JSON object into its pairs.
pub fn parse_json_string_map(s: &str) -> (r: Option<Vec<(String, String)>>)
    ensures
        match r {
            Some(ps) => spec_json_string_map(s@) == Some(pair_views(ps@)),
            None => spec_json_string_map(s@) is None,
        },
{
    let pairs = match json::parse_flat_object(s) {
        Some(p) => p,
        None => {
            return None;
        },
    };
    let ghost all = json::pairs_views(pairs@);
    let mut out: Vec<(String, String)> = Vec::new();
    let mut i: usize = 0;
    proof {
        assert(all.skip(0) =~= all);
        assert(pair_views(out@) =~= Seq::<(Seq<char>, Seq<char>)>::empty());
        if spec_fold_strmap(all) is Some {
            let t = spec_fold_strmap(all)->0;
            assert(pair_views(out@) + t =~= t);
        }
    }
    while i < pairs.len()
        invariant
            0 <= i <= pairs@.len(),
            all == json::pairs_views(pairs@),
            json::spec_flat_object(s@) == Some(all),
            match spec_fold_strmap(all.skip(i as int)) {
                Some(t) => spec_fold_strmap(all) == Some(pair_views(out@) + t),
                None => spec_fold_strmap(all) is None,
            },
        decreases pairs@.len() - i,
    {
        let ghost rest = all.skip(i as int);
        let ghost pre = pair_views(out@);
        proof {
            assert(all[i as int] == (pairs@[i as int].0@, pairs@[i as int].1@));
            assert(rest[0] == all[i as int]);
            assert(rest.skip(1) =~= all.skip(i as int + 1));
        }
        let value = match &pairs[i].1 {
            JsonScalar::Str(v) => v.clone(),
            _ => {
                return None;
            },
        };
        let ghost kvv = (pairs@[i as int].0@, value@);
        let key = pairs[i].0.clone();
        out.push((key, value));
        proof {
            assert(pair_views(out@) =~= pre.push(kvv));
            if spec_fold_strmap(all.skip(i as int + 1)) is Some {
                let t = spec_fold_strmap(all.skip(i as int + 1))->0;
                assert(pre + (seq![kvv] + t) =~= pair_views(out@) + t);
            }
        }
        i = i + 1;
    }
    proof {
        assert(all.skip(pairs@.len() as int) =~= Seq::<(Seq<char>, SpecScalar)>::empty());
        assert(pair_views(out@) + Seq::<(Seq<char>, Seq<char>)>::empty() =~= pair_views(out@));
    }
    Some(out)
}

/// The options of a pro-setup payload: the text is form-urlencoded, and
/// the key of its first pair is itself a string-valued JSON object.
pub open spec fn spec_setup_options(v: Seq<char>) -> Option<Seq<(Seq<char>, Seq<char>)>> {
    match spec_form_pairs(v) {
        None => None,
        Some(ps2) => if ps2.len() == 0 {
            None
        } else {
            spec_json_string_map(ps2[0].0)
        },
    }
}

/// The pro-setup payload read from decoded pairs: the host is required;
/// the access key may come under either of its two spellings; options,
/// when present, go through their own double decoding.
pub open spec fn spec_setup_from_pairs(ps: Seq<(Seq<char>, Seq<char>)>) -> Option<(
    Seq<char>,
    Option<Seq<char>>,
    Option<Seq<(Seq<char>, Seq<char>)>>,
)> {
    match spec_map_get(ps, "host"@) {
        None => None,
        Some(h) => {
            let ak = match spec_map_get(ps, "access_key"@) {
                Some(a) => Some(a),
                None => spec_map_get(ps, "accessKey"@),
            };
            match spec_map_get(ps, "options"@) {
                None => Some((h, ak, None)),
                Some(ov) => match spec_setup_options(ov) {
                    None => None,
                    Some(m) => Some((h, ak, Some(m))),
                },
            }
        },
    }
}

/// Whether a pro-setup message matches a denoted payload.
pub open spec fn setup_msg_is(
    m: SetupProMsg,
    t: (Seq<char>, Option<Seq<char>>, Option<Seq<(Seq<char>, Seq<char>)>>),
) -> bool {
    &&& m.host@ == t.0
    &&& opt_str_is(m.access_key, t.1)
    &&& match (m.options, t.2) {
        (Some(o), Some(sp)) => pair_views(o@) == sp,
        (None, None) => true,
        _ => false,
    }
}

/// Reads a pro-setup message out of decoded pairs.
pub fn setup_from_pairs(ps: &Vec<(String, String)>) -> (r: Option<SetupProMsg>)
    ensures
        match r {
            Some(m) => spec_setup_from_pairs(pair_views(ps@)) matches Some(t) && setup_msg_is(m, t),
            None => spec_setup_from_pairs(pair_views(ps@)) is None,
        },
{
    let host = match map_get(ps, "host") {
        Some(h) => h,
        None => {
            return None;
        },
    };
    let access_key = match map_get(ps, "access_key") {
        Some(a) => Some(a),
        None => map_get(ps, "accessKey"),
    };
    let options = match map_get(ps, "options") {
        None => None,
        Some(ov) => {
            let ps2 = match parse_form_pairs(ov.as_str()) {
                Some(p) => p,
                None => {
                    return None;
                },
            };
            if ps2.len() == 0 {
                return None;
            }
            proof {
                assert(pair_views(ps2@)[0] == (ps2@[0].0@, ps2@[0].1@));
            }
            match parse_json_string_map(ps2[0].0.as_str()) {
                Some(m) => Some(m),
                None => {
                    return None;
                },
            }
        },
    };
    Some(SetupProMsg { host, access_key, options })
}

/// The pro-setup payload of a `pro` deep link's query.
pub open spec fn spec_setup_msg_query(q: Seq<char>) -> Option<(
    Seq<char>,
    Option<Seq<char>>,
    Option<Seq<(Seq<char>, Seq<char>)>>,
)> {
    match spec_form_pairs(q) {
        None => None,
        Some(ps) => spec_setup_from_pairs(ps),
    }
}

/// Parses the query of a `pro` deep link.
pub fn parse_setup_pro_msg(query: &str) -> (r: Result<SetupProMsg, ParseError>)
    ensures
        match spec_setup_msg_query(query@) {
            None => r is Err,
            Some(t) => match r {
                Ok(m) => setup_msg_is(m, t),
                Err(_) => false,
            },
        },
{
    let ps = match parse_form_pairs(query) {
        Some(ps) => ps,
        None => {
            return Err(ParseError::InvalidQuery(query.to_owned()));
        },
    };
    match setup_from_pairs(&ps) {
        Some(m) => Ok(m),
        None => Err(ParseError::InvalidQuery(query.to_owned())),
    }
}

/// The pro-setup payload of a WebSocket text frame: a string-valued JSON
/// object carrying the same fields as the deep-link query.
pub open spec fn spec_setup_msg_json(s: Seq<char>) -> Option<(
    Seq<char>,
    Option<Seq<char>>,
    Option<Seq<(Seq<char>, Seq<char>)>>,
)> {
    match spec_json_string_map(s) {
        None => None,
        Some(ps) => spec_setup_from_pairs(ps),
    }
}

/// Parses a pro-setup message from a JSON text frame.
pub fn parse_setup_pro_json(text: &str) -> (r: Option<SetupProMsg>)
    ensures
        match spec_setup_msg_json(text@) {
            None => r is None,
            Some(t) => r matches Some(m) && setup_msg_is(m, t),
        },
{
    let ps = match parse_json_string_map(text) {
        Some(ps) => ps,
        None => {
            return None;
        },
    };
    setup_from_pairs(&ps)
}

pub struct CustomProtocol;

pub struct OpenHandler {}

impl OpenHandler {
    /// The message an open request produces: the workspace to open, or
    /// the failure for the UI to report.
    pub fn message(msg: Result<OpenWorkspaceMsg, ParseError>) -> (r: UiMessage)
        ensures
            match msg {
                Ok(m) => r == UiMessage::OpenWorkspace(m),
                Err(e) => r == UiMessage::CommandFailed(e),
            },
    {
        match msg {
            Ok(m) => UiMessage::OpenWorkspace(m),
            Err(e) => UiMessage::CommandFailed(e),
        }
    }
}

pub struct ImportHandler {}

impl ImportHandler {
    /// The message an import request produces.
    pub fn message(msg: Result<ImportWorkspaceMsg, ParseError>) -> (r: UiMessage)
        ensures
            match msg {
                Ok(m) => r == UiMessage::ImportWorkspace(m),
                Err(e) => r == UiMessage::CommandFailed(e),
            },
    {
        match msg {
            Ok(m) => UiMessage::ImportWorkspace(m),
            Err(e) => UiMessage::CommandFailed(e),
        }
    }
}

pub struct ProHandler {}

impl ProHandler {
    /// The message a pro-setup request produces.
    pub fn message(msg: Result<SetupProMsg, ParseError>) -> (r: UiMessage)
        ensures
            match msg {
                Ok(m) => r == UiMessage::SetupPro(m),
                Err(e) => r == UiMessage::CommandFailed(e),
            },
    {
        match msg {
            Ok(m) => UiMessage::SetupPro(m),
            Err(e) => UiMessage::CommandFailed(e),
        }
    }
}

impl CustomProtocol {
    /// Dispatches a parsed deep link on its action host: each action's
    /// payload parser reads the query, and the handler turns the outcome
    /// into the message for the UI. A host outside the allowed set —
    /// which `UrlParser::parse` never hands out — produces nothing.
    pub fn dispatch(request: Request) -> (r: Option<UiMessage>)
        ensures
            request.host@ == "open"@ ==> (match spec_open_msg(request.query@) {
                Some(t) => r matches Some(UiMessage::OpenWorkspace(m)) && opt_str_is(
                    m.workspace_id,
                    t.0,
                ) && opt_str_is(m.provider_id, t.1) && opt_str_is(m.ide, t.2) && opt_str_is(
                    m.source,
                    t.3,
                ),
                None => r matches Some(UiMessage::CommandFailed(_)),
            }),
            request.host@ == "import"@ ==> (match spec_import_msg(request.query@) {
                Some(t) => r matches Some(UiMessage::ImportWorkspace(m)) && m.workspace_id@ == t.0
                    && m.workspace_uid@ == t.1 && m.devpod_pro_host@ == t.2 && m.project@ == t.3
                    && pair_views(m.options@) == t.4,
                None => r matches Some(UiMessage::CommandFailed(_)),
            }),
            request.host@ == "pro"@ ==> (match spec_setup_msg_query(request.query@) {
                Some(t) => r matches Some(UiMessage::SetupPro(m)) && setup_msg_is(m, t),
                None => r matches Some(UiMessage::CommandFailed(_)),
            }),
            (request.host@ != "open"@ && request.host@ != "import"@ && request.host@ != "pro"@)
                ==> r is None,
    {
        proof {
            reveal_strlit("open");
            reveal_strlit("import");
            reveal_strlit("pro");
            assert("open"@.len() == 4);
            assert("import"@.len() == 6);
            assert("pro"@.len() == 3);
        }
        if str_eq(request.host.as_str(), "open") {
            let parsed = parse_open_workspace_msg(request.query.as_str());
            Some(OpenHandler::message(parsed))
        } else if str_eq(request.host.as_str(), "import") {
            let parsed = parse_import_workspace_msg(request.query.as_str());
            Some(ImportHandler::message(parsed))
        } else if str_eq(request.host.as_str(), "pro") {
            let parsed = parse_setup_pro_msg(request.query.as_str());
            Some(ProHandler::message(parsed))
        } else {
            None
        }
    }
}

} // verus!
