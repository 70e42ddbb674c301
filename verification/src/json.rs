//! Wire documents exchanged with the daemon and the embedded UI.
//!
//! The documents this layer speaks are flat JSON objects whose values are
//! strings, booleans or integers: the daemon status report, the
//! child-process signal request, and the pro-setup payload. The grammar
//! below pins that subset down exactly — keys and string values without
//! escape sequences, integers of at most eighteen digits, optional
//! whitespace, fields in any order — and the parser is proved to return
//! precisely what the grammar denotes.

use vstd::prelude::*;
use crate::strutil::find_from;
use crate::strutil::lemma_find_from;
use crate::strutil::find_char;
use crate::strutil::str_eq;
use crate::strutil::string_range;
use crate::{DaemonState, DaemonStatus};

verus! {

/// JSON whitespace.
pub open spec fn is_ws_char(c: char) -> bool {
    c == ' ' || c == '\t' || c == '\n' || c == '\r'
}

/// ASCII decimal digit.
pub open spec fn is_digit_char(c: char) -> bool {
    '0' <= c <= '9'
}

/// Numeric value of a digit character.
pub open spec fn digit_of(c: char) -> int {
    c as u32 - '0' as u32
}

/// First index `j >= i` that does not hold whitespace.
pub open spec fn ws_to(s: Seq<char>, i: int) -> int
    decreases s.len() - i when 0 <= i <= s.len()
{
    if i < s.len() && is_ws_char(s[i]) {
        ws_to(s, i + 1)
    } else {
        i
    }
}

pub proof fn lemma_ws_to(s: Seq<char>, i: int)
    requires
        0 <= i <= s.len(),
    ensures
        i <= ws_to(s, i) <= s.len(),
    decreases s.len() - i,
{
    if i < s.len() && is_ws_char(s[i]) {
        lemma_ws_to(s, i + 1);
    }
}

/// First index `j >= i` that does not hold a digit.
pub open spec fn digits_end(s: Seq<char>, i: int) -> int
    decreases s.len() - i when 0 <= i <= s.len()
{
    if i < s.len() && is_digit_char(s[i]) {
        digits_end(s, i + 1)
    } else {
        i
    }
}

pub proof fn lemma_digits_end(s: Seq<char>, i: int)
    requires
        0 <= i <= s.len(),
    ensures
        i <= digits_end(s, i) <= s.len(),
    decreases s.len() - i,
{
    if i < s.len() && is_digit_char(s[i]) {
        lemma_digits_end(s, i + 1);
    }
}

/// Value of the digit run `s[i..j]`, read left to right.
pub open spec fn digits_val(s: Seq<char>, i: int, j: int) -> int
    decreases j - i when i <= j
{
    if j <= i {
        0
    } else {
        10 * digits_val(s, i, j - 1) + digit_of(s[j - 1])
    }
}

/// Powers of ten.
pub open spec fn pow10(n: nat) -> int
    decreases n
{
    if n == 0 {
        1
    } else {
        10 * pow10((n - 1) as nat)
    }
}

/// A run of `n` digits denotes a value below `10^n`.
pub proof fn lemma_digits_val_bound(s: Seq<char>, i: int, j: int)
    requires
        0 <= i <= j <= s.len(),
        forall|k: int| i <= k < j ==> is_digit_char(s[k]),
    ensures
        0 <= digits_val(s, i, j) < pow10((j - i) as nat),
    decreases j - i,
{
    if j > i {
        lemma_digits_val_bound(s, i, j - 1);
    }
}

pub proof fn lemma_pow10_18()
    ensures
        pow10(18) == 1000000000000000000,
{
    reveal_with_fuel(pow10, 19);
}

/// A scalar JSON value at the specification level.
pub enum SpecScalar {
    Str(Seq<char>),
    Bool(bool),
    Int(int),
}

/// A scalar JSON value as executable data.
#[derive(Debug, Clone, PartialEq)]
pub enum JsonScalar {
    Str(String),
    Bool(bool),
    Int(i64),
}

impl View for JsonScalar {
    type V = SpecScalar;

    open spec fn view(&self) -> SpecScalar {
        match self {
            JsonScalar::Str(s) => SpecScalar::Str(s@),
            JsonScalar::Bool(b) => SpecScalar::Bool(*b),
            JsonScalar::Int(n) => SpecScalar::Int(*n as int),
        }
    }
}

/// The views of a parsed pair list.
pub open spec fn pairs_views(v: Seq<(String, JsonScalar)>) -> Seq<(Seq<char>, SpecScalar)> {
    v.map_values(|p: (String, JsonScalar)| (p.0@, p.1@))
}

/// A string token at `i`: a quote, characters other than quotes and
/// backslashes, and a closing quote. Escape sequences are not part of the
/// grammar.
pub open spec fn spec_string_tok(s: Seq<char>, i: int) -> Option<(Seq<char>, int)> {
    if 0 <= i < s.len() && s[i] == '"' {
        match find_from(s, i + 1, '"') {
            Some(j) => if forall|k: int| i + 1 <= k < j ==> s[k] != '\\' {
                Some((s.subrange(i + 1, j), j + 1))
            } else {
                None
            },
            None => None,
        }
    } else {
        None
    }
}

pub proof fn lemma_string_tok(s: Seq<char>, i: int)
    requires
        0 <= i <= s.len(),
    ensures
        match spec_string_tok(s, i) {
            Some(p) => i + 2 <= p.1 <= s.len(),
            None => true,
        },
{
    if i < s.len() && s[i] == '"' {
        lemma_find_from(s, i + 1, '"');
    }
}

/// `true` or `false` at `i`.
pub open spec fn spec_bool_tok(s: Seq<char>, i: int) -> Option<(bool, int)> {
    if 0 <= i && i + 4 <= s.len() && s.subrange(i, i + 4) == "true"@ {
        Some((true, i + 4))
    } else if 0 <= i && i + 5 <= s.len() && s.subrange(i, i + 5) == "false"@ {
        Some((false, i + 5))
    } else {
        None
    }
}

/// Longest integer the grammar admits, in digits. Larger magnitudes are
/// rejected so that every accepted value fits the executable integer type.
pub const MAX_INT_DIGITS: usize = 18;

/// An unsigned digit run at `i`: at least one digit, no leading zero, at
/// most `MAX_INT_DIGITS` digits.
pub open spec fn spec_uint_tok(s: Seq<char>, i: int) -> Option<(int, int)> {
    if 0 <= i <= s.len() {
        let j = digits_end(s, i);
        if j == i {
            None
        } else if s[i] == '0' && j > i + 1 {
            None
        } else if j - i > MAX_INT_DIGITS {
            None
        } else {
            Some((digits_val(s, i, j), j))
        }
    } else {
        None
    }
}

/// An integer at `i`: an optional minus sign and a digit run.
pub open spec fn spec_int_tok(s: Seq<char>, i: int) -> Option<(int, int)> {
    if 0 <= i < s.len() && s[i] == '-' {
        match spec_uint_tok(s, i + 1) {
            Some(p) => Some((-p.0, p.1)),
            None => None,
        }
    } else {
        spec_uint_tok(s, i)
    }
}

/// A scalar value at `i`: a string, a boolean or an integer.
pub open spec fn spec_scalar_tok(s: Seq<char>, i: int) -> Option<(SpecScalar, int)> {
    if i < 0 || i >= s.len() {
        None
    } else if s[i] == '"' {
        match spec_string_tok(s, i) {
            Some(p) => Some((SpecScalar::Str(p.0), p.1)),
            None => None,
        }
    } else if s[i] == 't' || s[i] == 'f' {
        match spec_bool_tok(s, i) {
            Some(p) => Some((SpecScalar::Bool(p.0), p.1)),
            None => None,
        }
    } else if s[i] == '-' || is_digit_char(s[i]) {
        match spec_int_tok(s, i) {
            Some(p) => Some((SpecScalar::Int(p.0), p.1)),
            None => None,
        }
    } else {
        None
    }
}

pub proof fn lemma_scalar_tok(s: Seq<char>, i: int)
    requires
        0 <= i <= s.len(),
    ensures
        match spec_scalar_tok(s, i) {
            Some(p) => i < p.1 <= s.len(),
            None => true,
        },
{
    if i < s.len() {
        lemma_string_tok(s, i);
        lemma_digits_end(s, i);
        if i + 1 <= s.len() {
            lemma_digits_end(s, i + 1);
        }
    }
}

/// Members of an object from position `i` (pointing at a key) up to and
/// including the closing brace. `acc` carries the pairs read so far, in
/// document order, duplicates kept.
pub open spec fn spec_members(
    s: Seq<char>,
    i: int,
    acc: Seq<(Seq<char>, SpecScalar)>,
) -> Option<(Seq<(Seq<char>, SpecScalar)>, int)>
    decreases s.len() - i when 0 <= i <= s.len() via spec_members_decreases
{
    match spec_string_tok(s, i) {
        None => None,
        Some((key, j1)) => {
            let j2 = ws_to(s, j1);
            if j2 < s.len() && s[j2] == ':' {
                let j3 = ws_to(s, j2 + 1);
                match spec_scalar_tok(s, j3) {
                    None => None,
                    Some((v, j4)) => {
                        let j5 = ws_to(s, j4);
                        let acc2 = acc.push((key, v));
                        if j5 < s.len() && s[j5] == ',' {
                            let j6 = ws_to(s, j5 + 1);
                            spec_members(s, j6, acc2)
                        } else if j5 < s.len() && s[j5] == '}' {
                            Some((acc2, j5 + 1))
                        } else {
                            None
                        }
                    },
                }
            } else {
                None
            }
        },
    }
}

#[via_fn]
proof fn spec_members_decreases(s: Seq<char>, i: int, acc: Seq<(Seq<char>, SpecScalar)>) {
    lemma_string_tok(s, i);
    match spec_string_tok(s, i) {
        None => {},
        Some((key, j1)) => {
            lemma_ws_to(s, j1);
            let j2 = ws_to(s, j1);
            if j2 < s.len() && s[j2] == ':' {
                lemma_ws_to(s, j2 + 1);
                let j3 = ws_to(s, j2 + 1);
                lemma_scalar_tok(s, j3);
                match spec_scalar_tok(s, j3) {
                    None => {},
                    Some((v, j4)) => {
                        lemma_ws_to(s, j4);
                        let j5 = ws_to(s, j4);
                        if j5 < s.len() && s[j5] == ',' {
                            lemma_ws_to(s, j5 + 1);
                        }
                    },
                }
            }
        },
    }
}

/// A whole document: optional whitespace, one flat object, optional
/// trailing whitespace, nothing else. The result lists the pairs in
/// document order, duplicates kept.
pub open spec fn spec_flat_object(s: Seq<char>) -> Option<Seq<(Seq<char>, SpecScalar)>> {
    let i0 = ws_to(s, 0);
    if i0 < s.len() && s[i0] == '{' {
        let i1 = ws_to(s, i0 + 1);
        if i1 < s.len() && s[i1] == '}' {
            if ws_to(s, i1 + 1) == s.len() {
                Some(Seq::empty())
            } else {
                None
            }
        } else {
            match spec_members(s, i1, Seq::empty()) {
                Some((pairs, j)) => if ws_to(s, j) == s.len() {
                    Some(pairs)
                } else {
                    None
                },
                None => None,
            }
        }
    } else {
        None
    }
}

/// First non-whitespace position at or after `i`.
pub fn skip_ws(s: &str, i: usize) -> (r: usize)
    requires
        i <= s@.len(),
    ensures
        r == ws_to(s@, i as int),
        i <= r <= s@.len(),
{
    let len = s.unicode_len();
    let mut k = i;
    loop
        invariant
            i <= k <= len,
            len == s@.len(),
            ws_to(s@, i as int) == ws_to(s@, k as int),
        decreases len - k,
    {
        if k < len {
            let c = s.get_char(k);
            if c == ' ' || c == '\t' || c == '\n' || c == '\r' {
                k = k + 1;
                continue;
            }
        }
        return k;
    }
}

/// Reads a string token at `i`.
pub fn parse_string_tok(s: &str, i: usize) -> (r: Option<(String, usize)>)
    requires
        i <= s@.len(),
    ensures
        match r {
            Some(p) => spec_string_tok(s@, i as int) == Some((p.0@, p.1 as int)) && i + 2 <= p.1
                <= s@.len(),
            None => spec_string_tok(s@, i as int) is None,
        },
{
    let len = s.unicode_len();
    if i >= len || s.get_char(i) != '"' {
        return None;
    }
    proof {
        lemma_find_from(s@, i + 1, '"');
        lemma_find_from(s@, i + 1, '\\');
    }
    match find_char(s, i + 1, '"') {
        None => None,
        Some(j) => {
            match find_char(s, i + 1, '\\') {
                Some(k) if k < j => None,
                _ => {
                    let v = string_range(s, i + 1, j);
                    Some((v, j + 1))
                },
            }
        },
    }
}

/// Reads `true` or `false` at `i`.
pub fn parse_bool_tok(s: &str, i: usize) -> (r: Option<(bool, usize)>)
    requires
        i <= s@.len(),
    ensures
        match r {
            Some(p) => spec_bool_tok(s@, i as int) == Some((p.0, p.1 as int)) && i < p.1
                <= s@.len(),
            None => spec_bool_tok(s@, i as int) is None,
        },
{
    let len = s.unicode_len();
    if crate::strutil::starts_with_at(s, i, "true") {
        proof {
            reveal_strlit("true");
        }
        Some((true, i + 4))
    } else if crate::strutil::starts_with_at(s, i, "false") {
        proof {
            reveal_strlit("true");
            reveal_strlit("false");
        }
        Some((false, i + 5))
    } else {
        proof {
            reveal_strlit("true");
            reveal_strlit("false");
        }
        None
    }
}

/// Reads an integer token at `i`.
pub fn parse_int_tok(s: &str, i: usize) -> (r: Option<(i64, usize)>)
    requires
        i <= s@.len(),
    ensures
        match r {
            Some(p) => spec_int_tok(s@, i as int) == Some((p.0 as int, p.1 as int)) && i < p.1
                <= s@.len(),
            None => spec_int_tok(s@, i as int) is None,
        },
{
    let len = s.unicode_len();
    let neg = i < len && s.get_char(i) == '-';
    let start = if neg {
        i + 1
    } else {
        i
    };
    if start > len {
        return None;
    }
    // find the end of the digit run
    let mut j = start;
    loop
        invariant
            start <= j <= len,
            len == s@.len(),
            digits_end(s@, start as int) == digits_end(s@, j as int),
            forall|k: int| start <= k < j ==> is_digit_char(s@[k]),
        ensures
            start <= j <= len,
            digits_end(s@, start as int) == j,
            forall|k: int| start <= k < j ==> is_digit_char(s@[k]),
        decreases len - j,
    {
        if j >= len {
            break;
        }
        let c = s.get_char(j);
        if c < '0' || c > '9' {
            break;
        }
        j = j + 1;
    }
    if j == start {
        return None;
    }
    if s.get_char(start) == '0' && j > start + 1 {
        return None;
    }
    if j - start > MAX_INT_DIGITS {
        return None;
    }
    // accumulate the value
    proof {
        lemma_pow10_18();
    }
    let mut acc: i64 = 0;
    let mut k = start;
    while k < j
        invariant
            start <= k <= j <= len,
            len == s@.len(),
            j - start <= MAX_INT_DIGITS,
            forall|m: int| start <= m < j ==> is_digit_char(s@[m]),
            acc == digits_val(s@, start as int, k as int),
            0 <= acc < pow10((k - start) as nat),
            pow10(18) == 1000000000000000000,
        decreases j - k,
    {
        proof {
            lemma_digits_val_bound(s@, start as int, k as int);
            assert(pow10(((k - start) + 1) as nat) == 10 * pow10((k - start) as nat));
            lemma_pow10_monotone((k + 1 - start) as nat, 18);
        }
        let c = s.get_char(k);
        let d = (c as u32) - ('0' as u32);
        acc = acc * 10 + (d as i64);
        k = k + 1;
    }
    if neg {
        Some((-acc, j))
    } else {
        Some((acc, j))
    }
}

/// `pow10` grows with its argument.
pub proof fn lemma_pow10_monotone(a: nat, b: nat)
    requires
        a <= b,
    ensures
        pow10(a) <= pow10(b),
        pow10(a) >= 1,
    decreases b,
{
    if a < b {
        lemma_pow10_monotone(a, (b - 1) as nat);
    } else if a > 0 {
        lemma_pow10_monotone((a - 1) as nat, (b - 1) as nat);
    }
}

/// Reads one scalar value at `i`.
pub fn parse_scalar_tok(s: &str, i: usize) -> (r: Option<(JsonScalar, usize)>)
    requires
        i <= s@.len(),
    ensures
        match r {
            Some(p) => spec_scalar_tok(s@, i as int) == Some((p.0@, p.1 as int)) && i < p.1
                <= s@.len(),
            None => spec_scalar_tok(s@, i as int) is None,
        },
{
    let len = s.unicode_len();
    if i >= len {
        return None;
    }
    let c = s.get_char(i);
    if c == '"' {
        match parse_string_tok(s, i) {
            Some(p) => Some((JsonScalar::Str(p.0), p.1)),
            None => None,
        }
    } else if c == 't' || c == 'f' {
        match parse_bool_tok(s, i) {
            Some(p) => Some((JsonScalar::Bool(p.0), p.1)),
            None => None,
        }
    } else if c == '-' || (c >= '0' && c <= '9') {
        match parse_int_tok(s, i) {
            Some(p) => Some((JsonScalar::Int(p.0), p.1)),
            None => None,
        }
    } else {
        None
    }
}

/// Parses a whole document as a flat object, returning its key/value pairs
/// in document order, duplicates kept.
pub fn parse_flat_object(s: &str) -> (r: Option<Vec<(String, JsonScalar)>>)
    ensures
        match r {
            Some(v) => spec_flat_object(s@) == Some(pairs_views(v@)),
            None => spec_flat_object(s@) is None,
        },
{
    let len = s.unicode_len();
    let i0 = skip_ws(s, 0);
    if i0 >= len || s.get_char(i0) != '{' {
        return None;
    }
    let i1 = skip_ws(s, i0 + 1);
    if i1 < len && s.get_char(i1) == '}' {
        if skip_ws(s, i1 + 1) == len {
            let out: Vec<(String, JsonScalar)> = Vec::new();
            proof {
                assert(pairs_views(out@) =~= Seq::<(Seq<char>, SpecScalar)>::empty());
            }
            return Some(out);
        } else {
            return None;
        }
    }
    let mut acc: Vec<(String, JsonScalar)> = Vec::new();
    let mut i = i1;
    proof {
        assert(pairs_views(acc@) =~= Seq::<(Seq<char>, SpecScalar)>::empty());
    }
    loop
        invariant
            i0 < len,
            i1 <= i <= s@.len(),
            len == s@.len(),
            i0 == ws_to(s@, 0),
            s@[i0 as int] == '{',
            i1 == ws_to(s@, i0 as int + 1),
            !(i1 < len && s@[i1 as int] == '}'),
            spec_members(s@, i1 as int, Seq::empty()) == spec_members(
                s@,
                i as int,
                pairs_views(acc@),
            ),
        decreases s@.len() - i,
    {
        let ghost pre_views = pairs_views(acc@);
        let ghost i_old = i as int;
        let (key, j1) = match parse_string_tok(s, i) {
            Some(p) => p,
            None => {
                proof {
                    assert(spec_members(s@, i_old, pre_views) is None);
                    assert(spec_flat_object(s@) is None);
                }
                return None;
            },
        };
        let j2 = skip_ws(s, j1);
        if j2 >= len || s.get_char(j2) != ':' {
            proof {
                assert(spec_members(s@, i_old, pre_views) is None);
                assert(spec_flat_object(s@) is None);
            }
            return None;
        }
        let j3 = skip_ws(s, j2 + 1);
        let (v, j4) = match parse_scalar_tok(s, j3) {
            Some(p) => p,
            None => {
                proof {
                    assert(spec_members(s@, i_old, pre_views) is None);
                    assert(spec_flat_object(s@) is None);
                }
                return None;
            },
        };
        let j5 = skip_ws(s, j4);
        let ghost key_view = key@;
        let ghost val_view = v@;
        acc.push((key, v));
        proof {
            assert(pairs_views(acc@) =~= pre_views.push((key_view, val_view)));
        }
        if j5 < len && s.get_char(j5) == ',' {
            let j6 = skip_ws(s, j5 + 1);
            proof {
                assert(spec_members(s@, i_old, pre_views) == spec_members(
                    s@,
                    j6 as int,
                    pairs_views(acc@),
                ));
            }
            i = j6;
        } else if j5 < len && s.get_char(j5) == '}' {
            proof {
                assert(spec_members(s@, i_old, pre_views) == Some((pairs_views(acc@), j5 as int + 1)));
            }
            if skip_ws(s, j5 + 1) == len {
                return Some(acc);
            } else {
                proof {
                    assert(spec_flat_object(s@) is None);
                }
                return None;
            }
        } else {
            proof {
                assert(spec_members(s@, i_old, pre_views) is None);
                assert(spec_flat_object(s@) is None);
            }
            return None;
        }
    }
}

/// The daemon state named by a status word.
pub open spec fn spec_state_of_word(w: Seq<char>) -> Option<DaemonState> {
    if w == "stopped"@ {
        Some(DaemonState::Stopped)
    } else if w == "pending"@ {
        Some(DaemonState::Pending)
    } else if w == "running"@ {
        Some(DaemonState::Running)
    } else {
        None
    }
}

/// Fields of a status document as they are collected.
pub struct StatusFields {
    pub state: Option<DaemonState>,
    pub online: Option<bool>,
    pub login_required: Option<bool>,
}

/// Folds the pairs of a status document: the three known fields must carry
/// values of the right type and may appear at most once; unknown fields
/// are ignored.
pub open spec fn spec_fold_status(
    pairs: Seq<(Seq<char>, SpecScalar)>,
    acc: StatusFields,
) -> Option<StatusFields>
    decreases pairs.len()
{
    if pairs.len() == 0 {
        Some(acc)
    } else {
        let (k, v) = pairs[0];
        let rest = pairs.skip(1);
        if k == "state"@ {
            match v {
                SpecScalar::Str(w) => match spec_state_of_word(w) {
                    Some(st) => if acc.state is None {
                        spec_fold_status(rest, StatusFields { state: Some(st), ..acc })
                    } else {
                        None
                    },
                    None => None,
                },
                _ => None,
            }
        } else if k == "online"@ {
            match v {
                SpecScalar::Bool(b) => if acc.online is None {
                    spec_fold_status(rest, StatusFields { online: Some(b), ..acc })
                } else {
                    None
                },
                _ => None,
            }
        } else if k == "loginRequired"@ {
            match v {
                SpecScalar::Bool(b) => if acc.login_required is None {
                    spec_fold_status(rest, StatusFields { login_required: Some(b), ..acc })
                } else {
                    None
                },
                _ => None,
            }
        } else {
            spec_fold_status(rest, acc)
        }
    }
}

/// The status denoted by a document: its fields where present, the default
/// for each field that is absent.
pub open spec fn spec_parse_daemon_status(s: Seq<char>) -> Option<DaemonStatus> {
    match spec_flat_object(s) {
        Some(pairs) => match spec_fold_status(
            pairs,
            StatusFields { state: None, online: None, login_required: None },
        ) {
            Some(f) => Some(
                DaemonStatus {
                    state: match f.state {
                        Some(st) => st,
                        None => DaemonState::Pending,
                    },
                    online: match f.online {
                        Some(b) => b,
                        None => false,
                    },
                    login_required: match f.login_required {
                        Some(b) => b,
                        None => false,
                    },
                },
            ),
            None => None,
        },
        None => None,
    }
}

/// Parses a daemon status document.
pub fn parse_daemon_status(s: &str) -> (r: Option<DaemonStatus>)
    ensures
        r == spec_parse_daemon_status(s@),
{
    let pairs = match parse_flat_object(s) {
        Some(p) => p,
        None => {
            return None;
        },
    };
    let ghost all = pairs_views(pairs@);
    let mut fields = StatusFields { state: None, online: None, login_required: None };
    let mut idx: usize = 0;
    proof {
        assert(all.skip(0) =~= all);
    }
    while idx < pairs.len()
        invariant
            0 <= idx <= pairs.len(),
            all == pairs_views(pairs@),
            spec_flat_object(s@) == Some(all),
            spec_fold_status(all, StatusFields { state: None, online: None, login_required: None })
                == spec_fold_status(all.skip(idx as int), fields),
        decreases pairs.len() - idx,
    {
        let ghost rest = all.skip(idx as int);
        let ghost prev_fields = fields;
        proof {
            assert(rest[0] == all[idx as int]);
            assert(rest.skip(1) =~= all.skip(idx as int + 1));
        }
        let key = &pairs[idx].0;
        let value = &pairs[idx].1;
        proof {
            assert(all.len() == pairs@.len());
            assert(all[idx as int] == (pairs@[idx as int].0@, pairs@[idx as int].1@));
            assert(rest[0] == (key@, value@));
        }
        if str_eq(key.as_str(), "state") {
            match value {
                JsonScalar::Str(w) => {
                    proof {
                        assert(value@ == SpecScalar::Str(w@));
                    }
                    let st = if str_eq(w.as_str(), "stopped") {
                        Some(DaemonState::Stopped)
                    } else if str_eq(w.as_str(), "pending") {
                        Some(DaemonState::Pending)
                    } else if str_eq(w.as_str(), "running") {
                        Some(DaemonState::Running)
                    } else {
                        None
                    };
                    match st {
                        Some(st) => {
                            if fields.state.is_none() {
                                fields = StatusFields { state: Some(st), ..fields };
                            } else {
                                return None;
                            }
                        },
                        None => {
                            return None;
                        },
                    }
                },
                _ => {
                    return None;
                },
            }
        } else if str_eq(key.as_str(), "online") {
            match value {
                JsonScalar::Bool(b) => {
                    if fields.online.is_none() {
                        fields = StatusFields { online: Some(*b), ..fields };
                    } else {
                        return None;
                    }
                },
                _ => {
                    return None;
                },
            }
        } else if str_eq(key.as_str(), "loginRequired") {
            match value {
                JsonScalar::Bool(b) => {
                    if fields.login_required.is_none() {
                        fields = StatusFields { login_required: Some(*b), ..fields };
                    } else {
                        return None;
                    }
                },
                _ => {
                    return None;
                },
            }
        }
        proof {
            assert(spec_fold_status(rest, prev_fields) == spec_fold_status(rest.skip(1), fields));
        }
        idx = idx + 1;
    }
    proof {
        assert(all.skip(pairs.len() as int) =~= Seq::<(Seq<char>, SpecScalar)>::empty());
    }
    Some(
        DaemonStatus {
            state: match fields.state {
                Some(st) => st,
                None => DaemonState::Pending,
            },
            online: match fields.online {
                Some(b) => b,
                None => false,
            },
            login_required: match fields.login_required {
                Some(b) => b,
                None => false,
            },
        },
    )
}

/// The canonical status document for a status value: the three fields,
/// in a fixed order, without whitespace.
pub open spec fn spec_status_document(st: DaemonStatus) -> Seq<char> {
    "{\"state\":\""@ + spec_state_word(st.state) + "\",\"online\":"@ + spec_bool_word(st.online)
        + ",\"loginRequired\":"@ + spec_bool_word(st.login_required) + "}"@
}

/// The word naming a state.
pub open spec fn spec_state_word(state: DaemonState) -> Seq<char> {
    match state {
        DaemonState::Stopped => "stopped"@,
        DaemonState::Pending => "pending"@,
        DaemonState::Running => "running"@,
    }
}

/// The word naming a boolean.
pub open spec fn spec_bool_word(b: bool) -> Seq<char> {
    if b {
        "true"@
    } else {
        "false"@
    }
}

/// Writes a status as its canonical document.
pub fn status_document(st: &DaemonStatus) -> (r: String)
    ensures
        r@ == spec_status_document(*st),
{
    let state_word = match st.state {
        DaemonState::Stopped => "stopped",
        DaemonState::Pending => "pending",
        DaemonState::Running => "running",
    };
    let online_word = if st.online {
        "true"
    } else {
        "false"
    };
    let login_word = if st.login_required {
        "true"
    } else {
        "false"
    };
    String::from_str("{\"state\":\"")
        .concat(state_word)
        .concat("\",\"online\":")
        .concat(online_word)
        .concat(",\"loginRequired\":")
        .concat(login_word)
        .concat("}")
}

} // verus!
