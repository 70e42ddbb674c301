//! Deriving a workspace id from a source name.
//!
//! The id is the stem of the source's last path element, lower-cased,
//! with every character outside letters, digits, dots and dashes dropped:
//! a repository URL, a local folder or a plain name all reduce to a short
//! identifier.

use vstd::prelude::*;
use crate::strutil::{lower_chars, to_lower_ascii, push_char};

verus! {

/// Failure to derive a workspace id.
#[derive(Debug)]
pub enum NewWorkspaceIDError {
    /// The source has no usable file name; carries the source.
    NoFileName(String),
}

/// The length of `s` without its trailing slashes.
pub open spec fn no_slash_end(s: Seq<char>) -> int
    decreases s.len()
{
    if s.len() > 0 && s.last() == '/' {
        no_slash_end(s.drop_last())
    } else {
        s.len() as int
    }
}

/// The last position of `c` in `s`, if any.
pub open spec fn rfind(s: Seq<char>, c: char) -> Option<int>
    decreases s.len()
{
    if s.len() == 0 {
        None
    } else if s.last() == c {
        Some(s.len() - 1)
    } else {
        rfind(s.drop_last(), c)
    }
}

/// A character the id keeps: letters, digits, dots and dashes.
pub open spec fn is_id_char(c: char) -> bool {
    ('a' <= c <= 'z') || ('A' <= c <= 'Z') || ('0' <= c <= '9') || c == '.' || c == '-'
}

/// `s` with every character the id does not keep dropped.
pub open spec fn keep_id_chars(s: Seq<char>) -> Seq<char>
    decreases s.len()
{
    if s.len() == 0 {
        Seq::<char>::empty()
    } else if is_id_char(s.last()) {
        keep_id_chars(s.drop_last()).push(s.last())
    } else {
        keep_id_chars(s.drop_last())
    }
}

/// The id derived from a source name: lower-case the source, drop
/// trailing slashes, take what follows the last slash; a name that is
/// empty or all dots yields nothing; otherwise cut the extension after
/// the last dot — unless that dot starts the name — and keep only id
/// characters.
pub open spec fn spec_workspace_id(source: Seq<char>) -> Option<Seq<char>> {
    let low = lower_chars(source);
    let t = low.take(no_slash_end(low));
    let name = match rfind(t, '/') {
        Some(p) => t.skip(p + 1),
        None => t,
    };
    if name.len() == 0 || name == "."@ || name == ".."@ {
        None
    } else {
        let stem = match rfind(name, '.') {
            Some(d) => if d > 0 {
                name.take(d)
            } else {
                name
            },
            None => name,
        };
        Some(keep_id_chars(stem))
    }
}

/// Derives the workspace id for a source name; fails, carrying the
/// lower-cased source, when the source has no usable file name.
pub fn new_workspace_id(source_name: String) -> (r: Result<String, NewWorkspaceIDError>)
    ensures
        match spec_workspace_id(source_name@) {
            Some(id) => r matches Ok(v) && v@ == id,
            None => r matches Err(NewWorkspaceIDError::NoFileName(v)) && v@ == lower_chars(
                source_name@,
            ),
        },
{
    proof {
        reveal_strlit(".");
        reveal_strlit("..");
    }
    let low = to_lower_ascii(source_name.as_str());
    let low_str = low.as_str();
    let len = low_str.unicode_len();
    // drop trailing slashes
    let mut e = len;
    proof {
        assert(low_str@.take(len as int) =~= low_str@);
    }
    loop
        invariant
            0 <= e <= len,
            len == low_str@.len(),
            no_slash_end(low_str@) == no_slash_end(low_str@.take(e as int)),
        ensures
            0 <= e <= len,
            no_slash_end(low_str@) == e,
        decreases e,
    {
        let ghost pre = low_str@.take(e as int);
        if e == 0 {
            proof {
                assert(pre =~= Seq::<char>::empty());
            }
            break;
        }
        let c = low_str.get_char(e - 1);
        proof {
            assert(pre.last() == low_str@[e - 1]);
            assert(pre.drop_last() =~= low_str@.take(e - 1));
        }
        if c != '/' {
            proof {
                assert(no_slash_end(pre) == pre.len());
            }
            break;
        }
        e = e - 1;
    }
    let ghost t = low_str@.take(no_slash_end(low_str@));
    // find the last slash before `e`
    let mut p: usize = e;
    let mut name_start: usize = 0;
    loop
        invariant
            0 <= p <= e <= len,
            len == low_str@.len(),
            t == low_str@.take(e as int),
            rfind(t, '/') == rfind(low_str@.take(p as int), '/'),
        ensures
            0 <= name_start <= e,
            match rfind(t, '/') {
                Some(q) => name_start == q + 1,
                None => name_start == 0,
            },
        decreases p,
    {
        let ghost pre = low_str@.take(p as int);
        if p == 0 {
            proof {
                assert(pre =~= Seq::<char>::empty());
            }
            name_start = 0;
            break;
        }
        let c = low_str.get_char(p - 1);
        proof {
            assert(pre.last() == low_str@[p - 1]);
            assert(pre.drop_last() =~= low_str@.take(p - 1));
        }
        if c == '/' {
            proof {
                assert(rfind(pre, '/') == Some(p - 1));
            }
            name_start = p;
            break;
        }
        p = p - 1;
    }
    let ghost name = (match rfind(t, '/') {
        Some(q) => t.skip(q + 1),
        None => t,
    });
    proof {
        assert(name =~= low_str@.subrange(name_start as int, e as int));
    }
    let name_str = low_str.substring_char(name_start, e);
    let name_len = e - name_start;
    proof {
        assert(name_str@ == name);
    }
    let empty_or_dots = name_len == 0 || crate::strutil::str_eq(name_str, ".")
        || crate::strutil::str_eq(name_str, "..");
    if empty_or_dots {
        return Err(NewWorkspaceIDError::NoFileName(low));
    }
    // find the last dot in the name
    let mut q: usize = name_len;
    let mut stem_end: usize = name_len;
    proof {
        assert(name.take(name_len as int) =~= name);
    }
    loop
        invariant
            0 <= q <= name_len,
            name_len == name.len(),
            name_str@ == name,
            rfind(name, '.') == rfind(name.take(q as int), '.'),
        ensures
            0 <= stem_end <= name_len,
            stem_end == (match rfind(name, '.') {
                Some(d) => if d > 0 {
                    d
                } else {
                    name.len() as int
                },
                None => name.len() as int,
            }),
        decreases q,
    {
        let ghost pre = name.take(q as int);
        if q == 0 {
            proof {
                assert(pre =~= Seq::<char>::empty());
            }
            stem_end = name_len;
            break;
        }
        let c = name_str.get_char(q - 1);
        proof {
            assert(pre.last() == name[q - 1]);
            assert(pre.drop_last() =~= name.take(q - 1));
        }
        if c == '.' {
            proof {
                assert(rfind(pre, '.') == Some(q - 1));
            }
            if q - 1 > 0 {
                stem_end = q - 1;
            } else {
                stem_end = name_len;
            }
            break;
        }
        q = q - 1;
    }
    let ghost stem = (match rfind(name, '.') {
        Some(d) => if d > 0 {
            name.take(d)
        } else {
            name
        },
        None => name,
    });
    proof {
        assert(stem =~= name.take(stem_end as int));
    }
    // keep only id characters
    let mut out = String::new();
    let mut i: usize = 0;
    proof {
        assert(keep_id_chars(name.take(0)) =~= Seq::<char>::empty());
        assert(out@ =~= keep_id_chars(name.take(0)));
    }
    while i < stem_end
        invariant
            0 <= i <= stem_end <= name_len,
            name_len == name.len(),
            name_str@ == name,
            out@ == keep_id_chars(name.take(i as int)),
        decreases stem_end - i,
    {
        let c = name_str.get_char(i);
        proof {
            assert(name.take(i as int + 1).last() == name[i as int]);
            assert(name.take(i as int + 1).drop_last() =~= name.take(i as int));
        }
        let keep = (c >= 'a' && c <= 'z') || (c >= 'A' && c <= 'Z') || (c >= '0' && c <= '9') || c
            == '.' || c == '-';
        if keep {
            push_char(&mut out, c);
        }
        i = i + 1;
    }
    proof {
        assert(stem == name.take(stem_end as int));
    }
    Ok(out)
}

} // verus!
