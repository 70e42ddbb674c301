//! Targets of the CLI installation.
//!
//! Installing links the bundled binary into well-known places so that
//! the command is on the user's path. Creating links, removing files and
//! escalating privileges are I/O and stay outside; which paths are tried,
//! in which order, and the escalation command line are decided here.

use vstd::prelude::*;
use crate::commands::args_views;
use crate::json::{is_ws_char, ws_to, lemma_ws_to, skip_ws};
use crate::strutil::{str_eq, string_range, starts_with_at};
use crate::workspace_id::rfind;

verus! {

/// Failure to install the CLI. Carries plain messages in place of the
/// error values of the filesystem layer, which stays outside the library.
#[derive(Debug)]
pub enum InstallCLIError {
    /// The current executable's path cannot be found.
    NoExePath(String),
    /// A link could not be created.
    Link(String),
    /// A path could not be converted to text.
    PathConversion,
    /// The system registry could not be updated.
    Registry(String),
    /// No data directory exists.
    DataDir,
    /// A directory could not be created.
    CreateDir(String),
    /// A file could not be written.
    WriteFile(String),
    /// The system could not be told about the changed environment.
    WindowsBroadcastChange,
}

/// The system-wide link target.
pub fn system_bin_target() -> (r: String)
    ensures
        r@ == "/usr/local/bin/devpod"@,
{
    String::from_str("/usr/local/bin/devpod")
}

/// The link targets to try, in order: the system-wide location first,
/// then, when a home directory is known, the user's local bin and bin
/// directories.
pub fn install_targets(home: Option<&str>) -> (r: Vec<String>)
    ensures
        match home {
            Some(h) => args_views(r@) == seq![
                "/usr/local/bin/devpod"@,
                h@ + "/.local/bin/devpod"@,
                h@ + "/bin/devpod"@,
            ],
            None => args_views(r@) == seq!["/usr/local/bin/devpod"@],
        },
{
    let mut out: Vec<String> = Vec::new();
    out.push(system_bin_target());
    match home {
        Some(h) => {
            out.push(String::from_str(h).concat("/.local/bin/devpod"));
            out.push(String::from_str(h).concat("/bin/devpod"));
            proof {
                assert(args_views(out@) =~= seq![
                    "/usr/local/bin/devpod"@,
                    h@ + "/.local/bin/devpod"@,
                    h@ + "/bin/devpod"@,
                ]);
            }
        },
        None => {
            proof {
                assert(args_views(out@) =~= seq!["/usr/local/bin/devpod"@]);
            }
        },
    }
    out
}

/// The privileged installation command: a prompt-escalated shell script
/// that creates the system bin directory and force-links the CLI there.
pub fn force_install_script(cli_path: &str, system_bin: &str) -> (r: String)
    ensures
        r@ == "osascript -e \"do shell script \\\"mkdir -p /usr/local/bin && ln -sf '"@
            + cli_path@ + "' '"@ + system_bin@ + "'\\\" with administrator privileges\""@,
{
    String::from_str("osascript -e \"do shell script \\\"mkdir -p /usr/local/bin && ln -sf '")
        .concat(cli_path)
        .concat("' '")
        .concat(system_bin)
        .concat("'\\\" with administrator privileges\"")
}

/// First index at or after `i` that holds whitespace or ends the text.
pub open spec fn tok_end(s: Seq<char>, i: int) -> int
    decreases s.len() - i when 0 <= i <= s.len()
{
    if i < s.len() && !is_ws_char(s[i]) {
        tok_end(s, i + 1)
    } else {
        i
    }
}

pub proof fn lemma_tok_end(s: Seq<char>, i: int)
    requires
        0 <= i <= s.len(),
    ensures
        i <= tok_end(s, i) <= s.len(),
    decreases s.len() - i,
{
    if i < s.len() && !is_ws_char(s[i]) {
        lemma_tok_end(s, i + 1);
    }
}

/// The whitespace-separated column `n` of a line, counting from zero,
/// starting the search at `i`.
pub open spec fn spec_column_from(s: Seq<char>, i: int, n: nat) -> Option<Seq<char>>
    decreases s.len() - i, n when 0 <= i <= s.len() via spec_column_from_decreases
{
    let a = ws_to(s, i);
    if a >= s.len() {
        None
    } else {
        let b = tok_end(s, a);
        if n == 0 {
            Some(s.subrange(a, b))
        } else {
            spec_column_from(s, b, (n - 1) as nat)
        }
    }
}

#[via_fn]
proof fn spec_column_from_decreases(s: Seq<char>, i: int, n: nat) {
    lemma_ws_to(s, i);
    let a = ws_to(s, i);
    if a < s.len() {
        lemma_tok_end(s, a);
    }
}

/// The whitespace-separated column `n` of a line.
pub open spec fn spec_column(s: Seq<char>, n: nat) -> Option<Seq<char>> {
    spec_column_from(s, 0, n)
}

/// Reads the whitespace-separated column `n` of a line.
pub fn nth_column(line: &str, n: usize) -> (r: Option<String>)
    ensures
        match r {
            Some(v) => spec_column(line@, n as nat) == Some(v@),
            None => spec_column(line@, n as nat) is None,
        },
{
    let len = line.unicode_len();
    let mut i: usize = 0;
    let mut k = n;
    loop
        invariant
            0 <= i <= len,
            len == line@.len(),
            k <= n,
            spec_column(line@, n as nat) == spec_column_from(line@, i as int, k as nat),
        decreases k,
    {
        let a = skip_ws(line, i);
        if a >= len {
            return None;
        }
        // find the end of this token
        let mut b = a;
        loop
            invariant
                a <= b <= len,
                len == line@.len(),
                tok_end(line@, a as int) == tok_end(line@, b as int),
                forall|j: int| a <= j < b ==> !is_ws_char(line@[j]),
            ensures
                a <= b <= len,
                tok_end(line@, a as int) == b,
            decreases len - b,
        {
            if b >= len {
                break;
            }
            let c = line.get_char(b);
            if c == ' ' || c == '\t' || c == '\n' || c == '\r' {
                break;
            }
            b = b + 1;
        }
        if k == 0 {
            return Some(string_range(line, a, b));
        }
        k = k - 1;
        i = b;
    }
}

/// Scanning the mount table for a path: a line with fewer than two
/// columns makes the whole lookup fail; a line whose mount point is the
/// path yields its third column; otherwise the scan moves on.
pub open spec fn spec_scan_mounts(lines: Seq<Seq<char>>, i: int, path: Seq<char>) -> Option<
    Option<Seq<char>>,
>
    decreases lines.len() - i when 0 <= i <= lines.len()
{
    if i >= lines.len() {
        Some(None)
    } else {
        match spec_column(lines[i], 1) {
            None => None,
            Some(mp) => if mp == path {
                match spec_column(lines[i], 2) {
                    None => None,
                    Some(fs) => Some(Some(fs)),
                }
            } else {
                spec_scan_mounts(lines, i + 1, path)
            },
        }
    }
}

/// The parent of a path: nothing for the root or an empty path; the text
/// before the last slash otherwise, down to the root or to an empty
/// relative prefix.
pub open spec fn spec_parent(path: Seq<char>) -> Option<Seq<char>> {
    if path.len() == 0 || path == "/"@ {
        None
    } else {
        match rfind(path, '/') {
            None => Some(Seq::<char>::empty()),
            Some(p) => if p == 0 {
                Some("/"@)
            } else {
                Some(path.take(p))
            },
        }
    }
}

/// The filesystem type the mount table gives a path: the type at the
/// path's own mount point, or, when the path is no mount point, at the
/// nearest ancestor's.
pub open spec fn spec_find_fs_type(lines: Seq<Seq<char>>, path: Seq<char>) -> Option<Seq<char>>
    decreases path.len() when true via spec_find_fs_type_decreases
{
    match spec_scan_mounts(lines, 0, path) {
        None => None,
        Some(Some(fs)) => Some(fs),
        Some(None) => match spec_parent(path) {
            None => None,
            Some(p) => spec_find_fs_type(lines, p),
        },
    }
}

#[via_fn]
proof fn spec_find_fs_type_decreases(lines: Seq<Seq<char>>, path: Seq<char>) {
    reveal_strlit("/");
    lemma_rfind(path, '/');
    if path.len() != 0 && path != "/"@ {
        match rfind(path, '/') {
            Some(p) => {
                if p == 0 && path.len() == 1 {
                    assert(path =~= "/"@);
                }
            },
            None => {},
        }
    }
}

/// What `rfind` returns: the last occurrence, or nothing when the
/// character does not occur.
pub proof fn lemma_rfind(s: Seq<char>, c: char)
    ensures
        match rfind(s, c) {
            Some(p) => 0 <= p < s.len() && s[p] == c,
            None => forall|k: int| 0 <= k < s.len() ==> s[k] != c,
        },
    decreases s.len(),
{
    if s.len() > 0 && s.last() != c {
        lemma_rfind(s.drop_last(), c);
        match rfind(s.drop_last(), c) {
            Some(p) => {
                assert(s.drop_last()[p] == s[p]);
            },
            None => {
                assert(forall|k: int| 0 <= k < s.len() - 1 ==> s[k] == s.drop_last()[k]);
            },
        }
    }
}

/// Looks a path's filesystem type up in the mount table, walking up to
/// parent directories until a mount point matches.
pub fn find_fs_type(path: &str, mount_lines: &Vec<String>) -> (r: Option<String>)
    ensures
        match r {
            Some(fs) => spec_find_fs_type(args_views(mount_lines@), path@) == Some(fs@),
            None => spec_find_fs_type(args_views(mount_lines@), path@) is None,
        },
{
    proof {
        reveal_strlit("/");
    }
    let ghost lines = args_views(mount_lines@);
    let mut cur = path.to_owned();
    loop
        invariant
            lines == args_views(mount_lines@),
            spec_find_fs_type(lines, path@) == spec_find_fs_type(lines, cur@),
        decreases cur@.len(),
    {
        // scan the table for the current path
        let mut i: usize = 0;
        let mut found: Option<String> = None;
        let mut aborted = false;
        loop
            invariant_except_break
                !aborted,
                found is None,
            invariant
                0 <= i <= mount_lines@.len(),
                lines == args_views(mount_lines@),
                lines.len() == mount_lines@.len(),
                spec_scan_mounts(lines, 0, cur@) == spec_scan_mounts(lines, i as int, cur@),
            ensures
                aborted ==> spec_scan_mounts(lines, 0, cur@) is None,
                !aborted ==> match found {
                    Some(fs) => spec_scan_mounts(lines, 0, cur@) == Some(Some(fs@)),
                    None => spec_scan_mounts(lines, 0, cur@) == Some(None::<Seq<char>>),
                },
            decreases mount_lines@.len() - i,
        {
            if i >= mount_lines.len() {
                proof {
                    assert(spec_scan_mounts(lines, i as int, cur@) == Some(None::<Seq<char>>));
                }
                break;
            }
            proof {
                assert(lines[i as int] == mount_lines@[i as int]@);
            }
            let mp = match nth_column(mount_lines[i].as_str(), 1) {
                Some(mp) => mp,
                None => {
                    proof {
                        assert(spec_scan_mounts(lines, i as int, cur@) is None);
                    }
                    aborted = true;
                    break;
                },
            };
            if str_eq(mp.as_str(), cur.as_str()) {
                match nth_column(mount_lines[i].as_str(), 2) {
                    Some(fs) => {
                        proof {
                            assert(spec_scan_mounts(lines, i as int, cur@) == Some(Some(fs@)));
                        }
                        found = Some(fs);
                        break;
                    },
                    None => {
                        proof {
                            assert(spec_scan_mounts(lines, i as int, cur@) is None);
                        }
                        aborted = true;
                        break;
                    },
                }
            }
            i = i + 1;
        }
        if aborted {
            return None;
        }
        if let Some(fs) = found {
            return Some(fs);
        }
        // not mounted here: move to the parent
        let cur_str = cur.as_str();
        let len = cur_str.unicode_len();
        if len == 0 || str_eq(cur_str, "/") {
            return None;
        }
        // find the last slash
        let mut q: usize = len;
        let mut slash: Option<usize> = None;
        proof {
            assert(cur_str@.take(len as int) =~= cur_str@);
        }
        loop
            invariant
                0 <= q <= len,
                len == cur_str@.len(),
                rfind(cur_str@, '/') == rfind(cur_str@.take(q as int), '/'),
            ensures
                match slash {
                    Some(p) => rfind(cur_str@, '/') == Some(p as int),
                    None => rfind(cur_str@, '/') is None,
                },
            decreases q,
        {
            let ghost pre = cur_str@.take(q as int);
            if q == 0 {
                proof {
                    assert(pre =~= Seq::<char>::empty());
                }
                slash = None;
                break;
            }
            let c = cur_str.get_char(q - 1);
            proof {
                assert(pre.last() == cur_str@[q - 1]);
                assert(pre.drop_last() =~= cur_str@.take(q - 1));
            }
            if c == '/' {
                slash = Some(q - 1);
                break;
            }
            q = q - 1;
        }
        proof {
            reveal_strlit("/");
            lemma_rfind(cur_str@, '/');
            match slash {
                Some(p) => {
                    if p == 0 && cur_str@.len() == 1 {
                        assert(cur_str@ =~= "/"@);
                    }
                },
                None => {},
            }
        }
        let next = match slash {
            None => String::new(),
            Some(p) => {
                if p == 0 {
                    String::from_str("/")
                } else {
                    string_range(cur_str, 0, p)
                }
            },
        };
        cur = next;
    }
}

/// Whether a filesystem type names a memory-backed or userspace
/// filesystem, from which the binary cannot be linked.
pub fn is_volatile_fs(fs: &str) -> (r: bool)
    ensures
        r == (fs@ == "tmpfs"@ || exists|i: int|
            0 <= i && i + "fuse"@.len() <= fs@.len() && #[trigger] fs@.subrange(
                i,
                i + "fuse"@.len(),
            ) == "fuse"@),
{
    if str_eq(fs, "tmpfs") {
        return true;
    }
    let len = fs.unicode_len();
    let mut i: usize = 0;
    while i < len
        invariant
            0 <= i <= len,
            len == fs@.len(),
            forall|j: int|
                0 <= j < i && j + "fuse"@.len() <= fs@.len() ==> #[trigger] fs@.subrange(
                    j,
                    j + "fuse"@.len(),
                ) != "fuse"@,
        decreases len - i,
    {
        if starts_with_at(fs, i, "fuse") {
            return true;
        }
        i = i + 1;
    }
    proof {
        reveal_strlit("fuse");
    }
    false
}

} // verus!
