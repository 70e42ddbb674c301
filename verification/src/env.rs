//! Reading a variable assignment out of shell output.
//!
//! To repair the environment of a GUI-launched process, the application
//! asks a login shell to print a variable, strips terminal escape
//! sequences from the output, and reads the text as an assignment.
//! Running the shell and setting the variable are I/O and stay outside;
//! the stripping goes through the escape-stripping crate, and the
//! assignment parsing is verified.

use vstd::prelude::*;
use crate::strutil::{find_from, lemma_find_from, find_char, string_range};

verus! {

/// Failure to repair an environment variable.
#[derive(Debug)]
pub enum Error {
    /// The shell could not be run; carries the description.
    Shell(String),
    /// The shell's output was not usable; carries it.
    InvalidOutput(String),
    /// The shell exited unsuccessfully; carries what it printed on its
    /// error stream.
    EchoFailed(String),
}

/// What stripping ANSI escape sequences leaves of a text.
pub uninterp spec fn ansi_stripped(s: Seq<char>) -> Seq<char>;

/// Relies on `strip_ansi_escapes::strip_str`: removes ANSI escape
/// sequences from the text; the result is a function of the text alone.
#[verifier::external_body]
pub fn strip_ansi(s: &str) -> (r: String)
    ensures
        r@ == ansi_stripped(s@),
{
    strip_ansi_escapes::strip_str(s)
}

/// The assignment a line denotes: the text before the first `=` names
/// the variable, the rest is the value; a line without `=` assigns
/// nothing.
pub open spec fn spec_env_line(line: Seq<char>) -> Option<(Seq<char>, Seq<char>)> {
    match find_from(line, 0, '=') {
        Some(e) => Some((line.take(e), line.skip(e + 1))),
        None => None,
    }
}

/// Splits a raw line into the variable and the value it assigns.
pub fn parse_env_line(line: &str) -> (r: Option<(String, String)>)
    ensures
        match r {
            Some(kv) => spec_env_line(line@) == Some((kv.0@, kv.1@)),
            None => spec_env_line(line@) is None,
        },
{
    let len = line.unicode_len();
    match find_char(line, 0, '=') {
        Some(e) => {
            proof {
                lemma_find_from(line@, 0, '=');
            }
            let k = string_range(line, 0, e);
            let v = string_range(line, e + 1, len);
            proof {
                assert(v@ =~= line@.skip(e as int + 1));
            }
            Some((k, v))
        },
        None => None,
    }
}

/// The assignment carried by raw shell output: escape sequences are
/// stripped first, then the text is read as an assignment.
pub fn env_assignment(raw: &str) -> (r: Option<(String, String)>)
    ensures
        match r {
            Some(kv) => spec_env_line(ansi_stripped(raw@)) == Some((kv.0@, kv.1@)),
            None => spec_env_line(ansi_stripped(raw@)) is None,
        },
{
    let cleaned = strip_ansi(raw);
    parse_env_line(cleaned.as_str())
}

} // verus!
