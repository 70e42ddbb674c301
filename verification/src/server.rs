//! Routing and request interpretation of the loopback control server.
//!
//! The server itself — the listener, the HTTP machinery, the WebSocket
//! upgrade — runs outside the library. What is verified here is what the
//! server decides: which route a request selects, what the proxied path
//! looks like after the route prefix is stripped, and how the
//! child-process signal payload is read.

use vstd::prelude::*;
use crate::strutil::{find_from, find_char, starts_with_at, string_range, str_eq, push_char};
use crate::json::{self, JsonScalar, SpecScalar};

verus! {

/// The loopback port the control server binds.
pub const CONTROL_SERVER_PORT: u16 = 25842;

/// A route of the control server, at the specification level.
pub enum SpecRoute {
    Ws,
    Releases,
    Signal,
    DaemonStatus { pro_id: Seq<char> },
    DaemonRestart { pro_id: Seq<char> },
    DaemonProxy { pro_id: Seq<char>, rest: Seq<char> },
    NotFound,
}

/// A route of the control server.
pub enum Route {
    /// `GET /ws`: upgrade to the UI message channel.
    Ws,
    /// `GET /releases`: the cached release list.
    Releases,
    /// `POST /child-process/signal`: deliver a termination signal.
    Signal,
    /// `GET /daemon/{pro_id}/status`: ask the instance's daemon for its
    /// status.
    DaemonStatus { pro_id: String },
    /// `GET /daemon/{pro_id}/restart`: stop the instance's daemon; the
    /// watcher respawns it.
    DaemonRestart { pro_id: String },
    /// Any method on `/daemon-proxy/{pro_id}/{rest}`: forward to the
    /// daemon with the prefix stripped.
    DaemonProxy { pro_id: String, rest: String },
    /// No route matches.
    NotFound,
}

impl View for Route {
    type V = SpecRoute;

    open spec fn view(&self) -> SpecRoute {
        match self {
            Route::Ws => SpecRoute::Ws,
            Route::Releases => SpecRoute::Releases,
            Route::Signal => SpecRoute::Signal,
            Route::DaemonStatus { pro_id } => SpecRoute::DaemonStatus { pro_id: pro_id@ },
            Route::DaemonRestart { pro_id } => SpecRoute::DaemonRestart { pro_id: pro_id@ },
            Route::DaemonProxy { pro_id, rest } => SpecRoute::DaemonProxy {
                pro_id: pro_id@,
                rest: rest@,
            },
            Route::NotFound => SpecRoute::NotFound,
        }
    }
}

/// Whether `path` starts with `prefix`.
pub open spec fn spec_starts_with(path: Seq<char>, prefix: Seq<char>) -> bool {
    path.len() >= prefix.len() && path.subrange(0, prefix.len() as int) == prefix
}

/// The route selected by a method and a path. Instance ids are single
/// path segments; the proxied remainder may span several and must be
/// non-empty.
pub open spec fn spec_route(method: Seq<char>, path: Seq<char>) -> SpecRoute {
    if method == "GET"@ && path == "/ws"@ {
        SpecRoute::Ws
    } else if method == "GET"@ && path == "/releases"@ {
        SpecRoute::Releases
    } else if method == "POST"@ && path == "/child-process/signal"@ {
        SpecRoute::Signal
    } else if method == "GET"@ && spec_starts_with(path, "/daemon/"@) {
        let a = "/daemon/"@.len() as int;
        match find_from(path, a, '/') {
            Some(s) => {
                if s > a && path.skip(s) == "/status"@ {
                    SpecRoute::DaemonStatus { pro_id: path.subrange(a, s) }
                } else if s > a && path.skip(s) == "/restart"@ {
                    SpecRoute::DaemonRestart { pro_id: path.subrange(a, s) }
                } else {
                    SpecRoute::NotFound
                }
            },
            None => SpecRoute::NotFound,
        }
    } else if spec_starts_with(path, "/daemon-proxy/"@) {
        let a = "/daemon-proxy/"@.len() as int;
        match find_from(path, a, '/') {
            Some(s) => {
                if s > a && s + 1 < path.len() {
                    SpecRoute::DaemonProxy {
                        pro_id: path.subrange(a, s),
                        rest: path.skip(s + 1),
                    }
                } else {
                    SpecRoute::NotFound
                }
            },
            None => SpecRoute::NotFound,
        }
    } else {
        SpecRoute::NotFound
    }
}

/// Selects the route for a request.
pub fn route(method: &str, path: &str) -> (r: Route)
    ensures
        r@ == spec_route(method@, path@),
{
    proof {
        reveal_strlit("GET");
        reveal_strlit("POST");
        reveal_strlit("/ws");
        reveal_strlit("/releases");
        reveal_strlit("/child-process/signal");
        reveal_strlit("/daemon/");
        reveal_strlit("/daemon-proxy/");
        reveal_strlit("/status");
        reveal_strlit("/restart");
    }
    let is_get = str_eq(method, "GET");
    let path_len = path.unicode_len();
    if is_get && str_eq(path, "/ws") {
        Route::Ws
    } else if is_get && str_eq(path, "/releases") {
        Route::Releases
    } else if str_eq(method, "POST") && str_eq(path, "/child-process/signal") {
        Route::Signal
    } else if is_get && starts_with_at(path, 0, "/daemon/") {
        let a: usize = 8;
        proof {
            assert("/daemon/"@.len() == 8);
            assert(path@.subrange(0, 8) == "/daemon/"@);
        }
        match find_char(path, a, '/') {
            Some(s) => {
                proof {
                    crate::strutil::lemma_find_from(path@, a as int, '/');
                }
                let tail = path.substring_char(s, path_len);
                if s > a && str_eq(tail, "/status") {
                    Route::DaemonStatus { pro_id: string_range(path, a, s) }
                } else if s > a && str_eq(tail, "/restart") {
                    Route::DaemonRestart { pro_id: string_range(path, a, s) }
                } else {
                    Route::NotFound
                }
            },
            None => Route::NotFound,
        }
    } else if starts_with_at(path, 0, "/daemon-proxy/") {
        let a: usize = 14;
        proof {
            assert("/daemon-proxy/"@.len() == 14);
            assert(path@.subrange(0, 14) == "/daemon-proxy/"@);
        }
        match find_char(path, a, '/') {
            Some(s) => {
                proof {
                    crate::strutil::lemma_find_from(path@, a as int, '/');
                }
                if s > a && s + 1 < path_len {
                    Route::DaemonProxy {
                        pro_id: string_range(path, a, s),
                        rest: string_range(path, s + 1, path_len),
                    }
                } else {
                    Route::NotFound
                }
            },
            None => Route::NotFound,
        }
    } else {
        Route::NotFound
    }
}

/// The path and query forwarded to a daemon for a proxied request: a
/// slash, the remainder of the inbound path after the route prefix, and
/// the original query string, exactly as it came in.
pub fn proxy_path_and_query(rest: &str, query: Option<&str>) -> (r: String)
    ensures
        r@ == seq!['/'] + rest@ + (match query {
            Some(q) => seq!['?'] + q@,
            None => Seq::<char>::empty(),
        }),
{
    let mut out = String::from_str("/").concat(rest);
    proof {
        reveal_strlit("/");
        assert("/"@ =~= seq!['/']);
    }
    match query {
        Some(q) => {
            push_char(&mut out, '?');
            let out2 = out.concat(q);
            proof {
                assert(out2@ =~= seq!['/'] + rest@ + (seq!['?'] + q@));
            }
            out2
        },
        None => {
            proof {
                assert(out@ =~= seq!['/'] + rest@ + Seq::<char>::empty());
            }
            out
        },
    }
}

/// A request to deliver a signal to a child process.
#[derive(Debug, PartialEq, Eq, Structural, Clone, Copy)]
pub struct SendSignalMessage {
    pub process_id: i32,
    pub signal: i32,
}

/// Folds the pairs of a signal document: both fields must be present
/// exactly once and fit the executable integer type; unknown fields are
/// ignored.
pub open spec fn spec_fold_signal(
    pairs: Seq<(Seq<char>, SpecScalar)>,
    process_id: Option<int>,
    signal: Option<int>,
) -> Option<(int, int)>
    decreases pairs.len()
{
    if pairs.len() == 0 {
        match (process_id, signal) {
            (Some(p), Some(s)) => Some((p, s)),
            _ => None,
        }
    } else {
        let (k, v) = pairs[0];
        let rest = pairs.skip(1);
        if k == "processId"@ {
            match v {
                SpecScalar::Int(n) => if process_id is None && -0x8000_0000 <= n < 0x8000_0000 {
                    spec_fold_signal(rest, Some(n), signal)
                } else {
                    None
                },
                _ => None,
            }
        } else if k == "signal"@ {
            match v {
                SpecScalar::Int(n) => if signal is None && -0x8000_0000 <= n < 0x8000_0000 {
                    spec_fold_signal(rest, process_id, Some(n))
                } else {
                    None
                },
                _ => None,
            }
        } else {
            spec_fold_signal(rest, process_id, signal)
        }
    }
}

/// The signal request denoted by a document.
pub open spec fn spec_parse_signal_message(s: Seq<char>) -> Option<SendSignalMessage> {
    match json::spec_flat_object(s) {
        Some(pairs) => match spec_fold_signal(pairs, None, None) {
            Some((p, sg)) => Some(SendSignalMessage { process_id: p as i32, signal: sg as i32 }),
            None => None,
        },
        None => None,
    }
}

/// Parses the body of a `POST /child-process/signal` request.
pub fn parse_signal_message(s: &str) -> (r: Option<SendSignalMessage>)
    ensures
        r == spec_parse_signal_message(s@),
{
    let pairs = match json::parse_flat_object(s) {
        Some(p) => p,
        None => {
            return None;
        },
    };
    let ghost all = json::pairs_views(pairs@);
    let mut process_id: Option<i32> = None;
    let mut signal: Option<i32> = None;
    let mut idx: usize = 0;
    proof {
        assert(all.skip(0) =~= all);
    }
    while idx < pairs.len()
        invariant
            0 <= idx <= pairs.len(),
            all == json::pairs_views(pairs@),
            json::spec_flat_object(s@) == Some(all),
            spec_fold_signal(all, None, None) == spec_fold_signal(
                all.skip(idx as int),
                match process_id {
                    Some(p) => Some(p as int),
                    None => None,
                },
                match signal {
                    Some(sg) => Some(sg as int),
                    None => None,
                },
            ),
        decreases pairs.len() - idx,
    {
        let ghost rest = all.skip(idx as int);
        let ghost prev_pid = process_id;
        let ghost prev_sig = signal;
        proof {
            assert(all.len() == pairs@.len());
            assert(all[idx as int] == (pairs@[idx as int].0@, pairs@[idx as int].1@));
            assert(rest[0] == all[idx as int]);
            assert(rest.skip(1) =~= all.skip(idx as int + 1));
        }
        let key = &pairs[idx].0;
        let value = &pairs[idx].1;
        if str_eq(key.as_str(), "processId") {
            match value {
                JsonScalar::Int(n) => {
                    if process_id.is_none() && *n >= -0x8000_0000i64 && *n < 0x8000_0000i64 {
                        process_id = Some(*n as i32);
                    } else {
                        return None;
                    }
                },
                _ => {
                    return None;
                },
            }
        } else if str_eq(key.as_str(), "signal") {
            match value {
                JsonScalar::Int(n) => {
                    if signal.is_none() && *n >= -0x8000_0000i64 && *n < 0x8000_0000i64 {
                        signal = Some(*n as i32);
                    } else {
                        return None;
                    }
                },
                _ => {
                    return None;
                },
            }
        }
        idx = idx + 1;
    }
    proof {
        assert(all.skip(pairs.len() as int) =~= Seq::<(Seq<char>, SpecScalar)>::empty());
    }
    match (process_id, signal) {
        (Some(p), Some(sg)) => Some(SendSignalMessage { process_id: p, signal: sg }),
        _ => None,
    }
}

/// The signal actually delivered for any request: every requested value
/// maps to one fixed termination signal, the interrupt signal; the
/// request's number is accepted but not honored.
pub fn delivered_signal(msg: &SendSignalMessage) -> (r: i32)
    ensures
        r == 2,
{
    let _ = msg.signal;
    2
}

} // verus!
