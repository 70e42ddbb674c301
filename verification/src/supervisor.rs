//! Per-instance supervision of a daemon child process.
//!
//! A supervisor owns one daemon's lifecycle: it decides when to spawn,
//! when to give up, when to fall back to slow periodic retries, and which
//! one-time notifications to raise. Spawning, killing and asking the
//! daemon for its status are outside work; the surrounding loop performs
//! the returned actions and feeds the outcomes back in.

use vstd::prelude::*;
use crate::{DaemonState, DaemonStatus};
use crate::client::Client;
use crate::commands::DevpodCommandError;

verus! {

/// Consecutive failed attempts after which the one-time "daemon failed"
/// notification is raised and retries slow down.
pub const MAX_RETRY_COUNT: u64 = 10;

/// Failed attempts after which the next spawn passes the debug flag.
pub const RETRY_DEBUG_THRESHOLD: u64 = 7;

/// Past the retry limit, a retry is attempted only every this many ticks.
pub const SLOW_RETRY_INTERVAL: u64 = 5;

/// Supervisor of one daemon child process.
pub struct Daemon {
    /// Most recently adopted status report.
    pub status: DaemonStatus,
    /// Process id of the tracked child, if one is running.
    pub child: Option<u64>,
    /// Consecutive ticks without the daemon having been seen running.
    pub retry_count: u64,
    /// Client bound to this daemon's local endpoint.
    pub client: Client,
    /// Provider this daemon belongs to.
    pub provider: Option<String>,
    /// Whether the one-time failure notification has been raised.
    pub notified_user_daemon_failed: bool,
    /// Whether the login-required message has been raised for the current
    /// occurrence of the condition.
    pub notified_login_required: bool,
}

/// What a retry decision asks the caller to do.
pub struct RetryDecision {
    /// Whether a health check or spawn should be attempted this tick.
    pub retry: bool,
    /// Whether the one-time "daemon failed" notification must be raised
    /// now.
    pub notify_failed: bool,
}

/// What a health-check outcome asks the caller to do.
#[derive(PartialEq, Eq, Structural)]
pub enum HealthAction {
    /// Nothing to do this tick.
    Wait,
    /// Start the daemon: stop any tracked child, spawn, then report the
    /// outcome through `on_spawn_success`.
    Start,
    /// Terminate this child process; its handle is no longer tracked.
    Kill(u64),
}

/// The supervisor after one retry decision.
pub open spec fn spec_retry_next(d: Daemon) -> Daemon {
    if d.status.login_required {
        d
    } else {
        Daemon {
            retry_count: (d.retry_count + 1) as u64,
            notified_user_daemon_failed: d.notified_user_daemon_failed || d.retry_count + 1
                >= MAX_RETRY_COUNT,
            ..d
        }
    }
}

/// Whether the tick goes ahead: never while login is required; always
/// below the retry limit; past it, only on every fifth tick.
pub open spec fn spec_retry_allows(d: Daemon) -> bool {
    if d.status.login_required {
        false
    } else if d.retry_count + 1 < MAX_RETRY_COUNT {
        true
    } else {
        (d.retry_count + 1) % (SLOW_RETRY_INTERVAL as int) == 0
    }
}

/// Whether this decision raises the one-time failure notification.
pub open spec fn spec_retry_notifies(d: Daemon) -> bool {
    &&& !d.status.login_required
    &&& d.retry_count + 1 >= MAX_RETRY_COUNT
    &&& !d.notified_user_daemon_failed
}

/// The supervisor after adopting a health-check outcome; `report` is the
/// freshly fetched status, or nothing when the fetch failed.
pub open spec fn spec_health_next(d: Daemon, report: Option<DaemonStatus>) -> Daemon {
    match report {
        Some(st) => {
            if st.state == DaemonState::Running {
                Daemon {
                    status: st,
                    retry_count: 0,
                    notified_login_required: false,
                    ..d
                }
            } else if st.state == DaemonState::Stopped {
                Daemon { status: DaemonStatus { state: DaemonState::Pending, ..st }, ..d }
            } else {
                Daemon { status: st, ..d }
            }
        },
        None => {
            if d.child is Some {
                Daemon {
                    status: DaemonStatus { state: DaemonState::Stopped, ..d.status },
                    child: None,
                    ..d
                }
            } else {
                Daemon {
                    status: DaemonStatus { state: DaemonState::Pending, ..d.status },
                    ..d
                }
            }
        },
    }
}

/// The action a health-check outcome demands: a stopped or unreachable
/// daemon is restarted; an unreachable one with a tracked child has that
/// child killed first and is restarted on the next tick.
pub open spec fn spec_health_action(d: Daemon, report: Option<DaemonStatus>) -> HealthAction {
    match report {
        Some(st) => {
            if st.state == DaemonState::Stopped {
                HealthAction::Start
            } else {
                HealthAction::Wait
            }
        },
        None => match d.child {
            Some(pid) => HealthAction::Kill(pid),
            None => HealthAction::Start,
        },
    }
}

/// Whether this instance counts as ready after the tick: only a reachable,
/// running daemon does.
pub open spec fn spec_health_ready(report: Option<DaemonStatus>) -> bool {
    match report {
        Some(st) => st.state == DaemonState::Running,
        None => false,
    }
}

/// Whether a health-check outcome counts the instance as ready.
pub fn health_ready(report: &Option<DaemonStatus>) -> (r: bool)
    ensures
        r == spec_health_ready(*report),
{
    match report {
        Some(st) => st.state == DaemonState::Running,
        None => false,
    }
}

impl Daemon {
    /// Creates a supervisor for the given provider, connecting through the
    /// per-provider socket under the application home directory. Fails
    /// when the instance has no provider set.
    pub fn new(home: String, context: Option<String>, provider: Option<String>) -> (r: Result<
        Daemon,
        DevpodCommandError,
    >)
        ensures
            match r {
                Ok(d) => {
                    &&& provider is Some
                    &&& d.client.socket@ == spec_socket_addr(
                        home@,
                        match context {
                            Some(c) => c@,
                            None => "default"@,
                        },
                        provider->0@,
                    )
                    &&& d.status == DaemonStatus::spec_default()
                    &&& d.child is None
                    &&& d.retry_count == 0
                    &&& d.provider == provider
                    &&& !d.notified_user_daemon_failed
                    &&& !d.notified_login_required
                },
                Err(_) => provider is None,
            },
    {
        let socket = match get_socket_addr(home, context, provider.clone()) {
            Ok(s) => s,
            Err(e) => {
                return Err(e);
            },
        };
        Ok(
            Daemon {
                status: DaemonStatus::default(),
                child: None,
                retry_count: 0,
                client: Client::new(socket),
                provider,
                notified_user_daemon_failed: false,
                notified_login_required: false,
            },
        )
    }

    /// The most recently adopted status.
    pub fn status(&self) -> (r: &DaemonStatus)
        ensures
            r == self.status,
    {
        &self.status
    }

    /// The client bound to this daemon's endpoint.
    pub fn get_client(&self) -> (r: &Client)
        ensures
            r == self.client,
    {
        &self.client
    }

    /// Decides whether this tick may act on the daemon, bumping the
    /// failure count and raising the one-time failure notification at the
    /// retry limit. While login is required nothing is retried and
    /// nothing changes.
    pub fn should_retry(&mut self) -> (r: RetryDecision)
        requires
            old(self).retry_count < u64::MAX,
        ensures
            *final(self) == spec_retry_next(*old(self)),
            r.retry == spec_retry_allows(*old(self)),
            r.notify_failed == spec_retry_notifies(*old(self)),
    {
        if self.status.login_required {
            return RetryDecision { retry: false, notify_failed: false };
        }
        self.retry_count = self.retry_count + 1;
        if self.retry_count < MAX_RETRY_COUNT {
            RetryDecision { retry: true, notify_failed: false }
        } else {
            let notify = !self.notified_user_daemon_failed;
            self.notified_user_daemon_failed = true;
            RetryDecision {
                retry: self.retry_count % SLOW_RETRY_INTERVAL == 0,
                notify_failed: notify,
            }
        }
    }

    /// Whether the next spawn passes the debug flag to the child.
    pub fn should_debug(&self) -> (r: bool)
        ensures
            r == (self.retry_count >= RETRY_DEBUG_THRESHOLD),
    {
        self.retry_count >= RETRY_DEBUG_THRESHOLD
    }

    /// Stops tracking the child and resets the status to the default. The
    /// returned pid, if any, is the child the caller must terminate.
    pub fn try_stop(&mut self) -> (killed: Option<u64>)
        ensures
            killed == old(self).child,
            *final(self) == (Daemon {
                child: None,
                status: DaemonStatus::spec_default(),
                ..*old(self)
            }),
    {
        let killed = self.child;
        self.child = None;
        self.status = DaemonStatus::default();
        killed
    }

    /// Adopts the first status a freshly spawned child reported on its
    /// standard output and tracks the child; a child that comes up
    /// running clears the failure count. Returns whether the
    /// login-required message must be raised now: exactly on reports that
    /// require login, and only once per occurrence of the condition.
    pub fn on_spawn_success(&mut self, pid: u64, status: DaemonStatus) -> (notify_login: bool)
        ensures
            *final(self) == (Daemon {
                child: Some(pid),
                status,
                retry_count: if status.state == DaemonState::Running {
                    0
                } else {
                    old(self).retry_count
                },
                notified_login_required: old(self).notified_login_required
                    || status.login_required,
                ..*old(self)
            }),
            notify_login == (status.login_required && !old(self).notified_login_required),
    {
        self.child = Some(pid);
        self.status = status;
        if status.state == DaemonState::Running {
            self.retry_count = 0;
        }
        let notify = status.login_required && !self.notified_login_required;
        if status.login_required {
            self.notified_login_required = true;
        }
        notify
    }

    /// Adopts the outcome of one health check. A running report resets the
    /// failure count and re-arms the login message; a stopped report and a
    /// failed fetch schedule a restart; a failed fetch with a tracked
    /// child clears that child for the kill.
    pub fn on_health_result(&mut self, report: Option<DaemonStatus>) -> (act: HealthAction)
        ensures
            *final(self) == spec_health_next(*old(self), report),
            act == spec_health_action(*old(self), report),
    {
        match report {
            Some(st) => {
                match st.state {
                    DaemonState::Running => {
                        self.status = st;
                        self.retry_count = 0;
                        self.notified_login_required = false;
                        HealthAction::Wait
                    },
                    DaemonState::Stopped => {
                        self.status = DaemonStatus { state: DaemonState::Pending, ..st };
                        HealthAction::Start
                    },
                    DaemonState::Pending => {
                        self.status = st;
                        HealthAction::Wait
                    },
                }
            },
            None => {
                match self.child {
                    Some(pid) => {
                        self.status = DaemonStatus {
                            state: DaemonState::Stopped,
                            ..self.status
                        };
                        self.child = None;
                        HealthAction::Kill(pid)
                    },
                    None => {
                        self.status = DaemonStatus {
                            state: DaemonState::Pending,
                            ..self.status
                        };
                        HealthAction::Start
                    },
                }
            },
        }
    }
}

/// The socket path of a provider's daemon under the application home:
/// `{home}/contexts/{context}/providers/{provider}/daemon/devpod.sock`.
pub open spec fn spec_socket_addr(home: Seq<char>, context: Seq<char>, provider: Seq<char>)
    -> Seq<char> {
    home + "/contexts/"@ + context + "/providers/"@ + provider + "/daemon/devpod.sock"@
}

/// Builds the daemon socket path for a provider; the context defaults to
/// `default`. Fails exactly when no provider is given.
pub fn get_socket_addr(home: String, context: Option<String>, provider: Option<String>) -> (r:
    Result<String, DevpodCommandError>)
    ensures
        match r {
            Ok(s) => provider is Some && s@ == spec_socket_addr(
                home@,
                match context {
                    Some(c) => c@,
                    None => "default"@,
                },
                provider->0@,
            ),
            Err(_) => provider is None,
        },
{
    let provider = match provider {
        Some(p) => p,
        None => {
            return Err(
                DevpodCommandError::Any(String::from_str("provider not set for pro instance")),
            );
        },
    };
    let context = match context {
        Some(c) => c,
        None => String::from_str("default"),
    };
    let s = home
        .concat("/contexts/")
        .concat(context.as_str())
        .concat("/providers/")
        .concat(provider.as_str())
        .concat("/daemon/devpod.sock");
    Ok(s)
}

/// The named pipe a provider's daemon listens on where the platform has
/// named pipes instead of sockets: `\\.\pipe\devpod.{provider}`.
pub fn get_pipe_addr(provider: &String) -> (r: String)
    ensures
        r@ == "\\\\.\\pipe\\devpod."@ + provider@,
{
    String::from_str("\\\\.\\pipe\\devpod.").concat(provider.as_str())
}

/// The supervisor after one full failed tick: a retry decision followed
/// by a failed health check (the daemon unreachable, no child spawned).
pub open spec fn spec_failed_tick(d: Daemon) -> Daemon {
    spec_health_next(spec_retry_next(d), None)
}

/// The supervisor after `k` consecutive failed ticks.
pub open spec fn spec_after_failures(d: Daemon, k: nat) -> Daemon
    decreases k
{
    if k == 0 {
        d
    } else {
        spec_failed_tick(spec_after_failures(d, (k - 1) as nat))
    }
}

/// The retry policy over a run of consecutive failures, starting from a
/// fresh supervisor that does not require login: the failure count rises
/// by exactly one per tick; the failure notification is raised on the
/// tick that reaches the retry limit and on no other; and past the limit
/// a tick goes ahead exactly when its count is a multiple of the slow
/// retry interval.
pub proof fn lemma_retry_policy(d: Daemon, k: nat)
    requires
        !d.status.login_required,
        !d.status.online,
        d.retry_count == 0,
        !d.notified_user_daemon_failed,
        d.child is None,
        1 <= k <= 0xffff_ffff_ffff_0000u64,
    ensures
        spec_after_failures(d, k).retry_count == k,
        !spec_after_failures(d, k).status.login_required,
        spec_after_failures(d, k).notified_user_daemon_failed <==> k >= MAX_RETRY_COUNT,
        spec_after_failures(d, k).child is None,
        spec_retry_notifies(spec_after_failures(d, (k - 1) as nat)) <==> k == MAX_RETRY_COUNT,
        spec_retry_allows(spec_after_failures(d, (k - 1) as nat)) <==> (k < MAX_RETRY_COUNT || (
        k as int) % (SLOW_RETRY_INTERVAL as int) == 0),
    decreases k,
{
    if k == 1 {
    } else {
        lemma_retry_policy(d, (k - 1) as nat);
    }
}

} // verus!
