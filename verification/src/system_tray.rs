//! Decisions behind the system tray menu.
//!
//! Building the menu and listening for its events is windowing work and
//! happens outside the library; what is verified is the dispatch: which
//! UI message a click on a given menu identifier produces.

use vstd::prelude::*;
use crate::messages::{OpenProInstanceMsg, OpenWorkspaceMsg, UiMessage};
use crate::strutil::{starts_with_at, string_range, str_eq};

verus! {

/// Menu identifier of the quit entry.
pub const QUIT_ID: &'static str = "quit";

/// Menu identifier of the dashboard entry.
pub const SHOW_DASHBOARD_ID: &'static str = "show_dashboard";

/// Exit code signalling that the user quit through the tray, so that
/// window handlers must not keep the application alive.
pub const QUIT_EXIT_CODE: i32 = 1337;

pub struct SystemTray {}

impl SystemTray {
    pub fn new() -> (r: Self) {
        SystemTray {}
    }
}

/// What a click on a menu entry means, at the specification level.
pub enum SpecMenuEvent {
    Quit,
    ShowDashboard,
    OpenWorkspace(Option<Seq<char>>),
    OpenProInstance(Seq<char>),
    Unhandled,
}

/// What a click on a menu entry means.
pub enum MenuEvent {
    /// Exit the application with the tray quit code.
    Quit,
    /// Bring the dashboard up.
    ShowDashboard,
    /// Send this message to the UI, after showing the dashboard.
    Send(UiMessage),
    /// The identifier belongs to no known entry.
    Unhandled,
}

/// The meaning of a menu identifier: the quit and dashboard entries act
/// directly; a workspace entry opens that workspace — the creation entry
/// opens an empty workspace — and a pro-instance entry opens that
/// instance.
pub open spec fn spec_menu_event(id: Seq<char>) -> SpecMenuEvent {
    if id == "quit"@ {
        SpecMenuEvent::Quit
    } else if id == "show_dashboard"@ {
        SpecMenuEvent::ShowDashboard
    } else if id.len() >= "workspaces-"@.len() && id.subrange(0, "workspaces-"@.len() as int)
        == "workspaces-"@ {
        if id == "workspaces-create_workspace"@ {
            SpecMenuEvent::OpenWorkspace(None)
        } else {
            SpecMenuEvent::OpenWorkspace(Some(id.skip("workspaces-"@.len() as int)))
        }
    } else if id.len() >= "pro-instances-"@.len() && id.subrange(
        0,
        "pro-instances-"@.len() as int,
    ) == "pro-instances-"@ {
        SpecMenuEvent::OpenProInstance(id.skip("pro-instances-"@.len() as int))
    } else {
        SpecMenuEvent::Unhandled
    }
}

/// Dispatches a tray menu identifier.
pub fn menu_event(id: &str) -> (r: MenuEvent)
    ensures
        match spec_menu_event(id@) {
            SpecMenuEvent::Quit => r is Quit,
            SpecMenuEvent::ShowDashboard => r is ShowDashboard,
            SpecMenuEvent::OpenWorkspace(w) => r matches MenuEvent::Send(
                UiMessage::OpenWorkspace(m),
            ) && (match (w, m.workspace_id) {
                (Some(a), Some(b)) => b@ == a,
                (None, None) => true,
                _ => false,
            }),
            SpecMenuEvent::OpenProInstance(h) => r matches MenuEvent::Send(
                UiMessage::OpenProInstance(m),
            ) && (m.host matches Some(b) && b@ == h),
            SpecMenuEvent::Unhandled => r is Unhandled,
        },
{
    proof {
        reveal_strlit("workspaces-");
        reveal_strlit("pro-instances-");
    }
    if str_eq(id, "quit") {
        return MenuEvent::Quit;
    }
    if str_eq(id, "show_dashboard") {
        return MenuEvent::ShowDashboard;
    }
    let len = id.unicode_len();
    if starts_with_at(id, 0, "workspaces-") {
        if str_eq(id, "workspaces-create_workspace") {
            return MenuEvent::Send(UiMessage::OpenWorkspace(OpenWorkspaceMsg::empty()));
        }
        let workspace_id = string_range(id, 11, len);
        proof {
            assert(id@.subrange(11, id@.len() as int) =~= id@.skip(11));
        }
        return MenuEvent::Send(UiMessage::OpenWorkspace(OpenWorkspaceMsg::with_id(workspace_id)));
    }
    if starts_with_at(id, 0, "pro-instances-") {
        let host = string_range(id, 14, len);
        proof {
            assert(id@.subrange(14, id@.len() as int) =~= id@.skip(14));
        }
        return MenuEvent::Send(
            UiMessage::OpenProInstance(OpenProInstanceMsg { host: Some(host) }),
        );
    }
    MenuEvent::Unhandled
}

} // verus!
