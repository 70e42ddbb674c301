//! Messages exchanged with the embedded UI.
//!
//! These are plain values; the channel that carries them and the
//! notification plumbing live outside the library.

use vstd::prelude::*;
use crate::protocol::ParseError;

verus! {

/// A message for the UI.
pub enum UiMessage {
    Ready,
    ExitRequested,
    ShowDashboard,
    ShowToast(ShowToastMsg),
    OpenWorkspace(OpenWorkspaceMsg),
    OpenProInstance(OpenProInstanceMsg),
    SetupPro(SetupProMsg),
    ImportWorkspace(ImportWorkspaceMsg),
    CommandFailed(ParseError),
    LoginRequired(LoginRequiredMsg),
}

/// A toast to show in the UI.
pub struct ShowToastMsg {
    pub title: String,
    pub message: String,
    pub status: ToastStatus,
}

impl ShowToastMsg {
    pub fn new(title: String, message: String, status: ToastStatus) -> (r: Self)
        ensures
            r.title == title,
            r.message == message,
            r.status == status,
    {
        ShowToastMsg { title, message, status }
    }
}

/// Status of a toast; matches the UI's notion.
#[derive(Debug, Clone, Copy, PartialEq, Eq, Structural)]
pub enum ToastStatus {
    Success,
    Error,
    Warning,
    Info,
    Loading,
}

/// Ask the UI to open a workspace, every detail optional.
pub struct OpenWorkspaceMsg {
    pub workspace_id: Option<String>,
    pub provider_id: Option<String>,
    pub ide: Option<String>,
    pub source: Option<String>,
}

impl OpenWorkspaceMsg {
    /// A message with nothing filled in: open the creation flow.
    pub fn empty() -> (r: OpenWorkspaceMsg)
        ensures
            r.workspace_id is None,
            r.provider_id is None,
            r.ide is None,
            r.source is None,
    {
        OpenWorkspaceMsg { workspace_id: None, provider_id: None, ide: None, source: None }
    }

    /// A message naming only the workspace.
    pub fn with_id(id: String) -> (r: OpenWorkspaceMsg)
        ensures
            r.workspace_id == Some(id),
            r.provider_id is None,
            r.ide is None,
            r.source is None,
    {
        OpenWorkspaceMsg { workspace_id: Some(id), provider_id: None, ide: None, source: None }
    }
}

/// Ask the UI to open a pro instance.
pub struct OpenProInstanceMsg {
    pub host: Option<String>,
}

/// Ask the UI to import an existing workspace; unknown payload fields
/// ride along as options.
pub struct ImportWorkspaceMsg {
    pub workspace_id: String,
    pub workspace_uid: String,
    pub devpod_pro_host: String,
    pub project: String,
    pub options: Vec<(String, String)>,
}

/// Ask the UI to set up a pro instance.
pub struct SetupProMsg {
    pub host: String,
    pub access_key: Option<String>,
    pub options: Option<Vec<(String, String)>>,
}

/// Tell the UI that a daemon's session needs a fresh login.
pub struct LoginRequiredMsg {
    pub host: String,
    pub provider: String,
}

} // verus!
