//! Plain data carried by the application shell: settings, release
//! authors, community contributions, and the action-log error kinds.
//!
//! Persisting, fetching and serializing these is outside work; the
//! library holds their shapes so that the verified logic and the shell
//! speak the same values.

use vstd::prelude::*;

verus! {

/// Failure around the per-action log files.
#[derive(Debug)]
pub enum ActionLogError {
    /// The application data directory cannot be found.
    NoDir,
    /// A log file could not be opened.
    FileOpen(String),
    /// A log file could not be written.
    Write(String),
    /// A log file could not be deleted.
    FileDelete(String),
}

/// Where the sidebar sits.
#[derive(Debug, Clone, Copy, PartialEq, Eq, Structural)]
pub enum SidebarPosition {
    Left,
    Right,
}

/// The UI color mode.
#[derive(Debug, Clone, Copy, PartialEq, Eq, Structural)]
pub enum ColorMode {
    Dark,
    Light,
}

/// The UI zoom level.
#[derive(Debug, Clone, Copy, PartialEq, Eq, Structural)]
pub enum Zoom {
    Sm,
    Md,
    Lg,
    Xl,
}

/// The user-facing settings, as the UI stores them.
#[derive(Debug)]
pub struct Settings {
    pub sidebar_position: SidebarPosition,
    pub debug_flag: bool,
    pub party_parrot: bool,
    pub fixed_ide: bool,
    pub zoom: Zoom,
    pub transparency: bool,
    pub auto_update: bool,
    pub additional_cli_flags: String,
    pub additional_env_vars: String,
    pub dotfiles_url: String,
    pub ssh_key_path: String,
    pub http_proxy_url: String,
    pub https_proxy_url: String,
    pub no_proxy: String,
    pub experimental_multi_devcontainer: bool,
    pub experimental_fleet: bool,
    pub experimental_jupyter_notebooks: bool,
    pub experimental_vscode_insiders: bool,
    pub experimental_cursor: bool,
    pub experimental_codium: bool,
    pub experimental_zed: bool,
    pub experimental_positron: bool,
    pub experimental_rstudio: bool,
    pub experimental_devpod_pro: bool,
    pub experimental_color_mode: ColorMode,
}

/// The author of a release, as the release feed reports it.
#[derive(Debug, Clone)]
pub struct Author {
    pub login: String,
    pub id: u64,
    pub node_id: String,
    pub avatar_url: String,
    pub gravatar_id: String,
    pub url: String,
    pub html_url: String,
    pub followers_url: String,
    pub following_url: String,
    pub gists_url: String,
    pub starred_url: String,
    pub subscriptions_url: String,
    pub organizations_url: String,
    pub repos_url: String,
    pub events_url: String,
    pub received_events_url: String,
    pub user_type: String,
    pub site_admin: bool,
}

/// A community-contributed provider.
#[derive(Debug, Clone)]
pub struct CommunityProvider {
    pub repository: String,
}

/// The community contributions shipped with the application.
#[derive(Debug, Clone)]
pub struct CommunityContributions {
    pub providers: Vec<CommunityProvider>,
}

} // verus!
