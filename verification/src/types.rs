//! The values the core works on: application settings and workspace entries.

use vstd::prelude::*;

verus! {

/// The canonical settings of the running process.
#[derive(Debug, PartialEq, Eq)]
pub struct AppSettings {
    /// Extra command-line arguments, as one shell-quoted string.
    pub codex_args: Option<String>,
    /// The home directory that is projected into the process environment.
    pub default_codex_home: Option<String>,
    /// The token presented to a remote backend.
    pub remote_backend_token: Option<String>,
    /// `"friendly"` or `"pragmatic"`.
    pub personality: String,
    pub experimental_collab_enabled: bool,
    pub collaboration_modes_enabled: bool,
    pub steer_enabled: bool,
    pub unified_exec_enabled: bool,
    pub experimental_apps_enabled: bool,
}

/// What an `AppSettings` value holds, with its texts as sequences of characters.
pub struct AppSettingsView {
    pub codex_args: Option<Seq<char>>,
    pub default_codex_home: Option<Seq<char>>,
    pub remote_backend_token: Option<Seq<char>>,
    pub personality: Seq<char>,
    pub experimental_collab_enabled: bool,
    pub collaboration_modes_enabled: bool,
    pub steer_enabled: bool,
    pub unified_exec_enabled: bool,
    pub experimental_apps_enabled: bool,
}

/// The personality that stands in for an absent or unrecognized one.
pub open spec fn default_personality() -> Seq<char> {
    "friendly"@
}

/// Whether `p` is one of the personalities the application knows.
pub open spec fn recognized_personality(p: Seq<char>) -> bool {
    p == "friendly"@ || p == "pragmatic"@
}

impl View for AppSettings {
    type V = AppSettingsView;

    open spec fn view(&self) -> AppSettingsView {
        AppSettingsView {
            codex_args: self.codex_args.deep_view(),
            default_codex_home: self.default_codex_home.deep_view(),
            remote_backend_token: self.remote_backend_token.deep_view(),
            personality: self.personality@,
            experimental_collab_enabled: self.experimental_collab_enabled,
            collaboration_modes_enabled: self.collaboration_modes_enabled,
            steer_enabled: self.steer_enabled,
            unified_exec_enabled: self.unified_exec_enabled,
            experimental_apps_enabled: self.experimental_apps_enabled,
        }
    }
}

impl AppSettings {
    /// The invariant of the settings: the personality is a recognized one.
    pub open spec fn wf(&self) -> bool {
        recognized_personality(self.personality@)
    }
}

impl Default for AppSettings {
    /// No arguments, no home, no token, the default personality, every flag off.
    fn default() -> (r: AppSettings)
        ensures
            r@ == (AppSettingsView {
                codex_args: None,
                default_codex_home: None,
                remote_backend_token: None,
                personality: default_personality(),
                experimental_collab_enabled: false,
                collaboration_modes_enabled: false,
                steer_enabled: false,
                unified_exec_enabled: false,
                experimental_apps_enabled: false,
            }),
            r.wf(),
    {
        AppSettings {
            codex_args: None,
            default_codex_home: None,
            remote_backend_token: None,
            personality: "friendly".to_owned(),
            experimental_collab_enabled: false,
            collaboration_modes_enabled: false,
            steer_enabled: false,
            unified_exec_enabled: false,
            experimental_apps_enabled: false,
        }
    }
}

impl Clone for AppSettings {
    fn clone(&self) -> (r: AppSettings)
        ensures
            r@ == self@,
    {
        AppSettings {
            codex_args: copy_text(&self.codex_args),
            default_codex_home: copy_text(&self.default_codex_home),
            remote_backend_token: copy_text(&self.remote_backend_token),
            personality: self.personality.clone(),
            experimental_collab_enabled: self.experimental_collab_enabled,
            collaboration_modes_enabled: self.collaboration_modes_enabled,
            steer_enabled: self.steer_enabled,
            unified_exec_enabled: self.unified_exec_enabled,
            experimental_apps_enabled: self.experimental_apps_enabled,
        }
    }
}

/// A copy of an optional text.
pub fn copy_text(text: &Option<String>) -> (r: Option<String>)
    ensures
        r.deep_view() == text.deep_view(),
{
    match text {
        Some(t) => Some(t.clone()),
        None => None,
    }
}

/// Whether a workspace is a main checkout or a worktree of one.
#[derive(Debug, Clone, Copy, PartialEq, Eq)]
pub enum WorkspaceKind {
    Main,
    Worktree,
}

/// What is recorded of a worktree.
#[derive(Debug, Clone, PartialEq, Eq)]
pub struct WorktreeInfo {
    pub branch: String,
}

/// Settings kept per workspace.
#[derive(Debug, Clone, PartialEq, Eq)]
pub struct WorkspaceSettings {
    /// Arguments recorded for this workspace alone.
    pub codex_args: Option<String>,
}

impl Default for WorkspaceSettings {
    fn default() -> (r: WorkspaceSettings)
        ensures
            r.codex_args is None,
    {
        WorkspaceSettings { codex_args: None }
    }
}

/// One workspace of the registry.
#[derive(Debug, Clone, PartialEq, Eq)]
pub struct WorkspaceEntry {
    pub id: String,
    pub name: String,
    pub path: String,
    pub kind: WorkspaceKind,
    pub parent_id: Option<String>,
    pub worktree: Option<WorktreeInfo>,
    pub settings: WorkspaceSettings,
}

} // verus!
