//! Settings reconciliation: overlaying what the configuration store reports
//! onto the cached settings, planning and committing an update, projecting
//! the home directory into the environment, and updating the remote token.

use vstd::prelude::*;
use vstd::string::*;
use crate::text::{blank, lemma_trimmed_empty_iff_blank, non_blank, non_blank_text, same_text};
use crate::types::{
    copy_text, default_personality, recognized_personality, AppSettings, AppSettingsView,
};

verus! {

/// The environment variable that carries the default home directory.
pub const CODEX_HOME_ENV: &'static str = "CODEX_HOME";

/// Why a settings operation failed.
#[derive(Debug, Clone, PartialEq, Eq)]
pub enum SettingsError {
    /// The settings file could not be written; holds the writer's own words.
    Persist(String),
    /// No configuration path could be resolved, or it is not valid Unicode.
    ConfigPathUnresolved,
}

impl SettingsError {
    /// The text shown to the user.
    pub open spec fn message_text(&self) -> Seq<char> {
        match self {
            SettingsError::Persist(detail) => detail@,
            SettingsError::ConfigPathUnresolved => "Unable to resolve CODEX_HOME"@,
        }
    }

    /// The text shown to the user.
    pub fn message(&self) -> (r: String)
        ensures
            r@ == self.message_text(),
    {
        match self {
            SettingsError::Persist(detail) => detail.clone(),
            SettingsError::ConfigPathUnresolved => "Unable to resolve CODEX_HOME".to_owned(),
        }
    }
}

/// The personality that `value` names: `value` itself where it is one of the
/// two names, letter for letter.
pub open spec fn normalized_personality(value: Seq<char>) -> Option<Seq<char>> {
    if recognized_personality(value) {
        Some(value)
    } else {
        None
    }
}

/// The personality in force for what the store holds: the one it names, and
/// the default where it holds none or an unrecognized one.
pub open spec fn resolved_personality(stored: Option<Seq<char>>) -> Seq<char> {
    match stored {
        Some(value) => match normalized_personality(value) {
            Some(p) => p,
            None => default_personality(),
        },
        None => default_personality(),
    }
}

/// Recognizes a personality: only the two names as they are written, with
/// nothing around them.
pub fn normalize_personality(value: &str) -> (r: Option<&'static str>)
    ensures
        r.deep_view() == normalized_personality(value@),
{
    if same_text(value, "friendly") {
        Some("friendly")
    } else if same_text(value, "pragmatic") {
        Some("pragmatic")
    } else {
        None
    }
}

/// The personality in force for what the store holds.
pub fn resolve_personality(stored: Option<&str>) -> (r: String)
    ensures
        r@ == resolved_personality(stored.deep_view()),
        recognized_personality(r@),
{
    let named = match stored {
        Some(value) => normalize_personality(value),
        None => None,
    };
    match named {
        Some(p) => p.to_owned(),
        None => "friendly".to_owned(),
    }
}

/// What the configuration store answered, one read per mirrored field. An
/// `Err` is a failed read, `Ok(None)` a field that the store does not hold.
#[derive(Debug, PartialEq, Eq)]
pub struct ConfigReads {
    pub experimental_collab_enabled: Result<Option<bool>, String>,
    pub collaboration_modes_enabled: Result<Option<bool>, String>,
    pub steer_enabled: Result<Option<bool>, String>,
    pub unified_exec_enabled: Result<Option<bool>, String>,
    pub experimental_apps_enabled: Result<Option<bool>, String>,
    pub personality: Result<Option<String>, String>,
}

/// What an update pushes to the configuration store, one write per mirrored
/// field.
#[derive(Debug, Clone, PartialEq, Eq)]
pub struct ConfigWrites {
    pub experimental_collab_enabled: bool,
    pub collaboration_modes_enabled: bool,
    pub steer_enabled: bool,
    pub unified_exec_enabled: bool,
    pub experimental_apps_enabled: bool,
    pub personality: String,
}

/// A flag after one read: the stored value where the read gave one, else the
/// cached value.
pub open spec fn overlaid_flag(cached: bool, read: Result<Option<bool>, String>) -> bool {
    match read {
        Ok(Some(stored)) => stored,
        _ => cached,
    }
}

/// The personality after one read: resolved from the store where the read
/// succeeded, else the cached one.
pub open spec fn overlaid_personality(
    cached: Seq<char>,
    read: Result<Option<String>, String>,
) -> Seq<char> {
    match read {
        Ok(stored) => resolved_personality(stored.deep_view()),
        Err(_) => cached,
    }
}

/// The settings that a read returns: the cached ones with each mirrored
/// field overlaid by the store.
pub open spec fn overlaid(cached: AppSettingsView, reads: ConfigReads) -> AppSettingsView {
    AppSettingsView {
        codex_args: cached.codex_args,
        default_codex_home: cached.default_codex_home,
        remote_backend_token: cached.remote_backend_token,
        personality: overlaid_personality(cached.personality, reads.personality),
        experimental_collab_enabled: overlaid_flag(
            cached.experimental_collab_enabled,
            reads.experimental_collab_enabled,
        ),
        collaboration_modes_enabled: overlaid_flag(
            cached.collaboration_modes_enabled,
            reads.collaboration_modes_enabled,
        ),
        steer_enabled: overlaid_flag(cached.steer_enabled, reads.steer_enabled),
        unified_exec_enabled: overlaid_flag(cached.unified_exec_enabled, reads.unified_exec_enabled),
        experimental_apps_enabled: overlaid_flag(
            cached.experimental_apps_enabled,
            reads.experimental_apps_enabled,
        ),
    }
}

fn overlay_flag(cached: bool, read: &Result<Option<bool>, String>) -> (r: bool)
    ensures
        r == overlaid_flag(cached, *read),
{
    match read {
        Ok(Some(stored)) => *stored,
        _ => cached,
    }
}

/// Reads the settings: the cached value with the store's answers laid over
/// it. A failed or empty read of a flag keeps the cached flag; a failed read
/// of the personality keeps the cached one; no failure is reported.
pub fn get_app_settings_core(cached: &AppSettings, reads: &ConfigReads) -> (r: AppSettings)
    ensures
        r@ == overlaid(cached@, *reads),
        cached.wf() || reads.personality is Ok ==> r.wf(),
{
    let personality = match &reads.personality {
        Ok(Some(stored)) => resolve_personality(Some(stored.as_str())),
        Ok(None) => resolve_personality(None),
        Err(_) => cached.personality.clone(),
    };
    AppSettings {
        codex_args: copy_text(&cached.codex_args),
        default_codex_home: copy_text(&cached.default_codex_home),
        remote_backend_token: copy_text(&cached.remote_backend_token),
        personality,
        experimental_collab_enabled: overlay_flag(
            cached.experimental_collab_enabled,
            &reads.experimental_collab_enabled,
        ),
        collaboration_modes_enabled: overlay_flag(
            cached.collaboration_modes_enabled,
            &reads.collaboration_modes_enabled,
        ),
        steer_enabled: overlay_flag(cached.steer_enabled, &reads.steer_enabled),
        unified_exec_enabled: overlay_flag(cached.unified_exec_enabled, &reads.unified_exec_enabled),
        experimental_apps_enabled: overlay_flag(
            cached.experimental_apps_enabled,
            &reads.experimental_apps_enabled,
        ),
    }
}

/// What to do to the environment variable.
#[derive(Debug, Clone, PartialEq, Eq)]
pub enum EnvAction {
    /// Set the variable to this value.
    Assign(String),
    /// Remove the variable.
    Clear,
    /// Leave the variable as it is.
    Keep,
}

/// The part of the process environment that the settings touch: the value of
/// the home variable, `None` while it is unset.
#[derive(Debug, Clone, PartialEq, Eq)]
pub struct EnvironmentContext {
    pub codex_home: Option<String>,
}

/// The value that the settings want in the variable: their trimmed home,
/// unless it is absent or blank.
pub open spec fn wanted_home(settings: AppSettingsView) -> Option<Seq<char>> {
    match settings.default_codex_home {
        Some(home) => non_blank(home),
        None => None,
    }
}

/// The settings name no home: it is absent or blank.
pub open spec fn no_home(settings: AppSettingsView) -> bool {
    settings.default_codex_home is None || blank(settings.default_codex_home->0)
}

/// The settings want nothing in the variable exactly when they name no home.
pub proof fn lemma_no_home(settings: AppSettingsView)
    ensures
        wanted_home(settings) is None <==> no_home(settings),
{
    if settings.default_codex_home is Some {
        lemma_trimmed_empty_iff_blank(settings.default_codex_home->0);
    }
}

/// Whether this process has put a home into the variable: the previous
/// settings, if any, wanted one.
pub open spec fn had_home(previous: Option<AppSettingsView>) -> bool {
    match previous {
        Some(prior) => wanted_home(prior) is Some,
        None => false,
    }
}

/// The variable after the projection: the wanted home where there is one;
/// else unset where this process had set it; else as it was.
pub open spec fn projected_home(
    settings: AppSettingsView,
    previous: Option<AppSettingsView>,
    current: Option<Seq<char>>,
) -> Option<Seq<char>> {
    match wanted_home(settings) {
        Some(home) => Some(home),
        None => if had_home(previous) {
            None
        } else {
            current
        },
    }
}

fn home_of(settings: &AppSettings) -> (r: Option<String>)
    ensures
        r.deep_view() == wanted_home(settings@),
{
    match &settings.default_codex_home {
        Some(home) => non_blank_text(home.as_str()),
        None => None,
    }
}

/// Decides what the new settings do to the variable: a home that is present
/// and not blank is set, whatever was there; without one the variable is
/// cleared only where the previous settings had set it.
pub fn default_codex_home_env_action(
    settings: &AppSettings,
    previous: Option<&AppSettings>,
) -> (r: EnvAction)
    ensures
        match r {
            EnvAction::Assign(home) => wanted_home(settings@) == Some(home@),
            EnvAction::Clear => wanted_home(settings@) is None && had_home(view_of(previous)),
            EnvAction::Keep => wanted_home(settings@) is None && !had_home(view_of(previous)),
        },
{
    if let Some(home) = home_of(settings) {
        return EnvAction::Assign(home);
    }
    let should_clear = match previous {
        Some(prior) => home_of(prior).is_some(),
        None => false,
    };
    if should_clear {
        EnvAction::Clear
    } else {
        EnvAction::Keep
    }
}

/// The view of optional settings.
pub open spec fn view_of(settings: Option<&AppSettings>) -> Option<AppSettingsView> {
    match settings {
        Some(s) => Some(s@),
        None => None,
    }
}

/// Projects the home directory of the settings into the environment.
///
/// A blank or absent home clears the variable only where `previous` had set
/// it: a variable that this process never set is left as it is.
pub fn apply_default_codex_home_env(
    settings: &AppSettings,
    previous: Option<&AppSettings>,
    env: &mut EnvironmentContext,
)
    ensures
        final(env).codex_home.deep_view() == projected_home(
            settings@,
            view_of(previous),
            old(env).codex_home.deep_view(),
        ),
        no_home(settings@) && (previous is None || no_home(previous->0@)) ==> *final(env) == *old(
            env,
        ),
{
    proof {
        lemma_no_home(settings@);
        if previous is Some {
            lemma_no_home(previous->0@);
        }
    }
    match default_codex_home_env_action(settings, previous) {
        EnvAction::Assign(home) => {
            env.codex_home = Some(home);
        },
        EnvAction::Clear => {
            env.codex_home = None;
        },
        EnvAction::Keep => {},
    }
}

/// `writes` carries each mirrored field of `settings`.
pub open spec fn mirrors(writes: ConfigWrites, settings: AppSettingsView) -> bool {
    &&& writes.experimental_collab_enabled == settings.experimental_collab_enabled
    &&& writes.collaboration_modes_enabled == settings.collaboration_modes_enabled
    &&& writes.steer_enabled == settings.steer_enabled
    &&& writes.unified_exec_enabled == settings.unified_exec_enabled
    &&& writes.experimental_apps_enabled == settings.experimental_apps_enabled
    &&& writes.personality@ == settings.personality
}

/// The store answers every read with what `writes` put there.
pub open spec fn reads_back(reads: ConfigReads, writes: ConfigWrites) -> bool {
    &&& reads.experimental_collab_enabled == Ok::<Option<bool>, String>(
        Some(writes.experimental_collab_enabled),
    )
    &&& reads.collaboration_modes_enabled == Ok::<Option<bool>, String>(
        Some(writes.collaboration_modes_enabled),
    )
    &&& reads.steer_enabled == Ok::<Option<bool>, String>(Some(writes.steer_enabled))
    &&& reads.unified_exec_enabled == Ok::<Option<bool>, String>(Some(writes.unified_exec_enabled))
    &&& reads.experimental_apps_enabled == Ok::<Option<bool>, String>(
        Some(writes.experimental_apps_enabled),
    )
    &&& reads.personality matches Ok(Some(stored)) && stored@ == writes.personality@
}

/// The values that an update mirrors into the configuration store.
pub fn mirrored_flags(settings: &AppSettings) -> (r: ConfigWrites)
    ensures
        mirrors(r, settings@),
{
    ConfigWrites {
        experimental_collab_enabled: settings.experimental_collab_enabled,
        collaboration_modes_enabled: settings.collaboration_modes_enabled,
        steer_enabled: settings.steer_enabled,
        unified_exec_enabled: settings.unified_exec_enabled,
        experimental_apps_enabled: settings.experimental_apps_enabled,
        personality: settings.personality.clone(),
    }
}

/// The side effects of an update, in the order in which they are performed
/// before the settings are persisted.
#[derive(Debug, Clone, PartialEq, Eq)]
pub struct UpdatePlan {
    /// What to do to the environment variable.
    pub env: EnvAction,
    /// What to write to the configuration store; failures there are dropped.
    pub mirror: ConfigWrites,
}

/// Plans an update to `settings` while `current` is in force.
pub fn plan_app_settings_update(settings: &AppSettings, current: &AppSettings) -> (r: UpdatePlan)
    ensures
        match r.env {
            EnvAction::Assign(home) => wanted_home(settings@) == Some(home@),
            EnvAction::Clear => wanted_home(settings@) is None && wanted_home(current@) is Some,
            EnvAction::Keep => wanted_home(settings@) is None && wanted_home(current@) is None,
        },
        mirrors(r.mirror, settings@),
{
    UpdatePlan {
        env: default_codex_home_env_action(settings, Some(current)),
        mirror: mirrored_flags(settings),
    }
}

/// The settings in force once an update has been persisted or has failed to.
pub open spec fn committed(
    current: AppSettingsView,
    settings: AppSettingsView,
    persisted: Result<(), String>,
) -> AppSettingsView {
    match persisted {
        Ok(_) => settings,
        Err(_) => current,
    }
}

/// Commits an update once the settings file has been written or has failed
/// to be: on success `settings` replaces `current` and is returned; on
/// failure `current` stays and the writer's error is returned as it came.
pub fn update_app_settings_core(
    settings: AppSettings,
    current: &mut AppSettings,
    persisted: Result<(), String>,
) -> (r: Result<AppSettings, SettingsError>)
    ensures
        final(current)@ == committed(old(current)@, settings@, persisted),
        match persisted {
            Ok(_) => r is Ok && r->Ok_0@ == settings@,
            Err(reason) => r is Err && r->Err_0 == SettingsError::Persist(reason),
        },
{
    match persisted {
        Ok(_) => {
            *current = settings.clone();
            Ok(settings)
        },
        Err(reason) => Err(SettingsError::Persist(reason)),
    }
}

/// The token that `token` stands for: its trimmed text, or nothing where it
/// is absent or blank.
pub open spec fn normalized_token(token: Option<Seq<char>>) -> Option<Seq<char>> {
    match token {
        Some(text) => non_blank(text),
        None => None,
    }
}

/// `settings` with its remote token replaced.
pub open spec fn with_token(settings: AppSettingsView, token: Option<Seq<char>>) -> AppSettingsView {
    AppSettingsView { remote_backend_token: token, ..settings }
}

/// Whether an update to `token` has anything to write: its normalized value
/// is not the token in force.
pub open spec fn token_changes(current: AppSettingsView, token: Option<Seq<char>>) -> bool {
    current.remote_backend_token != normalized_token(token)
}

/// The settings in force after an update of the token whose write, if it
/// made one, was persisted.
pub open spec fn after_token_update(
    current: AppSettingsView,
    token: Option<Seq<char>>,
) -> AppSettingsView {
    if token_changes(current, token) {
        committed(current, with_token(current, normalized_token(token)), Ok(()))
    } else {
        current
    }
}

/// Normalizes a remote token: trimmed, and absent where blank.
pub fn normalize_remote_token(token: Option<&str>) -> (r: Option<String>)
    ensures
        r.deep_view() == normalized_token(token.deep_view()),
        r is None <==> token is None || blank(token->0@),
{
    match token {
        Some(text) => non_blank_text(text),
        None => None,
    }
}

/// What an update of the remote token comes to.
#[derive(Debug, PartialEq, Eq)]
pub enum TokenUpdate {
    /// The normalized token is the one in force: nothing is written, and
    /// these are the settings as they stand.
    Unchanged(AppSettings),
    /// These settings, with the new token, are to be written by an update.
    Changed(AppSettings),
}

fn same_optional_text(a: &Option<String>, b: &Option<String>) -> (r: bool)
    ensures
        r == (a.deep_view() == b.deep_view()),
{
    match (a, b) {
        (Some(x), Some(y)) => same_text(x.as_str(), y.as_str()),
        (None, None) => true,
        _ => false,
    }
}

/// Decides an update of the remote token: where the normalized token equals
/// the one in force the settings are handed back and nothing is to be
/// written; otherwise the settings to write carry the new token.
pub fn update_remote_backend_token_core(current: &AppSettings, token: Option<&str>) -> (r:
    TokenUpdate)
    ensures
        match r {
            TokenUpdate::Unchanged(settings) => {
                &&& !token_changes(current@, token.deep_view())
                &&& settings@ == current@
            },
            TokenUpdate::Changed(settings) => {
                &&& token_changes(current@, token.deep_view())
                &&& settings@ == with_token(current@, normalized_token(token.deep_view()))
            },
        },
{
    let normalized = normalize_remote_token(token);
    let mut next = current.clone();
    if same_optional_text(&next.remote_backend_token, &normalized) {
        return TokenUpdate::Unchanged(next);
    }
    next.remote_backend_token = normalized;
    TokenUpdate::Changed(next)
}

/// The text of the configuration path. `config_path` is `None` where no path
/// could be resolved and `Some(None)` where the path is not valid Unicode;
/// both are reported as unresolved.
pub fn get_codex_config_path_core(config_path: Option<Option<String>>) -> (r: Result<
    String,
    SettingsError,
>)
    ensures
        match config_path {
            Some(Some(text)) => r == Ok::<String, SettingsError>(text),
            _ => r == Err::<String, SettingsError>(SettingsError::ConfigPathUnresolved),
        },
{
    match config_path {
        Some(Some(text)) => Ok(text),
        _ => Err(SettingsError::ConfigPathUnresolved),
    }
}

/// The two personalities resolve to themselves.
pub proof fn lemma_recognized_personality_resolves(p: Seq<char>)
    requires
        recognized_personality(p),
    ensures
        normalized_personality(p) == Some(p),
        resolved_personality(Some(p)) == p,
{
}

/// A stored personality resolves to `"pragmatic"` exactly when it is
/// `"pragmatic"`, and to `"friendly"` in every other case: for `"friendly"`
/// itself, for any other text, and where nothing is stored.
pub proof fn lemma_personality_resolution(stored: Option<Seq<char>>)
    ensures
        recognized_personality(resolved_personality(stored)),
        resolved_personality(stored) == "pragmatic"@ <==> stored == Some("pragmatic"@),
        stored != Some("pragmatic"@) ==> resolved_personality(stored) == "friendly"@,
{
    reveal_strlit("friendly");
    reveal_strlit("pragmatic");
    assert("friendly"@ != "pragmatic"@) by {
        assert("friendly"@.len() != "pragmatic"@.len());
    }
}

/// Reading after a persisted update to `v` returns `v` in every field that
/// the store does not manage, whatever the store answers; and returns `v`
/// whole where the store answers every read with what the update wrote.
pub proof fn lemma_read_after_update(
    current: AppSettings,
    v: AppSettings,
    writes: ConfigWrites,
    reads: ConfigReads,
)
    requires
        v.wf(),
        mirrors(writes, v@),
    ensures
        ({
            let read = overlaid(committed(current@, v@, Ok(())), reads);
            &&& read.codex_args == v@.codex_args
            &&& read.default_codex_home == v@.default_codex_home
            &&& read.remote_backend_token == v@.remote_backend_token
            &&& reads_back(reads, writes) ==> read == v@
        }),
{
    lemma_recognized_personality_resolves(v@.personality);
}

/// Updating the token is idempotent: once an update to `token` has gone
/// through, an update to any token with the same normalized value finds
/// nothing to write, so that the two together write at most once.
pub proof fn lemma_token_update_idempotent(
    current: AppSettingsView,
    token: Option<Seq<char>>,
    again: Option<Seq<char>>,
)
    requires
        normalized_token(again) == normalized_token(token),
    ensures
        !token_changes(after_token_update(current, token), again),
        after_token_update(after_token_update(current, token), again) == after_token_update(
            current,
            token,
        ),
{
}

} // verus!
