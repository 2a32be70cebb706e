use codex_monitor::args::{
    drop_empty_args, normalize_codex_args, parse_codex_args, resolve_workspace_codex_args,
    ArgsError,
};
use codex_monitor::types::{
    AppSettings, WorkspaceEntry, WorkspaceKind, WorkspaceSettings, WorktreeInfo,
};

#[test]
fn parses_empty_args() {
    assert!(parse_codex_args(None).expect("parse none").is_empty());
    assert!(parse_codex_args(Some("   "))
        .expect("parse blanks")
        .is_empty());
}

#[test]
fn parses_simple_args() {
    let args = parse_codex_args(Some("--profile personal --flag")).expect("parse args");
    assert_eq!(args, vec!["--profile", "personal", "--flag"]);
}

#[test]
fn parses_quoted_args() {
    let args = parse_codex_args(Some("--path \"a b\" --name='c d'")).expect("parse args");
    assert_eq!(args, vec!["--path", "a b", "--name=c d"]);
}

#[test]
fn resolves_workspace_codex_args_from_app_settings_only() {
    let mut app_settings = AppSettings::default();
    app_settings.codex_args = Some("--profile app".to_string());

    let parent = WorkspaceEntry {
        id: "parent".to_string(),
        name: "Parent".to_string(),
        path: "/tmp/parent".to_string(),
        kind: WorkspaceKind::Main,
        parent_id: None,
        worktree: None,
        settings: WorkspaceSettings::default(),
    };

    let child = WorkspaceEntry {
        id: "child".to_string(),
        name: "Child".to_string(),
        path: "/tmp/child".to_string(),
        kind: WorkspaceKind::Worktree,
        parent_id: Some(parent.id.clone()),
        worktree: None,
        settings: WorkspaceSettings::default(),
    };

    let resolved = resolve_workspace_codex_args(&child, Some(&parent), Some(&app_settings));
    assert_eq!(resolved.as_deref(), Some("--profile app"));

    let main = WorkspaceEntry {
        id: "main".to_string(),
        name: "Main".to_string(),
        path: "/tmp/main".to_string(),
        kind: WorkspaceKind::Main,
        parent_id: None,
        worktree: None,
        settings: WorkspaceSettings::default(),
    };
    let resolved_main = resolve_workspace_codex_args(&main, None, Some(&app_settings));
    assert_eq!(resolved_main.as_deref(), Some("--profile app"));
}

#[test]
fn rejects_unterminated_quote() {
    let err = parse_codex_args(Some("--name 'c d")).expect_err("open quote");
    assert_eq!(
        err,
        ArgsError::InvalidQuoting("missing closing quote".to_string())
    );
    assert_eq!(err.message(), "Invalid Codex args: missing closing quote");
    assert!(parse_codex_args(Some("\"abc")).is_err());
    assert!(parse_codex_args(Some("abc\\\"")).is_ok());
}

#[test]
fn parses_mixed_quotes_into_words() {
    let args = parse_codex_args(Some("--a \"b c\" --d='e f'")).expect("parse args");
    assert_eq!(args, vec!["--a", "b c", "--d=e f"]);
}

#[test]
fn drops_empty_words_after_splitting() {
    let args = parse_codex_args(Some("'' --flag \"\" value ''")).expect("parse args");
    assert_eq!(args, vec!["--flag", "value"]);
    let only_empty = parse_codex_args(Some("'' \"\"")).expect("parse args");
    assert!(only_empty.is_empty());
}

#[test]
fn trims_before_splitting() {
    let args = parse_codex_args(Some("\u{3000}--flag\u{a0}")).expect("parse args");
    assert_eq!(args, vec!["--flag"]);
    let tabs = parse_codex_args(Some("\t\n \r")).expect("parse blanks");
    assert!(tabs.is_empty());
}

#[test]
fn drop_empty_args_keeps_order() {
    let words = vec![
        String::new(),
        "b".to_string(),
        String::new(),
        "a".to_string(),
        " ".to_string(),
    ];
    assert_eq!(drop_empty_args(words), vec!["b", "a", " "]);
    assert!(drop_empty_args(Vec::new()).is_empty());
}

#[test]
fn normalize_codex_args_trims_and_drops_blank() {
    assert_eq!(
        normalize_codex_args("  --profile app \n"),
        Some("--profile app".to_string())
    );
    assert_eq!(normalize_codex_args(""), None);
    assert_eq!(normalize_codex_args(" \t "), None);
    assert_eq!(normalize_codex_args("x"), Some("x".to_string()));
}

#[test]
fn resolve_ignores_workspace_settings() {
    let mut app_settings = AppSettings::default();
    app_settings.codex_args = Some("  --profile app  ".to_string());
    let entry = WorkspaceEntry {
        id: "w".to_string(),
        name: "W".to_string(),
        path: "/tmp/w".to_string(),
        kind: WorkspaceKind::Worktree,
        parent_id: Some("p".to_string()),
        worktree: Some(WorktreeInfo {
            branch: "feature".to_string(),
        }),
        settings: WorkspaceSettings {
            codex_args: Some("--profile workspace".to_string()),
        },
    };
    let parent = WorkspaceEntry {
        id: "p".to_string(),
        name: "P".to_string(),
        path: "/tmp/p".to_string(),
        kind: WorkspaceKind::Main,
        parent_id: None,
        worktree: None,
        settings: WorkspaceSettings {
            codex_args: Some("--profile parent".to_string()),
        },
    };
    assert_eq!(
        resolve_workspace_codex_args(&entry, Some(&parent), Some(&app_settings)),
        Some("--profile app".to_string())
    );
    assert_eq!(
        resolve_workspace_codex_args(&entry, None, Some(&app_settings)),
        Some("--profile app".to_string())
    );
}

#[test]
fn resolve_returns_none_without_app_level_value() {
    let entry = WorkspaceEntry {
        id: "w".to_string(),
        name: "W".to_string(),
        path: "/tmp/w".to_string(),
        kind: WorkspaceKind::Main,
        parent_id: None,
        worktree: None,
        settings: WorkspaceSettings {
            codex_args: Some("--profile workspace".to_string()),
        },
    };
    let absent = AppSettings::default();
    assert_eq!(resolve_workspace_codex_args(&entry, None, Some(&absent)), None);
    let mut blank = AppSettings::default();
    blank.codex_args = Some("   ".to_string());
    assert_eq!(resolve_workspace_codex_args(&entry, None, Some(&blank)), None);
    assert_eq!(resolve_workspace_codex_args(&entry, Some(&entry), None), None);
}
