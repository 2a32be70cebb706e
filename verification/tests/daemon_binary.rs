use codex_monitor::daemon_binary::{
    daemon_binary_candidates, daemon_executable_dir, daemon_search_dirs, daemon_search_order,
    explicit_daemon_path, resolve_daemon_binary_path, search_dirs_with, Candidate, DaemonBinary,
    DaemonError, ExplicitPath, PathKind, Platform, Probe, SearchStep,
};

fn candidate(dir: &str, name: &str) -> Candidate {
    Candidate {
        dir: dir.to_string(),
        name: name.to_string(),
    }
}

fn missing(shown: &str) -> Probe {
    Probe {
        shown: shown.to_string(),
        is_file: false,
    }
}

#[test]
fn daemon_binary_candidates_prioritize_underscored_name() {
    assert!(daemon_binary_candidates(Platform::Linux)[0].starts_with("codex_monitor_daemon"));
    assert!(daemon_binary_candidates(Platform::MacOs)[0].starts_with("codex_monitor_daemon"));
    assert!(daemon_binary_candidates(Platform::Windows)[0].starts_with("codex_monitor_daemon"));
    assert!(daemon_binary_candidates(Platform::Other)[0].starts_with("codex_monitor_daemon"));
}

#[test]
fn daemon_binary_candidates_by_platform() {
    assert_eq!(
        daemon_binary_candidates(Platform::Linux),
        ["codex_monitor_daemon", "codex-monitor-daemon"]
    );
    assert_eq!(
        daemon_binary_candidates(Platform::MacOs),
        ["codex_monitor_daemon", "codex-monitor-daemon"]
    );
    assert_eq!(
        daemon_binary_candidates(Platform::Other),
        ["codex_monitor_daemon", "codex-monitor-daemon"]
    );
    assert_eq!(
        daemon_binary_candidates(Platform::Windows),
        ["codex_monitor_daemon.exe", "codex-monitor-daemon.exe"]
    );
}

#[test]
fn search_dirs_on_linux() {
    assert_eq!(
        daemon_search_dirs("/opt/app/bin", Platform::Linux),
        vec!["/opt/app/bin", "/usr/local/bin", "/usr/bin", "/usr/sbin"]
    );
}

#[test]
fn search_dirs_list_each_directory_once() {
    assert_eq!(
        daemon_search_dirs("/usr/bin", Platform::Linux),
        vec!["/usr/bin", "/usr/local/bin", "/usr/sbin"]
    );
    assert_eq!(
        daemon_search_dirs("/usr/local/bin", Platform::Linux),
        vec!["/usr/local/bin", "/usr/bin", "/usr/sbin"]
    );
    assert_eq!(
        search_dirs_with(
            "/usr/local/bin",
            Some("/usr/local/bin".to_string()),
            Platform::MacOs
        ),
        vec!["/usr/local/bin", "/opt/homebrew/bin"]
    );
}

#[test]
fn search_dirs_elsewhere_hold_only_the_executable_dir() {
    assert_eq!(
        daemon_search_dirs("C:\\Program Files\\App", Platform::Windows),
        vec!["C:\\Program Files\\App"]
    );
    assert_eq!(daemon_search_dirs("/app", Platform::Other), vec!["/app"]);
    assert_eq!(
        search_dirs_with("/app", Some("/Resources".to_string()), Platform::Linux),
        vec!["/app", "/usr/local/bin", "/usr/bin", "/usr/sbin"]
    );
}

#[test]
fn search_dirs_on_macos_include_the_bundle_resources() {
    assert_eq!(
        search_dirs_with(
            "/Applications/App.app/Contents/MacOS",
            Some("/Applications/App.app/Contents/Resources".to_string()),
            Platform::MacOs
        ),
        vec![
            "/Applications/App.app/Contents/MacOS",
            "/Applications/App.app/Contents/Resources",
            "/opt/homebrew/bin",
            "/usr/local/bin"
        ]
    );
    assert_eq!(
        search_dirs_with("/", None, Platform::MacOs),
        vec!["/", "/opt/homebrew/bin", "/usr/local/bin"]
    );
    let dirs = daemon_search_dirs("/Applications/App.app/Contents/MacOS", Platform::MacOs);
    assert_eq!(dirs.len(), 4);
    assert_eq!(dirs[0], "/Applications/App.app/Contents/MacOS");
    assert!(dirs[1].ends_with("Resources"));
    assert_ne!(dirs[1], "Resources");
    assert_eq!(dirs[2], "/opt/homebrew/bin");
    assert_eq!(dirs[3], "/usr/local/bin");
}

#[test]
fn explicit_path_is_trimmed_and_blank_is_absent() {
    assert_eq!(explicit_daemon_path(None), None);
    assert_eq!(explicit_daemon_path(Some("  ")), None);
    assert_eq!(
        explicit_daemon_path(Some(" /opt/daemon \n")),
        Some("/opt/daemon".to_string())
    );
}

#[test]
fn search_order_without_explicit_directory() {
    let dirs = vec!["/a".to_string(), "/b".to_string()];
    let names = ["x", "y"];
    let expected = vec![
        candidate("/a", "x"),
        candidate("/a", "y"),
        candidate("/b", "x"),
        candidate("/b", "y"),
    ];
    assert_eq!(daemon_search_order(None, &dirs, &names), expected);
    let file = ExplicitPath {
        path: "/explicit".to_string(),
        kind: PathKind::File,
    };
    assert_eq!(daemon_search_order(Some(&file), &dirs, &names), expected);
    let other = ExplicitPath {
        path: "/explicit".to_string(),
        kind: PathKind::Other,
    };
    assert_eq!(daemon_search_order(Some(&other), &dirs, &names), expected);
    assert!(daemon_search_order(None, &Vec::new(), &names).is_empty());
    assert!(daemon_search_order(None, &dirs, &[]).is_empty());
}

#[test]
fn search_order_starts_in_the_explicit_directory() {
    let dirs = vec!["/a".to_string()];
    let names = ["x", "y"];
    let explicit = ExplicitPath {
        path: "/explicit".to_string(),
        kind: PathKind::Directory,
    };
    assert_eq!(
        daemon_search_order(Some(&explicit), &dirs, &names),
        vec![
            candidate("/explicit", "x"),
            candidate("/explicit", "y"),
            candidate("/a", "x"),
            candidate("/a", "y"),
        ]
    );
}

#[test]
fn explicit_file_is_the_binary() {
    let explicit = ExplicitPath {
        path: "/explicit/daemon".to_string(),
        kind: PathKind::File,
    };
    let candidates = vec![candidate("/a", "x")];
    assert_eq!(
        resolve_daemon_binary_path(Some(&explicit), &candidates, &Vec::new()),
        SearchStep::Found(DaemonBinary::Explicit("/explicit/daemon".to_string()))
    );
}

#[test]
fn search_probes_candidates_in_order_until_a_file_is_found() {
    let candidates = vec![
        candidate("/a", "x"),
        candidate("/a", "y"),
        candidate("/b", "x"),
    ];
    let mut probes: Vec<Probe> = Vec::new();
    assert_eq!(
        resolve_daemon_binary_path(None, &candidates, &probes),
        SearchStep::Probe(0)
    );
    probes.push(missing("/a/x"));
    assert_eq!(
        resolve_daemon_binary_path(None, &candidates, &probes),
        SearchStep::Probe(1)
    );
    probes.push(Probe {
        shown: "/a/y".to_string(),
        is_file: true,
    });
    assert_eq!(
        resolve_daemon_binary_path(None, &candidates, &probes),
        SearchStep::Found(DaemonBinary::Candidate(1))
    );
    probes.push(Probe {
        shown: "/b/x".to_string(),
        is_file: true,
    });
    assert_eq!(
        resolve_daemon_binary_path(None, &candidates, &probes),
        SearchStep::Found(DaemonBinary::Candidate(1))
    );
}

#[test]
fn failed_search_lists_every_attempted_path_once_in_order() {
    let dirs = daemon_search_dirs("/opt/app/bin", Platform::Linux);
    let names = daemon_binary_candidates(Platform::Linux);
    let candidates = daemon_search_order(None, &dirs, &names);
    assert_eq!(candidates.len(), 8);
    let mut probes: Vec<Probe> = Vec::new();
    let failure = loop {
        match resolve_daemon_binary_path(None, &candidates, &probes) {
            SearchStep::Probe(i) => {
                assert_eq!(i, probes.len());
                probes.push(missing(&format!(
                    "{}/{}",
                    candidates[i].dir, candidates[i].name
                )));
            }
            SearchStep::Found(_) => panic!("nothing exists"),
            SearchStep::NotFound(e) => break e,
        }
    };
    assert_eq!(
        failure.message(),
        "Unable to locate daemon binary (tried: \
         /opt/app/bin/codex_monitor_daemon, /opt/app/bin/codex-monitor-daemon, \
         /usr/local/bin/codex_monitor_daemon, /usr/local/bin/codex-monitor-daemon, \
         /usr/bin/codex_monitor_daemon, /usr/bin/codex-monitor-daemon, \
         /usr/sbin/codex_monitor_daemon, /usr/sbin/codex-monitor-daemon)"
    );
}

#[test]
fn failed_search_lists_a_dangling_explicit_path_first() {
    let explicit = ExplicitPath {
        path: "/nowhere/daemon".to_string(),
        kind: PathKind::Other,
    };
    let candidates = vec![candidate("/a", "x")];
    let probes = vec![missing("/a/x")];
    let step = resolve_daemon_binary_path(Some(&explicit), &candidates, &probes);
    assert_eq!(
        step,
        SearchStep::NotFound(DaemonError::NotFound(vec![
            "/nowhere/daemon".to_string(),
            "/a/x".to_string()
        ]))
    );
    match step {
        SearchStep::NotFound(e) => assert_eq!(
            e.message(),
            "Unable to locate daemon binary (tried: /nowhere/daemon, /a/x)"
        ),
        _ => unreachable!(),
    }
}

#[test]
fn failed_search_in_an_explicit_directory_does_not_list_the_directory() {
    let explicit = ExplicitPath {
        path: "/explicit".to_string(),
        kind: PathKind::Directory,
    };
    let dirs = vec!["/a".to_string()];
    let names = ["x"];
    let candidates = daemon_search_order(Some(&explicit), &dirs, &names);
    let probes = vec![missing("/explicit/x"), missing("/a/x")];
    assert_eq!(
        resolve_daemon_binary_path(Some(&explicit), &candidates, &probes),
        SearchStep::NotFound(DaemonError::NotFound(vec![
            "/explicit/x".to_string(),
            "/a/x".to_string()
        ]))
    );
}

#[test]
fn not_found_message_with_no_or_one_path() {
    assert_eq!(
        DaemonError::NotFound(Vec::new()).message(),
        "Unable to locate daemon binary (tried: )"
    );
    assert_eq!(
        DaemonError::NotFound(vec!["/a/x".to_string()]).message(),
        "Unable to locate daemon binary (tried: /a/x)"
    );
    assert_eq!(
        resolve_daemon_binary_path(None, &Vec::new(), &Vec::new()),
        SearchStep::NotFound(DaemonError::NotFound(Vec::new()))
    );
}

#[test]
fn executable_dir_errors_keep_their_words() {
    assert_eq!(
        daemon_executable_dir(Ok(Some("/opt/app/bin".to_string()))),
        Ok("/opt/app/bin".to_string())
    );
    let no_dir = daemon_executable_dir(Ok(None)).expect_err("no parent");
    assert_eq!(no_dir, DaemonError::NoExecutableDir);
    assert_eq!(no_dir.message(), "Unable to resolve executable directory");
    let unknown = daemon_executable_dir(Err("permission denied".to_string())).expect_err("no exe");
    assert_eq!(unknown, DaemonError::CurrentExe("permission denied".to_string()));
    assert_eq!(unknown.message(), "permission denied");
}

#[test]
fn explicit_directory_that_is_also_searched_is_gone_through_once() {
    let explicit = ExplicitPath {
        path: "/usr/bin".to_string(),
        kind: PathKind::Directory,
    };
    let dirs = daemon_search_dirs("/opt/app/bin", Platform::Linux);
    let names = daemon_binary_candidates(Platform::Linux);
    let candidates = daemon_search_order(Some(&explicit), &dirs, &names);
    assert_eq!(
        candidates,
        vec![
            candidate("/usr/bin", "codex_monitor_daemon"),
            candidate("/usr/bin", "codex-monitor-daemon"),
            candidate("/opt/app/bin", "codex_monitor_daemon"),
            candidate("/opt/app/bin", "codex-monitor-daemon"),
            candidate("/usr/local/bin", "codex_monitor_daemon"),
            candidate("/usr/local/bin", "codex-monitor-daemon"),
            candidate("/usr/sbin", "codex_monitor_daemon"),
            candidate("/usr/sbin", "codex-monitor-daemon"),
        ]
    );
    let probes: Vec<Probe> = candidates
        .iter()
        .map(|c| missing(&format!("{}/{}", c.dir, c.name)))
        .collect();
    match resolve_daemon_binary_path(Some(&explicit), &candidates, &probes) {
        SearchStep::NotFound(e) => assert_eq!(
            e.message(),
            "Unable to locate daemon binary (tried: \
             /usr/bin/codex_monitor_daemon, /usr/bin/codex-monitor-daemon, \
             /opt/app/bin/codex_monitor_daemon, /opt/app/bin/codex-monitor-daemon, \
             /usr/local/bin/codex_monitor_daemon, /usr/local/bin/codex-monitor-daemon, \
             /usr/sbin/codex_monitor_daemon, /usr/sbin/codex-monitor-daemon)"
        ),
        _ => panic!("nothing exists"),
    }
}

#[test]
fn failed_search_lists_a_path_once_even_where_it_was_gone_to_twice() {
    let explicit = ExplicitPath {
        path: "/a/x".to_string(),
        kind: PathKind::Other,
    };
    let candidates = vec![candidate("/a", "x"), candidate("/b", "x"), candidate("/a/", "x")];
    let probes = vec![missing("/a/x"), missing("/b/x"), missing("/a/x")];
    assert_eq!(
        resolve_daemon_binary_path(Some(&explicit), &candidates, &probes),
        SearchStep::NotFound(DaemonError::NotFound(vec![
            "/a/x".to_string(),
            "/b/x".to_string()
        ]))
    );
}

#[test]
fn probes_beyond_the_last_candidate_are_not_looked_at() {
    let found = Probe {
        shown: "/a/x".to_string(),
        is_file: true,
    };
    assert_eq!(
        resolve_daemon_binary_path(None, &Vec::new(), &vec![found.clone()]),
        SearchStep::NotFound(DaemonError::NotFound(Vec::new()))
    );
    let candidates = vec![candidate("/a", "x")];
    assert_eq!(
        resolve_daemon_binary_path(None, &candidates, &vec![missing("/a/x"), found.clone()]),
        SearchStep::NotFound(DaemonError::NotFound(vec!["/a/x".to_string()]))
    );
    assert_eq!(
        resolve_daemon_binary_path(None, &candidates, &vec![found]),
        SearchStep::Found(DaemonBinary::Candidate(0))
    );
}
