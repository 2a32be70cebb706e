//! Discovery of the daemon binary: the names it may have, the directories
//! that are searched, the order of the search, and its outcome.

use vstd::prelude::*;
use vstd::string::*;
use crate::paths::{join_path, parent_dir};
use crate::text::{non_blank, non_blank_text, same_text};

verus! {

/// The kind of system that the process runs on.
#[derive(Debug, Clone, Copy, PartialEq, Eq)]
pub enum Platform {
    Windows,
    MacOs,
    Linux,
    Other,
}

/// The file names that the daemon binary may have, the preferred one first.
pub open spec fn candidate_names(platform: Platform) -> Seq<Seq<char>> {
    match platform {
        Platform::Windows => seq!["codex_monitor_daemon.exe"@, "codex-monitor-daemon.exe"@],
        _ => seq!["codex_monitor_daemon"@, "codex-monitor-daemon"@],
    }
}

/// The texts of a list of string slices.
pub open spec fn texts(names: Seq<&str>) -> Seq<Seq<char>> {
    Seq::new(names.len(), |i: int| names[i]@)
}

/// The file names that the daemon binary may have, the one with underscores
/// first.
pub fn daemon_binary_candidates(platform: Platform) -> (r: [&'static str; 2])
    ensures
        texts(r@) == candidate_names(platform),
{
    let names = match platform {
        Platform::Windows => ["codex_monitor_daemon.exe", "codex-monitor-daemon.exe"],
        _ => ["codex_monitor_daemon", "codex-monitor-daemon"],
    };
    assert(texts(names@) =~= candidate_names(platform));
    names
}

/// `dirs` with `path` at its end, unless `dirs` holds it already.
pub open spec fn pushed_unique(dirs: Seq<Seq<char>>, path: Seq<char>) -> Seq<Seq<char>> {
    if dirs.contains(path) {
        dirs
    } else {
        dirs.push(path)
    }
}

/// `paths` without repetitions: each path stays where it first occurs.
pub open spec fn unique(paths: Seq<Seq<char>>) -> Seq<Seq<char>>
    decreases paths.len(),
{
    if paths.len() == 0 {
        Seq::empty()
    } else {
        pushed_unique(unique(paths.drop_last()), paths.last())
    }
}

/// The directories that a platform adds to the search.
pub open spec fn system_dirs(platform: Platform) -> Seq<Seq<char>> {
    match platform {
        Platform::MacOs => seq!["/opt/homebrew/bin"@, "/usr/local/bin"@],
        Platform::Linux => seq!["/usr/local/bin"@, "/usr/bin"@, "/usr/sbin"@],
        _ => Seq::empty(),
    }
}

/// The resources directory of an application bundle, which only macOS
/// searches.
pub open spec fn bundle_dirs(platform: Platform, resources: Option<Seq<char>>) -> Seq<Seq<char>> {
    match (platform, resources) {
        (Platform::MacOs, Some(dir)) => seq![dir],
        _ => Seq::empty(),
    }
}

/// The directories to search, in order: the executable's own, the bundle's
/// resources, the platform's; each once.
pub open spec fn search_dirs(
    executable_dir: Seq<char>,
    resources: Option<Seq<char>>,
    platform: Platform,
) -> Seq<Seq<char>> {
    unique(seq![executable_dir] + bundle_dirs(platform, resources) + system_dirs(platform))
}

/// One more path at the end of a list is pushed onto what the list comes to.
pub proof fn lemma_unique_push(paths: Seq<Seq<char>>, path: Seq<char>)
    ensures
        unique(paths.push(path)) == pushed_unique(unique(paths), path),
{
    assert(paths.push(path).drop_last() =~= paths);
}

/// What `unique` keeps: the same paths, none of them twice, the first one
/// first.
pub proof fn lemma_unique(paths: Seq<Seq<char>>)
    ensures
        unique(paths).no_duplicates(),
        forall|p: Seq<char>| unique(paths).contains(p) <==> paths.contains(p),
        paths.len() > 0 ==> unique(paths).len() > 0 && unique(paths)[0] == paths[0],
    decreases paths.len(),
{
    if paths.len() > 0 {
        let front = paths.drop_last();
        let kept = unique(front);
        lemma_unique(front);
        assert forall|p: Seq<char>| unique(paths).contains(p) <==> paths.contains(p) by {
            if paths.contains(p) {
                let i = choose|i: int| 0 <= i < paths.len() && paths[i] == p;
                if i < front.len() {
                    assert(front[i] == p);
                    assert(front.contains(p));
                    let k = choose|k: int| 0 <= k < kept.len() && kept[k] == p;
                    assert(unique(paths)[k] == p);
                } else {
                    if !kept.contains(p) {
                        assert(unique(paths)[kept.len() as int] == p);
                    } else {
                        assert(unique(paths) == kept);
                    }
                }
            }
            if unique(paths).contains(p) {
                let k = choose|k: int| 0 <= k < unique(paths).len() && unique(paths)[k] == p;
                if k < kept.len() {
                    assert(kept[k] == p);
                    assert(kept.contains(p));
                    assert(front.contains(p));
                    let i = choose|i: int| 0 <= i < front.len() && front[i] == p;
                    assert(paths[i] == p);
                } else {
                    assert(paths[paths.len() - 1] == p);
                }
            }
        }
        if front.len() > 0 {
            assert(front[0] == paths[0]);
        }
    }
}

/// Adds `path` to `dirs` unless it is there already.
fn push_unique(dirs: &mut Vec<String>, path: String)
    ensures
        final(dirs).deep_view() == pushed_unique(old(dirs).deep_view(), path@),
{
    let ghost before = dirs.deep_view();
    let mut i: usize = 0;
    while i < dirs.len()
        invariant
            i <= dirs.len(),
            dirs.deep_view() == before,
            forall|k: int| 0 <= k < i ==> before[k] != path@,
        decreases dirs.len() - i,
    {
        if same_text(dirs[i].as_str(), path.as_str()) {
            assert(before[i as int] == path@);
            return ;
        }
        i = i + 1;
    }
    dirs.push(path);
    assert(dirs.deep_view() =~= before.push(path@));
}

/// The directories to search around `executable_dir`, given the resources
/// directory of the bundle that holds it, if there is one.
pub fn search_dirs_with(executable_dir: &str, resources: Option<String>, platform: Platform) -> (dirs:
    Vec<String>)
    ensures
        dirs.deep_view() == search_dirs(executable_dir@, resources.deep_view(), platform),
{
    let mut dirs: Vec<String> = Vec::new();
    let ghost mut wanted: Seq<Seq<char>> = Seq::empty();
    assert(dirs.deep_view() =~= unique(wanted));
    proof {
        lemma_unique_push(wanted, executable_dir@);
        wanted = wanted.push(executable_dir@);
    }
    push_unique(&mut dirs, executable_dir.to_owned());
    match platform {
        Platform::MacOs => {
            if let Some(dir) = resources {
                proof {
                    lemma_unique_push(wanted, dir@);
                    wanted = wanted.push(dir@);
                }
                push_unique(&mut dirs, dir);
            }
            proof {
                lemma_unique_push(wanted, "/opt/homebrew/bin"@);
                lemma_unique_push(wanted.push("/opt/homebrew/bin"@), "/usr/local/bin"@);
                wanted = wanted.push("/opt/homebrew/bin"@).push("/usr/local/bin"@);
            }
            push_unique(&mut dirs, "/opt/homebrew/bin".to_owned());
            push_unique(&mut dirs, "/usr/local/bin".to_owned());
        },
        Platform::Linux => {
            proof {
                lemma_unique_push(wanted, "/usr/local/bin"@);
                lemma_unique_push(wanted.push("/usr/local/bin"@), "/usr/bin"@);
                lemma_unique_push(wanted.push("/usr/local/bin"@).push("/usr/bin"@), "/usr/sbin"@);
                wanted = wanted.push("/usr/local/bin"@).push("/usr/bin"@).push("/usr/sbin"@);
            }
            push_unique(&mut dirs, "/usr/local/bin".to_owned());
            push_unique(&mut dirs, "/usr/bin".to_owned());
            push_unique(&mut dirs, "/usr/sbin".to_owned());
        },
        _ => {},
    }
    assert(wanted =~= seq![executable_dir@] + bundle_dirs(platform, resources.deep_view())
        + system_dirs(platform));
    dirs
}

/// The directories in which the daemon binary is looked for: the
/// executable's own directory first, then those of the platform, each once.
///
/// On macOS the resources directory beside the executable's directory comes
/// second; its path is made by the platform's path rules.
pub fn daemon_search_dirs(executable_dir: &str, platform: Platform) -> (dirs: Vec<String>)
    ensures
        exists|resources: Option<Seq<char>>|
            dirs.deep_view() == search_dirs(executable_dir@, resources, platform),
        !(platform is MacOs) ==> dirs.deep_view() == search_dirs(executable_dir@, None, platform),
        dirs.len() > 0 && dirs[0]@ == executable_dir@,
        dirs.deep_view().no_duplicates(),
{
    let resources = match platform {
        Platform::MacOs => match parent_dir(executable_dir) {
            Some(contents) => Some(join_path(contents.as_str(), "Resources")),
            None => None,
        },
        _ => None,
    };
    let ghost given = resources.deep_view();
    let dirs = search_dirs_with(executable_dir, resources, platform);
    proof {
        let wanted = seq![executable_dir@] + bundle_dirs(platform, given) + system_dirs(platform);
        lemma_unique(wanted);
        assert(wanted[0] == executable_dir@);
        if !(platform is MacOs) {
            assert(bundle_dirs(platform, given) == bundle_dirs(platform, None));
        }
    }
    dirs
}

/// What the file system holds at a path.
#[derive(Debug, Clone, Copy, PartialEq, Eq)]
pub enum PathKind {
    /// A regular file.
    File,
    /// A directory.
    Directory,
    /// Neither, or nothing at all.
    Other,
}

/// A path given explicitly, with what the file system holds there.
#[derive(Debug, Clone, PartialEq, Eq)]
pub struct ExplicitPath {
    pub path: String,
    pub kind: PathKind,
}

/// The explicit path that a raw override stands for: its trimmed text, or
/// nothing where it is absent or blank.
pub fn explicit_daemon_path(raw: Option<&str>) -> (r: Option<String>)
    ensures
        r.deep_view() == match raw {
            Some(text) => non_blank(text@),
            None => None,
        },
{
    match raw {
        Some(text) => non_blank_text(text),
        None => None,
    }
}

/// A file name in a directory: one place where the daemon binary may be.
#[derive(Debug, Clone, PartialEq, Eq)]
pub struct Candidate {
    pub dir: String,
    pub name: String,
}

impl View for Candidate {
    type V = (Seq<char>, Seq<char>);

    open spec fn view(&self) -> (Seq<char>, Seq<char>) {
        (self.dir@, self.name@)
    }
}

/// The views of a list of candidates.
pub open spec fn candidate_views(candidates: Seq<Candidate>) -> Seq<(Seq<char>, Seq<char>)> {
    Seq::new(candidates.len(), |i: int| candidates[i]@)
}

/// Every name in one directory, in the order of the names.
pub open spec fn in_dir(dir: Seq<char>, names: Seq<Seq<char>>) -> Seq<(Seq<char>, Seq<char>)> {
    Seq::new(names.len(), |j: int| (dir, names[j]))
}

/// Every name in every directory: directory by directory, and in each the
/// names in their order.
pub open spec fn in_dirs(dirs: Seq<Seq<char>>, names: Seq<Seq<char>>) -> Seq<
    (Seq<char>, Seq<char>),
>
    decreases dirs.len(),
{
    if dirs.len() == 0 {
        Seq::empty()
    } else {
        in_dirs(dirs.drop_last(), names) + in_dir(dirs.last(), names)
    }
}

/// The directory that an explicit path puts in front of the search: the
/// path itself where it is a directory.
pub open spec fn explicit_dirs(explicit: Option<ExplicitPath>) -> Seq<Seq<char>> {
    match explicit {
        Some(given) => if given.kind is Directory {
            seq![given.path@]
        } else {
            Seq::empty()
        },
        None => Seq::empty(),
    }
}

/// The directories that are probed, in order and each once: the explicit
/// directory, then the search directories.
pub open spec fn probed_dirs(explicit: Option<ExplicitPath>, dirs: Seq<Seq<char>>) -> Seq<
    Seq<char>,
> {
    unique(explicit_dirs(explicit) + dirs)
}

/// The places to probe, in order: the names in the explicit directory, then
/// the names in each search directory; no directory is gone through twice.
pub open spec fn search_order(
    explicit: Option<ExplicitPath>,
    dirs: Seq<Seq<char>>,
    names: Seq<Seq<char>>,
) -> Seq<(Seq<char>, Seq<char>)> {
    in_dirs(probed_dirs(explicit, dirs), names)
}

/// Every place of `in_dirs` pairs one of the directories with one of the
/// names, and every such pair is among its places.
pub proof fn lemma_in_dirs_members(dirs: Seq<Seq<char>>, names: Seq<Seq<char>>)
    ensures
        forall|k: int|
            0 <= k < in_dirs(dirs, names).len() ==> dirs.contains(
                (#[trigger] in_dirs(dirs, names)[k]).0,
            ) && names.contains(in_dirs(dirs, names)[k].1),
        forall|i: int, j: int|
            0 <= i < dirs.len() && 0 <= j < names.len() ==> in_dirs(dirs, names).contains(
                (#[trigger] dirs[i], #[trigger] names[j]),
            ),
    decreases dirs.len(),
{
    if dirs.len() > 0 {
        let front = dirs.drop_last();
        let head = in_dirs(front, names);
        let tail = in_dir(dirs.last(), names);
        lemma_in_dirs_members(front, names);
        assert forall|k: int| 0 <= k < in_dirs(dirs, names).len() implies dirs.contains(
            (#[trigger] in_dirs(dirs, names)[k]).0,
        ) && names.contains(in_dirs(dirs, names)[k].1) by {
            if k < head.len() {
                assert(in_dirs(dirs, names)[k] == head[k]);
                let d = choose|d: int| 0 <= d < front.len() && front[d] == head[k].0;
                assert(dirs[d] == head[k].0);
            } else {
                let j = k - head.len();
                assert(in_dirs(dirs, names)[k] == tail[j]);
                assert(dirs[dirs.len() - 1] == tail[j].0);
                assert(names[j] == tail[j].1);
            }
        }
        assert forall|i: int, j: int|
            0 <= i < dirs.len() && 0 <= j < names.len() implies in_dirs(dirs, names).contains(
            (#[trigger] dirs[i], #[trigger] names[j]),
        ) by {
            if i < front.len() {
                assert(front[i] == dirs[i]);
                assert(head.contains((front[i], names[j])));
                let k = choose|k: int| 0 <= k < head.len() && head[k] == (front[i], names[j]);
                assert(in_dirs(dirs, names)[k] == (dirs[i], names[j]));
            } else {
                assert(tail[j] == (dirs[i], names[j]));
                assert(in_dirs(dirs, names)[head.len() + j] == (dirs[i], names[j]));
            }
        }
    }
}

/// No place is listed twice where no directory and no name is listed twice.
pub proof fn lemma_in_dirs_distinct(dirs: Seq<Seq<char>>, names: Seq<Seq<char>>)
    requires
        dirs.no_duplicates(),
        names.no_duplicates(),
    ensures
        in_dirs(dirs, names).no_duplicates(),
    decreases dirs.len(),
{
    if dirs.len() > 0 {
        let front = dirs.drop_last();
        let head = in_dirs(front, names);
        let tail = in_dir(dirs.last(), names);
        lemma_in_dirs_distinct(front, names);
        lemma_in_dirs_members(front, names);
        let all = in_dirs(dirs, names);
        assert forall|a: int, b: int| 0 <= a < all.len() && 0 <= b < all.len() && a != b implies all[a]
            != all[b] by {
            if a < head.len() && b < head.len() {
                assert(all[a] == head[a] && all[b] == head[b]);
            } else if a >= head.len() && b >= head.len() {
                assert(all[a] == tail[a - head.len()] && all[b] == tail[b - head.len()]);
            } else {
                let low = if a < b { a } else { b };
                let high = if a < b { b } else { a };
                assert(all[low] == head[low]);
                assert(all[high] == tail[high - head.len()]);
                assert(front.contains(head[low].0));
                let d = choose|d: int| 0 <= d < front.len() && front[d] == head[low].0;
                assert(dirs[d] == head[low].0);
                assert(dirs[dirs.len() - 1] == tail[high - head.len()].0);
            }
        }
    }
}

/// The two names that the daemon binary may have differ on every platform.
pub proof fn lemma_candidate_names_distinct(platform: Platform)
    ensures
        candidate_names(platform).no_duplicates(),
{
    reveal_strlit("codex_monitor_daemon.exe");
    reveal_strlit("codex-monitor-daemon.exe");
    reveal_strlit("codex_monitor_daemon");
    reveal_strlit("codex-monitor-daemon");
    assert("codex_monitor_daemon.exe"@[5] != "codex-monitor-daemon.exe"@[5]);
    assert("codex_monitor_daemon"@[5] != "codex-monitor-daemon"@[5]);
}

/// The search probes no place twice, whatever the explicit path and the
/// search directories are, where no name is listed twice.
pub proof fn lemma_search_order_distinct(
    explicit: Option<ExplicitPath>,
    dirs: Seq<Seq<char>>,
    names: Seq<Seq<char>>,
)
    requires
        names.no_duplicates(),
    ensures
        search_order(explicit, dirs, names).no_duplicates(),
{
    lemma_unique(explicit_dirs(explicit) + dirs);
    lemma_in_dirs_distinct(probed_dirs(explicit, dirs), names);
}

/// Appends every name in `dir` to `out`.
fn push_in_dir(out: &mut Vec<Candidate>, dir: &str, names: &[&str])
    ensures
        candidate_views(final(out)@) == candidate_views(old(out)@) + in_dir(dir@, texts(names@)),
{
    let ghost before = candidate_views(out@);
    let mut j: usize = 0;
    while j < names.len()
        invariant
            j <= names.len(),
            candidate_views(out@) == before + in_dir(dir@, texts(names@)).take(j as int),
        decreases names.len() - j,
    {
        let ghost so_far = candidate_views(out@);
        out.push(Candidate { dir: dir.to_owned(), name: names[j].to_owned() });
        assert(candidate_views(out@) =~= so_far.push((dir@, names@[j as int]@)));
        assert(in_dir(dir@, texts(names@)).take(j + 1) =~= in_dir(dir@, texts(names@)).take(
            j as int,
        ).push((dir@, names@[j as int]@)));
        j = j + 1;
    }
    assert(in_dir(dir@, texts(names@)).take(j as int) =~= in_dir(dir@, texts(names@)));
}

/// Lists the places to probe, in the order of the search: where the explicit
/// path is a directory, the names in it; then the names in each search
/// directory. A directory that occurs again is not gone through again.
pub fn daemon_search_order(
    explicit: Option<&ExplicitPath>,
    dirs: &Vec<String>,
    names: &[&str],
) -> (r: Vec<Candidate>)
    ensures
        candidate_views(r@) == search_order(
            match explicit {
                Some(given) => Some(*given),
                None => None,
            },
            dirs.deep_view(),
            texts(names@),
        ),
{
    let ghost given = match explicit {
        Some(given) => Some(*given),
        None => None,
    };
    let ghost head = explicit_dirs(given);
    let ghost all = dirs.deep_view();
    let mut probed: Vec<String> = Vec::new();
    assert(probed.deep_view() =~= unique(Seq::<Seq<char>>::empty()));
    if let Some(given) = explicit {
        match given.kind {
            PathKind::Directory => {
                proof {
                    lemma_unique_push(Seq::<Seq<char>>::empty(), given.path@);
                    assert(Seq::<Seq<char>>::empty().push(given.path@) =~= head);
                }
                push_unique(&mut probed, given.path.clone());
            },
            _ => {},
        }
    }
    let mut i: usize = 0;
    assert(head + all.take(0) =~= head);
    while i < dirs.len()
        invariant
            i <= dirs.len(),
            all == dirs.deep_view(),
            probed.deep_view() == unique(head + all.take(i as int)),
        decreases dirs.len() - i,
    {
        proof {
            lemma_unique_push(head + all.take(i as int), dirs[i as int]@);
            assert((head + all.take(i as int)).push(dirs[i as int]@) =~= head + all.take(i + 1));
        }
        push_unique(&mut probed, dirs[i].clone());
        i = i + 1;
    }
    assert(all.take(i as int) =~= all);
    let ghost wanted = probed.deep_view();
    let mut out: Vec<Candidate> = Vec::new();
    let mut k: usize = 0;
    assert(candidate_views(out@) =~= in_dirs(wanted.take(0), texts(names@)));
    while k < probed.len()
        invariant
            k <= probed.len(),
            wanted == probed.deep_view(),
            candidate_views(out@) == in_dirs(wanted.take(k as int), texts(names@)),
        decreases probed.len() - k,
    {
        push_in_dir(&mut out, probed[k].as_str(), names);
        proof {
            assert(wanted.take(k + 1).drop_last() =~= wanted.take(k as int));
            assert(wanted.take(k + 1).last() == probed[k as int]@);
        }
        k = k + 1;
    }
    assert(wanted.take(k as int) =~= wanted);
    out
}

/// Why the daemon binary was not found.
#[derive(Debug, Clone, PartialEq, Eq)]
pub enum DaemonError {
    /// The path of the running executable is not known; holds the system's
    /// own words.
    CurrentExe(String),
    /// The running executable has no directory above it.
    NoExecutableDir,
    /// Nothing was found; holds every path that was tried, in order.
    NotFound(Vec<String>),
}

/// The parts of `parts` in their order, with `separator` between neighbours.
pub open spec fn joined(parts: Seq<Seq<char>>, separator: Seq<char>) -> Seq<char>
    decreases parts.len(),
{
    if parts.len() == 0 {
        Seq::empty()
    } else if parts.len() == 1 {
        parts[0]
    } else {
        joined(parts.drop_last(), separator) + separator + parts.last()
    }
}

impl DaemonError {
    /// The text shown to the user.
    pub open spec fn message_text(&self) -> Seq<char> {
        match self {
            DaemonError::CurrentExe(detail) => detail@,
            DaemonError::NoExecutableDir => "Unable to resolve executable directory"@,
            DaemonError::NotFound(attempted) => "Unable to locate daemon binary (tried: "@ + joined(
                attempted.deep_view(),
                ", "@,
            ) + ")"@,
        }
    }

    /// The text shown to the user.
    pub fn message(&self) -> (r: String)
        ensures
            r@ == self.message_text(),
    {
        match self {
            DaemonError::CurrentExe(detail) => detail.clone(),
            DaemonError::NoExecutableDir => "Unable to resolve executable directory".to_owned(),
            DaemonError::NotFound(attempted) => {
                let mut text = "Unable to locate daemon binary (tried: ".to_owned();
                let ghost opening = text@;
                let ghost all = attempted.deep_view();
                let mut i: usize = 0;
                assert(text@ =~= opening + joined(all.take(0), ", "@));
                while i < attempted.len()
                    invariant
                        i <= attempted.len(),
                        all == attempted.deep_view(),
                        text@ == opening + joined(all.take(i as int), ", "@),
                    decreases attempted.len() - i,
                {
                    proof {
                        assert(all.take(i + 1).drop_last() =~= all.take(i as int));
                        assert(all.take(i + 1).last() == attempted[i as int]@);
                        if i > 0 {
                            assert(opening + joined(all.take(i + 1), ", "@) =~= opening + joined(
                                all.take(i as int),
                                ", "@,
                            ) + ", "@ + attempted[i as int]@);
                        } else {
                            assert(all.take(1)[0] == attempted[0]@);
                            assert(opening + joined(all.take(i + 1), ", "@) =~= opening + joined(
                                all.take(i as int),
                                ", "@,
                            ) + attempted[i as int]@);
                        }
                    }
                    if i > 0 {
                        text.append(", ");
                    }
                    text.append(attempted[i].as_str());
                    i = i + 1;
                }
                assert(all.take(i as int) =~= all);
                text.append(")");
                text
            },
        }
    }
}

/// The directory of the running executable. `current_exe` is the system's
/// answer for the executable's path, already reduced to the text of its
/// parent directory, which is `None` where the path has no parent.
pub fn daemon_executable_dir(current_exe: Result<Option<String>, String>) -> (r: Result<
    String,
    DaemonError,
>)
    ensures
        match current_exe {
            Ok(Some(dir)) => r == Ok::<String, DaemonError>(dir),
            Ok(None) => r == Err::<String, DaemonError>(DaemonError::NoExecutableDir),
            Err(reason) => r == Err::<String, DaemonError>(DaemonError::CurrentExe(reason)),
        },
{
    match current_exe {
        Ok(Some(dir)) => Ok(dir),
        Ok(None) => Err(DaemonError::NoExecutableDir),
        Err(reason) => Err(DaemonError::CurrentExe(reason)),
    }
}

/// What one probe of the file system found.
#[derive(Debug, Clone, PartialEq, Eq)]
pub struct Probe {
    /// The full path that was probed, as it is shown to the user.
    pub shown: String,
    /// Whether a regular file is there.
    pub is_file: bool,
}

/// Where the daemon binary was found.
#[derive(Debug, Clone, PartialEq, Eq)]
pub enum DaemonBinary {
    /// At the explicit path, which this is.
    Explicit(String),
    /// At the candidate with this index in the search order.
    Candidate(usize),
}

/// What the search does next.
#[derive(Debug, Clone, PartialEq, Eq)]
pub enum SearchStep {
    /// Probe the candidate with this index and come back with the result.
    Probe(usize),
    /// The search is over: the binary is here.
    Found(DaemonBinary),
    /// The search is over: the binary is nowhere.
    NotFound(DaemonError),
}

/// The probes that answer a candidate: the first `candidates` of them.
pub open spec fn answered(probes: Seq<Probe>, candidates: nat) -> Seq<Probe> {
    if probes.len() <= candidates {
        probes
    } else {
        probes.take(candidates as int)
    }
}

/// `i` is the index of the first probe that found a regular file.
pub open spec fn is_first_file(probes: Seq<Probe>, i: int) -> bool {
    &&& 0 <= i < probes.len()
    &&& probes[i].is_file
    &&& forall|k: int| 0 <= k < i ==> !(#[trigger] probes[k]).is_file
}

/// No probe found a regular file.
pub open spec fn no_file(probes: Seq<Probe>) -> bool {
    forall|k: int| 0 <= k < probes.len() ==> !(#[trigger] probes[k]).is_file
}

/// Whether the explicit path is a regular file.
pub open spec fn explicit_file(explicit: Option<&ExplicitPath>) -> bool {
    explicit is Some && explicit->0.kind is File
}

/// The paths that a failed search has gone to, in the order in which it went
/// to them: the explicit path where it is neither file nor directory, then
/// the path of each probe.
pub open spec fn attempted_paths(explicit: Option<&ExplicitPath>, probes: Seq<Probe>) -> Seq<
    Seq<char>,
> {
    let shown = Seq::new(probes.len(), |i: int| probes[i].shown@);
    match explicit {
        Some(given) => if given.kind is Other {
            seq![given.path@] + shown
        } else {
            shown
        },
        None => shown,
    }
}

/// Takes the search one step on from the probes made so far. Probe `i`
/// answers candidate `i`; probes beyond the last candidate are not looked at.
///
/// An explicit path that is a regular file is the binary. Otherwise the
/// first probe that found a regular file is; while there is none, the next
/// candidate is to be probed; and when every candidate has been probed the
/// search fails with every path it went to, each once, in search order.
pub fn resolve_daemon_binary_path(
    explicit: Option<&ExplicitPath>,
    candidates: &Vec<Candidate>,
    probes: &Vec<Probe>,
) -> (r: SearchStep)
    ensures
        match r {
            SearchStep::Found(DaemonBinary::Explicit(path)) => {
                &&& explicit_file(explicit)
                &&& path@ == explicit->0.path@
            },
            SearchStep::Found(DaemonBinary::Candidate(i)) => {
                &&& !explicit_file(explicit)
                &&& i < candidates.len()
                &&& is_first_file(answered(probes@, candidates.len() as nat), i as int)
            },
            SearchStep::Probe(i) => {
                &&& !explicit_file(explicit)
                &&& no_file(probes@)
                &&& i == probes.len()
                &&& i < candidates.len()
            },
            SearchStep::NotFound(e) => {
                &&& !explicit_file(explicit)
                &&& no_file(answered(probes@, candidates.len() as nat))
                &&& probes.len() >= candidates.len()
                &&& e matches DaemonError::NotFound(attempted)
                &&& attempted.deep_view() == unique(
                    attempted_paths(explicit, answered(probes@, candidates.len() as nat)),
                )
                &&& attempted.deep_view().no_duplicates()
                &&& e.message_text() == "Unable to locate daemon binary (tried: "@ + joined(
                    unique(attempted_paths(explicit, answered(probes@, candidates.len() as nat))),
                    ", "@,
                ) + ")"@
            },
        },
{
    let mut attempted: Vec<String> = Vec::new();
    let ghost mut head: Seq<Seq<char>> = Seq::empty();
    assert(attempted.deep_view() =~= unique(head));
    if let Some(given) = explicit {
        match given.kind {
            PathKind::File => {
                return SearchStep::Found(DaemonBinary::Explicit(given.path.clone()));
            },
            PathKind::Other => {
                proof {
                    lemma_unique_push(head, given.path@);
                    head = head.push(given.path@);
                }
                push_unique(&mut attempted, given.path.clone());
            },
            PathKind::Directory => {},
        }
    }
    let limit = if probes.len() <= candidates.len() {
        probes.len()
    } else {
        candidates.len()
    };
    let ghost heard = answered(probes@, candidates.len() as nat);
    let ghost shown = Seq::new(heard.len(), |i: int| heard[i].shown@);
    let mut i: usize = 0;
    assert(head + shown.take(0) =~= head);
    while i < limit
        invariant
            i <= limit,
            limit == heard.len(),
            limit <= probes.len(),
            limit <= candidates.len(),
            !explicit_file(explicit),
            heard == answered(probes@, candidates.len() as nat),
            shown == Seq::new(heard.len(), |i: int| heard[i].shown@),
            forall|k: int| 0 <= k < i ==> !(#[trigger] heard[k]).is_file,
            attempted.deep_view() == unique(head + shown.take(i as int)),
        decreases limit - i,
    {
        assert(heard[i as int] == probes[i as int]);
        if probes[i].is_file {
            return SearchStep::Found(DaemonBinary::Candidate(i));
        }
        proof {
            lemma_unique_push(head + shown.take(i as int), probes[i as int].shown@);
            assert((head + shown.take(i as int)).push(probes[i as int].shown@) =~= head
                + shown.take(i + 1));
        }
        push_unique(&mut attempted, probes[i].shown.clone());
        i = i + 1;
    }
    proof {
        assert(shown.take(i as int) =~= shown);
        assert(head + shown =~= attempted_paths(explicit, heard));
        lemma_unique(attempted_paths(explicit, heard));
    }
    if probes.len() < candidates.len() {
        assert(heard == probes@);
        SearchStep::Probe(probes.len())
    } else {
        SearchStep::NotFound(DaemonError::NotFound(attempted))
    }
}

} // verus!
