use artifact_sweep::engine::{Engine, EngineError, Entry, Event, Notice, Request};
use artifact_sweep::model::Config;
use artifact_sweep::names::DIRS_TO_DELETE;
use walkdir::{DirEntry, WalkDir};

/// What a run over a real tree asked for and said.
struct Seen {
    outcome: Result<(), EngineError>,
    entries: usize,
    removals: Vec<String>,
    logs: Vec<(String, String)>,
    out: Vec<String>,
    err: Vec<String>,
}

fn describe(entry: &DirEntry) -> Entry {
    Entry {
        path: entry.path().display().to_string(),
        name: entry.file_name().to_string_lossy().into_owned(),
        is_dir: entry.file_type().is_dir(),
    }
}

/// Walks the real tree below `root`, no deeper than `depth`, and lets the
/// engine judge what is found. Nothing on disk is changed: a removal is
/// answered as refused, and the log goes to memory.
fn sweep(root: &str, depth: usize, config: Config) -> Seen {
    let mut engine = Engine::new(config);
    let mut walk = WalkDir::new(root).max_depth(depth).into_iter();
    let mut seen = Seen {
        outcome: Ok(()),
        entries: 0,
        removals: Vec::new(),
        logs: Vec::new(),
        out: Vec::new(),
        err: Vec::new(),
    };
    let mut request = engine.awaited();
    loop {
        let event = match request {
            Request::NextEntry => match walk.next() {
                None => Event::WalkEnded,
                Some(Err(_)) => Event::Unreadable,
                Some(Ok(entry)) => {
                    seen.entries += 1;
                    Event::Entry(describe(&entry))
                }
            },
            Request::Remove(path) => {
                seen.removals.push(path);
                Event::RemoveFailed(String::from("not allowed here"))
            }
            Request::WriteLog { file_name, content } => {
                seen.logs.push((file_name, content));
                Event::LogWritten
            }
            Request::Finish(outcome) => {
                seen.outcome = outcome;
                return seen;
            }
        };
        let reply = engine.step(event);
        match reply.notice {
            Some(Notice::Info(line)) => seen.out.push(line),
            Some(Notice::Error(line)) => seen.err.push(line),
            None => {}
        }
        request = reply.request;
    }
}

#[test]
fn missing_start_directory_yields_nothing() {
    let root = "no/such/directory/to/start/from";
    let seen = sweep(root, 64, Config { commit: true, skip_log_file: false });
    assert_eq!(seen.outcome, Ok(()));
    assert_eq!(seen.entries, 0);
    assert!(seen.removals.is_empty());
    assert!(seen.out.is_empty());
    assert!(seen.err.is_empty());
    assert_eq!(seen.logs, vec![(String::from("deleted_dirs_log.txt"), String::new())]);
}

#[test]
fn missing_start_directory_is_fine_for_a_dry_run() {
    let root = "no/such/directory/to/start/from";
    let seen = sweep(root, 64, Config { commit: false, skip_log_file: false });
    assert_eq!(seen.outcome, Ok(()));
    assert_eq!(seen.entries, 0);
    assert!(seen.removals.is_empty());
    assert!(seen.logs.is_empty());
    assert!(seen.out.is_empty());
    assert!(seen.err.is_empty());
}

#[test]
fn dry_run_over_the_working_directory_changes_nothing() {
    let seen = sweep(".", 1, Config { commit: false, skip_log_file: false });
    assert_eq!(seen.outcome, Ok(()));
    assert!(seen.removals.is_empty());
    assert!(seen.logs.is_empty());
    assert!(seen.err.is_empty());
    for line in seen.out.iter() {
        let path = line.strip_prefix("Would delete ");
        assert!(path.is_some());
        let path = path.unwrap_or("");
        assert!(DIRS_TO_DELETE.iter().any(|name| {
            path == *name || path.ends_with(&format!("/{}", name)) || path.ends_with(&format!("\\{}", name))
        }));
    }
}

#[test]
fn committing_run_asks_only_for_listed_names() {
    let seen = sweep(".", 1, Config { commit: true, skip_log_file: true });
    assert_eq!(seen.outcome, Ok(()));
    assert!(seen.logs.is_empty());
    assert_eq!(seen.out.len(), seen.removals.len());
    assert_eq!(seen.err.len(), seen.removals.len());
    for path in seen.removals.iter() {
        assert!(DIRS_TO_DELETE.iter().any(|name| {
            path == *name || path.ends_with(&format!("/{}", name)) || path.ends_with(&format!("\\{}", name))
        }));
    }
}
