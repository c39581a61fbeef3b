use lineup::runner::{worker_matched, match_workers};
use lineup::worker::Worker;
use lineup::engine::{Engine, EngineBase, EngineDbg};

fn worker(name: &str) -> Worker {
    Worker {
        name: name.to_string(),
        name_outer: name.to_string(),
        workdir: String::new(),
        engine: Engine::Dbg(EngineDbg { base: EngineBase { name: None, setup: false } }),
        setup: true,
    }
}

#[test]
fn worker_name_patterns_are_anchored() {
    let patterns = vec!["web".to_string()];
    assert!(worker_matched(&patterns, "web").unwrap());
    // an anchored pattern does not match inside a longer name
    assert!(!worker_matched(&patterns, "web-1").unwrap());
    assert!(!worker_matched(&patterns, "a-web").unwrap());
}

#[test]
fn default_pattern_matches_everything() {
    let patterns = vec![".*".to_string()];
    assert!(worker_matched(&patterns, "anything").unwrap());
    assert!(worker_matched(&patterns, "").unwrap());
}

#[test]
fn unmatched_workers_are_left_out() {
    let workers = vec![worker("db"), worker("web-1"), worker("web-2")];
    let sel = match_workers(&vec!["web-.*".to_string()], &workers).unwrap();
    assert_eq!(sel, vec![1, 2]);
    let none = match_workers(&vec!["mail".to_string()], &workers).unwrap();
    assert!(none.is_empty());
}

#[test]
fn bad_worker_pattern_is_an_error() {
    assert!(worker_matched(&vec!["(".to_string()], "x").is_err());
}
