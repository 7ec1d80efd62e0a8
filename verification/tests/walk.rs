use fastfind::eval::Meta;
use fastfind::expr::{Config, Expr, Timestamp};
use fastfind::walker::{walk_start, walk_step, WalkAction, WalkEvent};

fn meta(is_dir: bool) -> Meta {
    Meta {
        len: 0,
        mode: if is_dir { 0o040755 } else { 0o100644 },
        uid: 0,
        gid: 0,
        nlink: 1,
        ino: 1,
        dev: 1,
        blocks: 0,
        atime: 0,
        mtime: 0,
        ctime: 0,
        modified: Ok(Timestamp { secs: 0, nanos: 0 }),
        accessed: Ok(Timestamp { secs: 0, nanos: 0 }),
        created: Err("unsupported".to_string()),
        is_file: !is_dir,
        is_dir,
        is_symlink: false,
    }
}

/// The tree `r` with `r/a` (holding `r/a/x`) and `r/b`.
fn children(p: &str) -> Option<Vec<&'static str>> {
    match p {
        "r" => Some(vec!["r/a", "r/b"]),
        "r/a" => Some(vec!["r/a/x"]),
        _ => None,
    }
}

/// Runs the walk on the tree; `prune` names paths whose evaluation prunes,
/// `quit` the path whose evaluation quits. Returns the evaluated paths.
fn walk(config: &Config, prune: &[&str], quit: Option<&str>) -> Vec<String> {
    let mut st = walk_start(b"r".to_vec(), None);
    let mut ev = WalkEvent::Continue;
    let mut seen = Vec::new();
    let mut quitting = false;
    for _ in 0..1000 {
        ev = match walk_step(config, &mut st, ev) {
            WalkAction::Continue => WalkEvent::Continue,
            WalkAction::Stat(p) => {
                let p = String::from_utf8(p).unwrap();
                if p == "r/missing" {
                    WalkEvent::Stat(Err("gone".to_string()))
                } else {
                    WalkEvent::Stat(Ok(meta(children(&p).is_some())))
                }
            }
            WalkAction::List(p) => {
                let p = String::from_utf8(p).unwrap();
                WalkEvent::Listed(children(&p).map(|v| v.iter().map(|c| c.as_bytes().to_vec()).collect()))
            }
            WalkAction::Evaluate { path, .. } => {
                let p = String::from_utf8(path).unwrap();
                if !quitting {
                    seen.push(p.clone());
                }
                if quit == Some(p.as_str()) {
                    quitting = true;
                }
                WalkEvent::Evaluated { pruned: prune.contains(&p.as_str()), quit: quitting }
            }
            WalkAction::Warn(_) => WalkEvent::Continue,
            WalkAction::Done => return seen,
        };
    }
    panic!("the walk did not end");
}

fn config() -> Config {
    let mut c = Config::default();
    c.expr = Expr::Print;
    c
}

#[test]
fn sequential_walk_visits_parents_first() {
    assert_eq!(walk(&config(), &[], None), vec!["r", "r/a", "r/a/x", "r/b"]);
}

#[test]
fn depth_first_walk_visits_contents_first() {
    let mut c = config();
    c.depth_first = true;
    assert_eq!(walk(&c, &[], None), vec!["r/a/x", "r/a", "r/b", "r"]);
}

#[test]
fn pruned_directory_is_not_entered() {
    assert_eq!(walk(&config(), &["r/a"], None), vec!["r", "r/a", "r/b"]);
    // With -depth, pruning has no effect.
    let mut c = config();
    c.depth_first = true;
    assert_eq!(walk(&c, &["r/a"], None), vec!["r/a/x", "r/a", "r/b", "r"]);
}

#[test]
fn quit_stops_the_walk() {
    assert_eq!(walk(&config(), &[], Some("r/a")), vec!["r", "r/a"]);
}

#[test]
fn depth_limits() {
    let mut c = config();
    c.max_depth = Some(1);
    assert_eq!(walk(&c, &[], None), vec!["r", "r/a", "r/b"]);
    let mut c = config();
    c.min_depth = 2;
    assert_eq!(walk(&c, &[], None), vec!["r/a/x"]);
}

#[test]
fn unreadable_entry_is_reported() {
    let mut st = walk_start(b"r/missing".to_vec(), None);
    let c = config();
    assert!(matches!(walk_step(&c, &mut st, WalkEvent::Continue), WalkAction::Stat(_)));
    match walk_step(&c, &mut st, WalkEvent::Stat(Err("gone".to_string()))) {
        WalkAction::Warn(m) => assert_eq!(m, "find: `r/missing`: gone"),
        _ => panic!("expected a warning"),
    }
    assert!(matches!(walk_step(&c, &mut st, WalkEvent::Continue), WalkAction::Done));
}
