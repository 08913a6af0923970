use elvis::cli::args::{Cli, Command};
use elvis::cli::run;
use elvis::executor::execution::{ExecutionError, Executor, FsOp};
use elvis::path::FsPath;
use elvis::planner::action::{Action, FsObjectKind};
use elvis::planner::plan::{CommandKind, WarningKind};
use elvis::snapshot::{FsSnapshot, PathProbe};

fn path(text: &str) -> FsPath {
    let mut parts: Vec<String> = Vec::new();
    if text.starts_with('/') {
        parts.push("/".to_string());
    }
    for part in text.split('/') {
        if !part.is_empty() {
            parts.push(part.to_string());
        }
    }
    FsPath::new(parts)
}

fn file(text: &str) -> PathProbe {
    PathProbe {
        path: path(text),
        exists: true,
        is_dir: false,
        metadata: Some(FsObjectKind::File),
        has_entries: None,
        walk: vec![],
        walk_contents_first: vec![],
    }
}

fn touch(targets: &[&str], yes: bool) -> Cli {
    Cli {
        command: Command::Touch { targets: targets.iter().map(|t| path(t)).collect() },
        no_color: false,
        summary_only: false,
        max_entries: None,
        yes,
    }
}

fn snapshot(probes: Vec<PathProbe>) -> FsSnapshot {
    let mut fs = FsSnapshot::new();
    for probe in probes {
        fs.record(probe);
    }
    fs
}

#[test]
fn touch_file_success() {
    let fs = snapshot(vec![PathProbe::missing(path("/tmp/t/a.txt"))]);
    let session = run(&touch(&["/tmp/t/a.txt"], true), &path("/work"), &fs, 11);
    assert_eq!(session.plan.metadata.command, CommandKind::Touch);
    assert_eq!(session.plan.metadata.working_dir, path("/work"));
    assert_eq!(session.plan.metadata.created_at, 11);
    assert_eq!(
        session.plan.actions,
        vec![Action::Create { path: path("/tmp/t/a.txt"), kind: FsObjectKind::File }]
    );
    assert!(session.plan.warnings.is_empty());
    assert!(session.plan.errors.is_empty());
    assert_eq!(session.plan.summary.files_created, 1);
    assert!(!Executor::needs_confirmation(&session.plan, &session.executor));
    let execution = Executor::execute(&session.plan, &session.executor, false);
    assert_eq!(execution.outcome, Ok(()));
    assert_eq!(execution.ops, vec![FsOp::CreateFile { path: path("/tmp/t/a.txt") }]);
}

#[test]
fn touch_files_success() {
    let fs = snapshot(vec![
        PathProbe::missing(path("/tmp/t/a.txt")),
        PathProbe::missing(path("/tmp/t/b.txt")),
        PathProbe::missing(path("/tmp/t/c.txt")),
    ]);
    let cli = touch(&["/tmp/t/a.txt", "/tmp/t/b.txt", "/tmp/t/c.txt"], true);
    let session = run(&cli, &path("/work"), &fs, 0);
    assert_eq!(session.plan.summary.files_created, 3);
    assert!(session.plan.warnings.is_empty());
    assert!(session.plan.errors.is_empty());
    let execution = Executor::execute(&session.plan, &session.executor, false);
    assert_eq!(execution.outcome, Ok(()));
    assert_eq!(
        execution.ops,
        vec![
            FsOp::CreateFile { path: path("/tmp/t/a.txt") },
            FsOp::CreateFile { path: path("/tmp/t/b.txt") },
            FsOp::CreateFile { path: path("/tmp/t/c.txt") },
        ]
    );
}

#[test]
fn touch_existed_file_success() {
    let fs = snapshot(vec![file("/tmp/t/a.txt")]);
    let session = run(&touch(&["/tmp/t/a.txt"], true), &path("/work"), &fs, 0);
    assert!(session.plan.actions.is_empty());
    assert!(session.plan.errors.is_empty());
    assert_eq!(session.plan.warnings.len(), 1);
    assert_eq!(session.plan.warnings[0].kind, WarningKind::Overwrite);
    assert_eq!(session.plan.warnings[0].paths, vec![path("/tmp/t/a.txt")]);
    assert_eq!(session.plan.warnings[0].message, "Already existed");
    assert_eq!(session.plan.summary.warnings, 1);
    assert_eq!(session.plan.summary.files_created, 0);
    let execution = Executor::execute(&session.plan, &session.executor, false);
    assert_eq!(execution.outcome, Ok(()));
    assert!(execution.ops.is_empty());
}

#[test]
fn touch_mixed_targets_keep_their_order() {
    let fs = snapshot(vec![
        PathProbe::missing(path("a")),
        file("b"),
        PathProbe::missing(path("c")),
        file("d"),
    ]);
    let session = run(&touch(&["a", "b", "c", "d", "a"], true), &path("/work"), &fs, 0);
    assert_eq!(
        session.plan.actions,
        vec![
            Action::Create { path: path("a"), kind: FsObjectKind::File },
            Action::Create { path: path("c"), kind: FsObjectKind::File },
            Action::Create { path: path("a"), kind: FsObjectKind::File },
        ]
    );
    let warned: Vec<Vec<FsPath>> =
        session.plan.warnings.iter().map(|w| w.paths.clone()).collect();
    assert_eq!(warned, vec![vec![path("b")], vec![path("d")]]);
    assert!(session.plan.is_consistent());
    assert_eq!(session.plan.summary.files_created, 3);
    assert_eq!(session.plan.summary.warnings, 2);
    assert_eq!(session.plan.summary.errors, 0);
}

#[test]
fn touch_without_targets_plans_nothing() {
    let fs = snapshot(vec![]);
    let session = run(&touch(&[], true), &path("/work"), &fs, 0);
    assert!(session.plan.actions.is_empty());
    assert!(session.plan.warnings.is_empty());
    assert!(session.plan.errors.is_empty());
}

#[test]
fn touch_of_an_unprobed_path_creates_it() {
    let fs = snapshot(vec![]);
    let session = run(&touch(&["x"], true), &path("/work"), &fs, 0);
    assert_eq!(
        session.plan.actions,
        vec![Action::Create { path: path("x"), kind: FsObjectKind::File }]
    );
}

#[test]
fn touch_declined_changes_nothing() {
    let fs = snapshot(vec![PathProbe::missing(path("a.txt"))]);
    let session = run(&touch(&["a.txt"], false), &path("/work"), &fs, 0);
    assert!(Executor::needs_confirmation(&session.plan, &session.executor));
    let declined = Executor::execute(&session.plan, &session.executor, false);
    assert_eq!(declined.outcome, Err(ExecutionError::Cancelled));
    assert!(declined.ops.is_empty());
    let accepted = Executor::execute(&session.plan, &session.executor, true);
    assert_eq!(accepted.outcome, Ok(()));
    assert_eq!(accepted.ops, vec![FsOp::CreateFile { path: path("a.txt") }]);
}
