use elvis::cli::args::{Cli, Command};
use elvis::cli::run;
use elvis::executor::execution::{ExecutionError, Executor, FsOp};
use elvis::path::FsPath;
use elvis::planner::action::{Action, FsObjectKind};
use elvis::planner::plan::{CommandKind, ErrorKind, PlanError, WarningKind};
use elvis::snapshot::{lists_contents_first, FsSnapshot, PathProbe, WalkEntry};

fn path(text: &str) -> FsPath {
    let mut parts: Vec<String> = Vec::new();
    if text.starts_with('/') {
        parts.push("/".to_string());
    }
    for part in text.split('/') {
        if !part.is_empty() {
            parts.push(part.to_string());
        }
    }
    FsPath::new(parts)
}

fn leaf(text: &str, kind: FsObjectKind) -> PathProbe {
    PathProbe {
        path: path(text),
        exists: true,
        is_dir: false,
        metadata: Some(kind),
        has_entries: None,
        walk: vec![WalkEntry { rel: path(""), kind }],
        walk_contents_first: vec![WalkEntry { rel: path(""), kind }],
    }
}

fn file(text: &str) -> PathProbe {
    leaf(text, FsObjectKind::File)
}

fn entries(listing: &[(&str, FsObjectKind)]) -> Vec<WalkEntry> {
    listing.iter().map(|(rel, kind)| WalkEntry { rel: path(rel), kind: *kind }).collect()
}

/// A directory whose tree is given with each directory after its contents.
fn dir(text: &str, contents_first: &[(&str, FsObjectKind)]) -> PathProbe {
    let mut reversed: Vec<(&str, FsObjectKind)> = contents_first.to_vec();
    reversed.reverse();
    PathProbe {
        path: path(text),
        exists: true,
        is_dir: true,
        metadata: Some(FsObjectKind::Directory),
        has_entries: Some(contents_first.len() > 1),
        walk: entries(&reversed),
        walk_contents_first: entries(contents_first),
    }
}

fn rm(targets: &[&str], recursive: bool, force: bool, yes: bool) -> Cli {
    Cli {
        command: Command::Rm {
            targets: targets.iter().map(|t| path(t)).collect(),
            recursive,
            force,
        },
        no_color: false,
        summary_only: false,
        max_entries: None,
        yes,
    }
}

fn snapshot(probes: Vec<PathProbe>) -> FsSnapshot {
    let mut fs = FsSnapshot::new();
    for probe in probes {
        fs.record(probe);
    }
    fs
}

fn removal(text: &str, kind: FsObjectKind) -> Action {
    Action::Delete { path: path(text), kind, recursive: false }
}

fn error(kind: ErrorKind, text: &str, message: &str) -> PlanError {
    PlanError { kind, path: Some(path(text)), message: message.to_string() }
}

#[test]
fn rm_file_success() {
    let fs = snapshot(vec![file("/t/a.txt")]);
    let session = run(&rm(&["/t/a.txt"], false, false, true), &path("/work"), &fs, 9);
    assert_eq!(session.plan.metadata.command, CommandKind::Rm);
    assert_eq!(session.plan.actions, vec![removal("/t/a.txt", FsObjectKind::File)]);
    assert!(session.plan.errors.is_empty());
    assert!(session.plan.warnings.is_empty());
    assert_eq!(session.plan.summary.files_deleted, 1);
    let execution = Executor::execute(&session.plan, &session.executor, false);
    assert_eq!(execution.outcome, Ok(()));
    assert_eq!(execution.ops, vec![FsOp::RemoveFile { path: path("/t/a.txt") }]);
}

#[test]
fn rm_dir_without_recursive_flag_error() {
    let fs = snapshot(vec![dir(
        "/t/sub",
        &[("a.txt", FsObjectKind::File), ("", FsObjectKind::Directory)],
    )]);
    let session = run(&rm(&["/t/sub"], false, false, false), &path("/work"), &fs, 9);
    assert!(session.plan.actions.is_empty());
    assert_eq!(
        session.plan.errors,
        vec![error(ErrorKind::Unsupported, "/t/sub", "Is a directory (use -r)")]
    );
    assert_eq!(session.plan.summary.errors, 1);
    let execution = Executor::execute(&session.plan, &session.executor, true);
    assert_eq!(execution.outcome, Err(ExecutionError::PlanHasErrors));
    assert!(execution.ops.is_empty());
}

#[test]
fn rm_dir_recursive_success() {
    let fs = snapshot(vec![dir(
        "/t",
        &[("sub", FsObjectKind::Directory), ("", FsObjectKind::Directory)],
    )]);
    let session = run(&rm(&["/t"], true, false, true), &path("/work"), &fs, 9);
    assert_eq!(
        session.plan.actions,
        vec![removal("/t/sub", FsObjectKind::Directory), removal("/t", FsObjectKind::Directory)]
    );
    assert!(session.plan.errors.is_empty());
    assert_eq!(session.plan.warnings.len(), 1);
    assert_eq!(session.plan.warnings[0].kind, WarningKind::RecursiveDelete);
    assert_eq!(session.plan.warnings[0].paths, vec![path("/t")]);
    assert_eq!(session.plan.warnings[0].message, "Recursive directory deletion");
    assert_eq!(session.plan.summary.dirs_deleted, 2);
    assert_eq!(session.plan.summary.files_deleted, 0);
    let execution = Executor::execute(&session.plan, &session.executor, false);
    assert_eq!(execution.outcome, Ok(()));
    assert_eq!(
        execution.ops,
        vec![FsOp::RemoveDir { path: path("/t/sub") }, FsOp::RemoveDir { path: path("/t") }]
    );
}

#[test]
fn rm_source_not_found() {
    let fs = snapshot(vec![PathProbe::missing(path("/t/non_existent.txt"))]);
    let session = run(&rm(&["/t/non_existent.txt"], false, false, false), &path("/work"), &fs, 9);
    assert!(session.plan.actions.is_empty());
    assert_eq!(
        session.plan.errors,
        vec![error(ErrorKind::NotFound, "/t/non_existent.txt", "No such file or directory")]
    );
    assert_eq!(Executor::validate(&session.plan), Err(ExecutionError::PlanHasErrors));
    let execution = Executor::execute(&session.plan, &session.executor, true);
    assert_eq!(execution.outcome, Err(ExecutionError::PlanHasErrors));
    assert!(execution.ops.is_empty());
}

#[test]
fn rm_multiple_files() {
    let fs = snapshot(vec![file("/t/a.txt"), file("/t/b.txt")]);
    let session = run(&rm(&["/t/a.txt", "/t/b.txt"], false, false, true), &path("/work"), &fs, 9);
    assert!(session.plan.errors.is_empty());
    assert_eq!(session.plan.summary.files_deleted, 2);
    let execution = Executor::execute(&session.plan, &session.executor, false);
    assert_eq!(execution.outcome, Ok(()));
    assert_eq!(
        execution.ops,
        vec![
            FsOp::RemoveFile { path: path("/t/a.txt") },
            FsOp::RemoveFile { path: path("/t/b.txt") },
        ]
    );
}

#[test]
fn rm_empty_dir_without_recursive_flag_success() {
    let fs = snapshot(vec![dir("/t/empty", &[("", FsObjectKind::Directory)])]);
    let session = run(&rm(&["/t/empty"], false, false, true), &path("/work"), &fs, 9);
    assert_eq!(session.plan.actions, vec![removal("/t/empty", FsObjectKind::Directory)]);
    assert!(session.plan.errors.is_empty());
    assert!(session.plan.warnings.is_empty());
    assert_eq!(session.plan.summary.dirs_deleted, 1);
    let execution = Executor::execute(&session.plan, &session.executor, false);
    assert_eq!(execution.outcome, Ok(()));
    assert_eq!(execution.ops, vec![FsOp::RemoveDir { path: path("/t/empty") }]);
}

#[test]
fn rm_recursive_removes_file_then_subdirectory_then_directory() {
    let fs = snapshot(vec![dir(
        "dir",
        &[
            ("f.txt", FsObjectKind::File),
            ("sub", FsObjectKind::Directory),
            ("", FsObjectKind::Directory),
        ],
    )]);
    let session = run(&rm(&["dir"], true, false, true), &path("/work"), &fs, 9);
    assert_eq!(
        session.plan.actions,
        vec![
            removal("dir/f.txt", FsObjectKind::File),
            removal("dir/sub", FsObjectKind::Directory),
            removal("dir", FsObjectKind::Directory),
        ]
    );
    assert_eq!(session.plan.summary.files_deleted, 1);
    assert_eq!(session.plan.summary.dirs_deleted, 2);
    let execution = Executor::execute(&session.plan, &session.executor, false);
    assert_eq!(
        execution.ops,
        vec![
            FsOp::RemoveFile { path: path("dir/f.txt") },
            FsOp::RemoveDir { path: path("dir/sub") },
            FsOp::RemoveDir { path: path("dir") },
        ]
    );
}

#[test]
fn rm_recursive_counts_each_kind() {
    let fs = snapshot(vec![dir(
        "d",
        &[
            ("a/x", FsObjectKind::File),
            ("a/y", FsObjectKind::Symlink),
            ("a", FsObjectKind::Directory),
            ("b/c/z", FsObjectKind::File),
            ("b/c", FsObjectKind::Directory),
            ("b", FsObjectKind::Directory),
            ("w", FsObjectKind::File),
            ("", FsObjectKind::Directory),
        ],
    )]);
    assert!(lists_contents_first(&fs.probes[0].walk_contents_first));
    let session = run(&rm(&["d"], true, false, true), &path("/work"), &fs, 9);
    let files = session
        .plan
        .actions
        .iter()
        .filter(|a| matches!(a, Action::Delete { kind: FsObjectKind::File, .. }))
        .count();
    assert_eq!(files, 3);
    assert_eq!(session.plan.actions.len(), 8);
    assert_eq!(session.plan.actions[1], removal("d/a/y", FsObjectKind::Symlink));
    assert!(session.plan.is_consistent());
    assert_eq!(session.plan.summary.files_deleted, 4);
    assert_eq!(session.plan.summary.dirs_deleted, 4);
    let index = |p: &str| {
        session
            .plan
            .actions
            .iter()
            .position(|a| matches!(a, Action::Delete { path: q, .. } if *q == path(p)))
            .unwrap()
    };
    assert!(index("d/a/x") < index("d/a"));
    assert!(index("d/b/c/z") < index("d/b/c"));
    assert!(index("d/b/c") < index("d/b"));
    assert!(index("d/b") < index("d"));
    assert!(index("d/w") < index("d"));
}

#[test]
fn rm_force_passes_over_what_is_missing() {
    let fs = snapshot(vec![PathProbe::missing(path("gone")), file("here")]);
    let session = run(&rm(&["gone", "here"], false, true, true), &path("/work"), &fs, 9);
    assert_eq!(session.plan.actions, vec![removal("here", FsObjectKind::File)]);
    assert!(session.plan.errors.is_empty());
    assert!(session.plan.warnings.is_empty());
}

#[test]
fn rm_of_what_cannot_be_read() {
    let mut locked = file("locked");
    locked.metadata = None;
    let fs = snapshot(vec![locked]);
    let refused = run(&rm(&["locked"], false, false, true), &path("/work"), &fs, 9);
    assert!(refused.plan.actions.is_empty());
    assert_eq!(
        refused.plan.errors,
        vec![error(ErrorKind::PermissionDenied, "locked", "Permission denied")]
    );
    let forced = run(&rm(&["locked"], false, true, true), &path("/work"), &fs, 9);
    assert_eq!(forced.plan.actions, vec![removal("locked", FsObjectKind::File)]);
    assert!(forced.plan.errors.is_empty());
    assert_eq!(forced.plan.warnings.len(), 1);
    assert_eq!(forced.plan.warnings[0].kind, WarningKind::PermissionRisk);
    assert_eq!(forced.plan.warnings[0].paths, vec![path("locked")]);
    assert_eq!(forced.plan.warnings[0].message, "Could not read metadata");
    assert_eq!(forced.plan.summary.files_deleted, 1);
}

#[test]
fn rm_of_a_directory_that_cannot_be_listed() {
    let mut sealed = dir("sealed", &[("", FsObjectKind::Directory)]);
    sealed.has_entries = None;
    let fs = snapshot(vec![sealed]);
    let refused = run(&rm(&["sealed"], false, false, true), &path("/work"), &fs, 9);
    assert!(refused.plan.actions.is_empty());
    assert_eq!(
        refused.plan.errors,
        vec![error(ErrorKind::Unsupported, "sealed", "Is a directory (use -r)")]
    );
    let forced = run(&rm(&["sealed"], false, true, true), &path("/work"), &fs, 9);
    assert_eq!(forced.plan.actions, vec![removal("sealed", FsObjectKind::Directory)]);
    assert!(forced.plan.errors.is_empty());
}

#[test]
fn rm_of_a_symlink_removes_the_link() {
    let fs = snapshot(vec![leaf("link", FsObjectKind::Symlink)]);
    let session = run(&rm(&["link"], true, false, true), &path("/work"), &fs, 9);
    assert_eq!(session.plan.actions, vec![removal("link", FsObjectKind::Symlink)]);
    assert_eq!(session.plan.summary.files_deleted, 1);
    let execution = Executor::execute(&session.plan, &session.executor, false);
    assert_eq!(execution.ops, vec![FsOp::RemoveFile { path: path("link") }]);
}

#[test]
fn rm_records_every_error() {
    let fs = snapshot(vec![
        PathProbe::missing(path("a")),
        file("b"),
        dir("c", &[("f", FsObjectKind::File), ("", FsObjectKind::Directory)]),
    ]);
    let session = run(&rm(&["a", "b", "c"], false, false, true), &path("/work"), &fs, 9);
    assert_eq!(session.plan.actions, vec![removal("b", FsObjectKind::File)]);
    assert_eq!(
        session.plan.errors,
        vec![
            error(ErrorKind::NotFound, "a", "No such file or directory"),
            error(ErrorKind::Unsupported, "c", "Is a directory (use -r)"),
        ]
    );
    assert!(session.plan.is_consistent());
    assert_eq!(session.plan.summary.errors, 2);
    assert_eq!(session.plan.summary.files_deleted, 1);
}
