use elvis::executor::execution::{Execution, ExecutionError, Executor, FsOp};
use elvis::executor::options::ExecutorOptions;
use elvis::path::FsPath;
use elvis::planner::action::{Action, FsObjectKind};
use elvis::planner::plan::{CommandKind, ErrorKind, Plan, PlanError, PlanMetadata};

fn path(text: &str) -> FsPath {
    FsPath::new(text.split('/').filter(|p| !p.is_empty()).map(|p| p.to_string()).collect())
}

fn plan_of(actions: Vec<Action>) -> Plan {
    let mut plan = Plan::new(PlanMetadata {
        command: CommandKind::Mv,
        working_dir: path("w"),
        created_at: 0,
    });
    for action in actions {
        plan.push_action(action, false);
    }
    plan
}

const YES: ExecutorOptions = ExecutorOptions { assume_yes: true };
const ASK: ExecutorOptions = ExecutorOptions { assume_yes: false };

#[test]
fn options_ask_by_default() {
    assert_eq!(ExecutorOptions::default(), ExecutorOptions { assume_yes: false });
}

#[test]
fn errors_in_words() {
    assert_eq!(ExecutionError::PlanHasErrors.message(), "Cannot execute plan with errors");
    assert_eq!(ExecutionError::Cancelled.message(), "User cancel command");
    assert_eq!(ExecutionError::Unsupported.message(), "Symlink creation not supported yet");
}

#[test]
fn confirm_turns_no_into_cancellation() {
    assert_eq!(Executor::confirm(true), Ok(()));
    assert_eq!(Executor::confirm(false), Err(ExecutionError::Cancelled));
}

#[test]
fn validate_accepts_a_plan_without_errors() {
    let plan = plan_of(vec![]);
    assert_eq!(Executor::validate(&plan), Ok(()));
    assert!(Executor::needs_confirmation(&plan, &ASK));
    assert!(!Executor::needs_confirmation(&plan, &YES));
}

#[test]
fn apply_each_action() {
    let create_file = Action::Create { path: path("f"), kind: FsObjectKind::File };
    assert_eq!(Executor::apply(&create_file), Ok(vec![FsOp::CreateFile { path: path("f") }]));
    let create_dir = Action::Create { path: path("d"), kind: FsObjectKind::Directory };
    assert_eq!(Executor::apply(&create_dir), Ok(vec![FsOp::CreateDir { path: path("d") }]));
    let create_link = Action::Create { path: path("l"), kind: FsObjectKind::Symlink };
    assert_eq!(Executor::apply(&create_link), Err(ExecutionError::Unsupported));
    let plain = Action::Move { from: path("a"), to: path("b"), overwrite: false };
    assert_eq!(
        Executor::apply(&plain),
        Ok(vec![FsOp::Rename { from: path("a"), to: path("b") }])
    );
    let over = Action::Move { from: path("a"), to: path("b"), overwrite: true };
    assert_eq!(
        Executor::apply(&over),
        Ok(vec![
            FsOp::RemoveFileIfPresent { path: path("b") },
            FsOp::Rename { from: path("a"), to: path("b") },
        ])
    );
    let rm_file = Action::Delete { path: path("f"), kind: FsObjectKind::File, recursive: false };
    assert_eq!(Executor::apply(&rm_file), Ok(vec![FsOp::RemoveFile { path: path("f") }]));
    let rm_link = Action::Delete { path: path("l"), kind: FsObjectKind::Symlink, recursive: true };
    assert_eq!(Executor::apply(&rm_link), Ok(vec![FsOp::RemoveFile { path: path("l") }]));
    let rm_dir =
        Action::Delete { path: path("d"), kind: FsObjectKind::Directory, recursive: false };
    assert_eq!(Executor::apply(&rm_dir), Ok(vec![FsOp::RemoveDir { path: path("d") }]));
    let modify = Action::Modify { path: path("m"), description: "mtime".to_string() };
    assert_eq!(
        Executor::apply(&modify),
        Ok(vec![FsOp::Skip { path: path("m"), description: "mtime".to_string() }])
    );
}

#[test]
fn execute_keeps_the_order_of_the_plan() {
    let plan = plan_of(vec![
        Action::Create { path: path("d"), kind: FsObjectKind::Directory },
        Action::Move { from: path("a"), to: path("d/a"), overwrite: true },
        Action::Modify { path: path("d/a"), description: "mtime".to_string() },
        Action::Delete { path: path("old"), kind: FsObjectKind::Directory, recursive: false },
    ]);
    let execution = Executor::execute(&plan, &YES, false);
    assert_eq!(
        execution,
        Execution {
            ops: vec![
                FsOp::CreateDir { path: path("d") },
                FsOp::RemoveFileIfPresent { path: path("d/a") },
                FsOp::Rename { from: path("a"), to: path("d/a") },
                FsOp::Skip { path: path("d/a"), description: "mtime".to_string() },
                FsOp::RemoveDir { path: path("old") },
            ],
            outcome: Ok(()),
        }
    );
}

#[test]
fn execute_stops_at_a_symlink_creation() {
    let plan = plan_of(vec![
        Action::Create { path: path("a"), kind: FsObjectKind::File },
        Action::Create { path: path("l"), kind: FsObjectKind::Symlink },
        Action::Create { path: path("b"), kind: FsObjectKind::File },
        Action::Create { path: path("m"), kind: FsObjectKind::Symlink },
    ]);
    let execution = Executor::execute(&plan, &YES, false);
    assert_eq!(execution.ops, vec![FsOp::CreateFile { path: path("a") }]);
    assert_eq!(execution.outcome, Err(ExecutionError::Unsupported));
}

#[test]
fn execute_of_an_empty_plan_succeeds() {
    let execution = Executor::execute(&plan_of(vec![]), &YES, false);
    assert_eq!(execution, Execution { ops: vec![], outcome: Ok(()) });
}

#[test]
fn execute_asks_unless_told_not_to() {
    let plan = plan_of(vec![Action::Create { path: path("a"), kind: FsObjectKind::File }]);
    let ops = || vec![FsOp::CreateFile { path: path("a") }];
    assert_eq!(
        Executor::execute(&plan, &ASK, false),
        Execution { ops: vec![], outcome: Err(ExecutionError::Cancelled) }
    );
    assert_eq!(
        Executor::execute(&plan, &ASK, true),
        Execution { ops: ops(), outcome: Ok(()) }
    );
    assert_eq!(
        Executor::execute(&plan, &YES, false),
        Execution { ops: ops(), outcome: Ok(()) }
    );
    assert_eq!(Executor::execute(&plan, &YES, true), Execution { ops: ops(), outcome: Ok(()) });
}

#[test]
fn execute_never_touches_anything_for_a_plan_with_errors() {
    let mut plan = plan_of(vec![
        Action::Create { path: path("a"), kind: FsObjectKind::File },
        Action::Delete { path: path("b"), kind: FsObjectKind::File, recursive: false },
    ]);
    plan.push_error(PlanError::about(ErrorKind::NotFound, &path("c"), "gone"));
    assert_eq!(Executor::validate(&plan), Err(ExecutionError::PlanHasErrors));
    assert!(!Executor::needs_confirmation(&plan, &ASK));
    for options in [YES, ASK] {
        for confirmed in [true, false] {
            let execution = Executor::execute(&plan, &options, confirmed);
            assert!(execution.ops.is_empty());
            assert_eq!(execution.outcome, Err(ExecutionError::PlanHasErrors));
        }
    }
}
