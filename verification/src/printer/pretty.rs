use crate::path::{FsPath, PathView};
use crate::planner::action::{Action, ActionView, FsObjectKind};
use crate::planner::plan::{Plan, PlanErrorView, PlanView, PlanWarningView};
use crate::printer::options::{PrinterOptions, PrinterOptionsView};
use vstd::prelude::*;

verus! {

/// The heading under which an action is shown.
#[derive(Debug, Clone, Copy, PartialEq, Eq, Structural)]
pub enum ActionGroup {
    Create,
    Modify,
    Move,
    Delete,
}

/// One line of the preview of a plan.
#[derive(Debug, PartialEq, Eq)]
pub enum Line {
    /// The heading of the errors.
    ErrorsHeading,
    /// One error.
    ErrorDetail { path: Option<FsPath>, message: String },
    /// The heading of the counters.
    SummaryHeading,
    /// How many files and directories are removed.
    DeleteCount { files: usize, dirs: usize },
    /// How many files are created.
    CreateCount { files: usize },
    /// How many files are moved.
    MoveCount { files: usize },
    /// How many warnings there are.
    WarningCount { count: usize },
    /// How many errors there are.
    ErrorCount { count: usize },
    /// The heading of the warnings.
    WarningsHeading,
    /// One warning.
    WarningDetail { message: String },
    /// The heading of a group of actions.
    GroupHeading { group: ActionGroup },
    /// One action, its paths relative to the working directory where they
    /// lie below it.
    Entry { action: Action },
    /// How many actions of the group are not shown.
    More { count: usize },
    /// An empty line.
    Blank,
}

/// The mathematical value of a [`Line`].
pub enum LineView {
    ErrorsHeading,
    ErrorDetail { path: Option<PathView>, message: Seq<char> },
    SummaryHeading,
    DeleteCount { files: nat, dirs: nat },
    CreateCount { files: nat },
    MoveCount { files: nat },
    WarningCount { count: nat },
    ErrorCount { count: nat },
    WarningsHeading,
    WarningDetail { message: Seq<char> },
    GroupHeading { group: ActionGroup },
    Entry { action: ActionView },
    More { count: nat },
    Blank,
}

impl View for Line {
    type V = LineView;

    open spec fn view(&self) -> LineView {
        match *self {
            Line::ErrorsHeading => LineView::ErrorsHeading,
            Line::ErrorDetail { path, message } => LineView::ErrorDetail {
                path: match path {
                    Some(p) => Some(p@),
                    None => None,
                },
                message: message@,
            },
            Line::SummaryHeading => LineView::SummaryHeading,
            Line::DeleteCount { files, dirs } => LineView::DeleteCount {
                files: files as nat,
                dirs: dirs as nat,
            },
            Line::CreateCount { files } => LineView::CreateCount { files: files as nat },
            Line::MoveCount { files } => LineView::MoveCount { files: files as nat },
            Line::WarningCount { count } => LineView::WarningCount { count: count as nat },
            Line::ErrorCount { count } => LineView::ErrorCount { count: count as nat },
            Line::WarningsHeading => LineView::WarningsHeading,
            Line::WarningDetail { message } => LineView::WarningDetail { message: message@ },
            Line::GroupHeading { group } => LineView::GroupHeading { group },
            Line::Entry { action } => LineView::Entry { action: action@ },
            Line::More { count } => LineView::More { count: count as nat },
            Line::Blank => LineView::Blank,
        }
    }
}

/// The values of a list of lines, in order.
pub open spec fn line_views(lines: Seq<Line>) -> Seq<LineView> {
    lines.map_values(|l: Line| l@)
}

/// The group that an action is shown in.
pub open spec fn group_of(action: ActionView) -> ActionGroup {
    match action {
        ActionView::Create { .. } => ActionGroup::Create,
        ActionView::Modify { .. } => ActionGroup::Modify,
        ActionView::Move { .. } => ActionGroup::Move,
        ActionView::Delete { .. } => ActionGroup::Delete,
    }
}

/// A path as it is shown: relative to `cwd` where it is `cwd` or lies below
/// it, and unchanged otherwise.
pub open spec fn spec_rel_path(path: PathView, cwd: PathView) -> PathView {
    if cwd.is_prefix_of(path) {
        path.skip(cwd.len() as int)
    } else {
        path
    }
}

/// An action as it is shown: each of its paths as it is shown.
pub open spec fn spec_rel_action(action: ActionView, cwd: PathView) -> ActionView {
    match action {
        ActionView::Create { path, kind } => ActionView::Create {
            path: spec_rel_path(path, cwd),
            kind,
        },
        ActionView::Move { from, to, overwrite } => ActionView::Move {
            from: spec_rel_path(from, cwd),
            to: spec_rel_path(to, cwd),
            overwrite,
        },
        ActionView::Modify { path, description } => ActionView::Modify {
            path: spec_rel_path(path, cwd),
            description,
        },
        ActionView::Delete { path, kind, recursive } => ActionView::Delete {
            path: spec_rel_path(path, cwd),
            kind,
            recursive,
        },
    }
}

/// What follows the path of a created or removed object.
pub open spec fn spec_kind_suffix(kind: FsObjectKind) -> Seq<char> {
    if kind == FsObjectKind::Directory {
        "/"@
    } else {
        ""@
    }
}

/// The errors: nothing where there is none, else a heading, one line for
/// each error in order, and an empty line.
pub open spec fn spec_error_lines(plan: PlanView) -> Seq<LineView> {
    if plan.errors.len() == 0 {
        Seq::empty()
    } else {
        seq![LineView::ErrorsHeading] + plan.errors.map_values(
            |e: PlanErrorView| LineView::ErrorDetail { path: e.path, message: e.message },
        ) + seq![LineView::Blank]
    }
}

/// The warnings: nothing where there is none, else a heading, one line for
/// each warning in order, and an empty line.
pub open spec fn spec_warning_lines(plan: PlanView) -> Seq<LineView> {
    if plan.warnings.len() == 0 {
        Seq::empty()
    } else {
        seq![LineView::WarningsHeading] + plan.warnings.map_values(
            |w: PlanWarningView| LineView::WarningDetail { message: w.message },
        ) + seq![LineView::Blank]
    }
}

/// The counters: a heading, the removals where anything is removed, the
/// creations where a file is created, the moves where a file is moved, the
/// numbers of warnings and errors, and an empty line.
pub open spec fn spec_summary_lines(plan: PlanView) -> Seq<LineView> {
    let s = plan.summary;
    seq![LineView::SummaryHeading] + (if s.files_deleted > 0 || s.dirs_deleted > 0 {
        seq![LineView::DeleteCount { files: s.files_deleted, dirs: s.dirs_deleted }]
    } else {
        Seq::empty()
    }) + (if s.files_created > 0 {
        seq![LineView::CreateCount { files: s.files_created }]
    } else {
        Seq::empty()
    }) + (if s.files_moved > 0 {
        seq![LineView::MoveCount { files: s.files_moved }]
    } else {
        Seq::empty()
    }) + seq![
        LineView::WarningCount { count: s.warnings },
        LineView::ErrorCount { count: s.errors },
        LineView::Blank,
    ]
}

/// The actions of one group, in the order of the plan.
pub open spec fn group_members(actions: Seq<ActionView>, group: ActionGroup) -> Seq<ActionView> {
    actions.filter(|a: ActionView| group_of(a) == group)
}

/// How many actions of a group are shown.
pub open spec fn shown_count(total: nat, max_entries: nat) -> nat {
    if total <= max_entries {
        total
    } else {
        max_entries
    }
}

/// One group of actions: nothing where the plan has none of the group, else
/// a heading, one line for each of the first `max_entries` actions of the
/// group, the number of those left out where some are, and an empty line.
pub open spec fn spec_group_lines(plan: PlanView, options: PrinterOptionsView, group: ActionGroup)
    -> Seq<LineView> {
    let members = group_members(plan.actions, group);
    let shown = shown_count(members.len(), options.max_entries);
    if members.len() == 0 {
        Seq::empty()
    } else {
        seq![LineView::GroupHeading { group }] + members.take(shown as int).map_values(
            |a: ActionView| LineView::Entry { action: spec_rel_action(a, options.cwd) },
        ) + (if members.len() > shown {
            seq![LineView::More { count: (members.len() - shown) as nat }]
        } else {
            Seq::empty()
        }) + seq![LineView::Blank]
    }
}

/// The actions, group by group: creations, changes in place, moves,
/// removals.
pub open spec fn spec_action_lines(plan: PlanView, options: PrinterOptionsView) -> Seq<LineView> {
    spec_group_lines(plan, options, ActionGroup::Create) + spec_group_lines(
        plan,
        options,
        ActionGroup::Modify,
    ) + spec_group_lines(plan, options, ActionGroup::Move) + spec_group_lines(
        plan,
        options,
        ActionGroup::Delete,
    )
}

/// The preview of a plan: the errors, the counters and, unless only the
/// summary is asked for, the warnings and the actions.
pub open spec fn spec_print(plan: PlanView, options: PrinterOptionsView) -> Seq<LineView> {
    if options.summary_only {
        spec_error_lines(plan) + spec_summary_lines(plan)
    } else {
        spec_error_lines(plan) + spec_summary_lines(plan) + spec_warning_lines(plan)
            + spec_action_lines(plan, options)
    }
}

/// Shows a plan as lines of a preview.
#[derive(Debug)]
pub struct PrettyPrinter;

impl PrettyPrinter {
    /// The preview of `plan`.
    pub fn print(plan: &Plan, options: &PrinterOptions) -> (lines: Vec<Line>)
        ensures
            line_views(lines@) == spec_print(plan@, options@),
    {
        let mut lines = Self::print_errors(plan);
        let mut summary = Self::print_summary(plan);
        let ghost errors = line_views(lines@);
        let ghost counters = line_views(summary@);
        lines.append(&mut summary);
        assert(line_views(lines@) =~= errors + counters);
        if options.summary_only {
            return lines;
        }
        let mut warnings = Self::print_warnings(plan);
        let mut actions = Self::print_actions(plan, options);
        let ghost warned = line_views(warnings@);
        let ghost acted = line_views(actions@);
        lines.append(&mut warnings);
        lines.append(&mut actions);
        assert(line_views(lines@) =~= errors + counters + warned + acted);
        lines
    }

    /// The lines of the errors.
    pub fn print_errors(plan: &Plan) -> (lines: Vec<Line>)
        ensures
            line_views(lines@) == spec_error_lines(plan@),
    {
        let mut lines: Vec<Line> = Vec::new();
        if plan.errors.len() == 0 {
            assert(line_views(lines@) =~= Seq::empty());
            return lines;
        }
        lines.push(Line::ErrorsHeading);
        let ghost detail = |e: PlanErrorView|
            LineView::ErrorDetail { path: e.path, message: e.message };
        let mut i: usize = 0;
        while i < plan.errors.len()
            invariant
                i <= plan.errors.len(),
                plan@.errors.len() == plan.errors.len(),
                detail == (|e: PlanErrorView|
                    LineView::ErrorDetail { path: e.path, message: e.message }),
                line_views(lines@) =~= seq![LineView::ErrorsHeading] + plan@.errors.take(
                    i as int,
                ).map_values(detail),
            decreases plan.errors.len() - i,
        {
            let error = &plan.errors[i];
            assert(plan@.errors[i as int] == error@);
            let path = match &error.path {
                Some(p) => Some(p.clone()),
                None => None,
            };
            let ghost before = line_views(lines@);
            lines.push(Line::ErrorDetail { path, message: error.message.clone() });
            assert(line_views(lines@) =~= before.push(detail(error@)));
            assert(plan@.errors.take(i as int + 1).map_values(detail) =~= plan@.errors.take(
                i as int,
            ).map_values(detail).push(detail(error@)));
            i += 1;
        }
        assert(plan@.errors.take(i as int) =~= plan@.errors);
        let ghost before = line_views(lines@);
        lines.push(Line::Blank);
        assert(line_views(lines@) =~= before.push(LineView::Blank));
        lines
    }

    /// The lines of the warnings.
    pub fn print_warnings(plan: &Plan) -> (lines: Vec<Line>)
        ensures
            line_views(lines@) == spec_warning_lines(plan@),
    {
        let mut lines: Vec<Line> = Vec::new();
        if plan.warnings.len() == 0 {
            assert(line_views(lines@) =~= Seq::empty());
            return lines;
        }
        lines.push(Line::WarningsHeading);
        let ghost detail = |w: PlanWarningView| LineView::WarningDetail { message: w.message };
        let mut i: usize = 0;
        while i < plan.warnings.len()
            invariant
                i <= plan.warnings.len(),
                plan@.warnings.len() == plan.warnings.len(),
                detail == (|w: PlanWarningView| LineView::WarningDetail { message: w.message }),
                line_views(lines@) =~= seq![LineView::WarningsHeading] + plan@.warnings.take(
                    i as int,
                ).map_values(detail),
            decreases plan.warnings.len() - i,
        {
            let warning = &plan.warnings[i];
            assert(plan@.warnings[i as int] == warning@);
            let ghost before = line_views(lines@);
            lines.push(Line::WarningDetail { message: warning.message.clone() });
            assert(line_views(lines@) =~= before.push(detail(warning@)));
            assert(plan@.warnings.take(i as int + 1).map_values(detail) =~= plan@.warnings.take(
                i as int,
            ).map_values(detail).push(detail(warning@)));
            i += 1;
        }
        assert(plan@.warnings.take(i as int) =~= plan@.warnings);
        let ghost before = line_views(lines@);
        lines.push(Line::Blank);
        assert(line_views(lines@) =~= before.push(LineView::Blank));
        lines
    }

    /// The lines of the counters.
    pub fn print_summary(plan: &Plan) -> (lines: Vec<Line>)
        ensures
            line_views(lines@) == spec_summary_lines(plan@),
    {
        let s = &plan.summary;
        let mut lines: Vec<Line> = Vec::new();
        lines.push(Line::SummaryHeading);
        if s.files_deleted > 0 || s.dirs_deleted > 0 {
            lines.push(Line::DeleteCount { files: s.files_deleted, dirs: s.dirs_deleted });
        }
        if s.files_created > 0 {
            lines.push(Line::CreateCount { files: s.files_created });
        }
        if s.files_moved > 0 {
            lines.push(Line::MoveCount { files: s.files_moved });
        }
        lines.push(Line::WarningCount { count: s.warnings });
        lines.push(Line::ErrorCount { count: s.errors });
        lines.push(Line::Blank);
        assert(line_views(lines@) =~= spec_summary_lines(plan@));
        lines
    }

    /// The lines of the actions, group by group.
    pub fn print_actions(plan: &Plan, options: &PrinterOptions) -> (lines: Vec<Line>)
        ensures
            line_views(lines@) == spec_action_lines(plan@, options@),
    {
        let mut lines = Self::print_group(plan, options, ActionGroup::Create);
        let mut modified = Self::print_group(plan, options, ActionGroup::Modify);
        let mut moved = Self::print_group(plan, options, ActionGroup::Move);
        let mut deleted = Self::print_group(plan, options, ActionGroup::Delete);
        let ghost a = line_views(lines@);
        let ghost b = line_views(modified@);
        let ghost c = line_views(moved@);
        let ghost d = line_views(deleted@);
        lines.append(&mut modified);
        lines.append(&mut moved);
        lines.append(&mut deleted);
        assert(line_views(lines@) =~= a + b + c + d);
        lines
    }

    /// The group that an action is shown in.
    pub fn group(action: &Action) -> (group: ActionGroup)
        ensures
            group == group_of(action@),
    {
        match action {
            Action::Create { .. } => ActionGroup::Create,
            Action::Modify { .. } => ActionGroup::Modify,
            Action::Move { .. } => ActionGroup::Move,
            Action::Delete { .. } => ActionGroup::Delete,
        }
    }

    /// The lines of one group of actions.
    pub fn print_group(plan: &Plan, options: &PrinterOptions, group: ActionGroup) -> (lines: Vec<
        Line,
    >)
        ensures
            line_views(lines@) == spec_group_lines(plan@, options@, group),
    {
        let ghost actions = plan@.actions;
        let ghost in_group = |a: ActionView| group_of(a) == group;
        let ghost entry = |a: ActionView|
            LineView::Entry { action: spec_rel_action(a, options@.cwd) };
        let mut members: Vec<usize> = Vec::new();
        let mut i: usize = 0;
        while i < plan.actions.len()
            invariant
                i <= plan.actions.len(),
                actions == plan@.actions,
                actions.len() == plan.actions.len(),
                in_group == (|a: ActionView| group_of(a) == group),
                members@.len() == actions.take(i as int).filter(in_group).len(),
                forall|k: int|
                    0 <= k < members@.len() ==> 0 <= #[trigger] members@[k] < i
                        && actions[members@[k] as int] == actions.take(i as int).filter(
                        in_group,
                    )[k],
            decreases plan.actions.len() - i,
        {
            proof {
                reveal(Seq::filter);
                assert(actions.take(i as int + 1).drop_last() =~= actions.take(i as int));
                assert(actions.take(i as int + 1).last() == plan.actions@[i as int]@);
            }
            if Self::group(&plan.actions[i]) == group {
                members.push(i);
            }
            i += 1;
        }
        assert(actions.take(i as int) =~= actions);
        let ghost chosen = group_members(actions, group);
        let mut lines: Vec<Line> = Vec::new();
        let total = members.len();
        if total == 0 {
            assert(line_views(lines@) =~= Seq::empty());
            return lines;
        }
        let limit = if total <= options.max_entries {
            total
        } else {
            options.max_entries
        };
        lines.push(Line::GroupHeading { group });
        let mut k: usize = 0;
        while k < limit
            invariant
                k <= limit <= total,
                total == members@.len(),
                chosen.len() == total,
                actions == plan@.actions,
                actions.len() == plan.actions.len(),
                entry == (|a: ActionView|
                    LineView::Entry { action: spec_rel_action(a, options@.cwd) }),
                forall|m: int|
                    0 <= m < members@.len() ==> 0 <= #[trigger] members@[m] < actions.len()
                        && actions[members@[m] as int] == chosen[m],
                line_views(lines@) =~= seq![LineView::GroupHeading { group }] + chosen.take(
                    k as int,
                ).map_values(entry),
            decreases limit - k,
        {
            let action = &plan.actions[members[k]];
            assert(action@ == chosen[k as int]);
            let ghost before = line_views(lines@);
            lines.push(Self::print_action(action, options));
            assert(line_views(lines@) =~= before.push(entry(action@)));
            assert(chosen.take(k as int + 1).map_values(entry) =~= chosen.take(k as int).map_values(
                entry,
            ).push(entry(action@)));
            k += 1;
        }
        if total > limit {
            let ghost before = line_views(lines@);
            lines.push(Line::More { count: total - limit });
            assert(line_views(lines@) =~= before.push(
                LineView::More { count: (total - limit) as nat },
            ));
        }
        let ghost before = line_views(lines@);
        lines.push(Line::Blank);
        assert(line_views(lines@) =~= before.push(LineView::Blank));
        assert(line_views(lines@) =~= spec_group_lines(plan@, options@, group));
        lines
    }

    /// The line of one action: the action with each of its paths as it is
    /// shown.
    pub fn print_action(action: &Action, options: &PrinterOptions) -> (line: Line)
        ensures
            line@ == (LineView::Entry { action: spec_rel_action(action@, options@.cwd) }),
    {
        let shown = match action {
            Action::Create { path, kind } => Action::Create {
                path: Self::rel_path(path, options),
                kind: *kind,
            },
            Action::Move { from, to, overwrite } => Action::Move {
                from: Self::rel_path(from, options),
                to: Self::rel_path(to, options),
                overwrite: *overwrite,
            },
            Action::Modify { path, description } => Action::Modify {
                path: Self::rel_path(path, options),
                description: description.clone(),
            },
            Action::Delete { path, kind, recursive } => Action::Delete {
                path: Self::rel_path(path, options),
                kind: *kind,
                recursive: *recursive,
            },
        };
        Line::Entry { action: shown }
    }

    /// A path as it is shown.
    pub fn rel_path(path: &FsPath, options: &PrinterOptions) -> (shown: FsPath)
        ensures
            shown@ == spec_rel_path(path@, options@.cwd),
    {
        match path.strip_prefix(&options.cwd) {
            Some(rest) => rest,
            None => path.clone(),
        }
    }

    /// What follows the path of a created or removed object: `/` for a
    /// directory, nothing for anything else.
    pub fn kind_suffix(kind: FsObjectKind) -> (suffix: &'static str)
        ensures
            suffix@ == spec_kind_suffix(kind),
    {
        match kind {
            FsObjectKind::Directory => "/",
            _ => "",
        }
    }
}

} // verus!
