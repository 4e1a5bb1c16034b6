//! The refactoring-plan generator: turns each change into code actions and
//! migration notes by its kind and the area of its target (which the differ
//! records with each change, so no path is parsed back), then orders the
//! actions by priority, keeping traversal order among equals. Shapes outside
//! the table give nothing.
use vstd::prelude::*;
use crate::change::{changes_view, kind_label, Area, ChangeKind, ChangeView, ModelChange, Snapshot, SnapshotView};
use crate::model::Conventions;
use crate::names::{snake_case, to_snake};
use crate::paths::{resolve_path, resolved_path};
use crate::seqs::{flat_map, lemma_flat_map_step};

verus! {

#[derive(Debug, Clone, Copy, PartialEq, Eq, Structural)]
pub enum ActionKind {
    CreateFile,
    ModifyFile,
    DeleteFile,
    MoveFile,
    UpdateImports,
    AddTest,
}

/// Urgency of a code action; `Critical` comes first.
#[derive(Debug, Clone, Copy, PartialEq, Eq, Structural)]
pub enum Priority {
    Critical,
    High,
    Medium,
    Low,
}

/// A concrete file-level instruction.
#[derive(Debug)]
pub struct CodeAction {
    pub action: ActionKind,
    pub file_path: String,
    pub description: String,
    pub priority: Priority,
}

/// The changes, the ordered code actions, and the migration notes.
#[derive(Debug)]
pub struct RefactoringPlan {
    pub model_changes: Vec<ModelChange>,
    pub code_actions: Vec<CodeAction>,
    pub migration_notes: Vec<String>,
}

pub ghost struct ActionView {
    pub action: ActionKind,
    pub file_path: Seq<char>,
    pub description: Seq<char>,
    pub priority: Priority,
}

pub ghost struct PlanView {
    pub model_changes: Seq<ChangeView>,
    pub code_actions: Seq<ActionView>,
    pub migration_notes: Seq<Seq<char>>,
}

impl View for CodeAction {
    type V = ActionView;

    open spec fn view(&self) -> ActionView {
        ActionView {
            action: self.action,
            file_path: self.file_path@,
            description: self.description@,
            priority: self.priority,
        }
    }
}

pub open spec fn actions_view(v: Seq<CodeAction>) -> Seq<ActionView> {
    v.map_values(|a: CodeAction| a@)
}

pub open spec fn notes_view(v: Seq<String>) -> Seq<Seq<char>> {
    v.map_values(|s: String| s@)
}

impl View for RefactoringPlan {
    type V = PlanView;

    open spec fn view(&self) -> PlanView {
        PlanView {
            model_changes: changes_view(self.model_changes@),
            code_actions: actions_view(self.code_actions@),
            migration_notes: notes_view(self.migration_notes@),
        }
    }
}

impl Clone for CodeAction {
    fn clone(&self) -> (r: Self)
        ensures
            r@ == self@,
    {
        CodeAction {
            action: self.action,
            file_path: self.file_path.clone(),
            description: self.description.clone(),
            priority: self.priority,
        }
    }
}

/// Position of a priority in the order Critical < High < Medium < Low.
pub open spec fn rank(p: Priority) -> int {
    match p {
        Priority::Critical => 0,
        Priority::High => 1,
        Priority::Medium => 2,
        Priority::Low => 3,
    }
}

// ─── Classification ────────────────────────────────────────────────────────

pub open spec fn act(action: ActionKind, file_path: Seq<char>, description: Seq<char>, priority: Priority) -> ActionView {
    ActionView { action, file_path, description, priority }
}

/// A snapshot read as a string, where it is one.
pub open spec fn as_text(s: Option<SnapshotView>) -> Option<Seq<char>> {
    match s {
        Some(SnapshotView::Text(t)) => Some(t),
        Some(SnapshotView::Kind(k)) => Some(kind_label(k)),
        _ => None,
    }
}

pub open spec fn text_or(s: Option<SnapshotView>, fallback: Seq<char>) -> Seq<char> {
    match as_text(s) {
        Some(t) => t,
        None => fallback,
    }
}

pub open spec fn layer_step(ctx: Seq<char>) -> spec_fn(String) -> Seq<ActionView> {
    |layer: String|
        seq![
            act(
                ActionKind::CreateFile,
                "src/"@ + snake_case(ctx) + "/"@ + layer@ + "/mod.rs"@,
                "Create "@ + layer@ + " layer module for context '"@ + ctx + "'"@,
                Priority::High,
            ),
        ]
}

/// The code actions one change calls for; shapes not in the table give none.
pub open spec fn actions_for(c: ChangeView, conv: Conventions) -> Seq<ActionView> {
    let pattern = conv.file_structure.pattern@;
    let ctx = c.target.context;
    let owner = c.target.owner;
    let name = c.target.name;
    match (c.kind, c.target.area) {
        (ChangeKind::Added, Area::Context) => flat_map(
            conv.file_structure.layers@,
            layer_step(name),
        ),
        (ChangeKind::Added, Area::Entity) => seq![
            act(
                ActionKind::CreateFile,
                resolved_path(pattern, ctx, "domain"@, name),
                "Create entity '"@ + name + "'"@,
                Priority::High,
            ),
            act(
                ActionKind::AddTest,
                resolved_path(pattern, ctx, "domain"@, name),
                "Add unit tests for entity '"@ + name + "'"@,
                Priority::Medium,
            ),
        ],
        (ChangeKind::Added, Area::Field) => seq![
            act(
                ActionKind::ModifyFile,
                resolved_path(pattern, ctx, "domain"@, owner),
                "Add field '"@ + name + "' to entity '"@ + owner + "'"@,
                Priority::High,
            ),
        ],
        (ChangeKind::Added, Area::Service) => seq![
            act(
                ActionKind::CreateFile,
                resolved_path(pattern, ctx, "application"@, name),
                "Create service '"@ + name + "'"@,
                Priority::High,
            ),
        ],
        (ChangeKind::Added, Area::Event) => seq![
            act(
                ActionKind::CreateFile,
                resolved_path(pattern, ctx, "domain"@, name),
                "Create domain event '"@ + name + "'"@,
                Priority::Medium,
            ),
        ],
        (ChangeKind::Added, Area::Invariant) => seq![
            act(
                ActionKind::AddTest,
                resolved_path(pattern, ctx, "domain"@, owner),
                "Add test for new invariant on '"@ + owner + "'"@,
                Priority::Medium,
            ),
        ],
        (ChangeKind::Added, Area::Dependency) => seq![
            act(
                ActionKind::UpdateImports,
                "src/"@ + snake_case(ctx) + "/mod.rs"@,
                "Wire dependency '"@ + ctx + "' → '"@ + name + "'"@,
                Priority::Medium,
            ),
        ],
        (ChangeKind::Removed, Area::Entity) => seq![
            act(
                ActionKind::DeleteFile,
                resolved_path(pattern, ctx, "domain"@, name),
                "Remove entity '"@ + name + "' and all references"@,
                Priority::Critical,
            ),
        ],
        (ChangeKind::Removed, Area::Field) => seq![
            act(
                ActionKind::ModifyFile,
                resolved_path(pattern, ctx, "domain"@, owner),
                "Remove field '"@ + name + "' from entity '"@ + owner + "'"@,
                Priority::High,
            ),
        ],
        (ChangeKind::Modified, Area::Field) => seq![
            act(
                ActionKind::ModifyFile,
                resolved_path(pattern, ctx, "domain"@, owner),
                "Update field type for '"@ + name + "' on '"@ + owner + "'"@,
                Priority::Critical,
            ),
        ],
        (ChangeKind::Moved, Area::ModuleLocation) => if c.before is Some && c.after is Some {
            seq![
                act(
                    ActionKind::MoveFile,
                    text_or(c.before, Seq::empty()),
                    "Move module from "@ + text_or(c.before, "?"@) + " to "@ + text_or(
                        c.after,
                        "?"@,
                    ),
                    Priority::Critical,
                ),
            ]
        } else {
            Seq::empty()
        },
        _ => Seq::empty(),
    }
}

/// The migration notes one change calls for.
pub open spec fn notes_for(c: ChangeView) -> Seq<Seq<char>> {
    let owner = c.target.owner;
    let name = c.target.name;
    match (c.kind, c.target.area) {
        (ChangeKind::Added, Area::Entity) => seq![
            "New entity '"@ + name + "' — may need database migration"@,
        ],
        (ChangeKind::Added, Area::Field) => seq![
            "New field '"@ + name + "' on '"@ + owner + "' — needs ALTER TABLE migration"@,
        ],
        (ChangeKind::Removed, Area::Entity) => seq![
            "Removed entity '"@ + name + "' — needs DROP TABLE migration"@,
        ],
        (ChangeKind::Removed, Area::Field) => seq![
            "Removed field '"@ + name + "' from '"@ + owner + "' — needs ALTER TABLE migration"@,
        ],
        (ChangeKind::Modified, Area::Field) => seq![
            "Field type change on '"@ + owner + "."@ + name + "' — needs data migration"@,
        ],
        _ => Seq::empty(),
    }
}

pub open spec fn action_step(conv: Conventions) -> spec_fn(ChangeView) -> Seq<ActionView> {
    |c: ChangeView| actions_for(c, conv)
}

pub open spec fn note_step() -> spec_fn(ChangeView) -> Seq<Seq<char>> {
    |c: ChangeView| notes_for(c)
}

pub open spec fn keep_step(p: Priority) -> spec_fn(ActionView) -> Seq<ActionView> {
    |a: ActionView|
        if a.priority == p {
            seq![a]
        } else {
            Seq::empty()
        }
}

/// The actions of priority `p`, in the order they have in `s`.
pub open spec fn of_priority(s: Seq<ActionView>, p: Priority) -> Seq<ActionView> {
    flat_map(s, keep_step(p))
}

/// A stable sort by priority.
pub open spec fn by_priority(s: Seq<ActionView>) -> Seq<ActionView> {
    of_priority(s, Priority::Critical) + of_priority(s, Priority::High) + of_priority(
        s,
        Priority::Medium,
    ) + of_priority(s, Priority::Low)
}

/// The plan for a sequence of changes under some conventions.
pub open spec fn plan_of(changes: Seq<ChangeView>, conv: Conventions) -> PlanView {
    PlanView {
        model_changes: changes,
        code_actions: by_priority(flat_map(changes, action_step(conv))),
        migration_notes: flat_map(changes, note_step()),
    }
}

// ─── The planner ───────────────────────────────────────────────────────────

fn push_action(out: &mut Vec<CodeAction>, a: CodeAction)
    ensures
        actions_view(final(out)@) == actions_view(old(out)@) + seq![a@],
{
    out.push(a);
    assert(actions_view(out@) =~= actions_view(old(out)@) + seq![a@]);
}

fn push_note(out: &mut Vec<String>, n: String)
    ensures
        notes_view(final(out)@) == notes_view(old(out)@) + seq![n@],
{
    out.push(n);
    assert(notes_view(out@) =~= notes_view(old(out)@) + seq![n@]);
}

fn snapshot_text(s: &Option<Snapshot>, fallback: &str) -> (r: String)
    ensures
        r@ == text_or(crate::change::snapshot_view(*s), fallback@),
{
    match s {
        Some(Snapshot::Text(t)) => t.clone(),
        Some(Snapshot::Kind(k)) => String::from_str(crate::change::kind_text(*k)),
        _ => String::from_str(fallback),
    }
}

fn action(kind: ActionKind, file_path: String, description: String, priority: Priority) -> (r: CodeAction)
    ensures
        r@ == act(kind, file_path@, description@, priority),
{
    CodeAction { action: kind, file_path, description, priority }
}

/// Appends one `CreateFile` per configured layer for a new context.
fn plan_layers(ctx: &str, layers: &Vec<String>, actions: &mut Vec<CodeAction>)
    ensures
        actions_view(final(actions)@) == actions_view(old(actions)@) + flat_map(
            layers@,
            layer_step(ctx@),
        ),
{
    let ghost start = actions_view(actions@);
    let ghost f = layer_step(ctx@);
    let snake = to_snake(ctx);
    let mut i: usize = 0;
    while i < layers.len()
        invariant
            i <= layers@.len(),
            f == layer_step(ctx@),
            snake@ == snake_case(ctx@),
            actions_view(actions@) == start + flat_map(layers@.take(i as int), f),
        decreases layers@.len() - i,
    {
        let layer = layers[i].as_str();
        let path = String::from_str("src/").concat(snake.as_str()).concat("/").concat(layer).concat(
            "/mod.rs",
        );
        let description = String::from_str("Create ").concat(layer).concat(
            " layer module for context '",
        ).concat(ctx).concat("'");
        push_action(actions, action(ActionKind::CreateFile, path, description, Priority::High));
        proof {
            lemma_flat_map_step(layers@, f, i as int);
            assert(start + flat_map(layers@.take(i + 1), f) =~= start + flat_map(layers@.take(i as int), f) + f(layers@[i as int]));
        }
        i = i + 1;
    }
    proof {
        assert(layers@.take(layers@.len() as int) =~= layers@);
    }
}

/// Appends the actions and notes that one change calls for.
fn plan_change(
    c: &ModelChange,
    conventions: &Conventions,
    actions: &mut Vec<CodeAction>,
    notes: &mut Vec<String>,
)
    ensures
        actions_view(final(actions)@) == actions_view(old(actions)@) + actions_for(c@, *conventions),
        notes_view(final(notes)@) == notes_view(old(notes)@) + notes_for(c@),
{
    let pattern = conventions.file_structure.pattern.as_str();
    let ctx = c.target.context.as_str();
    let owner = c.target.owner.as_str();
    let name = c.target.name.as_str();
    match (c.kind, c.target.area) {
        (ChangeKind::Added, Area::Context) => {
            plan_layers(name, &conventions.file_structure.layers, actions);
            assert(notes_view(notes@) =~= notes_view(old(notes)@) + notes_for(c@));
        },
        (ChangeKind::Added, Area::Entity) => {
            let d1 = String::from_str("Create entity '").concat(name).concat("'");
            push_action(actions, action(ActionKind::CreateFile, resolve_path(pattern, ctx, "domain", name), d1, Priority::High));
            let d2 = String::from_str("Add unit tests for entity '").concat(name).concat("'");
            push_action(actions, action(ActionKind::AddTest, resolve_path(pattern, ctx, "domain", name), d2, Priority::Medium));
            push_note(notes, String::from_str("New entity '").concat(name).concat("' — may need database migration"));
            assert(actions_view(actions@) =~= actions_view(old(actions)@) + actions_for(c@, *conventions));
        },
        (ChangeKind::Added, Area::Field) => {
            let d = String::from_str("Add field '").concat(name).concat("' to entity '").concat(owner).concat("'");
            push_action(actions, action(ActionKind::ModifyFile, resolve_path(pattern, ctx, "domain", owner), d, Priority::High));
            push_note(notes, String::from_str("New field '").concat(name).concat("' on '").concat(owner).concat("' — needs ALTER TABLE migration"));
        },
        (ChangeKind::Added, Area::Service) => {
            let d = String::from_str("Create service '").concat(name).concat("'");
            push_action(actions, action(ActionKind::CreateFile, resolve_path(pattern, ctx, "application", name), d, Priority::High));
            assert(notes_view(notes@) =~= notes_view(old(notes)@) + notes_for(c@));
        },
        (ChangeKind::Added, Area::Event) => {
            let d = String::from_str("Create domain event '").concat(name).concat("'");
            push_action(actions, action(ActionKind::CreateFile, resolve_path(pattern, ctx, "domain", name), d, Priority::Medium));
            assert(notes_view(notes@) =~= notes_view(old(notes)@) + notes_for(c@));
        },
        (ChangeKind::Added, Area::Invariant) => {
            let d = String::from_str("Add test for new invariant on '").concat(owner).concat("'");
            push_action(actions, action(ActionKind::AddTest, resolve_path(pattern, ctx, "domain", owner), d, Priority::Medium));
            assert(notes_view(notes@) =~= notes_view(old(notes)@) + notes_for(c@));
        },
        (ChangeKind::Added, Area::Dependency) => {
            let p = String::from_str("src/").concat(to_snake(ctx).as_str()).concat("/mod.rs");
            let d = String::from_str("Wire dependency '").concat(ctx).concat("' → '").concat(name).concat("'");
            push_action(actions, action(ActionKind::UpdateImports, p, d, Priority::Medium));
            assert(notes_view(notes@) =~= notes_view(old(notes)@) + notes_for(c@));
        },
        (ChangeKind::Removed, Area::Entity) => {
            let d = String::from_str("Remove entity '").concat(name).concat("' and all references");
            push_action(actions, action(ActionKind::DeleteFile, resolve_path(pattern, ctx, "domain", name), d, Priority::Critical));
            push_note(notes, String::from_str("Removed entity '").concat(name).concat("' — needs DROP TABLE migration"));
        },
        (ChangeKind::Removed, Area::Field) => {
            let d = String::from_str("Remove field '").concat(name).concat("' from entity '").concat(owner).concat("'");
            push_action(actions, action(ActionKind::ModifyFile, resolve_path(pattern, ctx, "domain", owner), d, Priority::High));
            push_note(notes, String::from_str("Removed field '").concat(name).concat("' from '").concat(owner).concat("' — needs ALTER TABLE migration"));
        },
        (ChangeKind::Modified, Area::Field) => {
            let d = String::from_str("Update field type for '").concat(name).concat("' on '").concat(owner).concat("'");
            push_action(actions, action(ActionKind::ModifyFile, resolve_path(pattern, ctx, "domain", owner), d, Priority::Critical));
            push_note(notes, String::from_str("Field type change on '").concat(owner).concat(".").concat(name).concat("' — needs data migration"));
        },
        (ChangeKind::Moved, Area::ModuleLocation) => {
            if c.before.is_some() && c.after.is_some() {
                let from = snapshot_text(&c.before, "?");
                let to = snapshot_text(&c.after, "?");
                let d = String::from_str("Move module from ").concat(from.as_str()).concat(" to ").concat(to.as_str());
                let empty = String::new();
                let p = snapshot_text(&c.before, empty.as_str());
                push_action(actions, action(ActionKind::MoveFile, p, d, Priority::Critical));
            } else {
                assert(actions_view(actions@) =~= actions_view(old(actions)@) + actions_for(c@, *conventions));
            }
            assert(notes_view(notes@) =~= notes_view(old(notes)@) + notes_for(c@));
        },
        _ => {
            assert(actions_view(actions@) =~= actions_view(old(actions)@) + actions_for(c@, *conventions));
            assert(notes_view(notes@) =~= notes_view(old(notes)@) + notes_for(c@));
        },
    }
}

/// Appends, in order, the actions of `raw` that have priority `p`.
fn push_priority(raw: &Vec<CodeAction>, p: Priority, out: &mut Vec<CodeAction>)
    ensures
        actions_view(final(out)@) == actions_view(old(out)@) + of_priority(actions_view(raw@), p),
{
    let ghost start = actions_view(out@);
    let ghost s = actions_view(raw@);
    let ghost f = keep_step(p);
    let mut i: usize = 0;
    while i < raw.len()
        invariant
            i <= raw@.len(),
            s == actions_view(raw@),
            f == keep_step(p),
            actions_view(out@) == start + flat_map(s.take(i as int), f),
        decreases raw@.len() - i,
    {
        if raw[i].priority == p {
            push_action(out, raw[i].clone());
        }
        proof {
            lemma_flat_map_step(s, f, i as int);
            assert(start + flat_map(s.take(i + 1), f) =~= start + flat_map(s.take(i as int), f) + f(s[i as int]));
        }
        i = i + 1;
    }
    proof {
        assert(s.take(s.len() as int) =~= s);
    }
}

/// Derives the refactoring plan for `changes`: the changes themselves, the
/// code actions stably sorted by priority, and the migration notes in
/// traversal order. Change shapes outside the table contribute nothing.
pub fn plan_refactoring(changes: &[ModelChange], conventions: &Conventions) -> (r: RefactoringPlan)
    ensures
        r@ == plan_of(changes_view(changes@), *conventions),
{
    let ghost cv = changes_view(changes@);
    let ghost fa = action_step(*conventions);
    let ghost fnote = note_step();
    let mut raw: Vec<CodeAction> = Vec::new();
    let mut migration_notes: Vec<String> = Vec::new();
    let mut model_changes: Vec<ModelChange> = Vec::new();
    let mut i: usize = 0;
    proof {
        assert(actions_view(raw@) =~= flat_map(cv.take(0), fa));
        assert(notes_view(migration_notes@) =~= flat_map(cv.take(0), fnote));
    }
    while i < changes.len()
        invariant
            i <= changes@.len(),
            cv == changes_view(changes@),
            fa == action_step(*conventions),
            fnote == note_step(),
            actions_view(raw@) == flat_map(cv.take(i as int), fa),
            notes_view(migration_notes@) == flat_map(cv.take(i as int), fnote),
            changes_view(model_changes@) == cv.take(i as int),
        decreases changes@.len() - i,
    {
        plan_change(&changes[i], conventions, &mut raw, &mut migration_notes);
        model_changes.push(changes[i].clone());
        proof {
            lemma_flat_map_step(cv, fa, i as int);
            lemma_flat_map_step(cv, fnote, i as int);
            assert(changes_view(model_changes@) =~= cv.take(i + 1));
        }
        i = i + 1;
    }
    proof {
        assert(cv.take(cv.len() as int) =~= cv);
    }
    let mut code_actions: Vec<CodeAction> = Vec::new();
    proof {
        assert(actions_view(code_actions@) =~= Seq::empty());
    }
    push_priority(&raw, Priority::Critical, &mut code_actions);
    push_priority(&raw, Priority::High, &mut code_actions);
    push_priority(&raw, Priority::Medium, &mut code_actions);
    push_priority(&raw, Priority::Low, &mut code_actions);
    proof {
        assert(actions_view(code_actions@) =~= by_priority(actions_view(raw@)));
    }
    RefactoringPlan { model_changes, code_actions, migration_notes }
}

} // verus!
