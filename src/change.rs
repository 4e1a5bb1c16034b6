//! A change between two model snapshots: what kind of change, which artifact
//! it concerns, the dotted logical path of that artifact, a human-readable
//! description, and optional snapshots of the artifact before and after.
use vstd::prelude::*;
use crate::model::{
    ArchitecturalRule, DomainEvent, DomainEventView, Entity, EntityView, Field, FieldView, Method,
    MethodView, Repository, RepositoryView, RuleView, Service, ServiceKind, ServiceView, ValueObject,
    ValueObjectView,
};

verus! {

#[derive(Debug, Clone, Copy, PartialEq, Eq, Structural)]
pub enum ChangeKind {
    Added,
    Removed,
    Modified,
    Moved,
}

/// Which part of the model a change concerns.
#[derive(Debug, Clone, Copy, PartialEq, Eq, Structural)]
pub enum Area {
    /// A bounded context as a whole.
    Context,
    /// The module path of a context.
    ModuleLocation,
    Entity,
    /// The aggregate-root flag of an entity.
    AggregateRoot,
    /// A field of an entity.
    Field,
    /// The invariants of an entity.
    Invariant,
    Service,
    /// The kind (layer) of a service.
    ServiceLayer,
    ServiceMethod,
    ServiceDependency,
    Event,
    ValueObject,
    Repository,
    /// A dependency of a context on another context.
    Dependency,
    Rule,
}

/// The artifact a change concerns. `context` is the bounded context it lives
/// in (empty for contexts and rules), `owner` the entity or service that holds
/// it (empty where there is none), `name` its own name (the context's name,
/// the rule's id, the invariant's text; empty for a flag or a kind).
#[derive(Debug)]
pub struct ChangeTarget {
    pub area: Area,
    pub context: String,
    pub owner: String,
    pub name: String,
}

/// The state of an artifact on one side of a change.
#[derive(Debug)]
pub enum Snapshot {
    Text(String),
    Flag(bool),
    Kind(ServiceKind),
    /// A context that was added: its name and module path.
    NewContext { name: String, module: String },
    /// A context that was removed: its name.
    ContextName(String),
    Entity(Entity),
    Field(Field),
    Method(Method),
    Service(Service),
    Event(DomainEvent),
    ValueObject(ValueObject),
    Repository(Repository),
    Rule(ArchitecturalRule),
}

/// One atomic difference between two models.
#[derive(Debug)]
pub struct ModelChange {
    pub kind: ChangeKind,
    pub target: ChangeTarget,
    pub path: String,
    pub description: String,
    pub before: Option<Snapshot>,
    pub after: Option<Snapshot>,
}

pub ghost struct TargetView {
    pub area: Area,
    pub context: Seq<char>,
    pub owner: Seq<char>,
    pub name: Seq<char>,
}

pub ghost enum SnapshotView {
    Text(Seq<char>),
    Flag(bool),
    Kind(ServiceKind),
    NewContext { name: Seq<char>, module: Seq<char> },
    ContextName(Seq<char>),
    Entity(EntityView),
    Field(FieldView),
    Method(MethodView),
    Service(ServiceView),
    Event(DomainEventView),
    ValueObject(ValueObjectView),
    Repository(RepositoryView),
    Rule(RuleView),
}

pub ghost struct ChangeView {
    pub kind: ChangeKind,
    pub target: TargetView,
    pub path: Seq<char>,
    pub description: Seq<char>,
    pub before: Option<SnapshotView>,
    pub after: Option<SnapshotView>,
}

impl View for ChangeTarget {
    type V = TargetView;

    open spec fn view(&self) -> TargetView {
        TargetView {
            area: self.area,
            context: self.context@,
            owner: self.owner@,
            name: self.name@,
        }
    }
}

impl View for Snapshot {
    type V = SnapshotView;

    open spec fn view(&self) -> SnapshotView {
        match self {
            Snapshot::Text(t) => SnapshotView::Text(t@),
            Snapshot::Flag(b) => SnapshotView::Flag(*b),
            Snapshot::Kind(k) => SnapshotView::Kind(*k),
            Snapshot::NewContext { name, module } => SnapshotView::NewContext {
                name: name@,
                module: module@,
            },
            Snapshot::ContextName(n) => SnapshotView::ContextName(n@),
            Snapshot::Entity(e) => SnapshotView::Entity(e@),
            Snapshot::Field(f) => SnapshotView::Field(f@),
            Snapshot::Method(m) => SnapshotView::Method(m@),
            Snapshot::Service(s) => SnapshotView::Service(s@),
            Snapshot::Event(e) => SnapshotView::Event(e@),
            Snapshot::ValueObject(v) => SnapshotView::ValueObject(v@),
            Snapshot::Repository(r) => SnapshotView::Repository(r@),
            Snapshot::Rule(r) => SnapshotView::Rule(r@),
        }
    }
}

pub open spec fn snapshot_view(o: Option<Snapshot>) -> Option<SnapshotView> {
    match o {
        Some(s) => Some(s@),
        None => None,
    }
}

impl View for ModelChange {
    type V = ChangeView;

    open spec fn view(&self) -> ChangeView {
        ChangeView {
            kind: self.kind,
            target: self.target@,
            path: self.path@,
            description: self.description@,
            before: snapshot_view(self.before),
            after: snapshot_view(self.after),
        }
    }
}

pub open spec fn changes_view(v: Seq<ModelChange>) -> Seq<ChangeView> {
    v.map_values(|c: ModelChange| c@)
}

// ─── Paths and descriptions ────────────────────────────────────────────────

/// The dotted logical path of an artifact, e.g. `Identity.entities.User`.
pub open spec fn path_of(t: TargetView) -> Seq<char> {
    match t.area {
        Area::Context => "bounded_contexts."@ + t.name,
        Area::ModuleLocation => t.context + ".module_path"@,
        Area::Entity => t.context + ".entities."@ + t.name,
        Area::AggregateRoot => t.context + "."@ + t.owner + ".aggregate_root"@,
        Area::Field => t.context + "."@ + t.owner + ".fields."@ + t.name,
        Area::Invariant => t.context + "."@ + t.owner + ".invariants"@,
        Area::Service => t.context + ".services."@ + t.name,
        Area::ServiceLayer => t.context + ".services."@ + t.owner + ".kind"@,
        Area::ServiceMethod => t.context + ".services."@ + t.owner + ".methods."@ + t.name,
        Area::ServiceDependency => t.context + ".services."@ + t.owner + ".dependencies."@
            + t.name,
        Area::Event => t.context + ".events."@ + t.name,
        Area::ValueObject => t.context + ".value_objects."@ + t.name,
        Area::Repository => t.context + ".repositories."@ + t.name,
        Area::Dependency => t.context + ".dependencies."@ + t.name,
        Area::Rule => "rules."@ + t.name,
    }
}

pub open spec fn kind_label(k: ServiceKind) -> Seq<char> {
    match k {
        ServiceKind::Domain => "Domain"@,
        ServiceKind::Application => "Application"@,
        ServiceKind::Infrastructure => "Infrastructure"@,
    }
}

/// The detail of a snapshot that a description quotes: a text itself, a flag
/// as `true`/`false`, a service kind's name, a field's type, a rule's
/// description; nothing for the others.
pub open spec fn quoted(s: Option<SnapshotView>) -> Seq<char> {
    match s {
        Some(SnapshotView::Text(t)) => t,
        Some(SnapshotView::Flag(b)) => if b {
            "true"@
        } else {
            "false"@
        },
        Some(SnapshotView::Kind(k)) => kind_label(k),
        Some(SnapshotView::Field(f)) => f.field_type,
        Some(SnapshotView::Rule(r)) => r.description,
        _ => Seq::empty(),
    }
}

/// The human-readable description of a change; a combination that the differ
/// never emits is described by its path.
pub open spec fn description_of(
    kind: ChangeKind,
    t: TargetView,
    before: Option<SnapshotView>,
    after: Option<SnapshotView>,
) -> Seq<char> {
    match (kind, t.area) {
        (ChangeKind::Added, Area::Context) => "New bounded context: "@ + t.name,
        (ChangeKind::Removed, Area::Context) => "Removed bounded context: "@ + t.name,
        (ChangeKind::Moved, Area::ModuleLocation) => "Context '"@ + t.context + "' moved: "@
            + quoted(before) + " → "@ + quoted(after),
        (ChangeKind::Added, Area::Entity) => "New entity '"@ + t.name + "' in context '"@
            + t.context + "'"@,
        (ChangeKind::Removed, Area::Entity) => "Removed entity '"@ + t.name
            + "' from context '"@ + t.context + "'"@,
        (ChangeKind::Added, Area::Service) => "New service '"@ + t.name + "' in context '"@
            + t.context + "'"@,
        (ChangeKind::Removed, Area::Service) => "Removed service '"@ + t.name
            + "' from context '"@ + t.context + "'"@,
        (ChangeKind::Added, Area::Event) => "New event '"@ + t.name + "' in context '"@
            + t.context + "'"@,
        (ChangeKind::Removed, Area::Event) => "Removed event '"@ + t.name + "' from context '"@
            + t.context + "'"@,
        (ChangeKind::Added, Area::ValueObject) => "New value object '"@ + t.name
            + "' in context '"@ + t.context + "'"@,
        (ChangeKind::Removed, Area::ValueObject) => "Removed value object '"@ + t.name
            + "' from context '"@ + t.context + "'"@,
        (ChangeKind::Added, Area::Repository) => "New repository '"@ + t.name
            + "' in context '"@ + t.context + "'"@,
        (ChangeKind::Removed, Area::Repository) => "Removed repository '"@ + t.name
            + "' from context '"@ + t.context + "'"@,
        (ChangeKind::Added, Area::Dependency) => "New dependency: "@ + t.context + " → "@
            + t.name,
        (ChangeKind::Removed, Area::Dependency) => "Removed dependency: "@ + t.context
            + " → "@ + t.name,
        (ChangeKind::Modified, Area::AggregateRoot) => "'"@ + t.owner + "' aggregate root: "@
            + quoted(before) + " → "@ + quoted(after),
        (ChangeKind::Added, Area::Field) => "New field '"@ + t.name + ": "@ + quoted(after)
            + "' on entity '"@ + t.owner + "'"@,
        (ChangeKind::Removed, Area::Field) => "Removed field '"@ + t.name + "' from entity '"@
            + t.owner + "'"@,
        (ChangeKind::Modified, Area::Field) => "Field '"@ + t.name + "' on '"@ + t.owner
            + "' type changed: "@ + quoted(before) + " → "@ + quoted(after),
        (ChangeKind::Added, Area::Invariant) => "New invariant on '"@ + t.owner + "': "@
            + t.name,
        (ChangeKind::Modified, Area::ServiceLayer) => "Service '"@ + t.owner
            + "' kind changed: "@ + quoted(before) + " → "@ + quoted(after),
        (ChangeKind::Added, Area::ServiceMethod) => "New method '"@ + t.name
            + "' on service '"@ + t.owner + "'"@,
        (ChangeKind::Removed, Area::ServiceMethod) => "Removed method '"@ + t.name
            + "' from service '"@ + t.owner + "'"@,
        (ChangeKind::Added, Area::ServiceDependency) => "New dependency on service '"@
            + t.owner + "': "@ + t.name,
        (ChangeKind::Removed, Area::ServiceDependency) => "Removed dependency on service '"@
            + t.owner + "': "@ + t.name,
        (ChangeKind::Added, Area::Rule) => "New rule: "@ + t.name + " — "@ + quoted(after),
        (ChangeKind::Removed, Area::Rule) => "Removed rule: "@ + t.name,
        (ChangeKind::Modified, Area::Rule) => "Modified rule: "@ + t.name,
        _ => path_of(t),
    }
}

/// The change record that `ModelChange::new` builds.
pub open spec fn change_of(
    kind: ChangeKind,
    t: TargetView,
    before: Option<SnapshotView>,
    after: Option<SnapshotView>,
) -> ChangeView {
    ChangeView {
        kind,
        target: t,
        path: path_of(t),
        description: description_of(kind, t, before, after),
        before,
        after,
    }
}

pub(crate) fn kind_text(k: ServiceKind) -> (r: &'static str)
    ensures
        r@ == kind_label(k),
{
    match k {
        ServiceKind::Domain => "Domain",
        ServiceKind::Application => "Application",
        ServiceKind::Infrastructure => "Infrastructure",
    }
}

fn quote(s: &Option<Snapshot>) -> (r: String)
    ensures
        r@ == quoted(snapshot_view(*s)),
{
    match s {
        Some(Snapshot::Text(t)) => t.clone(),
        Some(Snapshot::Flag(b)) => if *b {
            String::from_str("true")
        } else {
            String::from_str("false")
        },
        Some(Snapshot::Kind(k)) => String::from_str(kind_text(*k)),
        Some(Snapshot::Field(f)) => f.field_type.clone(),
        Some(Snapshot::Rule(r)) => r.description.clone(),
        _ => String::new(),
    }
}

impl ChangeTarget {
    pub fn new(area: Area, context: &str, owner: &str, name: &str) -> (r: ChangeTarget)
        ensures
            r@ == (TargetView { area, context: context@, owner: owner@, name: name@ }),
    {
        ChangeTarget {
            area,
            context: String::from_str(context),
            owner: String::from_str(owner),
            name: String::from_str(name),
        }
    }

    /// Renders the dotted logical path of the target.
    pub fn path(&self) -> (r: String)
        ensures
            r@ == path_of(self@),
    {
        let c = self.context.as_str();
        let o = self.owner.as_str();
        let n = self.name.as_str();
        match self.area {
            Area::Context => String::from_str("bounded_contexts.").concat(n),
            Area::ModuleLocation => String::from_str(c).concat(".module_path"),
            Area::Entity => String::from_str(c).concat(".entities.").concat(n),
            Area::AggregateRoot => String::from_str(c).concat(".").concat(o).concat(
                ".aggregate_root",
            ),
            Area::Field => String::from_str(c).concat(".").concat(o).concat(".fields.").concat(n),
            Area::Invariant => String::from_str(c).concat(".").concat(o).concat(".invariants"),
            Area::Service => String::from_str(c).concat(".services.").concat(n),
            Area::ServiceLayer => String::from_str(c).concat(".services.").concat(o).concat(
                ".kind",
            ),
            Area::ServiceMethod => String::from_str(c).concat(".services.").concat(o).concat(
                ".methods.",
            ).concat(n),
            Area::ServiceDependency => String::from_str(c).concat(".services.").concat(
                o,
            ).concat(".dependencies.").concat(n),
            Area::Event => String::from_str(c).concat(".events.").concat(n),
            Area::ValueObject => String::from_str(c).concat(".value_objects.").concat(n),
            Area::Repository => String::from_str(c).concat(".repositories.").concat(n),
            Area::Dependency => String::from_str(c).concat(".dependencies.").concat(n),
            Area::Rule => String::from_str("rules.").concat(n),
        }
    }
}

impl Clone for ChangeTarget {
    fn clone(&self) -> (r: Self)
        ensures
            r@ == self@,
    {
        ChangeTarget {
            area: self.area,
            context: self.context.clone(),
            owner: self.owner.clone(),
            name: self.name.clone(),
        }
    }
}

impl Clone for Snapshot {
    fn clone(&self) -> (r: Self)
        ensures
            r@ == self@,
    {
        match self {
            Snapshot::Text(t) => Snapshot::Text(t.clone()),
            Snapshot::Flag(b) => Snapshot::Flag(*b),
            Snapshot::Kind(k) => Snapshot::Kind(*k),
            Snapshot::NewContext { name, module } => Snapshot::NewContext {
                name: name.clone(),
                module: module.clone(),
            },
            Snapshot::ContextName(n) => Snapshot::ContextName(n.clone()),
            Snapshot::Entity(e) => Snapshot::Entity(e.clone()),
            Snapshot::Field(f) => Snapshot::Field(f.clone()),
            Snapshot::Method(m) => Snapshot::Method(m.clone()),
            Snapshot::Service(s) => Snapshot::Service(s.clone()),
            Snapshot::Event(e) => Snapshot::Event(e.clone()),
            Snapshot::ValueObject(v) => Snapshot::ValueObject(v.clone()),
            Snapshot::Repository(r) => Snapshot::Repository(r.clone()),
            Snapshot::Rule(r) => Snapshot::Rule(r.clone()),
        }
    }
}

fn copy_snapshot(s: &Option<Snapshot>) -> (r: Option<Snapshot>)
    ensures
        snapshot_view(r) == snapshot_view(*s),
{
    match s {
        Some(x) => Some(x.clone()),
        None => None,
    }
}

impl Clone for ModelChange {
    fn clone(&self) -> (r: Self)
        ensures
            r@ == self@,
    {
        ModelChange {
            kind: self.kind,
            target: self.target.clone(),
            path: self.path.clone(),
            description: self.description.clone(),
            before: copy_snapshot(&self.before),
            after: copy_snapshot(&self.after),
        }
    }
}

/// Builds the description of a change from its kind, target and snapshots.
pub fn describe(
    kind: ChangeKind,
    t: &ChangeTarget,
    before: &Option<Snapshot>,
    after: &Option<Snapshot>,
) -> (r: String)
    ensures
        r@ == description_of(kind, t@, snapshot_view(*before), snapshot_view(*after)),
{
    let c = t.context.as_str();
    let o = t.owner.as_str();
    let n = t.name.as_str();
    match (kind, t.area) {
        (ChangeKind::Added, Area::Context) => String::from_str("New bounded context: ").concat(n),
        (ChangeKind::Removed, Area::Context) => String::from_str(
            "Removed bounded context: ",
        ).concat(n),
        (ChangeKind::Moved, Area::ModuleLocation) => {
            let b = quote(before);
            let a = quote(after);
            String::from_str("Context '").concat(c).concat("' moved: ").concat(
                b.as_str(),
            ).concat(" → ").concat(a.as_str())
        },
        (ChangeKind::Added, Area::Entity) => String::from_str("New entity '").concat(n).concat(
            "' in context '",
        ).concat(c).concat("'"),
        (ChangeKind::Removed, Area::Entity) => String::from_str("Removed entity '").concat(
            n,
        ).concat("' from context '").concat(c).concat("'"),
        (ChangeKind::Added, Area::Service) => String::from_str("New service '").concat(
            n,
        ).concat("' in context '").concat(c).concat("'"),
        (ChangeKind::Removed, Area::Service) => String::from_str("Removed service '").concat(
            n,
        ).concat("' from context '").concat(c).concat("'"),
        (ChangeKind::Added, Area::Event) => String::from_str("New event '").concat(n).concat(
            "' in context '",
        ).concat(c).concat("'"),
        (ChangeKind::Removed, Area::Event) => String::from_str("Removed event '").concat(
            n,
        ).concat("' from context '").concat(c).concat("'"),
        (ChangeKind::Added, Area::ValueObject) => String::from_str("New value object '").concat(
            n,
        ).concat("' in context '").concat(c).concat("'"),
        (ChangeKind::Removed, Area::ValueObject) => String::from_str(
            "Removed value object '",
        ).concat(n).concat("' from context '").concat(c).concat("'"),
        (ChangeKind::Added, Area::Repository) => String::from_str("New repository '").concat(
            n,
        ).concat("' in context '").concat(c).concat("'"),
        (ChangeKind::Removed, Area::Repository) => String::from_str(
            "Removed repository '",
        ).concat(n).concat("' from context '").concat(c).concat("'"),
        (ChangeKind::Added, Area::Dependency) => String::from_str("New dependency: ").concat(
            c,
        ).concat(" → ").concat(n),
        (ChangeKind::Removed, Area::Dependency) => String::from_str(
            "Removed dependency: ",
        ).concat(c).concat(" → ").concat(n),
        (ChangeKind::Modified, Area::AggregateRoot) => {
            let b = quote(before);
            let a = quote(after);
            String::from_str("'").concat(o).concat("' aggregate root: ").concat(
                b.as_str(),
            ).concat(" → ").concat(a.as_str())
        },
        (ChangeKind::Added, Area::Field) => {
            let a = quote(after);
            String::from_str("New field '").concat(n).concat(": ").concat(a.as_str()).concat(
                "' on entity '",
            ).concat(o).concat("'")
        },
        (ChangeKind::Removed, Area::Field) => String::from_str("Removed field '").concat(
            n,
        ).concat("' from entity '").concat(o).concat("'"),
        (ChangeKind::Modified, Area::Field) => {
            let b = quote(before);
            let a = quote(after);
            String::from_str("Field '").concat(n).concat("' on '").concat(o).concat(
                "' type changed: ",
            ).concat(b.as_str()).concat(" → ").concat(a.as_str())
        },
        (ChangeKind::Added, Area::Invariant) => String::from_str("New invariant on '").concat(
            o,
        ).concat("': ").concat(n),
        (ChangeKind::Modified, Area::ServiceLayer) => {
            let b = quote(before);
            let a = quote(after);
            String::from_str("Service '").concat(o).concat("' kind changed: ").concat(
                b.as_str(),
            ).concat(" → ").concat(a.as_str())
        },
        (ChangeKind::Added, Area::ServiceMethod) => String::from_str("New method '").concat(
            n,
        ).concat("' on service '").concat(o).concat("'"),
        (ChangeKind::Removed, Area::ServiceMethod) => String::from_str(
            "Removed method '",
        ).concat(n).concat("' from service '").concat(o).concat("'"),
        (ChangeKind::Added, Area::ServiceDependency) => String::from_str(
            "New dependency on service '",
        ).concat(o).concat("': ").concat(n),
        (ChangeKind::Removed, Area::ServiceDependency) => String::from_str(
            "Removed dependency on service '",
        ).concat(o).concat("': ").concat(n),
        (ChangeKind::Added, Area::Rule) => {
            let a = quote(after);
            String::from_str("New rule: ").concat(n).concat(" — ").concat(a.as_str())
        },
        (ChangeKind::Removed, Area::Rule) => String::from_str("Removed rule: ").concat(n),
        (ChangeKind::Modified, Area::Rule) => String::from_str("Modified rule: ").concat(n),
        _ => t.path(),
    }
}

impl ModelChange {
    /// A change record whose path and description are derived from its
    /// kind, target and snapshots.
    pub fn new(
        kind: ChangeKind,
        target: ChangeTarget,
        before: Option<Snapshot>,
        after: Option<Snapshot>,
    ) -> (r: ModelChange)
        ensures
            r@ == change_of(kind, target@, snapshot_view(before), snapshot_view(after)),
    {
        let path = target.path();
        let description = describe(kind, &target, &before, &after);
        ModelChange { kind, target, path, description, before, after }
    }
}

} // verus!
