//! The structural differ: compares two models context by context and
//! artifact by artifact, matching by name up to ASCII case (rule ids and
//! invariants exactly), and emits the changes in traversal order.
use vstd::prelude::*;
use crate::change::{
    change_of, changes_view, Area, ChangeKind, ChangeView, ModelChange, Snapshot, SnapshotView,
    TargetView, ChangeTarget,
};
use crate::model::{
    ArchitecturalRule, BoundedContext, DomainEvent, DomainModel, Entity, Field, Method,
    Repository, Service, ValueObject,
};
use crate::names::{is_blank, names_match, same_name};
use crate::seqs::{flat_map, lemma_flat_map_step};

verus! {

/// An artifact that the differ identifies by a key and records in snapshots.
pub trait Artifact: Sized {
    spec fn key(&self) -> Seq<char>;

    spec fn snap(&self) -> SnapshotView;

    fn key_string(&self) -> (r: &String)
        ensures
            r@ == self.key(),
    ;

    fn snapshot(&self) -> (r: Snapshot)
        ensures
            r@ == self.snap(),
    ;
}

impl Artifact for Entity {
    open spec fn key(&self) -> Seq<char> {
        self.name@
    }

    open spec fn snap(&self) -> SnapshotView {
        SnapshotView::Entity(self@)
    }

    fn key_string(&self) -> (r: &String) {
        &self.name
    }

    fn snapshot(&self) -> (r: Snapshot) {
        Snapshot::Entity(self.clone())
    }
}

impl Artifact for Field {
    open spec fn key(&self) -> Seq<char> {
        self.name@
    }

    open spec fn snap(&self) -> SnapshotView {
        SnapshotView::Field(self@)
    }

    fn key_string(&self) -> (r: &String) {
        &self.name
    }

    fn snapshot(&self) -> (r: Snapshot) {
        Snapshot::Field(self.clone())
    }
}

impl Artifact for Method {
    open spec fn key(&self) -> Seq<char> {
        self.name@
    }

    open spec fn snap(&self) -> SnapshotView {
        SnapshotView::Method(self@)
    }

    fn key_string(&self) -> (r: &String) {
        &self.name
    }

    fn snapshot(&self) -> (r: Snapshot) {
        Snapshot::Method(self.clone())
    }
}

impl Artifact for Service {
    open spec fn key(&self) -> Seq<char> {
        self.name@
    }

    open spec fn snap(&self) -> SnapshotView {
        SnapshotView::Service(self@)
    }

    fn key_string(&self) -> (r: &String) {
        &self.name
    }

    fn snapshot(&self) -> (r: Snapshot) {
        Snapshot::Service(self.clone())
    }
}

impl Artifact for DomainEvent {
    open spec fn key(&self) -> Seq<char> {
        self.name@
    }

    open spec fn snap(&self) -> SnapshotView {
        SnapshotView::Event(self@)
    }

    fn key_string(&self) -> (r: &String) {
        &self.name
    }

    fn snapshot(&self) -> (r: Snapshot) {
        Snapshot::Event(self.clone())
    }
}

impl Artifact for ValueObject {
    open spec fn key(&self) -> Seq<char> {
        self.name@
    }

    open spec fn snap(&self) -> SnapshotView {
        SnapshotView::ValueObject(self@)
    }

    fn key_string(&self) -> (r: &String) {
        &self.name
    }

    fn snapshot(&self) -> (r: Snapshot) {
        Snapshot::ValueObject(self.clone())
    }
}

impl Artifact for Repository {
    open spec fn key(&self) -> Seq<char> {
        self.name@
    }

    open spec fn snap(&self) -> SnapshotView {
        SnapshotView::Repository(self@)
    }

    fn key_string(&self) -> (r: &String) {
        &self.name
    }

    fn snapshot(&self) -> (r: Snapshot) {
        Snapshot::Repository(self.clone())
    }
}

impl Artifact for ArchitecturalRule {
    open spec fn key(&self) -> Seq<char> {
        self.id@
    }

    open spec fn snap(&self) -> SnapshotView {
        SnapshotView::Rule(self@)
    }

    fn key_string(&self) -> (r: &String) {
        &self.id
    }

    fn snapshot(&self) -> (r: Snapshot) {
        Snapshot::Rule(self.clone())
    }
}

/// A removed context is recorded by its name alone.
impl Artifact for BoundedContext {
    open spec fn key(&self) -> Seq<char> {
        self.name@
    }

    open spec fn snap(&self) -> SnapshotView {
        SnapshotView::ContextName(self.name@)
    }

    fn key_string(&self) -> (r: &String) {
        &self.name
    }

    fn snapshot(&self) -> (r: Snapshot) {
        Snapshot::ContextName(self.name.clone())
    }
}

/// Dependencies and invariants are plain strings.
impl Artifact for String {
    open spec fn key(&self) -> Seq<char> {
        self@
    }

    open spec fn snap(&self) -> SnapshotView {
        SnapshotView::Text(self@)
    }

    fn key_string(&self) -> (r: &String) {
        self
    }

    fn snapshot(&self) -> (r: Snapshot) {
        Snapshot::Text(self.clone())
    }
}

// ─── Matching by key ───────────────────────────────────────────────────────

/// Two keys denote the same artifact: exactly equal, or equal up to ASCII case.
pub open spec fn keys_match(exact: bool, a: Seq<char>, b: Seq<char>) -> bool {
    if exact {
        a == b
    } else {
        same_name(a, b)
    }
}

pub open spec fn has_key<T: Artifact>(s: Seq<T>, k: Seq<char>, exact: bool) -> bool {
    exists|i: int| 0 <= i < s.len() && keys_match(exact, #[trigger] s[i].key(), k)
}

/// The first of the first `n` items whose key matches `k`.
pub open spec fn first_key_upto<T: Artifact>(s: Seq<T>, k: Seq<char>, exact: bool, n: int) -> Option<
    int,
>
    decreases n,
{
    if n <= 0 {
        None
    } else {
        match first_key_upto(s, k, exact, n - 1) {
            Some(i) => Some(i),
            None => if keys_match(exact, s[n - 1].key(), k) {
                Some(n - 1)
            } else {
                None
            },
        }
    }
}

/// The first item of `s` whose key matches `k`.
pub open spec fn first_key<T: Artifact>(s: Seq<T>, k: Seq<char>, exact: bool) -> Option<int> {
    first_key_upto(s, k, exact, s.len() as int)
}

pub proof fn lemma_first_key_stays<T: Artifact>(
    s: Seq<T>,
    k: Seq<char>,
    exact: bool,
    n: int,
    m: int,
)
    requires
        n <= m,
        first_key_upto(s, k, exact, n) is Some,
    ensures
        first_key_upto(s, k, exact, m) == first_key_upto(s, k, exact, n),
    decreases m - n,
{
    if n < m {
        lemma_first_key_stays(s, k, exact, n, m - 1);
    }
}

fn keys_equal(exact: bool, a: &String, b: &String) -> (r: bool)
    ensures
        r == keys_match(exact, a@, b@),
{
    if exact {
        *a == *b
    } else {
        names_match(a.as_str(), b.as_str())
    }
}

/// Index of the first item whose key matches `key`.
pub fn position<T: Artifact>(items: &Vec<T>, key: &String, exact: bool) -> (r: Option<usize>)
    ensures
        match r {
            Some(i) => i < items@.len() && first_key(items@, key@, exact) == Some(i as int),
            None => first_key(items@, key@, exact) is None,
        },
{
    let mut i: usize = 0;
    while i < items.len()
        invariant
            i <= items@.len(),
            first_key_upto(items@, key@, exact, i as int) is None,
        decreases items@.len() - i,
    {
        if keys_equal(exact, items[i].key_string(), key) {
            proof {
                lemma_first_key_stays(items@, key@, exact, i + 1, items@.len() as int);
            }
            return Some(i);
        }
        i = i + 1;
    }
    None
}

/// Whether some item's key matches `key`.
pub fn contains_key<T: Artifact>(items: &Vec<T>, key: &String, exact: bool) -> (r: bool)
    ensures
        r == has_key(items@, key@, exact),
{
    let mut i: usize = 0;
    while i < items.len()
        invariant
            i <= items@.len(),
            forall|j: int| 0 <= j < i ==> !keys_match(exact, #[trigger] items@[j].key(), key@),
        decreases items@.len() - i,
    {
        if keys_equal(exact, items[i].key_string(), key) {
            return true;
        }
        i = i + 1;
    }
    false
}

/// The keys of `s` are pairwise distinct, exactly or up to ASCII case.
pub open spec fn distinct_keys<T: Artifact>(s: Seq<T>, exact: bool) -> bool {
    forall|i: int, j: int|
        0 <= i < j < s.len() ==> !keys_match(exact, #[trigger] s[i].key(), #[trigger] s[j].key())
}

/// The identity keys the differ matches on are unique: the names of an
/// entity's fields.
pub open spec fn entity_keys_unique(e: Entity) -> bool {
    distinct_keys(e.fields@, false)
}

/// The identity keys the differ matches on are unique: the names of a
/// context's entities and services, and within each entity its fields.
pub open spec fn context_keys_unique(bc: BoundedContext) -> bool {
    &&& distinct_keys(bc.entities@, false)
    &&& distinct_keys(bc.services@, false)
    &&& forall|i: int|
        0 <= i < bc.entities@.len() ==> entity_keys_unique(#[trigger] bc.entities@[i])
}

/// The identity keys the differ matches on are unique: context names up to
/// case, rule ids exactly, and within each context its entities, services
/// and fields.
pub open spec fn model_keys_unique(m: DomainModel) -> bool {
    &&& distinct_keys(m.bounded_contexts@, false)
    &&& distinct_keys(m.rules@, true)
    &&& forall|i: int|
        0 <= i < m.bounded_contexts@.len() ==> context_keys_unique(
            #[trigger] m.bounded_contexts@[i],
        )
}

// ─── What the differ emits ─────────────────────────────────────────────────

pub open spec fn target(area: Area, ctx: Seq<char>, owner: Seq<char>, name: Seq<char>) -> TargetView {
    TargetView { area, context: ctx, owner, name }
}

/// An artifact present on one side only: `Added` carries it as `after`,
/// `Removed` as `before`.
pub open spec fn one_sided<T: Artifact>(
    kind: ChangeKind,
    area: Area,
    ctx: Seq<char>,
    owner: Seq<char>,
    x: T,
) -> ChangeView {
    let t = target(area, ctx, owner, x.key());
    if kind == ChangeKind::Added {
        change_of(kind, t, None, Some(x.snap()))
    } else {
        change_of(kind, t, Some(x.snap()), None)
    }
}

pub open spec fn unmatched_step<T: Artifact>(
    kind: ChangeKind,
    area: Area,
    ctx: Seq<char>,
    owner: Seq<char>,
    exact: bool,
    against: Seq<T>,
) -> spec_fn(T) -> Seq<ChangeView> {
    |x: T|
        if has_key(against, x.key(), exact) {
            Seq::empty()
        } else {
            seq![one_sided(kind, area, ctx, owner, x)]
        }
}

/// One change for each item of `from` that has no match in `against`.
pub open spec fn unmatched<T: Artifact>(
    kind: ChangeKind,
    area: Area,
    ctx: Seq<char>,
    owner: Seq<char>,
    exact: bool,
    from: Seq<T>,
    against: Seq<T>,
) -> Seq<ChangeView> {
    flat_map(from, unmatched_step(kind, area, ctx, owner, exact, against))
}

pub open spec fn retyped(ctx: Seq<char>, owner: Seq<char>, olds: Seq<Field>, f: Field) -> Seq<
    ChangeView,
> {
    match first_key(olds, f.key(), false) {
        Some(i) => if olds[i].field_type@ != f.field_type@ {
            seq![
                change_of(
                    ChangeKind::Modified,
                    target(Area::Field, ctx, owner, f.name@),
                    Some(SnapshotView::Text(olds[i].field_type@)),
                    Some(SnapshotView::Text(f.field_type@)),
                ),
            ]
        } else {
            Seq::empty()
        },
        None => Seq::empty(),
    }
}

pub open spec fn retyped_step(ctx: Seq<char>, owner: Seq<char>, olds: Seq<Field>) -> spec_fn(
    Field,
) -> Seq<ChangeView> {
    |f: Field| retyped(ctx, owner, olds, f)
}

/// The changes between two versions of one entity in context `ctx`.
pub open spec fn entity_changes(ctx: Seq<char>, old: Entity, new: Entity) -> Seq<ChangeView> {
    let name = new.name@;
    let flag = if old.aggregate_root != new.aggregate_root {
        seq![
            change_of(
                ChangeKind::Modified,
                target(Area::AggregateRoot, ctx, name, Seq::empty()),
                Some(SnapshotView::Flag(old.aggregate_root)),
                Some(SnapshotView::Flag(new.aggregate_root)),
            ),
        ]
    } else {
        Seq::empty()
    };
    flag + unmatched(ChangeKind::Added, Area::Field, ctx, name, false, new.fields@, old.fields@)
        + unmatched(ChangeKind::Removed, Area::Field, ctx, name, false, old.fields@, new.fields@)
        + flat_map(new.fields@, retyped_step(ctx, name, old.fields@)) + unmatched(
        ChangeKind::Added,
        Area::Invariant,
        ctx,
        name,
        true,
        new.invariants@,
        old.invariants@,
    )
}

/// The changes between two versions of one service in context `ctx`.
pub open spec fn service_changes(ctx: Seq<char>, old: Service, new: Service) -> Seq<ChangeView> {
    let name = new.name@;
    let kind = if old.kind != new.kind {
        seq![
            change_of(
                ChangeKind::Modified,
                target(Area::ServiceLayer, ctx, name, Seq::empty()),
                Some(SnapshotView::Kind(old.kind)),
                Some(SnapshotView::Kind(new.kind)),
            ),
        ]
    } else {
        Seq::empty()
    };
    kind + unmatched(
        ChangeKind::Added,
        Area::ServiceMethod,
        ctx,
        name,
        false,
        new.methods@,
        old.methods@,
    ) + unmatched(
        ChangeKind::Removed,
        Area::ServiceMethod,
        ctx,
        name,
        false,
        old.methods@,
        new.methods@,
    ) + unmatched(
        ChangeKind::Added,
        Area::ServiceDependency,
        ctx,
        name,
        false,
        new.dependencies@,
        old.dependencies@,
    ) + unmatched(
        ChangeKind::Removed,
        Area::ServiceDependency,
        ctx,
        name,
        false,
        old.dependencies@,
        new.dependencies@,
    )
}

pub open spec fn entity_step(ctx: Seq<char>, olds: Seq<Entity>) -> spec_fn(Entity) -> Seq<
    ChangeView,
> {
    |e: Entity|
        match first_key(olds, e.key(), false) {
            Some(i) => entity_changes(ctx, olds[i], e),
            None => seq![one_sided(ChangeKind::Added, Area::Entity, ctx, Seq::empty(), e)],
        }
}

pub open spec fn service_step(ctx: Seq<char>, olds: Seq<Service>) -> spec_fn(Service) -> Seq<
    ChangeView,
> {
    |s: Service|
        match first_key(olds, s.key(), false) {
            Some(i) => service_changes(ctx, olds[i], s),
            None => seq![one_sided(ChangeKind::Added, Area::Service, ctx, Seq::empty(), s)],
        }
}

pub open spec fn moved(old: BoundedContext, new: BoundedContext) -> Seq<ChangeView> {
    if old.module@ != new.module@ && new.module@.len() > 0 {
        seq![
            change_of(
                ChangeKind::Moved,
                target(Area::ModuleLocation, new.name@, Seq::empty(), Seq::empty()),
                Some(SnapshotView::Text(old.module@)),
                Some(SnapshotView::Text(new.module@)),
            ),
        ]
    } else {
        Seq::empty()
    }
}

/// The changes between two versions of one bounded context.
pub open spec fn context_changes(old: BoundedContext, new: BoundedContext) -> Seq<ChangeView> {
    let ctx = new.name@;
    let e = Seq::<char>::empty();
    moved(old, new) + flat_map(new.entities@, entity_step(ctx, old.entities@)) + unmatched(
        ChangeKind::Removed,
        Area::Entity,
        ctx,
        e,
        false,
        old.entities@,
        new.entities@,
    ) + flat_map(new.services@, service_step(ctx, old.services@)) + unmatched(
        ChangeKind::Removed,
        Area::Service,
        ctx,
        e,
        false,
        old.services@,
        new.services@,
    ) + unmatched(ChangeKind::Added, Area::Event, ctx, e, false, new.events@, old.events@)
        + unmatched(ChangeKind::Removed, Area::Event, ctx, e, false, old.events@, new.events@)
        + unmatched(
        ChangeKind::Added,
        Area::ValueObject,
        ctx,
        e,
        false,
        new.value_objects@,
        old.value_objects@,
    ) + unmatched(
        ChangeKind::Removed,
        Area::ValueObject,
        ctx,
        e,
        false,
        old.value_objects@,
        new.value_objects@,
    ) + unmatched(
        ChangeKind::Added,
        Area::Repository,
        ctx,
        e,
        false,
        new.repositories@,
        old.repositories@,
    ) + unmatched(
        ChangeKind::Removed,
        Area::Repository,
        ctx,
        e,
        false,
        old.repositories@,
        new.repositories@,
    ) + unmatched(
        ChangeKind::Added,
        Area::Dependency,
        ctx,
        e,
        false,
        new.dependencies@,
        old.dependencies@,
    ) + unmatched(
        ChangeKind::Removed,
        Area::Dependency,
        ctx,
        e,
        false,
        old.dependencies@,
        new.dependencies@,
    )
}

pub open spec fn context_step(olds: Seq<BoundedContext>) -> spec_fn(BoundedContext) -> Seq<
    ChangeView,
> {
    |bc: BoundedContext|
        match first_key(olds, bc.key(), false) {
            Some(i) => context_changes(olds[i], bc),
            None => seq![
                change_of(
                    ChangeKind::Added,
                    target(Area::Context, Seq::empty(), Seq::empty(), bc.name@),
                    None,
                    Some(SnapshotView::NewContext { name: bc.name@, module: bc.module@ }),
                ),
            ],
        }
}

pub open spec fn rule_step(olds: Seq<ArchitecturalRule>) -> spec_fn(ArchitecturalRule) -> Seq<
    ChangeView,
> {
    |r: ArchitecturalRule|
        match first_key(olds, r.key(), true) {
            Some(i) => if olds[i].description@ != r.description@ || olds[i].severity
                != r.severity {
                seq![
                    change_of(
                        ChangeKind::Modified,
                        target(Area::Rule, Seq::empty(), Seq::empty(), r.id@),
                        Some(SnapshotView::Rule(olds[i]@)),
                        Some(SnapshotView::Rule(r@)),
                    ),
                ]
            } else {
                Seq::empty()
            },
            None => Seq::empty(),
        }
}

/// Everything `diff_models(old, new)` reports, in order: contexts of `new`
/// (added, or compared with their match in `old`), contexts removed, rules
/// added, rules removed, rules modified.
pub open spec fn model_changes(old: DomainModel, new: DomainModel) -> Seq<ChangeView> {
    let e = Seq::<char>::empty();
    flat_map(new.bounded_contexts@, context_step(old.bounded_contexts@)) + unmatched(
        ChangeKind::Removed,
        Area::Context,
        e,
        e,
        false,
        old.bounded_contexts@,
        new.bounded_contexts@,
    ) + unmatched(ChangeKind::Added, Area::Rule, e, e, true, new.rules@, old.rules@) + unmatched(
        ChangeKind::Removed,
        Area::Rule,
        e,
        e,
        true,
        old.rules@,
        new.rules@,
    ) + flat_map(new.rules@, rule_step(old.rules@))
}

// ─── The differ ────────────────────────────────────────────────────────────

fn emit(out: &mut Vec<ModelChange>, c: ModelChange)
    ensures
        changes_view(final(out)@) == changes_view(old(out)@) + seq![c@],
{
    out.push(c);
    assert(changes_view(out@) =~= changes_view(old(out)@) + seq![c@]);
}

fn no_text() -> (r: String)
    ensures
        r@ == Seq::<char>::empty(),
{
    String::new()
}

/// Appends a change for each item of `from` that has no match in `against`.
fn push_unmatched<T: Artifact>(
    kind: ChangeKind,
    area: Area,
    ctx: &str,
    owner: &str,
    exact: bool,
    from: &Vec<T>,
    against: &Vec<T>,
    out: &mut Vec<ModelChange>,
)
    ensures
        changes_view(final(out)@) == changes_view(old(out)@) + unmatched(
            kind,
            area,
            ctx@,
            owner@,
            exact,
            from@,
            against@,
        ),
{
    let ghost start = changes_view(out@);
    let ghost f = unmatched_step(kind, area, ctx@, owner@, exact, against@);
    let mut i: usize = 0;
    while i < from.len()
        invariant
            i <= from@.len(),
            f == unmatched_step(kind, area, ctx@, owner@, exact, against@),
            changes_view(out@) == start + flat_map(from@.take(i as int), f),
        decreases from@.len() - i,
    {
        let x = &from[i];
        if !contains_key(against, x.key_string(), exact) {
            let t = ChangeTarget::new(area, ctx, owner, x.key_string().as_str());
            let c = if kind == ChangeKind::Added {
                ModelChange::new(kind, t, None, Some(x.snapshot()))
            } else {
                ModelChange::new(kind, t, Some(x.snapshot()), None)
            };
            emit(out, c);
        }
        proof {
            lemma_flat_map_step(from@, f, i as int);
            assert(start + flat_map(from@.take(i + 1), f) =~= start + flat_map(from@.take(i as int), f) + f(from@[i as int]));
        }
        i = i + 1;
    }
    proof {
        assert(from@.take(from@.len() as int) =~= from@);
    }
}

/// Appends the changes between two versions of one entity.
fn diff_entity(ctx: &str, old_e: &Entity, new_e: &Entity, changes: &mut Vec<ModelChange>)
    ensures
        changes_view(final(changes)@) == changes_view(old(changes)@) + entity_changes(
            ctx@,
            *old_e,
            *new_e,
        ),
{
    let ghost start = changes_view(changes@);
    let name = new_e.name.as_str();
    let empty = no_text();
    if old_e.aggregate_root != new_e.aggregate_root {
        let t = ChangeTarget::new(Area::AggregateRoot, ctx, name, empty.as_str());
        emit(
            changes,
            ModelChange::new(
                ChangeKind::Modified,
                t,
                Some(Snapshot::Flag(old_e.aggregate_root)),
                Some(Snapshot::Flag(new_e.aggregate_root)),
            ),
        );
    }
    let ghost after_flag = changes_view(changes@);
    push_unmatched(ChangeKind::Added, Area::Field, ctx, name, false, &new_e.fields, &old_e.fields, changes);
    push_unmatched(ChangeKind::Removed, Area::Field, ctx, name, false, &old_e.fields, &new_e.fields, changes);
    let ghost before_types = changes_view(changes@);
    let ghost f = retyped_step(ctx@, name@, old_e.fields@);
    let mut i: usize = 0;
    while i < new_e.fields.len()
        invariant
            i <= new_e.fields@.len(),
            f == retyped_step(ctx@, name@, old_e.fields@),
            name@ == new_e.name@,
            changes_view(changes@) == before_types + flat_map(new_e.fields@.take(i as int), f),
        decreases new_e.fields@.len() - i,
    {
        let nf = &new_e.fields[i];
        match position(&old_e.fields, &nf.name, false) {
            Some(j) => {
                let of = &old_e.fields[j];
                if of.field_type != nf.field_type {
                    let t = ChangeTarget::new(Area::Field, ctx, name, nf.name.as_str());
                    emit(
                        changes,
                        ModelChange::new(
                            ChangeKind::Modified,
                            t,
                            Some(Snapshot::Text(of.field_type.clone())),
                            Some(Snapshot::Text(nf.field_type.clone())),
                        ),
                    );
                }
            },
            None => {},
        }
        proof {
            lemma_flat_map_step(new_e.fields@, f, i as int);
            assert(before_types + flat_map(new_e.fields@.take(i + 1), f) =~= before_types + flat_map(new_e.fields@.take(i as int), f) + f(new_e.fields@[i as int]));
        }
        i = i + 1;
    }
    proof {
        assert(new_e.fields@.take(new_e.fields@.len() as int) =~= new_e.fields@);
    }
    push_unmatched(
        ChangeKind::Added,
        Area::Invariant,
        ctx,
        name,
        true,
        &new_e.invariants,
        &old_e.invariants,
        changes,
    );
    proof {
        assert(changes_view(changes@) =~= changes_view(old(changes)@) + entity_changes(ctx@, *old_e, *new_e));
    }
}

/// Appends the changes between two versions of one service.
fn diff_service(ctx: &str, old_s: &Service, new_s: &Service, changes: &mut Vec<ModelChange>)
    ensures
        changes_view(final(changes)@) == changes_view(old(changes)@) + service_changes(
            ctx@,
            *old_s,
            *new_s,
        ),
{
    let name = new_s.name.as_str();
    let empty = no_text();
    if old_s.kind != new_s.kind {
        let t = ChangeTarget::new(Area::ServiceLayer, ctx, name, empty.as_str());
        emit(
            changes,
            ModelChange::new(
                ChangeKind::Modified,
                t,
                Some(Snapshot::Kind(old_s.kind)),
                Some(Snapshot::Kind(new_s.kind)),
            ),
        );
    }
    push_unmatched(
        ChangeKind::Added,
        Area::ServiceMethod,
        ctx,
        name,
        false,
        &new_s.methods,
        &old_s.methods,
        changes,
    );
    push_unmatched(
        ChangeKind::Removed,
        Area::ServiceMethod,
        ctx,
        name,
        false,
        &old_s.methods,
        &new_s.methods,
        changes,
    );
    push_unmatched(
        ChangeKind::Added,
        Area::ServiceDependency,
        ctx,
        name,
        false,
        &new_s.dependencies,
        &old_s.dependencies,
        changes,
    );
    push_unmatched(
        ChangeKind::Removed,
        Area::ServiceDependency,
        ctx,
        name,
        false,
        &old_s.dependencies,
        &new_s.dependencies,
        changes,
    );
    proof {
        assert(changes_view(changes@) =~= changes_view(old(changes)@) + service_changes(
            ctx@,
            *old_s,
            *new_s,
        ));
    }
}

/// Appends, for each entity of `news`, either its addition or its changes
/// against its match in `olds`.
fn diff_entities(ctx: &str, olds: &Vec<Entity>, news: &Vec<Entity>, changes: &mut Vec<ModelChange>)
    ensures
        changes_view(final(changes)@) == changes_view(old(changes)@) + flat_map(
            news@,
            entity_step(ctx@, olds@),
        ),
{
    let ghost start = changes_view(changes@);
    let ghost f = entity_step(ctx@, olds@);
    let empty = no_text();
    let mut i: usize = 0;
    while i < news.len()
        invariant
            i <= news@.len(),
            f == entity_step(ctx@, olds@),
            empty@ == Seq::<char>::empty(),
            changes_view(changes@) == start + flat_map(news@.take(i as int), f),
        decreases news@.len() - i,
    {
        let e = &news[i];
        match position(olds, &e.name, false) {
            Some(j) => diff_entity(ctx, &olds[j], e, changes),
            None => {
                let t = ChangeTarget::new(Area::Entity, ctx, empty.as_str(), e.name.as_str());
                emit(changes, ModelChange::new(ChangeKind::Added, t, None, Some(e.snapshot())));
            },
        }
        proof {
            lemma_flat_map_step(news@, f, i as int);
            assert(start + flat_map(news@.take(i + 1), f) =~= start + flat_map(news@.take(i as int), f) + f(news@[i as int]));
        }
        i = i + 1;
    }
    proof {
        assert(news@.take(news@.len() as int) =~= news@);
    }
}

/// Appends, for each service of `news`, either its addition or its changes
/// against its match in `olds`.
fn diff_services(ctx: &str, olds: &Vec<Service>, news: &Vec<Service>, changes: &mut Vec<ModelChange>)
    ensures
        changes_view(final(changes)@) == changes_view(old(changes)@) + flat_map(
            news@,
            service_step(ctx@, olds@),
        ),
{
    let ghost start = changes_view(changes@);
    let ghost f = service_step(ctx@, olds@);
    let empty = no_text();
    let mut i: usize = 0;
    while i < news.len()
        invariant
            i <= news@.len(),
            f == service_step(ctx@, olds@),
            empty@ == Seq::<char>::empty(),
            changes_view(changes@) == start + flat_map(news@.take(i as int), f),
        decreases news@.len() - i,
    {
        let sv = &news[i];
        match position(olds, &sv.name, false) {
            Some(j) => diff_service(ctx, &olds[j], sv, changes),
            None => {
                let t = ChangeTarget::new(Area::Service, ctx, empty.as_str(), sv.name.as_str());
                emit(changes, ModelChange::new(ChangeKind::Added, t, None, Some(sv.snapshot())));
            },
        }
        proof {
            lemma_flat_map_step(news@, f, i as int);
            assert(start + flat_map(news@.take(i + 1), f) =~= start + flat_map(news@.take(i as int), f) + f(news@[i as int]));
        }
        i = i + 1;
    }
    proof {
        assert(news@.take(news@.len() as int) =~= news@);
    }
}

/// Appends the changes between two versions of one bounded context.
fn diff_context(old_bc: &BoundedContext, new_bc: &BoundedContext, changes: &mut Vec<ModelChange>)
    ensures
        changes_view(final(changes)@) == changes_view(old(changes)@) + context_changes(
            *old_bc,
            *new_bc,
        ),
{
    let ctx = new_bc.name.as_str();
    let e = no_text();
    let es = e.as_str();
    if old_bc.module != new_bc.module && !is_blank(&new_bc.module) {
        let t = ChangeTarget::new(Area::ModuleLocation, ctx, es, es);
        emit(
            changes,
            ModelChange::new(
                ChangeKind::Moved,
                t,
                Some(Snapshot::Text(old_bc.module.clone())),
                Some(Snapshot::Text(new_bc.module.clone())),
            ),
        );
    }
    diff_entities(ctx, &old_bc.entities, &new_bc.entities, changes);
    push_unmatched(ChangeKind::Removed, Area::Entity, ctx, es, false, &old_bc.entities, &new_bc.entities, changes);
    diff_services(ctx, &old_bc.services, &new_bc.services, changes);
    push_unmatched(ChangeKind::Removed, Area::Service, ctx, es, false, &old_bc.services, &new_bc.services, changes);
    push_unmatched(ChangeKind::Added, Area::Event, ctx, es, false, &new_bc.events, &old_bc.events, changes);
    push_unmatched(ChangeKind::Removed, Area::Event, ctx, es, false, &old_bc.events, &new_bc.events, changes);
    push_unmatched(ChangeKind::Added, Area::ValueObject, ctx, es, false, &new_bc.value_objects, &old_bc.value_objects, changes);
    push_unmatched(ChangeKind::Removed, Area::ValueObject, ctx, es, false, &old_bc.value_objects, &new_bc.value_objects, changes);
    push_unmatched(ChangeKind::Added, Area::Repository, ctx, es, false, &new_bc.repositories, &old_bc.repositories, changes);
    push_unmatched(ChangeKind::Removed, Area::Repository, ctx, es, false, &old_bc.repositories, &new_bc.repositories, changes);
    push_unmatched(ChangeKind::Added, Area::Dependency, ctx, es, false, &new_bc.dependencies, &old_bc.dependencies, changes);
    push_unmatched(ChangeKind::Removed, Area::Dependency, ctx, es, false, &old_bc.dependencies, &new_bc.dependencies, changes);
    proof {
        assert(changes_view(changes@) =~= changes_view(old(changes)@) + context_changes(*old_bc, *new_bc));
    }
}

/// Compares two models and returns the changes from `old` to `new`, in
/// traversal order: per context of `new` its addition or its own changes,
/// then removed contexts, then added, removed and modified rules.
pub fn diff_models(old: &DomainModel, new: &DomainModel) -> (r: Vec<ModelChange>)
    ensures
        changes_view(r@) == model_changes(*old, *new),
{
    let mut changes: Vec<ModelChange> = Vec::new();
    let e = no_text();
    let es = e.as_str();
    let ghost f = context_step(old.bounded_contexts@);
    let news = &new.bounded_contexts;
    let mut i: usize = 0;
    proof {
        assert(changes_view(changes@) =~= flat_map(news@.take(0), f));
    }
    while i < news.len()
        invariant
            i <= news@.len(),
            news == &new.bounded_contexts,
            f == context_step(old.bounded_contexts@),
            es@ == Seq::<char>::empty(),
            changes_view(changes@) == flat_map(news@.take(i as int), f),
        decreases news@.len() - i,
    {
        let bc = &news[i];
        match position(&old.bounded_contexts, &bc.name, false) {
            Some(j) => diff_context(&old.bounded_contexts[j], bc, &mut changes),
            None => {
                let t = ChangeTarget::new(Area::Context, es, es, bc.name.as_str());
                let after = Snapshot::NewContext { name: bc.name.clone(), module: bc.module.clone() };
                emit(&mut changes, ModelChange::new(ChangeKind::Added, t, None, Some(after)));
            },
        }
        proof {
            lemma_flat_map_step(news@, f, i as int);
        }
        i = i + 1;
    }
    proof {
        assert(news@.take(news@.len() as int) =~= news@);
    }
    push_unmatched(
        ChangeKind::Removed,
        Area::Context,
        es,
        es,
        false,
        &old.bounded_contexts,
        &new.bounded_contexts,
        &mut changes,
    );
    push_unmatched(ChangeKind::Added, Area::Rule, es, es, true, &new.rules, &old.rules, &mut changes);
    push_unmatched(ChangeKind::Removed, Area::Rule, es, es, true, &old.rules, &new.rules, &mut changes);
    let ghost before_modified = changes_view(changes@);
    let ghost g = rule_step(old.rules@);
    let mut k: usize = 0;
    while k < new.rules.len()
        invariant
            k <= new.rules@.len(),
            g == rule_step(old.rules@),
            es@ == Seq::<char>::empty(),
            changes_view(changes@) == before_modified + flat_map(new.rules@.take(k as int), g),
        decreases new.rules@.len() - k,
    {
        let nr = &new.rules[k];
        match position(&old.rules, &nr.id, true) {
            Some(j) => {
                let orule = &old.rules[j];
                if orule.description != nr.description || orule.severity != nr.severity {
                    let t = ChangeTarget::new(Area::Rule, es, es, nr.id.as_str());
                    emit(
                        &mut changes,
                        ModelChange::new(
                            ChangeKind::Modified,
                            t,
                            Some(Snapshot::Rule(orule.clone())),
                            Some(Snapshot::Rule(nr.clone())),
                        ),
                    );
                }
            },
            None => {},
        }
        proof {
            lemma_flat_map_step(new.rules@, g, k as int);
            assert(before_modified + flat_map(new.rules@.take(k + 1), g) =~= before_modified + flat_map(new.rules@.take(k as int), g) + g(new.rules@[k as int]));
        }
        k = k + 1;
    }
    proof {
        assert(new.rules@.take(new.rules@.len() as int) =~= new.rules@);
        assert(changes_view(changes@) =~= model_changes(*old, *new));
    }
    changes
}

} // verus!
