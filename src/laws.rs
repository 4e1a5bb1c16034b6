//! Properties that hold of every model and every plan, proved over the
//! specifications that `diff_models` and `plan_refactoring` meet exactly.
use vstd::prelude::*;
use crate::change::ChangeView;
use crate::model::{Conventions, DomainModel};
use crate::plan::{action_step, by_priority, keep_step, of_priority, plan_of, rank, ActionView, PlanView, Priority};
use crate::diff::{
    context_changes, context_keys_unique, context_step, distinct_keys, entity_changes,
    entity_keys_unique, entity_step, first_key, first_key_upto, has_key, keys_match,
    lemma_first_key_stays, model_changes, one_sided, model_keys_unique, retyped_step, rule_step,
    service_changes, service_step, unmatched, unmatched_step, Artifact,
};
use crate::change::{path_of, Area, ChangeKind, TargetView};
use crate::names::{ascii_lower_seq, same_name};
use crate::model::{BoundedContext, Entity, Service};
use crate::seqs::{flat_map, lemma_flat_map_empty, lemma_flat_map_member, lemma_flat_map_origin};

verus! {

proof fn lemma_of_priority_uniform(s: Seq<ActionView>, p: Priority)
    ensures
        forall|k: int| 0 <= k < of_priority(s, p).len() ==> (#[trigger] of_priority(s, p)[k]).priority == p,
    decreases s.len(),
{
    if s.len() > 0 {
        lemma_of_priority_uniform(s.drop_last(), p);
        assert(of_priority(s, p) == of_priority(s.drop_last(), p) + keep_step(p)(s.last()));
    }
}

spec fn segment(k: int, c: int, h: int, m: int) -> int {
    if k < c {
        0
    } else if k < c + h {
        1
    } else if k < c + h + m {
        2
    } else {
        3
    }
}

/// Stable sorting by priority leaves no action after one of a later
/// priority: Critical < High < Medium < Low.
pub proof fn lemma_by_priority_sorted(s: Seq<ActionView>)
    ensures
        forall|i: int, j: int|
            0 <= i < j < by_priority(s).len() ==> rank(#[trigger] by_priority(s)[i].priority) <= rank(
                #[trigger] by_priority(s)[j].priority,
            ),
{
    let c = of_priority(s, Priority::Critical);
    let h = of_priority(s, Priority::High);
    let m = of_priority(s, Priority::Medium);
    let l = of_priority(s, Priority::Low);
    lemma_of_priority_uniform(s, Priority::Critical);
    lemma_of_priority_uniform(s, Priority::High);
    lemma_of_priority_uniform(s, Priority::Medium);
    lemma_of_priority_uniform(s, Priority::Low);
    let all = by_priority(s);
    assert(all == c + h + m + l);
    assert forall|k: int| 0 <= k < all.len() implies rank(#[trigger] all[k].priority) == segment(
        k,
        c.len() as int,
        h.len() as int,
        m.len() as int,
    ) by {
        if k < c.len() {
            assert(all[k] == c[k]);
        } else if k < c.len() + h.len() {
            assert(all[k] == h[k - c.len()]);
        } else if k < c.len() + h.len() + m.len() {
            assert(all[k] == m[k - c.len() - h.len()]);
        } else {
            assert(all[k] == l[k - c.len() - h.len() - m.len()]);
        }
    }
}

/// Every generated plan lists its code actions in priority order: for all
/// indices i < j, the priority at i is no later than the priority at j.
pub proof fn plan_actions_sorted(changes: Seq<ChangeView>, conventions: Conventions)
    ensures
        forall|i: int, j: int|
            0 <= i < j < plan_of(changes, conventions).code_actions.len() ==> rank(
                #[trigger] plan_of(changes, conventions).code_actions[i].priority,
            ) <= rank(#[trigger] plan_of(changes, conventions).code_actions[j].priority),
{
    lemma_by_priority_sorted(flat_map(changes, action_step(conventions)));
}

// ─── Reflexivity ───────────────────────────────────────────────────────────

proof fn lemma_unmatched_self<T: Artifact>(
    kind: ChangeKind,
    area: Area,
    ctx: Seq<char>,
    owner: Seq<char>,
    exact: bool,
    s: Seq<T>,
)
    ensures
        unmatched(kind, area, ctx, owner, exact, s, s).len() == 0,
{
    let f = unmatched_step(kind, area, ctx, owner, exact, s);
    assert forall|i: int| 0 <= i < s.len() implies (#[trigger] f(s[i])).len() == 0 by {
        assert(keys_match(exact, s[i].key(), s[i].key()));
        assert(has_key(s, s[i].key(), exact));
    }
    lemma_flat_map_empty(s, f);
}

proof fn lemma_first_key_none<T: Artifact>(s: Seq<T>, k: Seq<char>, exact: bool, n: int)
    requires
        n <= s.len(),
        forall|j: int| 0 <= j < n ==> !keys_match(exact, #[trigger] s[j].key(), k),
    ensures
        first_key_upto(s, k, exact, n) is None,
    decreases n,
{
    if n > 0 {
        lemma_first_key_none(s, k, exact, n - 1);
    }
}

/// With distinct keys, an item is its own first match.
pub proof fn lemma_first_key_self<T: Artifact>(s: Seq<T>, exact: bool, i: int)
    requires
        distinct_keys(s, exact),
        0 <= i < s.len(),
    ensures
        first_key(s, s[i].key(), exact) == Some(i),
{
    let k = s[i].key();
    assert forall|j: int| 0 <= j < i implies !keys_match(exact, #[trigger] s[j].key(), k) by {
        assert(!keys_match(exact, s[j].key(), s[i].key()));
    }
    lemma_first_key_none(s, k, exact, i);
    assert(keys_match(exact, k, k));
    assert(first_key_upto(s, k, exact, i + 1) == Some(i));
    lemma_first_key_stays(s, k, exact, i + 1, s.len() as int);
}

proof fn lemma_entity_unchanged(ctx: Seq<char>, e: Entity)
    requires
        entity_keys_unique(e),
    ensures
        entity_changes(ctx, e, e).len() == 0,
{
    let name = e.name@;
    lemma_unmatched_self(ChangeKind::Added, Area::Field, ctx, name, false, e.fields@);
    lemma_unmatched_self(ChangeKind::Removed, Area::Field, ctx, name, false, e.fields@);
    lemma_unmatched_self(ChangeKind::Added, Area::Invariant, ctx, name, true, e.invariants@);
    let f = retyped_step(ctx, name, e.fields@);
    assert forall|i: int| 0 <= i < e.fields@.len() implies (#[trigger] f(e.fields@[i])).len()
        == 0 by {
        lemma_first_key_self(e.fields@, false, i);
    }
    lemma_flat_map_empty(e.fields@, f);
}

proof fn lemma_service_unchanged(ctx: Seq<char>, s: Service)
    ensures
        service_changes(ctx, s, s).len() == 0,
{
    let name = s.name@;
    lemma_unmatched_self(ChangeKind::Added, Area::ServiceMethod, ctx, name, false, s.methods@);
    lemma_unmatched_self(ChangeKind::Removed, Area::ServiceMethod, ctx, name, false, s.methods@);
    lemma_unmatched_self(
        ChangeKind::Added,
        Area::ServiceDependency,
        ctx,
        name,
        false,
        s.dependencies@,
    );
    lemma_unmatched_self(
        ChangeKind::Removed,
        Area::ServiceDependency,
        ctx,
        name,
        false,
        s.dependencies@,
    );
}

proof fn lemma_context_unchanged(bc: BoundedContext)
    requires
        context_keys_unique(bc),
    ensures
        context_changes(bc, bc).len() == 0,
{
    let ctx = bc.name@;
    let e = Seq::<char>::empty();
    let fe = entity_step(ctx, bc.entities@);
    assert forall|i: int| 0 <= i < bc.entities@.len() implies (#[trigger] fe(
        bc.entities@[i],
    )).len() == 0 by {
        lemma_first_key_self(bc.entities@, false, i);
        lemma_entity_unchanged(ctx, bc.entities@[i]);
    }
    lemma_flat_map_empty(bc.entities@, fe);
    let fs = service_step(ctx, bc.services@);
    assert forall|i: int| 0 <= i < bc.services@.len() implies (#[trigger] fs(
        bc.services@[i],
    )).len() == 0 by {
        lemma_first_key_self(bc.services@, false, i);
        lemma_service_unchanged(ctx, bc.services@[i]);
    }
    lemma_flat_map_empty(bc.services@, fs);
    lemma_unmatched_self(ChangeKind::Removed, Area::Entity, ctx, e, false, bc.entities@);
    lemma_unmatched_self(ChangeKind::Removed, Area::Service, ctx, e, false, bc.services@);
    lemma_unmatched_self(ChangeKind::Added, Area::Event, ctx, e, false, bc.events@);
    lemma_unmatched_self(ChangeKind::Removed, Area::Event, ctx, e, false, bc.events@);
    lemma_unmatched_self(ChangeKind::Added, Area::ValueObject, ctx, e, false, bc.value_objects@);
    lemma_unmatched_self(ChangeKind::Removed, Area::ValueObject, ctx, e, false, bc.value_objects@);
    lemma_unmatched_self(ChangeKind::Added, Area::Repository, ctx, e, false, bc.repositories@);
    lemma_unmatched_self(ChangeKind::Removed, Area::Repository, ctx, e, false, bc.repositories@);
    lemma_unmatched_self(ChangeKind::Added, Area::Dependency, ctx, e, false, bc.dependencies@);
    lemma_unmatched_self(ChangeKind::Removed, Area::Dependency, ctx, e, false, bc.dependencies@);
}

/// A model compared with itself shows no change, provided the identity keys
/// the differ matches on are unique within their collections.
pub proof fn diff_reflexive(m: DomainModel)
    requires
        model_keys_unique(m),
    ensures
        model_changes(m, m).len() == 0,
{
    let e = Seq::<char>::empty();
    let fc = context_step(m.bounded_contexts@);
    assert forall|i: int| 0 <= i < m.bounded_contexts@.len() implies (#[trigger] fc(
        m.bounded_contexts@[i],
    )).len() == 0 by {
        lemma_first_key_self(m.bounded_contexts@, false, i);
        lemma_context_unchanged(m.bounded_contexts@[i]);
    }
    lemma_flat_map_empty(m.bounded_contexts@, fc);
    lemma_unmatched_self(ChangeKind::Removed, Area::Context, e, e, false, m.bounded_contexts@);
    lemma_unmatched_self(ChangeKind::Added, Area::Rule, e, e, true, m.rules@);
    lemma_unmatched_self(ChangeKind::Removed, Area::Rule, e, e, true, m.rules@);
    let fr = rule_step(m.rules@);
    assert forall|i: int| 0 <= i < m.rules@.len() implies (#[trigger] fr(m.rules@[i])).len()
        == 0 by {
        lemma_first_key_self(m.rules@, true, i);
    }
    lemma_flat_map_empty(m.rules@, fr);
}

// ─── Repeatability ─────────────────────────────────────────────────────────

/// Planning is a function of its inputs: two plans drawn up for the changes
/// between the same two models under the same conventions are identical,
/// character for character.
pub proof fn planning_repeatable(
    a: DomainModel,
    b: DomainModel,
    conventions: Conventions,
    first: PlanView,
    second: PlanView,
)
    requires
        first == plan_of(model_changes(a, b), conventions),
        second == plan_of(model_changes(a, b), conventions),
    ensures
        first == second,
{
}

// ─── Symmetry of Added and Removed ─────────────────────────────────────────

proof fn lemma_concat_contains<A>(p: Seq<A>, q: Seq<A>, x: A)
    ensures
        (p + q).contains(x) <==> (p.contains(x) || q.contains(x)),
{
    let pq = p + q;
    if pq.contains(x) {
        let k = choose|k: int| 0 <= k < pq.len() && #[trigger] pq[k] == x;
        if k < p.len() {
            assert(p[k] == x);
        } else {
            assert(q[k - p.len()] == x);
        }
    }
    if p.contains(x) {
        let k = choose|k: int| 0 <= k < p.len() && #[trigger] p[k] == x;
        assert(pq[k] == x);
    }
    if q.contains(x) {
        let k = choose|k: int| 0 <= k < q.len() && #[trigger] q[k] == x;
        assert(pq[p.len() + k] == x);
    }
}

proof fn lemma_first_key_found<T: Artifact>(s: Seq<T>, k: Seq<char>, exact: bool, n: int)
    requires
        0 <= n <= s.len(),
    ensures
        match first_key_upto(s, k, exact, n) {
            Some(i) => 0 <= i < n && keys_match(exact, s[i].key(), k),
            None => forall|j: int| 0 <= j < n ==> !keys_match(exact, #[trigger] s[j].key(), k),
        },
    decreases n,
{
    if n > 0 {
        lemma_first_key_found(s, k, exact, n - 1);
    }
}

/// With distinct keys, the item matching `k` is the first match of `k`.
proof fn lemma_first_key_of_match<T: Artifact>(s: Seq<T>, exact: bool, j: int, k: Seq<char>)
    requires
        distinct_keys(s, exact),
        0 <= j < s.len(),
        keys_match(exact, s[j].key(), k),
    ensures
        first_key(s, k, exact) == Some(j),
{
    assert forall|l: int| 0 <= l < j implies !keys_match(exact, #[trigger] s[l].key(), k) by {
        assert(!keys_match(exact, s[l].key(), s[j].key()));
    }
    lemma_first_key_none(s, k, exact, j);
    assert(first_key_upto(s, k, exact, j + 1) == Some(j));
    lemma_first_key_stays(s, k, exact, j + 1, s.len() as int);
}

proof fn lemma_unmatched_origin<T: Artifact>(
    kind: ChangeKind,
    area: Area,
    ctx: Seq<char>,
    owner: Seq<char>,
    exact: bool,
    from: Seq<T>,
    against: Seq<T>,
    x: ChangeView,
)
    requires
        unmatched(kind, area, ctx, owner, exact, from, against).contains(x),
    ensures
        exists|k: int|
            0 <= k < from.len() && !has_key(against, from[k].key(), exact) && x == one_sided(
                kind,
                area,
                ctx,
                owner,
                #[trigger] from[k],
            ),
{
    let f = unmatched_step(kind, area, ctx, owner, exact, against);
    lemma_flat_map_origin(from, f, x);
    let k = choose|k: int| 0 <= k < from.len() && #[trigger] f(from[k]).contains(x);
    assert(!has_key(against, from[k].key(), exact));
    assert(f(from[k]) == seq![one_sided(kind, area, ctx, owner, from[k])]);
}

proof fn lemma_unmatched_member<T: Artifact>(
    kind: ChangeKind,
    area: Area,
    ctx: Seq<char>,
    owner: Seq<char>,
    exact: bool,
    from: Seq<T>,
    against: Seq<T>,
    k: int,
)
    requires
        0 <= k < from.len(),
        !has_key(against, from[k].key(), exact),
    ensures
        unmatched(kind, area, ctx, owner, exact, from, against).contains(
            one_sided(kind, area, ctx, owner, from[k]),
        ),
{
    let f = unmatched_step(kind, area, ctx, owner, exact, against);
    assert(f(from[k]) == seq![one_sided(kind, area, ctx, owner, from[k])]);
    assert(f(from[k])[0] == one_sided(kind, area, ctx, owner, from[k]));
    lemma_flat_map_member(from, f, k, one_sided(kind, area, ctx, owner, from[k]));
}

/// The areas in which changes to one artifact are reported from inside its
/// context.
pub open spec fn inner_area(area: Area) -> bool {
    ||| area == Area::Entity
    ||| area == Area::Service
    ||| area == Area::Event
    ||| area == Area::ValueObject
    ||| area == Area::Repository
    ||| area == Area::Dependency
}

pub open spec fn flipped(kind: ChangeKind) -> ChangeKind {
    if kind == ChangeKind::Added {
        ChangeKind::Removed
    } else {
        ChangeKind::Added
    }
}

/// The parts of `context_changes(o, n)`, in order.
spec fn ctx_part(o: BoundedContext, n: BoundedContext, l: int) -> Seq<ChangeView> {
    let ctx = n.name@;
    let e = Seq::<char>::empty();
    if l == 0 {
        crate::diff::moved(o, n)
    } else if l == 1 {
        flat_map(n.entities@, entity_step(ctx, o.entities@))
    } else if l == 2 {
        unmatched(ChangeKind::Removed, Area::Entity, ctx, e, false, o.entities@, n.entities@)
    } else if l == 3 {
        flat_map(n.services@, service_step(ctx, o.services@))
    } else if l == 4 {
        unmatched(ChangeKind::Removed, Area::Service, ctx, e, false, o.services@, n.services@)
    } else if l == 5 {
        unmatched(ChangeKind::Added, Area::Event, ctx, e, false, n.events@, o.events@)
    } else if l == 6 {
        unmatched(ChangeKind::Removed, Area::Event, ctx, e, false, o.events@, n.events@)
    } else if l == 7 {
        unmatched(ChangeKind::Added, Area::ValueObject, ctx, e, false, n.value_objects@, o.value_objects@)
    } else if l == 8 {
        unmatched(ChangeKind::Removed, Area::ValueObject, ctx, e, false, o.value_objects@, n.value_objects@)
    } else if l == 9 {
        unmatched(ChangeKind::Added, Area::Repository, ctx, e, false, n.repositories@, o.repositories@)
    } else if l == 10 {
        unmatched(ChangeKind::Removed, Area::Repository, ctx, e, false, o.repositories@, n.repositories@)
    } else if l == 11 {
        unmatched(ChangeKind::Added, Area::Dependency, ctx, e, false, n.dependencies@, o.dependencies@)
    } else {
        unmatched(ChangeKind::Removed, Area::Dependency, ctx, e, false, o.dependencies@, n.dependencies@)
    }
}

spec fn ctx_parts_upto(o: BoundedContext, n: BoundedContext, l: int) -> Seq<ChangeView>
    decreases l,
{
    if l <= 1 {
        ctx_part(o, n, 0)
    } else {
        ctx_parts_upto(o, n, l - 1) + ctx_part(o, n, l - 1)
    }
}

proof fn lemma_ctx_parts(o: BoundedContext, n: BoundedContext)
    ensures
        context_changes(o, n) == ctx_parts_upto(o, n, 13),
{
    reveal_with_fuel(ctx_parts_upto, 13);
}

proof fn lemma_ctx_parts_split(o: BoundedContext, n: BoundedContext, l: int, x: ChangeView)
    requires
        1 <= l,
    ensures
        ctx_parts_upto(o, n, l).contains(x) <==> exists|m: int|
            0 <= m < l && #[trigger] ctx_part(o, n, m).contains(x),
    decreases l,
{
    if l > 1 {
        lemma_ctx_parts_split(o, n, l - 1, x);
        lemma_concat_contains(ctx_parts_upto(o, n, l - 1), ctx_part(o, n, l - 1), x);
    }
}

proof fn lemma_entity_changes_area(ctx: Seq<char>, o: Entity, n: Entity, x: ChangeView)
    requires
        entity_changes(ctx, o, n).contains(x),
    ensures
        !inner_area(x.target.area),
{
    let name = n.name@;
    let flag = if o.aggregate_root != n.aggregate_root {
        seq![
            crate::change::change_of(
                ChangeKind::Modified,
                crate::diff::target(Area::AggregateRoot, ctx, name, Seq::empty()),
                Some(crate::change::SnapshotView::Flag(o.aggregate_root)),
                Some(crate::change::SnapshotView::Flag(n.aggregate_root)),
            ),
        ]
    } else {
        Seq::empty()
    };
    let added = unmatched(ChangeKind::Added, Area::Field, ctx, name, false, n.fields@, o.fields@);
    let removed = unmatched(ChangeKind::Removed, Area::Field, ctx, name, false, o.fields@, n.fields@);
    let retypes = flat_map(n.fields@, retyped_step(ctx, name, o.fields@));
    let invariants = unmatched(ChangeKind::Added, Area::Invariant, ctx, name, true, n.invariants@, o.invariants@);
    assert(entity_changes(ctx, o, n) == flag + added + removed + retypes + invariants);
    lemma_concat_contains(flag + added + removed + retypes, invariants, x);
    lemma_concat_contains(flag + added + removed, retypes, x);
    lemma_concat_contains(flag + added, removed, x);
    lemma_concat_contains(flag, added, x);
    if flag.contains(x) {
        assert(flag[0] == x);
    } else if added.contains(x) {
        lemma_unmatched_origin(ChangeKind::Added, Area::Field, ctx, name, false, n.fields@, o.fields@, x);
    } else if removed.contains(x) {
        lemma_unmatched_origin(ChangeKind::Removed, Area::Field, ctx, name, false, o.fields@, n.fields@, x);
    } else if retypes.contains(x) {
        let f = retyped_step(ctx, name, o.fields@);
        lemma_flat_map_origin(n.fields@, f, x);
        let k = choose|k: int| 0 <= k < n.fields@.len() && #[trigger] f(n.fields@[k]).contains(x);
        assert(f(n.fields@[k])[0] == x);
    } else {
        lemma_unmatched_origin(ChangeKind::Added, Area::Invariant, ctx, name, true, n.invariants@, o.invariants@, x);
    }
}

proof fn lemma_service_changes_area(ctx: Seq<char>, o: Service, n: Service, x: ChangeView)
    requires
        service_changes(ctx, o, n).contains(x),
    ensures
        !inner_area(x.target.area),
{
    let name = n.name@;
    let kind = if o.kind != n.kind {
        seq![
            crate::change::change_of(
                ChangeKind::Modified,
                crate::diff::target(Area::ServiceLayer, ctx, name, Seq::empty()),
                Some(crate::change::SnapshotView::Kind(o.kind)),
                Some(crate::change::SnapshotView::Kind(n.kind)),
            ),
        ]
    } else {
        Seq::empty()
    };
    let added_methods = unmatched(ChangeKind::Added, Area::ServiceMethod, ctx, name, false, n.methods@, o.methods@);
    let removed_methods = unmatched(ChangeKind::Removed, Area::ServiceMethod, ctx, name, false, o.methods@, n.methods@);
    let added_deps = unmatched(ChangeKind::Added, Area::ServiceDependency, ctx, name, false, n.dependencies@, o.dependencies@);
    let removed_deps = unmatched(ChangeKind::Removed, Area::ServiceDependency, ctx, name, false, o.dependencies@, n.dependencies@);
    assert(service_changes(ctx, o, n) == kind + added_methods + removed_methods + added_deps + removed_deps);
    lemma_concat_contains(kind + added_methods + removed_methods + added_deps, removed_deps, x);
    lemma_concat_contains(kind + added_methods + removed_methods, added_deps, x);
    lemma_concat_contains(kind + added_methods, removed_methods, x);
    lemma_concat_contains(kind, added_methods, x);
    if kind.contains(x) {
        assert(kind[0] == x);
    } else if added_methods.contains(x) {
        lemma_unmatched_origin(ChangeKind::Added, Area::ServiceMethod, ctx, name, false, n.methods@, o.methods@, x);
    } else if removed_methods.contains(x) {
        lemma_unmatched_origin(ChangeKind::Removed, Area::ServiceMethod, ctx, name, false, o.methods@, n.methods@, x);
    } else if added_deps.contains(x) {
        lemma_unmatched_origin(ChangeKind::Added, Area::ServiceDependency, ctx, name, false, n.dependencies@, o.dependencies@, x);
    } else {
        lemma_unmatched_origin(ChangeKind::Removed, Area::ServiceDependency, ctx, name, false, o.dependencies@, n.dependencies@, x);
    }
}

proof fn lemma_mirror_unmatched<T: Artifact>(
    kind: ChangeKind,
    area: Area,
    ctx1: Seq<char>,
    ctx2: Seq<char>,
    from: Seq<T>,
    against: Seq<T>,
    c: ChangeView,
) -> (d: ChangeView)
    requires
        kind == ChangeKind::Added || kind == ChangeKind::Removed,
        unmatched(kind, area, ctx1, Seq::empty(), false, from, against).contains(c),
    ensures
        unmatched(flipped(kind), area, ctx2, Seq::empty(), false, from, against).contains(d),
        c.kind == kind,
        d.kind == flipped(kind),
        c.target.area == area,
        d.target.area == area,
        c.target.context == ctx1,
        d.target.context == ctx2,
        c.target.owner == d.target.owner,
        c.target.name == d.target.name,
        c.path == path_of(c.target),
        d.path == path_of(d.target),
{
    let e = Seq::<char>::empty();
    lemma_unmatched_origin(kind, area, ctx1, e, false, from, against, c);
    let k = choose|k: int|
        0 <= k < from.len() && !has_key(against, from[k].key(), false) && c == one_sided(
            kind,
            area,
            ctx1,
            e,
            #[trigger] from[k],
        );
    lemma_unmatched_member(flipped(kind), area, ctx2, e, false, from, against, k);
    one_sided(flipped(kind), area, ctx2, e, from[k])
}

proof fn lemma_no_key<T: Artifact>(s: Seq<T>, k: Seq<char>, exact: bool)
    ensures
        first_key(s, k, exact) is None <==> !has_key(s, k, exact),
{
    lemma_first_key_found(s, k, exact, s.len() as int);
}

/// Within one pair of contexts, an artifact reported added one way round is
/// reported removed the other way round, and vice versa.
proof fn lemma_context_mirror(o: BoundedContext, n: BoundedContext, c: ChangeView) -> (d: ChangeView)
    requires
        context_changes(o, n).contains(c),
        c.kind == ChangeKind::Added || c.kind == ChangeKind::Removed,
        inner_area(c.target.area),
    ensures
        context_changes(n, o).contains(d),
        d.kind == flipped(c.kind),
        d.target.area == c.target.area,
        c.target.context == n.name@,
        d.target.context == o.name@,
        c.target.owner == d.target.owner,
        c.target.name == d.target.name,
        c.path == path_of(c.target),
        d.path == path_of(d.target),
{
    let e = Seq::<char>::empty();
    lemma_ctx_parts(o, n);
    lemma_ctx_parts(n, o);
    lemma_ctx_parts_split(o, n, 13, c);
    let m = choose|m: int| 0 <= m < 13 && #[trigger] ctx_part(o, n, m).contains(c);
    let d;
    let mm;
    if m == 0 {
        assert(ctx_part(o, n, 0)[0] == c);
        assert(false);
        d = c;
        mm = 0;
    } else if m == 1 || m == 3 {
        let ghost ents = m == 1;
        if ents {
            let f = entity_step(n.name@, o.entities@);
            lemma_flat_map_origin(n.entities@, f, c);
            let k = choose|k: int| 0 <= k < n.entities@.len() && #[trigger] f(n.entities@[k]).contains(c);
            let y = n.entities@[k];
            lemma_no_key(o.entities@, y.key(), false);
            match first_key(o.entities@, y.key(), false) {
                Some(i) => {
                    lemma_entity_changes_area(n.name@, o.entities@[i], y, c);
                    assert(false);
                },
                None => {
                    assert(f(y)[0] == c);
                },
            }
            lemma_unmatched_member(ChangeKind::Removed, Area::Entity, o.name@, e, false, n.entities@, o.entities@, k);
            d = one_sided(ChangeKind::Removed, Area::Entity, o.name@, e, y);
            mm = 2;
        } else {
            let f = service_step(n.name@, o.services@);
            lemma_flat_map_origin(n.services@, f, c);
            let k = choose|k: int| 0 <= k < n.services@.len() && #[trigger] f(n.services@[k]).contains(c);
            let y = n.services@[k];
            lemma_no_key(o.services@, y.key(), false);
            match first_key(o.services@, y.key(), false) {
                Some(i) => {
                    lemma_service_changes_area(n.name@, o.services@[i], y, c);
                    assert(false);
                },
                None => {
                    assert(f(y)[0] == c);
                },
            }
            lemma_unmatched_member(ChangeKind::Removed, Area::Service, o.name@, e, false, n.services@, o.services@, k);
            d = one_sided(ChangeKind::Removed, Area::Service, o.name@, e, y);
            mm = 4;
        }
    } else if m == 2 {
        lemma_unmatched_origin(ChangeKind::Removed, Area::Entity, n.name@, e, false, o.entities@, n.entities@, c);
        let k = choose|k: int|
            0 <= k < o.entities@.len() && !has_key(n.entities@, o.entities@[k].key(), false) && c
                == one_sided(ChangeKind::Removed, Area::Entity, n.name@, e, #[trigger] o.entities@[k]);
        let x = o.entities@[k];
        lemma_no_key(n.entities@, x.key(), false);
        let f = entity_step(o.name@, n.entities@);
        d = one_sided(ChangeKind::Added, Area::Entity, o.name@, e, x);
        assert(f(x)[0] == d);
        lemma_flat_map_member(o.entities@, f, k, d);
        mm = 1;
    } else if m == 4 {
        lemma_unmatched_origin(ChangeKind::Removed, Area::Service, n.name@, e, false, o.services@, n.services@, c);
        let k = choose|k: int|
            0 <= k < o.services@.len() && !has_key(n.services@, o.services@[k].key(), false) && c
                == one_sided(ChangeKind::Removed, Area::Service, n.name@, e, #[trigger] o.services@[k]);
        let x = o.services@[k];
        lemma_no_key(n.services@, x.key(), false);
        let f = service_step(o.name@, n.services@);
        d = one_sided(ChangeKind::Added, Area::Service, o.name@, e, x);
        assert(f(x)[0] == d);
        lemma_flat_map_member(o.services@, f, k, d);
        mm = 3;
    } else if m == 5 {
        d = lemma_mirror_unmatched(ChangeKind::Added, Area::Event, n.name@, o.name@, n.events@, o.events@, c);
        mm = 6;
    } else if m == 6 {
        d = lemma_mirror_unmatched(ChangeKind::Removed, Area::Event, n.name@, o.name@, o.events@, n.events@, c);
        mm = 5;
    } else if m == 7 {
        d = lemma_mirror_unmatched(ChangeKind::Added, Area::ValueObject, n.name@, o.name@, n.value_objects@, o.value_objects@, c);
        mm = 8;
    } else if m == 8 {
        d = lemma_mirror_unmatched(ChangeKind::Removed, Area::ValueObject, n.name@, o.name@, o.value_objects@, n.value_objects@, c);
        mm = 7;
    } else if m == 9 {
        d = lemma_mirror_unmatched(ChangeKind::Added, Area::Repository, n.name@, o.name@, n.repositories@, o.repositories@, c);
        mm = 10;
    } else if m == 10 {
        d = lemma_mirror_unmatched(ChangeKind::Removed, Area::Repository, n.name@, o.name@, o.repositories@, n.repositories@, c);
        mm = 9;
    } else if m == 11 {
        d = lemma_mirror_unmatched(ChangeKind::Added, Area::Dependency, n.name@, o.name@, n.dependencies@, o.dependencies@, c);
        mm = 12;
    } else {
        d = lemma_mirror_unmatched(ChangeKind::Removed, Area::Dependency, n.name@, o.name@, o.dependencies@, n.dependencies@, c);
        mm = 11;
    }
    assert(ctx_part(n, o, mm).contains(d));
    lemma_ctx_parts_split(n, o, 13, d);
    d
}

proof fn lemma_lower_concat(p: Seq<char>, q: Seq<char>)
    ensures
        ascii_lower_seq(p + q) == ascii_lower_seq(p) + ascii_lower_seq(q),
{
    assert(ascii_lower_seq(p + q) =~= ascii_lower_seq(p) + ascii_lower_seq(q));
}

proof fn lemma_inner_path(t1: TargetView, t2: TargetView)
    requires
        inner_area(t1.area),
        t1.area == t2.area,
        t1.name == t2.name,
        same_name(t1.context, t2.context),
    ensures
        same_name(path_of(t1), path_of(t2)),
{
    let lit = match t1.area {
        Area::Entity => ".entities."@,
        Area::Service => ".services."@,
        Area::Event => ".events."@,
        Area::ValueObject => ".value_objects."@,
        Area::Repository => ".repositories."@,
        _ => ".dependencies."@,
    };
    assert(path_of(t1) == t1.context + lit + t1.name);
    assert(path_of(t2) == t2.context + lit + t2.name);
    lemma_lower_concat(t1.context + lit, t1.name);
    lemma_lower_concat(t1.context, lit);
    lemma_lower_concat(t2.context + lit, t2.name);
    lemma_lower_concat(t2.context, lit);
}

/// Contexts of `a` and `b` that match up to ASCII case have exactly the same
/// name.
pub open spec fn matched_names_equal(a: DomainModel, b: DomainModel) -> bool {
    forall|i: int, j: int|
        0 <= i < a.bounded_contexts@.len() && 0 <= j < b.bounded_contexts@.len() && same_name(
            #[trigger] a.bounded_contexts@[i].name@,
            #[trigger] b.bounded_contexts@[j].name@,
        ) ==> a.bounded_contexts@[i].name@ == b.bounded_contexts@[j].name@
}

/// For artifacts inside a context (entities, services, events, value
/// objects, repositories, dependencies): what `diff(a, b)` reports as
/// removed, `diff(b, a)` reports as added, in the same area, at the same
/// logical path (equal up to ASCII case, as context names are; byte for byte
/// when matching contexts are spelt alike), and what it reports as added,
/// `diff(b, a)` reports as removed. Context names must be unique in each
/// model.
pub proof fn diff_symmetric(a: DomainModel, b: DomainModel, c: ChangeView)
    requires
        distinct_keys(a.bounded_contexts@, false),
        distinct_keys(b.bounded_contexts@, false),
        model_changes(a, b).contains(c),
        c.kind == ChangeKind::Added || c.kind == ChangeKind::Removed,
        inner_area(c.target.area),
    ensures
        exists|d: ChangeView|
            #[trigger] model_changes(b, a).contains(d) && d.kind == flipped(c.kind)
                && d.target.area == c.target.area && same_name(d.path, c.path) && (
            matched_names_equal(a, b) ==> d.path == c.path),
{
    let e = Seq::<char>::empty();
    let contexts = flat_map(b.bounded_contexts@, context_step(a.bounded_contexts@));
    let removed_contexts = unmatched(ChangeKind::Removed, Area::Context, e, e, false, a.bounded_contexts@, b.bounded_contexts@);
    let added_rules = unmatched(ChangeKind::Added, Area::Rule, e, e, true, b.rules@, a.rules@);
    let removed_rules = unmatched(ChangeKind::Removed, Area::Rule, e, e, true, a.rules@, b.rules@);
    let modified_rules = flat_map(b.rules@, rule_step(a.rules@));
    assert(model_changes(a, b) == contexts + removed_contexts + added_rules + removed_rules + modified_rules);
    lemma_concat_contains(contexts + removed_contexts + added_rules + removed_rules, modified_rules, c);
    lemma_concat_contains(contexts + removed_contexts + added_rules, removed_rules, c);
    lemma_concat_contains(contexts + removed_contexts, added_rules, c);
    lemma_concat_contains(contexts, removed_contexts, c);
    if removed_contexts.contains(c) {
        lemma_unmatched_origin(ChangeKind::Removed, Area::Context, e, e, false, a.bounded_contexts@, b.bounded_contexts@, c);
        assert(false);
    }
    if added_rules.contains(c) {
        lemma_unmatched_origin(ChangeKind::Added, Area::Rule, e, e, true, b.rules@, a.rules@, c);
        assert(false);
    }
    if removed_rules.contains(c) {
        lemma_unmatched_origin(ChangeKind::Removed, Area::Rule, e, e, true, a.rules@, b.rules@, c);
        assert(false);
    }
    if modified_rules.contains(c) {
        let f = rule_step(a.rules@);
        lemma_flat_map_origin(b.rules@, f, c);
        let k = choose|k: int| 0 <= k < b.rules@.len() && #[trigger] f(b.rules@[k]).contains(c);
        assert(f(b.rules@[k])[0] == c);
        assert(false);
    }
    let fc = context_step(a.bounded_contexts@);
    lemma_flat_map_origin(b.bounded_contexts@, fc, c);
    let j = choose|j: int| 0 <= j < b.bounded_contexts@.len() && #[trigger] fc(b.bounded_contexts@[j]).contains(c);
    let bj = b.bounded_contexts@[j];
    lemma_first_key_found(a.bounded_contexts@, bj.key(), false, a.bounded_contexts@.len() as int);
    match first_key(a.bounded_contexts@, bj.key(), false) {
        None => {
            assert(fc(bj)[0] == c);
            assert(false);
        },
        Some(i) => {
            let ai = a.bounded_contexts@[i];
            let d = lemma_context_mirror(ai, bj, c);
            lemma_first_key_of_match(b.bounded_contexts@, false, j, ai.key());
            let gc = context_step(b.bounded_contexts@);
            assert(gc(ai) == context_changes(bj, ai));
            lemma_flat_map_member(a.bounded_contexts@, gc, i, d);
            let back_contexts = flat_map(a.bounded_contexts@, gc);
            let back_removed_contexts = unmatched(ChangeKind::Removed, Area::Context, e, e, false, b.bounded_contexts@, a.bounded_contexts@);
            let back_added_rules = unmatched(ChangeKind::Added, Area::Rule, e, e, true, a.rules@, b.rules@);
            let back_removed_rules = unmatched(ChangeKind::Removed, Area::Rule, e, e, true, b.rules@, a.rules@);
            let back_modified_rules = flat_map(a.rules@, rule_step(b.rules@));
            assert(model_changes(b, a) == back_contexts + back_removed_contexts + back_added_rules + back_removed_rules + back_modified_rules);
            lemma_concat_contains(back_contexts, back_removed_contexts, d);
            lemma_concat_contains(back_contexts + back_removed_contexts, back_added_rules, d);
            lemma_concat_contains(back_contexts + back_removed_contexts + back_added_rules, back_removed_rules, d);
            lemma_concat_contains(back_contexts + back_removed_contexts + back_added_rules + back_removed_rules, back_modified_rules, d);
            lemma_inner_path(d.target, c.target);
            if matched_names_equal(a, b) {
                assert(same_name(ai.name@, bj.name@));
                assert(ai.name@ == bj.name@);
                assert(d.target == c.target);
            }
            assert(model_changes(b, a).contains(d));
        },
    }
}

} // verus!
