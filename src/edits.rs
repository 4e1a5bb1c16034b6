//! Write operations on a model, driven by plain values: create or update a
//! context, entity, service or event (merging field and method patches), and
//! remove an entity. Contexts and artifacts are found by name up to ASCII
//! case; fields and methods inside an artifact by exact name.
use vstd::prelude::*;
use crate::diff::{first_key, has_key, position, Artifact};
use crate::model::{
    contexts_view, entities_view, events_view, fields_view, methods_view, services_view,
    strings_view, BoundedContext, ContextView, DomainEvent,
    DomainEventView, DomainModel, Entity, EntityView, Field, FieldView, Method, MethodView,
    Service, ServiceKind, ServiceView,
};
use crate::protocol::{error_result, text_result, ToolCallResult};
use crate::seqs::{flat_map, lemma_flat_map_step};

verus! {

/// A field as a write request describes it; any part may be missing.
#[derive(Debug, Clone)]
pub struct FieldPatch {
    pub name: Option<String>,
    pub field_type: Option<String>,
    pub required: Option<bool>,
    pub description: Option<String>,
}

/// A method as a write request describes it; any part may be missing.
#[derive(Debug, Clone)]
pub struct MethodPatch {
    pub name: Option<String>,
    pub description: Option<String>,
    pub parameters: Option<Vec<FieldPatch>>,
    pub return_type: Option<String>,
}

pub open spec fn text_or(o: Option<String>, d: Seq<char>) -> Seq<char> {
    match o {
        Some(s) => s@,
        None => d,
    }
}

pub open spec fn flag_or(o: Option<bool>, d: bool) -> bool {
    match o {
        Some(b) => b,
        None => d,
    }
}

/// The first of the first `n` elements that satisfy `pred`.
pub open spec fn first_where<T>(s: Seq<T>, pred: spec_fn(T) -> bool, n: int) -> Option<int>
    decreases n,
{
    if n <= 0 {
        None
    } else {
        match first_where(s, pred, n - 1) {
            Some(i) => Some(i),
            None => if pred(s[n - 1]) {
                Some(n - 1)
            } else {
                None
            },
        }
    }
}

proof fn lemma_first_where_stays<T>(s: Seq<T>, pred: spec_fn(T) -> bool, n: int, m: int)
    requires
        n <= m,
        first_where(s, pred, n) is Some,
    ensures
        first_where(s, pred, m) == first_where(s, pred, n),
    decreases m - n,
{
    if n < m {
        lemma_first_where_stays(s, pred, n, m - 1);
    }
}

pub open spec fn field_named(n: Seq<char>) -> spec_fn(FieldView) -> bool {
    |f: FieldView| f.name == n
}

pub open spec fn method_named(n: Seq<char>) -> spec_fn(MethodView) -> bool {
    |m: MethodView| m.name == n
}

/// The field a complete patch describes: it needs a name and a type.
pub open spec fn field_of(p: FieldPatch) -> Option<FieldView> {
    match (p.name, p.field_type) {
        (Some(n), Some(t)) => Some(
            FieldView {
                name: n@,
                field_type: t@,
                required: flag_or(p.required, false),
                description: text_or(p.description, Seq::empty()),
            },
        ),
        _ => None,
    }
}

pub open spec fn field_step() -> spec_fn(FieldPatch) -> Seq<FieldView> {
    |p: FieldPatch|
        match field_of(p) {
            Some(f) => seq![f],
            None => Seq::empty(),
        }
}

/// The fields that the complete patches of `ps` describe, in order.
pub open spec fn fields_from(ps: Seq<FieldPatch>) -> Seq<FieldView> {
    flat_map(ps, field_step())
}

/// The method a patch describes: it needs a name.
pub open spec fn method_of(p: MethodPatch) -> Option<MethodView> {
    match p.name {
        Some(n) => Some(
            MethodView {
                name: n@,
                description: text_or(p.description, Seq::empty()),
                parameters: match p.parameters {
                    Some(v) => fields_from(v@),
                    None => Seq::empty(),
                },
                return_type: text_or(p.return_type, Seq::empty()),
            },
        ),
        None => None,
    }
}

pub open spec fn method_step() -> spec_fn(MethodPatch) -> Seq<MethodView> {
    |p: MethodPatch|
        match method_of(p) {
            Some(m) => seq![m],
            None => Seq::empty(),
        }
}

pub open spec fn methods_from(ps: Seq<MethodPatch>) -> Seq<MethodView> {
    flat_map(ps, method_step())
}

/// An existing field with the parts a patch gives replaced.
pub open spec fn patched_field(f: FieldView, p: FieldPatch) -> FieldView {
    FieldView {
        name: f.name,
        field_type: text_or(p.field_type, f.field_type),
        required: flag_or(p.required, f.required),
        description: text_or(p.description, f.description),
    }
}

/// One patch applied to a list of fields: the first field of that exact
/// name is patched; without one, a complete patch adds a field.
pub open spec fn merge_field(fs: Seq<FieldView>, p: FieldPatch) -> Seq<FieldView> {
    match p.name {
        None => fs,
        Some(n) => match first_where(fs, field_named(n@), fs.len() as int) {
            Some(i) => fs.update(i, patched_field(fs[i], p)),
            None => match field_of(p) {
                Some(f) => fs.push(f),
                None => fs,
            },
        },
    }
}

pub open spec fn merged_fields(fs: Seq<FieldView>, ps: Seq<FieldPatch>) -> Seq<FieldView>
    decreases ps.len(),
{
    if ps.len() == 0 {
        fs
    } else {
        merge_field(merged_fields(fs, ps.drop_last()), ps.last())
    }
}

/// An existing method with its description and return type replaced where
/// the patch gives them; parameters are kept.
pub open spec fn patched_method(m: MethodView, p: MethodPatch) -> MethodView {
    MethodView {
        name: m.name,
        description: text_or(p.description, m.description),
        parameters: m.parameters,
        return_type: text_or(p.return_type, m.return_type),
    }
}

pub open spec fn merge_method(ms: Seq<MethodView>, p: MethodPatch) -> Seq<MethodView> {
    match p.name {
        None => ms,
        Some(n) => match first_where(ms, method_named(n@), ms.len() as int) {
            Some(i) => ms.update(i, patched_method(ms[i], p)),
            None => match method_of(p) {
                Some(m) => ms.push(m),
                None => ms,
            },
        },
    }
}

pub open spec fn merged_methods(ms: Seq<MethodView>, ps: Seq<MethodPatch>) -> Seq<MethodView>
    decreases ps.len(),
{
    if ps.len() == 0 {
        ms
    } else {
        merge_method(merged_methods(ms, ps.drop_last()), ps.last())
    }
}

fn copy_text(o: &Option<String>, default: &str) -> (r: String)
    ensures
        r@ == text_or(*o, default@),
{
    match o {
        Some(s) => s.clone(),
        None => String::from_str(default),
    }
}

fn empty_text() -> (r: String)
    ensures
        r@ == Seq::<char>::empty(),
{
    String::new()
}

fn field_from(p: &FieldPatch) -> (r: Option<Field>)
    ensures
        match field_of(*p) {
            Some(f) => r is Some && r->0@ == f,
            None => r is None,
        },
{
    match (&p.name, &p.field_type) {
        (Some(n), Some(t)) => {
            let e = empty_text();
            Some(
                Field {
                    name: n.clone(),
                    field_type: t.clone(),
                    required: match p.required {
                        Some(b) => b,
                        None => false,
                    },
                    description: copy_text(&p.description, e.as_str()),
                },
            )
        },
        _ => None,
    }
}

/// The fields that the complete patches describe, in order.
pub fn parse_fields(ps: &Vec<FieldPatch>) -> (r: Vec<Field>)
    ensures
        fields_view(r@) == fields_from(ps@),
{
    let ghost f = field_step();
    let mut out: Vec<Field> = Vec::new();
    let mut i: usize = 0;
    proof {
        assert(fields_view(out@) =~= flat_map(ps@.take(0), f));
    }
    while i < ps.len()
        invariant
            i <= ps@.len(),
            f == field_step(),
            fields_view(out@) == flat_map(ps@.take(i as int), f),
        decreases ps@.len() - i,
    {
        match field_from(&ps[i]) {
            Some(fd) => {
                out.push(fd);
            },
            None => {},
        }
        proof {
            lemma_flat_map_step(ps@, f, i as int);
            assert(fields_view(out@) =~= flat_map(ps@.take(i + 1), f));
        }
        i = i + 1;
    }
    proof {
        assert(ps@.take(ps@.len() as int) =~= ps@);
    }
    out
}

fn method_from(p: &MethodPatch) -> (r: Option<Method>)
    ensures
        match method_of(*p) {
            Some(m) => r is Some && r->0@ == m,
            None => r is None,
        },
{
    match &p.name {
        Some(n) => {
            let e = empty_text();
            let parameters = match &p.parameters {
                Some(v) => parse_fields(v),
                None => Vec::new(),
            };
            proof {
                if p.parameters is None {
                    assert(fields_view(parameters@) =~= Seq::<FieldView>::empty());
                }
            }
            Some(
                Method {
                    name: n.clone(),
                    description: copy_text(&p.description, e.as_str()),
                    parameters,
                    return_type: copy_text(&p.return_type, e.as_str()),
                },
            )
        },
        None => None,
    }
}

/// The methods that the named patches describe, in order.
pub fn parse_methods(ps: &Vec<MethodPatch>) -> (r: Vec<Method>)
    ensures
        methods_view(r@) == methods_from(ps@),
{
    let ghost f = method_step();
    let mut out: Vec<Method> = Vec::new();
    let mut i: usize = 0;
    proof {
        assert(methods_view(out@) =~= flat_map(ps@.take(0), f));
    }
    while i < ps.len()
        invariant
            i <= ps@.len(),
            f == method_step(),
            methods_view(out@) == flat_map(ps@.take(i as int), f),
        decreases ps@.len() - i,
    {
        match method_from(&ps[i]) {
            Some(m) => {
                out.push(m);
            },
            None => {},
        }
        proof {
            lemma_flat_map_step(ps@, f, i as int);
            assert(methods_view(out@) =~= flat_map(ps@.take(i + 1), f));
        }
        i = i + 1;
    }
    proof {
        assert(ps@.take(ps@.len() as int) =~= ps@);
    }
    out
}

fn find_field(fs: &Vec<Field>, name: &String) -> (r: Option<usize>)
    ensures
        match r {
            Some(i) => i < fs@.len() && first_where(
                fields_view(fs@),
                field_named(name@),
                fs@.len() as int,
            ) == Some(i as int),
            None => first_where(fields_view(fs@), field_named(name@), fs@.len() as int) is None,
        },
{
    let ghost v = fields_view(fs@);
    let mut i: usize = 0;
    while i < fs.len()
        invariant
            i <= fs@.len(),
            v == fields_view(fs@),
            first_where(v, field_named(name@), i as int) is None,
        decreases fs@.len() - i,
    {
        if fs[i].name == *name {
            proof {
                lemma_first_where_stays(v, field_named(name@), i + 1, fs@.len() as int);
            }
            return Some(i);
        }
        i = i + 1;
    }
    None
}

fn find_method(ms: &Vec<Method>, name: &String) -> (r: Option<usize>)
    ensures
        match r {
            Some(i) => i < ms@.len() && first_where(
                methods_view(ms@),
                method_named(name@),
                ms@.len() as int,
            ) == Some(i as int),
            None => first_where(methods_view(ms@), method_named(name@), ms@.len() as int) is None,
        },
{
    let ghost v = methods_view(ms@);
    let mut i: usize = 0;
    while i < ms.len()
        invariant
            i <= ms@.len(),
            v == methods_view(ms@),
            first_where(v, method_named(name@), i as int) is None,
        decreases ms@.len() - i,
    {
        if ms[i].name == *name {
            proof {
                lemma_first_where_stays(v, method_named(name@), i + 1, ms@.len() as int);
            }
            return Some(i);
        }
        i = i + 1;
    }
    None
}

/// Applies field patches in order: a patch names the field it changes
/// (exactly); a field it does not find is added when the patch is complete.
pub fn merge_fields(existing: &mut Vec<Field>, patches: &Vec<FieldPatch>)
    ensures
        fields_view(final(existing)@) == merged_fields(fields_view(old(existing)@), patches@),
{
    let ghost start = fields_view(existing@);
    let mut i: usize = 0;
    while i < patches.len()
        invariant
            i <= patches@.len(),
            fields_view(existing@) == merged_fields(start, patches@.take(i as int)),
        decreases patches@.len() - i,
    {
        let p = &patches[i];
        proof {
            assert(patches@.take(i + 1).drop_last() =~= patches@.take(i as int));
        }
        match &p.name {
            None => {},
            Some(n) => {
                match find_field(existing, n) {
                    Some(j) => {
                        let cur = &existing[j];
                        let updated = Field {
                            name: cur.name.clone(),
                            field_type: copy_text(&p.field_type, cur.field_type.as_str()),
                            required: match p.required {
                                Some(b) => b,
                                None => cur.required,
                            },
                            description: copy_text(&p.description, cur.description.as_str()),
                        };
                        existing.set(j, updated);
                        proof {
                            assert(fields_view(existing@) =~= merged_fields(start, patches@.take(i + 1)));
                        }
                    },
                    None => {
                        match field_from(p) {
                            Some(f) => {
                                existing.push(f);
                                proof {
                                    assert(fields_view(existing@) =~= merged_fields(start, patches@.take(i + 1)));
                                }
                            },
                            None => {},
                        }
                    },
                }
            },
        }
        i = i + 1;
    }
    proof {
        assert(patches@.take(patches@.len() as int) =~= patches@);
    }
}

/// Applies method patches in order: a patch names the method it changes
/// (exactly), replacing its description and return type where given; a
/// method it does not find is added.
pub fn merge_methods(existing: &mut Vec<Method>, patches: &Vec<MethodPatch>)
    ensures
        methods_view(final(existing)@) == merged_methods(methods_view(old(existing)@), patches@),
{
    let ghost start = methods_view(existing@);
    let mut i: usize = 0;
    while i < patches.len()
        invariant
            i <= patches@.len(),
            methods_view(existing@) == merged_methods(start, patches@.take(i as int)),
        decreases patches@.len() - i,
    {
        let p = &patches[i];
        proof {
            assert(patches@.take(i + 1).drop_last() =~= patches@.take(i as int));
        }
        match &p.name {
            None => {},
            Some(n) => {
                match find_method(existing, n) {
                    Some(j) => {
                        let cur = &existing[j];
                        let updated = Method {
                            name: cur.name.clone(),
                            description: copy_text(&p.description, cur.description.as_str()),
                            parameters: cur.parameters.clone(),
                            return_type: copy_text(&p.return_type, cur.return_type.as_str()),
                        };
                        proof {
                            assert(fields_view(updated.parameters@) =~= fields_view(cur.parameters@));
                        }
                        existing.set(j, updated);
                        proof {
                            assert(methods_view(existing@) =~= merged_methods(start, patches@.take(i + 1)));
                        }
                    },
                    None => {
                        match method_from(p) {
                            Some(m) => {
                                existing.push(m);
                                proof {
                                    assert(methods_view(existing@) =~= merged_methods(start, patches@.take(i + 1)));
                                }
                            },
                            None => {},
                        }
                    },
                }
            },
        }
        i = i + 1;
    }
    proof {
        assert(patches@.take(patches@.len() as int) =~= patches@);
    }
}

// ─── Write operations ──────────────────────────────────────────────────────

/// Create or update a bounded context.
#[derive(Debug, Clone)]
pub struct ContextUpdate {
    pub name: String,
    pub description: Option<String>,
    pub module: Option<String>,
    pub dependencies: Option<Vec<String>>,
}

/// Create or update an entity of a context.
#[derive(Debug, Clone)]
pub struct EntityUpdate {
    pub context: String,
    pub name: String,
    pub description: Option<String>,
    pub aggregate_root: Option<bool>,
    pub fields: Option<Vec<FieldPatch>>,
    pub methods: Option<Vec<MethodPatch>>,
    pub invariants: Option<Vec<String>>,
}

/// Create or update a service of a context; its kind is always set.
#[derive(Debug, Clone)]
pub struct ServiceUpdate {
    pub context: String,
    pub name: String,
    pub kind: ServiceKind,
    pub description: Option<String>,
    pub methods: Option<Vec<MethodPatch>>,
    pub dependencies: Option<Vec<String>>,
}

/// Create or update a domain event of a context.
#[derive(Debug, Clone)]
pub struct EventUpdate {
    pub context: String,
    pub name: String,
    pub description: Option<String>,
    pub source: Option<String>,
    pub fields: Option<Vec<FieldPatch>>,
}

/// A tool result with one text block, failed or not.
pub open spec fn answers(r: ToolCallResult, failed: bool, text: Seq<char>) -> bool {
    &&& r.content@.len() == 1
    &&& r.content@[0].text_of() == text
    &&& if failed {
        r.is_error == Some(true)
    } else {
        r.is_error is None
    }
}

/// Everything but the contexts is as it was.
pub open spec fn others_kept(a: DomainModel, b: DomainModel) -> bool {
    &&& a.name == b.name
    &&& a.description == b.description
    &&& a.rules == b.rules
    &&& a.tech_stack == b.tech_stack
    &&& a.conventions == b.conventions
}

pub open spec fn deps_or(o: Option<Vec<String>>, d: Seq<Seq<char>>) -> Seq<Seq<char>> {
    match o {
        Some(v) => strings_view(v@),
        None => d,
    }
}

pub open spec fn no_context_msg(ctx: Seq<char>) -> Seq<char> {
    "Bounded context '"@ + ctx + "' not found"@
}

pub open spec fn patched_context(c: ContextView, u: ContextUpdate) -> ContextView {
    ContextView {
        description: text_or(u.description, c.description),
        module: text_or(u.module, c.module),
        dependencies: deps_or(u.dependencies, c.dependencies),
        ..c
    }
}

pub open spec fn new_context(u: ContextUpdate) -> ContextView {
    ContextView {
        name: u.name@,
        description: text_or(u.description, Seq::empty()),
        module: text_or(u.module, Seq::empty()),
        entities: Seq::empty(),
        value_objects: Seq::empty(),
        services: Seq::empty(),
        repositories: Seq::empty(),
        events: Seq::empty(),
        dependencies: deps_or(u.dependencies, Seq::empty()),
    }
}

/// `invs` with each of `add` appended that it does not hold yet.
pub open spec fn with_invariants(invs: Seq<Seq<char>>, add: Seq<String>) -> Seq<Seq<char>>
    decreases add.len(),
{
    if add.len() == 0 {
        invs
    } else {
        let prev = with_invariants(invs, add.drop_last());
        if prev.contains(add.last()@) {
            prev
        } else {
            prev.push(add.last()@)
        }
    }
}

pub open spec fn patched_entity(e: EntityView, u: EntityUpdate) -> EntityView {
    EntityView {
        name: e.name,
        description: text_or(u.description, e.description),
        aggregate_root: flag_or(u.aggregate_root, e.aggregate_root),
        fields: match u.fields {
            Some(ps) => merged_fields(e.fields, ps@),
            None => e.fields,
        },
        methods: match u.methods {
            Some(ps) => merged_methods(e.methods, ps@),
            None => e.methods,
        },
        invariants: match u.invariants {
            Some(v) => with_invariants(e.invariants, v@),
            None => e.invariants,
        },
    }
}

pub open spec fn new_entity(u: EntityUpdate) -> EntityView {
    EntityView {
        name: u.name@,
        description: text_or(u.description, Seq::empty()),
        aggregate_root: flag_or(u.aggregate_root, false),
        fields: match u.fields {
            Some(ps) => fields_from(ps@),
            None => Seq::empty(),
        },
        methods: match u.methods {
            Some(ps) => methods_from(ps@),
            None => Seq::empty(),
        },
        invariants: deps_or(u.invariants, Seq::empty()),
    }
}

/// A context after an entity update: the first entity of that name
/// (up to ASCII case) is patched, or a new one is appended.
pub open spec fn entity_upserted(bc: BoundedContext, u: EntityUpdate) -> ContextView {
    match first_key(bc.entities@, u.name@, false) {
        Some(j) => ContextView {
            entities: bc@.entities.update(j, patched_entity(bc.entities@[j]@, u)),
            ..bc@
        },
        None => ContextView { entities: bc@.entities.push(new_entity(u)), ..bc@ },
    }
}

pub open spec fn patched_service(s: ServiceView, u: ServiceUpdate) -> ServiceView {
    ServiceView {
        name: s.name,
        description: text_or(u.description, s.description),
        kind: u.kind,
        methods: match u.methods {
            Some(ps) => merged_methods(s.methods, ps@),
            None => s.methods,
        },
        dependencies: deps_or(u.dependencies, s.dependencies),
    }
}

pub open spec fn new_service(u: ServiceUpdate) -> ServiceView {
    ServiceView {
        name: u.name@,
        description: text_or(u.description, Seq::empty()),
        kind: u.kind,
        methods: match u.methods {
            Some(ps) => methods_from(ps@),
            None => Seq::empty(),
        },
        dependencies: deps_or(u.dependencies, Seq::empty()),
    }
}

pub open spec fn service_upserted(bc: BoundedContext, u: ServiceUpdate) -> ContextView {
    match first_key(bc.services@, u.name@, false) {
        Some(j) => ContextView {
            services: bc@.services.update(j, patched_service(bc.services@[j]@, u)),
            ..bc@
        },
        None => ContextView { services: bc@.services.push(new_service(u)), ..bc@ },
    }
}

pub open spec fn patched_event(e: DomainEventView, u: EventUpdate) -> DomainEventView {
    DomainEventView {
        name: e.name,
        description: text_or(u.description, e.description),
        fields: match u.fields {
            Some(ps) => merged_fields(e.fields, ps@),
            None => e.fields,
        },
        source: text_or(u.source, e.source),
    }
}

pub open spec fn new_event(u: EventUpdate) -> DomainEventView {
    DomainEventView {
        name: u.name@,
        description: text_or(u.description, Seq::empty()),
        fields: match u.fields {
            Some(ps) => fields_from(ps@),
            None => Seq::empty(),
        },
        source: text_or(u.source, Seq::empty()),
    }
}

pub open spec fn event_upserted(bc: BoundedContext, u: EventUpdate) -> ContextView {
    match first_key(bc.events@, u.name@, false) {
        Some(j) => ContextView {
            events: bc@.events.update(j, patched_event(bc.events@[j]@, u)),
            ..bc@
        },
        None => ContextView { events: bc@.events.push(new_event(u)), ..bc@ },
    }
}

pub open spec fn keep_step(name: Seq<char>) -> spec_fn(Entity) -> Seq<EntityView> {
    |e: Entity|
        if crate::names::same_name(e.name@, name) {
            Seq::empty()
        } else {
            seq![e@]
        }
}

/// The entities whose names differ from `name` up to ASCII case.
pub open spec fn entities_without(es: Seq<Entity>, name: Seq<char>) -> Seq<EntityView> {
    flat_map(es, keep_step(name))
}

fn blank_context() -> BoundedContext {
    BoundedContext {
        name: String::new(),
        description: String::new(),
        module: String::new(),
        entities: Vec::new(),
        value_objects: Vec::new(),
        services: Vec::new(),
        repositories: Vec::new(),
        events: Vec::new(),
        dependencies: Vec::new(),
    }
}

fn context_message(prefix: &str, name: &String, ctx: &String) -> (r: String)
    ensures
        r@ == prefix@ + name@ + "' in '"@ + ctx@ + "'"@,
{
    String::from_str(prefix).concat(name.as_str()).concat("' in '").concat(ctx.as_str()).concat("'")
}

fn no_context(ctx: &String) -> (r: ToolCallResult)
    ensures
        answers(r, true, no_context_msg(ctx@)),
{
    error_result(String::from_str("Bounded context '").concat(ctx.as_str()).concat("' not found"))
}

/// Creates the named context, or updates the description, module path and
/// dependencies of the first context of that name (up to ASCII case) where
/// given. A context needs a name.
pub fn update_bounded_context(model: &mut DomainModel, u: ContextUpdate) -> (r: ToolCallResult)
    ensures
        others_kept(*final(model), *old(model)),
        u.name@.len() == 0 ==> answers(r, true, "'name' is required"@)
            && final(model).bounded_contexts@ == old(model).bounded_contexts@,
        u.name@.len() > 0 ==> match first_key(old(model).bounded_contexts@, u.name@, false) {
            Some(i) => answers(r, false, "Updated bounded context '"@ + u.name@ + "'"@)
                && contexts_view(final(model).bounded_contexts@) == contexts_view(
                old(model).bounded_contexts@,
            ).update(i, patched_context(old(model).bounded_contexts@[i]@, u)),
            None => answers(r, false, "Created bounded context '"@ + u.name@ + "'"@)
                && contexts_view(final(model).bounded_contexts@) == contexts_view(
                old(model).bounded_contexts@,
            ).push(new_context(u)),
        },
{
    if crate::names::is_blank(&u.name) {
        return error_result(String::from_str("'name' is required"));
    }
    let ghost u0 = u;
    let ghost before = model.bounded_contexts@;
    match position(&model.bounded_contexts, &u.name, false) {
        Some(i) => {
            let msg = String::from_str("Updated bounded context '").concat(u.name.as_str()).concat(
                "'",
            );
            let mut bc = blank_context();
            model.bounded_contexts.set_and_swap(i, &mut bc);
            let ContextUpdate { name: _, description, module, dependencies } = u;
            match description {
                Some(d) => {
                    bc.description = d;
                },
                None => {},
            }
            match module {
                Some(m) => {
                    bc.module = m;
                },
                None => {},
            }
            match dependencies {
                Some(d) => {
                    bc.dependencies = d;
                },
                None => {},
            }
            model.bounded_contexts.set(i, bc);
            proof {
                assert(contexts_view(model.bounded_contexts@) =~= contexts_view(before).update(
                    i as int,
                    patched_context(before[i as int]@, u0),
                ));
            }
            text_result(msg)
        },
        None => {
            let msg = String::from_str("Created bounded context '").concat(u.name.as_str()).concat(
                "'",
            );
            let ContextUpdate { name, description, module, dependencies } = u;
            let e = empty_text();
            let bc = BoundedContext {
                name,
                description: copy_text(&description, e.as_str()),
                module: copy_text(&module, e.as_str()),
                entities: Vec::new(),
                value_objects: Vec::new(),
                services: Vec::new(),
                repositories: Vec::new(),
                events: Vec::new(),
                dependencies: match dependencies {
                    Some(d) => d,
                    None => Vec::new(),
                },
            };
            proof {
                assert(bc@.entities =~= Seq::<EntityView>::empty());
                assert(bc@.value_objects =~= Seq::<crate::model::ValueObjectView>::empty());
                assert(bc@.services =~= Seq::<ServiceView>::empty());
                assert(bc@.repositories =~= Seq::<crate::model::RepositoryView>::empty());
                assert(bc@.events =~= Seq::<DomainEventView>::empty());
                assert(bc@.dependencies =~= deps_or(u0.dependencies, Seq::empty()));
                assert(bc@ == new_context(u0));
            }
            model.bounded_contexts.push(bc);
            proof {
                assert(contexts_view(model.bounded_contexts@) =~= contexts_view(before).push(
                    new_context(u0),
                ));
            }
            text_result(msg)
        },
    }
}

fn add_invariants(invs: &mut Vec<String>, add: &Vec<String>)
    ensures
        strings_view(final(invs)@) == with_invariants(strings_view(old(invs)@), add@),
{
    let ghost start = strings_view(invs@);
    let mut i: usize = 0;
    while i < add.len()
        invariant
            i <= add@.len(),
            strings_view(invs@) == with_invariants(start, add@.take(i as int)),
        decreases add@.len() - i,
    {
        proof {
            assert(add@.take(i + 1).drop_last() =~= add@.take(i as int));
        }
        let s = &add[i];
        let present = crate::diff::contains_key(invs, s, true);
        proof {
            let v = strings_view(invs@);
            if present {
                let k = choose|k: int| 0 <= k < invs@.len() && crate::diff::keys_match(true, #[trigger] invs@[k].key(), s@);
                assert(v[k] == s@);
            } else {
                assert forall|k: int| 0 <= k < v.len() implies v[k] != s@ by {
                    assert(!crate::diff::keys_match(true, invs@[k].key(), s@));
                }
            }
        }
        if !present {
            invs.push(s.clone());
            proof {
                assert(strings_view(invs@) =~= with_invariants(start, add@.take(i + 1)));
            }
        }
        i = i + 1;
    }
    proof {
        assert(add@.take(add@.len() as int) =~= add@);
    }
}

fn blank_entity() -> Entity {
    Entity {
        name: String::new(),
        description: String::new(),
        aggregate_root: false,
        fields: Vec::new(),
        methods: Vec::new(),
        invariants: Vec::new(),
    }
}

fn patch_entity(e: &mut Entity, u: EntityUpdate)
    ensures
        final(e)@ == patched_entity(old(e)@, u),
{
    let ghost u0 = u;
    let EntityUpdate { context: _, name: _, description, aggregate_root, fields, methods, invariants } = u;
    match description {
        Some(d) => {
            e.description = d;
        },
        None => {},
    }
    match aggregate_root {
        Some(b) => {
            e.aggregate_root = b;
        },
        None => {},
    }
    match &fields {
        Some(ps) => merge_fields(&mut e.fields, ps),
        None => {},
    }
    match &methods {
        Some(ps) => merge_methods(&mut e.methods, ps),
        None => {},
    }
    match &invariants {
        Some(v) => add_invariants(&mut e.invariants, v),
        None => {},
    }
    proof {
        assert(e@ == patched_entity(old(e)@, u0));
    }
}

fn make_entity(u: EntityUpdate) -> (r: Entity)
    ensures
        r@ == new_entity(u),
{
    let ghost u0 = u;
    let EntityUpdate { context: _, name, description, aggregate_root, fields, methods, invariants } = u;
    let e = empty_text();
    let fields = match &fields {
        Some(ps) => parse_fields(ps),
        None => Vec::new(),
    };
    let methods = match &methods {
        Some(ps) => parse_methods(ps),
        None => Vec::new(),
    };
    let invariants = match invariants {
        Some(v) => v,
        None => Vec::new(),
    };
    let r = Entity {
        name,
        description: copy_text(&description, e.as_str()),
        aggregate_root: match aggregate_root {
            Some(b) => b,
            None => false,
        },
        fields,
        methods,
        invariants,
    };
    proof {
        assert(r@.fields =~= new_entity(u0).fields);
        assert(r@.methods =~= new_entity(u0).methods);
        assert(r@.invariants =~= new_entity(u0).invariants);
    }
    r
}

fn upsert_entity(bc: &mut BoundedContext, u: EntityUpdate) -> (found: bool)
    ensures
        final(bc)@ == entity_upserted(*old(bc), u),
        found == first_key(old(bc).entities@, u.name@, false) is Some,
{
    let ghost before = bc.entities@;
    match position(&bc.entities, &u.name, false) {
        Some(j) => {
            let mut e = blank_entity();
            bc.entities.set_and_swap(j, &mut e);
            patch_entity(&mut e, u);
            bc.entities.set(j, e);
            proof {
                assert(bc@.entities =~= entities_view(before).update(j as int, patched_entity(before[j as int]@, u)));
            }
            true
        },
        None => {
            let e = make_entity(u);
            bc.entities.push(e);
            proof {
                assert(bc@.entities =~= entities_view(before).push(new_entity(u)));
            }
            false
        },
    }
}

/// Creates an entity in the named context, or patches the first entity of
/// that name (up to ASCII case): description and aggregate-root flag where
/// given, field and method patches merged, new invariants appended.
pub fn update_entity(model: &mut DomainModel, u: EntityUpdate) -> (r: ToolCallResult)
    ensures
        others_kept(*final(model), *old(model)),
        match first_key(old(model).bounded_contexts@, u.context@, false) {
            None => answers(r, true, no_context_msg(u.context@))
                && final(model).bounded_contexts@ == old(model).bounded_contexts@,
            Some(i) => contexts_view(final(model).bounded_contexts@) == contexts_view(
                old(model).bounded_contexts@,
            ).update(i, entity_upserted(old(model).bounded_contexts@[i], u)) && answers(
                r,
                false,
                if first_key(old(model).bounded_contexts@[i].entities@, u.name@, false) is Some {
                    "Updated entity '"@
                } else {
                    "Created entity '"@
                } + u.name@ + "' in '"@ + u.context@ + "'"@,
            ),
        },
{
    let ghost before = model.bounded_contexts@;
    match position(&model.bounded_contexts, &u.context, false) {
        None => no_context(&u.context),
        Some(i) => {
            let updated = context_message("Updated entity '", &u.name, &u.context);
            let created = context_message("Created entity '", &u.name, &u.context);
            let mut bc = blank_context();
            model.bounded_contexts.set_and_swap(i, &mut bc);
            let found = upsert_entity(&mut bc, u);
            model.bounded_contexts.set(i, bc);
            proof {
                assert(contexts_view(model.bounded_contexts@) =~= contexts_view(before).update(
                    i as int,
                    entity_upserted(before[i as int], u),
                ));
            }
            text_result(if found { updated } else { created })
        },
    }
}

fn blank_service() -> Service {
    Service {
        name: String::new(),
        description: String::new(),
        kind: ServiceKind::Domain,
        methods: Vec::new(),
        dependencies: Vec::new(),
    }
}

fn patch_service(sv: &mut Service, u: ServiceUpdate)
    ensures
        final(sv)@ == patched_service(old(sv)@, u),
{
    let ghost u0 = u;
    let ServiceUpdate { context: _, name: _, kind, description, methods, dependencies } = u;
    match description {
        Some(d) => {
            sv.description = d;
        },
        None => {},
    }
    sv.kind = kind;
    match dependencies {
        Some(d) => {
            sv.dependencies = d;
        },
        None => {},
    }
    match &methods {
        Some(ps) => merge_methods(&mut sv.methods, ps),
        None => {},
    }
    proof {
        assert(sv@ == patched_service(old(sv)@, u0));
    }
}

fn make_service(u: ServiceUpdate) -> (r: Service)
    ensures
        r@ == new_service(u),
{
    let ghost u0 = u;
    let ServiceUpdate { context: _, name, kind, description, methods, dependencies } = u;
    let e = empty_text();
    let methods = match &methods {
        Some(ps) => parse_methods(ps),
        None => Vec::new(),
    };
    let r = Service {
        name,
        description: copy_text(&description, e.as_str()),
        kind,
        methods,
        dependencies: match dependencies {
            Some(d) => d,
            None => Vec::new(),
        },
    };
    proof {
        assert(r@.methods =~= new_service(u0).methods);
        assert(r@.dependencies =~= new_service(u0).dependencies);
    }
    r
}

fn upsert_service(bc: &mut BoundedContext, u: ServiceUpdate) -> (found: bool)
    ensures
        final(bc)@ == service_upserted(*old(bc), u),
        found == first_key(old(bc).services@, u.name@, false) is Some,
{
    let ghost before = bc.services@;
    match position(&bc.services, &u.name, false) {
        Some(j) => {
            let mut sv = blank_service();
            bc.services.set_and_swap(j, &mut sv);
            patch_service(&mut sv, u);
            bc.services.set(j, sv);
            proof {
                assert(bc@.services =~= services_view(before).update(j as int, patched_service(before[j as int]@, u)));
            }
            true
        },
        None => {
            let sv = make_service(u);
            bc.services.push(sv);
            proof {
                assert(bc@.services =~= services_view(before).push(new_service(u)));
            }
            false
        },
    }
}

/// Creates a service in the named context, or patches the first service of
/// that name (up to ASCII case): its kind always, description and
/// dependencies where given, method patches merged.
pub fn update_service(model: &mut DomainModel, u: ServiceUpdate) -> (r: ToolCallResult)
    ensures
        others_kept(*final(model), *old(model)),
        match first_key(old(model).bounded_contexts@, u.context@, false) {
            None => answers(r, true, no_context_msg(u.context@))
                && final(model).bounded_contexts@ == old(model).bounded_contexts@,
            Some(i) => contexts_view(final(model).bounded_contexts@) == contexts_view(
                old(model).bounded_contexts@,
            ).update(i, service_upserted(old(model).bounded_contexts@[i], u)) && answers(
                r,
                false,
                if first_key(old(model).bounded_contexts@[i].services@, u.name@, false) is Some {
                    "Updated service '"@
                } else {
                    "Created service '"@
                } + u.name@ + "' in '"@ + u.context@ + "'"@,
            ),
        },
{
    let ghost before = model.bounded_contexts@;
    match position(&model.bounded_contexts, &u.context, false) {
        None => no_context(&u.context),
        Some(i) => {
            let updated = context_message("Updated service '", &u.name, &u.context);
            let created = context_message("Created service '", &u.name, &u.context);
            let mut bc = blank_context();
            model.bounded_contexts.set_and_swap(i, &mut bc);
            let found = upsert_service(&mut bc, u);
            model.bounded_contexts.set(i, bc);
            proof {
                assert(contexts_view(model.bounded_contexts@) =~= contexts_view(before).update(
                    i as int,
                    service_upserted(before[i as int], u),
                ));
            }
            text_result(if found { updated } else { created })
        },
    }
}

fn blank_event() -> DomainEvent {
    DomainEvent {
        name: String::new(),
        description: String::new(),
        fields: Vec::new(),
        source: String::new(),
    }
}

fn patch_event(ev: &mut DomainEvent, u: EventUpdate)
    ensures
        final(ev)@ == patched_event(old(ev)@, u),
{
    let ghost u0 = u;
    let EventUpdate { context: _, name: _, description, source, fields } = u;
    match description {
        Some(d) => {
            ev.description = d;
        },
        None => {},
    }
    match source {
        Some(s) => {
            ev.source = s;
        },
        None => {},
    }
    match &fields {
        Some(ps) => merge_fields(&mut ev.fields, ps),
        None => {},
    }
    proof {
        assert(ev@ == patched_event(old(ev)@, u0));
    }
}

fn make_event(u: EventUpdate) -> (r: DomainEvent)
    ensures
        r@ == new_event(u),
{
    let ghost u0 = u;
    let EventUpdate { context: _, name, description, source, fields } = u;
    let e = empty_text();
    let fields = match &fields {
        Some(ps) => parse_fields(ps),
        None => Vec::new(),
    };
    let r = DomainEvent {
        name,
        description: copy_text(&description, e.as_str()),
        fields,
        source: copy_text(&source, e.as_str()),
    };
    proof {
        assert(r@.fields =~= new_event(u0).fields);
    }
    r
}

fn upsert_event(bc: &mut BoundedContext, u: EventUpdate) -> (found: bool)
    ensures
        final(bc)@ == event_upserted(*old(bc), u),
        found == first_key(old(bc).events@, u.name@, false) is Some,
{
    let ghost before = bc.events@;
    match position(&bc.events, &u.name, false) {
        Some(j) => {
            let mut ev = blank_event();
            bc.events.set_and_swap(j, &mut ev);
            patch_event(&mut ev, u);
            bc.events.set(j, ev);
            proof {
                assert(bc@.events =~= events_view(before).update(j as int, patched_event(before[j as int]@, u)));
            }
            true
        },
        None => {
            let ev = make_event(u);
            bc.events.push(ev);
            proof {
                assert(bc@.events =~= events_view(before).push(new_event(u)));
            }
            false
        },
    }
}

/// Creates a domain event in the named context, or patches the first event
/// of that name (up to ASCII case): description and source where given,
/// field patches merged.
pub fn update_event(model: &mut DomainModel, u: EventUpdate) -> (r: ToolCallResult)
    ensures
        others_kept(*final(model), *old(model)),
        match first_key(old(model).bounded_contexts@, u.context@, false) {
            None => answers(r, true, no_context_msg(u.context@))
                && final(model).bounded_contexts@ == old(model).bounded_contexts@,
            Some(i) => contexts_view(final(model).bounded_contexts@) == contexts_view(
                old(model).bounded_contexts@,
            ).update(i, event_upserted(old(model).bounded_contexts@[i], u)) && answers(
                r,
                false,
                if first_key(old(model).bounded_contexts@[i].events@, u.name@, false) is Some {
                    "Updated event '"@
                } else {
                    "Created event '"@
                } + u.name@ + "' in '"@ + u.context@ + "'"@,
            ),
        },
{
    let ghost before = model.bounded_contexts@;
    match position(&model.bounded_contexts, &u.context, false) {
        None => no_context(&u.context),
        Some(i) => {
            let updated = context_message("Updated event '", &u.name, &u.context);
            let created = context_message("Created event '", &u.name, &u.context);
            let mut bc = blank_context();
            model.bounded_contexts.set_and_swap(i, &mut bc);
            let found = upsert_event(&mut bc, u);
            model.bounded_contexts.set(i, bc);
            proof {
                assert(contexts_view(model.bounded_contexts@) =~= contexts_view(before).update(
                    i as int,
                    event_upserted(before[i as int], u),
                ));
            }
            text_result(if found { updated } else { created })
        },
    }
}

/// Removes every entity of the named context whose name matches `name` up
/// to ASCII case; it is an error when the context or such an entity is
/// missing.
pub fn remove_entity(model: &mut DomainModel, context: String, name: String) -> (r: ToolCallResult)
    ensures
        others_kept(*final(model), *old(model)),
        match first_key(old(model).bounded_contexts@, context@, false) {
            None => answers(r, true, no_context_msg(context@))
                && final(model).bounded_contexts@ == old(model).bounded_contexts@,
            Some(i) => contexts_view(final(model).bounded_contexts@) == contexts_view(
                old(model).bounded_contexts@,
            ).update(
                i,
                ContextView {
                    entities: entities_without(old(model).bounded_contexts@[i].entities@, name@),
                    ..old(model).bounded_contexts@[i]@
                },
            ) && if has_key(old(model).bounded_contexts@[i].entities@, name@, false) {
                answers(r, false, "Removed entity '"@ + name@ + "' from '"@ + context@ + "'"@)
            } else {
                answers(r, true, "Entity '"@ + name@ + "' not found in '"@ + context@ + "'"@)
            },
        },
{
    let ghost before = model.bounded_contexts@;
    match position(&model.bounded_contexts, &context, false) {
        None => no_context(&context),
        Some(i) => {
            let mut bc = blank_context();
            model.bounded_contexts.set_and_swap(i, &mut bc);
            let ghost old_bc = bc;
            let ghost f = keep_step(name@);
            let mut kept: Vec<Entity> = Vec::new();
            let mut removed = false;
            let mut k: usize = 0;
            proof {
                assert(entities_view(kept@) =~= flat_map(bc.entities@.take(0), f));
            }
            while k < bc.entities.len()
                invariant
                    k <= bc.entities@.len(),
                    bc == old_bc,
                    f == keep_step(name@),
                    entities_view(kept@) == flat_map(bc.entities@.take(k as int), f),
                    removed == exists|l: int|
                        0 <= l < k && crate::diff::keys_match(false, #[trigger] bc.entities@[l].key(), name@),
                decreases bc.entities@.len() - k,
            {
                let hit = crate::names::names_match(bc.entities[k].name.as_str(), name.as_str());
                if hit {
                    removed = true;
                } else {
                    kept.push(bc.entities[k].clone());
                }
                proof {
                    assert(hit == crate::diff::keys_match(false, bc.entities@[k as int].key(), name@));
                    if hit {
                        assert(crate::diff::keys_match(false, bc.entities@[k as int].key(), name@));
                    }
                    lemma_flat_map_step(bc.entities@, f, k as int);
                    assert(entities_view(kept@) =~= flat_map(bc.entities@.take(k + 1), f));
                }
                k = k + 1;
            }
            proof {
                assert(bc.entities@.take(bc.entities@.len() as int) =~= bc.entities@);
            }
            bc.entities = kept;
            model.bounded_contexts.set(i, bc);
            proof {
                assert(contexts_view(model.bounded_contexts@) =~= contexts_view(before).update(
                    i as int,
                    ContextView { entities: entities_without(before[i as int].entities@, name@), ..before[i as int]@ },
                ));
            }
            if removed {
                text_result(String::from_str("Removed entity '").concat(name.as_str()).concat("' from '").concat(context.as_str()).concat("'"))
            } else {
                error_result(String::from_str("Entity '").concat(name.as_str()).concat("' not found in '").concat(context.as_str()).concat("'"))
            }
        },
    }
}

/// The service kind a request names: `application`, `infrastructure`, and
/// anything else is `domain`.
pub fn parse_service_kind(kind: &str) -> (r: ServiceKind)
    ensures
        r == if kind@ == "application"@ {
            ServiceKind::Application
        } else if kind@ == "infrastructure"@ {
            ServiceKind::Infrastructure
        } else {
            ServiceKind::Domain
        },
{
    let k = String::from_str(kind);
    if k == String::from_str("application") {
        ServiceKind::Application
    } else if k == String::from_str("infrastructure") {
        ServiceKind::Infrastructure
    } else {
        ServiceKind::Domain
    }
}

} // verus!
