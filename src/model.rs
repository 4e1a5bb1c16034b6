//! The architectural model: bounded contexts and their artifacts, rules and
//! conventions, with a mathematical view of each artifact that a change can
//! carry as a snapshot.
use vstd::prelude::*;

verus! {

/// The root of a project's architectural description.
#[derive(Debug, Clone)]
pub struct DomainModel {
    pub name: String,
    pub description: String,
    pub bounded_contexts: Vec<BoundedContext>,
    pub rules: Vec<ArchitecturalRule>,
    pub tech_stack: TechStack,
    pub conventions: Conventions,
}

#[derive(Debug, Clone)]
pub struct BoundedContext {
    pub name: String,
    pub description: String,
    /// Module path / namespace hint for this context.
    pub module: String,
    pub entities: Vec<Entity>,
    pub value_objects: Vec<ValueObject>,
    pub services: Vec<Service>,
    pub repositories: Vec<Repository>,
    pub events: Vec<DomainEvent>,
    /// Names of the contexts this one may depend on.
    pub dependencies: Vec<String>,
}

#[derive(Debug)]
pub struct Entity {
    pub name: String,
    pub description: String,
    pub aggregate_root: bool,
    pub fields: Vec<Field>,
    pub methods: Vec<Method>,
    pub invariants: Vec<String>,
}

#[derive(Debug)]
pub struct ValueObject {
    pub name: String,
    pub description: String,
    pub fields: Vec<Field>,
    pub validation_rules: Vec<String>,
}

#[derive(Debug)]
pub struct Service {
    pub name: String,
    pub description: String,
    pub kind: ServiceKind,
    pub methods: Vec<Method>,
    pub dependencies: Vec<String>,
}

/// The architectural layer a service belongs to.
#[derive(Debug, Clone, Copy, PartialEq, Eq, Structural)]
pub enum ServiceKind {
    Domain,
    Application,
    Infrastructure,
}

#[derive(Debug)]
pub struct Repository {
    pub name: String,
    /// The aggregate root this repository manages.
    pub aggregate: String,
    pub methods: Vec<Method>,
}

#[derive(Debug)]
pub struct DomainEvent {
    pub name: String,
    pub description: String,
    pub fields: Vec<Field>,
    /// The entity or aggregate that emits this event.
    pub source: String,
}

#[derive(Debug)]
pub struct Field {
    pub name: String,
    pub field_type: String,
    pub required: bool,
    pub description: String,
}

#[derive(Debug)]
pub struct Method {
    pub name: String,
    pub description: String,
    pub parameters: Vec<Field>,
    pub return_type: String,
}

#[derive(Debug)]
pub struct ArchitecturalRule {
    pub id: String,
    pub description: String,
    pub severity: Severity,
    /// The pattern or layer this rule applies to.
    pub scope: String,
}

#[derive(Debug, Clone, Copy, PartialEq, Eq, Structural)]
pub enum Severity {
    Error,
    Warning,
    Info,
}

#[derive(Debug, Clone)]
pub struct TechStack {
    pub language: String,
    pub framework: String,
    pub database: String,
    pub messaging: String,
    pub additional: Vec<String>,
}

#[derive(Debug, Clone)]
pub struct Conventions {
    pub naming: NamingConventions,
    pub file_structure: FileStructure,
    pub error_handling: String,
    pub testing: String,
}

#[derive(Debug, Clone)]
pub struct NamingConventions {
    pub entities: String,
    pub value_objects: String,
    pub services: String,
    pub repositories: String,
    pub events: String,
}

#[derive(Debug, Clone)]
pub struct FileStructure {
    /// A path template such as `src/{context}/{layer}/{type}.rs`.
    pub pattern: String,
    pub layers: Vec<String>,
}

// ─── Views ─────────────────────────────────────────────────────────────────

pub ghost struct FieldView {
    pub name: Seq<char>,
    pub field_type: Seq<char>,
    pub required: bool,
    pub description: Seq<char>,
}

pub ghost struct MethodView {
    pub name: Seq<char>,
    pub description: Seq<char>,
    pub parameters: Seq<FieldView>,
    pub return_type: Seq<char>,
}

pub ghost struct EntityView {
    pub name: Seq<char>,
    pub description: Seq<char>,
    pub aggregate_root: bool,
    pub fields: Seq<FieldView>,
    pub methods: Seq<MethodView>,
    pub invariants: Seq<Seq<char>>,
}

pub ghost struct ValueObjectView {
    pub name: Seq<char>,
    pub description: Seq<char>,
    pub fields: Seq<FieldView>,
    pub validation_rules: Seq<Seq<char>>,
}

pub ghost struct ServiceView {
    pub name: Seq<char>,
    pub description: Seq<char>,
    pub kind: ServiceKind,
    pub methods: Seq<MethodView>,
    pub dependencies: Seq<Seq<char>>,
}

pub ghost struct RepositoryView {
    pub name: Seq<char>,
    pub aggregate: Seq<char>,
    pub methods: Seq<MethodView>,
}

pub ghost struct DomainEventView {
    pub name: Seq<char>,
    pub description: Seq<char>,
    pub fields: Seq<FieldView>,
    pub source: Seq<char>,
}

pub ghost struct RuleView {
    pub id: Seq<char>,
    pub description: Seq<char>,
    pub severity: Severity,
    pub scope: Seq<char>,
}

pub open spec fn strings_view(v: Seq<String>) -> Seq<Seq<char>> {
    v.map_values(|s: String| s@)
}

pub open spec fn fields_view(v: Seq<Field>) -> Seq<FieldView> {
    v.map_values(|f: Field| f@)
}

pub open spec fn methods_view(v: Seq<Method>) -> Seq<MethodView> {
    v.map_values(|m: Method| m@)
}

impl View for Field {
    type V = FieldView;

    open spec fn view(&self) -> FieldView {
        FieldView {
            name: self.name@,
            field_type: self.field_type@,
            required: self.required,
            description: self.description@,
        }
    }
}

impl View for Method {
    type V = MethodView;

    open spec fn view(&self) -> MethodView {
        MethodView {
            name: self.name@,
            description: self.description@,
            parameters: fields_view(self.parameters@),
            return_type: self.return_type@,
        }
    }
}

impl View for Entity {
    type V = EntityView;

    open spec fn view(&self) -> EntityView {
        EntityView {
            name: self.name@,
            description: self.description@,
            aggregate_root: self.aggregate_root,
            fields: fields_view(self.fields@),
            methods: methods_view(self.methods@),
            invariants: strings_view(self.invariants@),
        }
    }
}

impl View for ValueObject {
    type V = ValueObjectView;

    open spec fn view(&self) -> ValueObjectView {
        ValueObjectView {
            name: self.name@,
            description: self.description@,
            fields: fields_view(self.fields@),
            validation_rules: strings_view(self.validation_rules@),
        }
    }
}

impl View for Service {
    type V = ServiceView;

    open spec fn view(&self) -> ServiceView {
        ServiceView {
            name: self.name@,
            description: self.description@,
            kind: self.kind,
            methods: methods_view(self.methods@),
            dependencies: strings_view(self.dependencies@),
        }
    }
}

impl View for Repository {
    type V = RepositoryView;

    open spec fn view(&self) -> RepositoryView {
        RepositoryView {
            name: self.name@,
            aggregate: self.aggregate@,
            methods: methods_view(self.methods@),
        }
    }
}

impl View for DomainEvent {
    type V = DomainEventView;

    open spec fn view(&self) -> DomainEventView {
        DomainEventView {
            name: self.name@,
            description: self.description@,
            fields: fields_view(self.fields@),
            source: self.source@,
        }
    }
}

impl View for ArchitecturalRule {
    type V = RuleView;

    open spec fn view(&self) -> RuleView {
        RuleView {
            id: self.id@,
            description: self.description@,
            severity: self.severity,
            scope: self.scope@,
        }
    }
}

pub ghost struct ContextView {
    pub name: Seq<char>,
    pub description: Seq<char>,
    pub module: Seq<char>,
    pub entities: Seq<EntityView>,
    pub value_objects: Seq<ValueObjectView>,
    pub services: Seq<ServiceView>,
    pub repositories: Seq<RepositoryView>,
    pub events: Seq<DomainEventView>,
    pub dependencies: Seq<Seq<char>>,
}

pub open spec fn entities_view(v: Seq<Entity>) -> Seq<EntityView> {
    v.map_values(|e: Entity| e@)
}

pub open spec fn services_view(v: Seq<Service>) -> Seq<ServiceView> {
    v.map_values(|s: Service| s@)
}

pub open spec fn events_view(v: Seq<DomainEvent>) -> Seq<DomainEventView> {
    v.map_values(|e: DomainEvent| e@)
}

pub open spec fn contexts_view(v: Seq<BoundedContext>) -> Seq<ContextView> {
    v.map_values(|c: BoundedContext| c@)
}

impl View for BoundedContext {
    type V = ContextView;

    open spec fn view(&self) -> ContextView {
        ContextView {
            name: self.name@,
            description: self.description@,
            module: self.module@,
            entities: entities_view(self.entities@),
            value_objects: self.value_objects@.map_values(|v: ValueObject| v@),
            services: services_view(self.services@),
            repositories: self.repositories@.map_values(|r: Repository| r@),
            events: events_view(self.events@),
            dependencies: strings_view(self.dependencies@),
        }
    }
}

// ─── Copies that keep the view ─────────────────────────────────────────────

fn copy_strings(v: &Vec<String>) -> (r: Vec<String>)
    ensures
        strings_view(r@) == strings_view(v@),
{
    let r = v.clone();
    assert(r@ =~= v@);
    r
}

fn copy_fields(v: &Vec<Field>) -> (r: Vec<Field>)
    ensures
        fields_view(r@) == fields_view(v@),
{
    let r = v.clone();
    assert(fields_view(r@) =~= fields_view(v@));
    r
}

fn copy_methods(v: &Vec<Method>) -> (r: Vec<Method>)
    ensures
        methods_view(r@) == methods_view(v@),
{
    let r = v.clone();
    assert(methods_view(r@) =~= methods_view(v@));
    r
}

impl Clone for Field {
    fn clone(&self) -> (r: Self)
        ensures
            r@ == self@,
    {
        Field {
            name: self.name.clone(),
            field_type: self.field_type.clone(),
            required: self.required,
            description: self.description.clone(),
        }
    }
}

impl Clone for Method {
    fn clone(&self) -> (r: Self)
        ensures
            r@ == self@,
    {
        Method {
            name: self.name.clone(),
            description: self.description.clone(),
            parameters: copy_fields(&self.parameters),
            return_type: self.return_type.clone(),
        }
    }
}

impl Clone for Entity {
    fn clone(&self) -> (r: Self)
        ensures
            r@ == self@,
    {
        Entity {
            name: self.name.clone(),
            description: self.description.clone(),
            aggregate_root: self.aggregate_root,
            fields: copy_fields(&self.fields),
            methods: copy_methods(&self.methods),
            invariants: copy_strings(&self.invariants),
        }
    }
}

impl Clone for ValueObject {
    fn clone(&self) -> (r: Self)
        ensures
            r@ == self@,
    {
        ValueObject {
            name: self.name.clone(),
            description: self.description.clone(),
            fields: copy_fields(&self.fields),
            validation_rules: copy_strings(&self.validation_rules),
        }
    }
}

impl Clone for Service {
    fn clone(&self) -> (r: Self)
        ensures
            r@ == self@,
    {
        Service {
            name: self.name.clone(),
            description: self.description.clone(),
            kind: self.kind,
            methods: copy_methods(&self.methods),
            dependencies: copy_strings(&self.dependencies),
        }
    }
}

impl Clone for Repository {
    fn clone(&self) -> (r: Self)
        ensures
            r@ == self@,
    {
        Repository {
            name: self.name.clone(),
            aggregate: self.aggregate.clone(),
            methods: copy_methods(&self.methods),
        }
    }
}

impl Clone for DomainEvent {
    fn clone(&self) -> (r: Self)
        ensures
            r@ == self@,
    {
        DomainEvent {
            name: self.name.clone(),
            description: self.description.clone(),
            fields: copy_fields(&self.fields),
            source: self.source.clone(),
        }
    }
}

impl Clone for ArchitecturalRule {
    fn clone(&self) -> (r: Self)
        ensures
            r@ == self@,
    {
        ArchitecturalRule {
            id: self.id.clone(),
            description: self.description.clone(),
            severity: self.severity,
            scope: self.scope.clone(),
        }
    }
}

// ─── Defaults ──────────────────────────────────────────────────────────────

impl Default for ServiceKind {
    fn default() -> (r: Self)
        ensures
            r == ServiceKind::Domain,
    {
        ServiceKind::Domain
    }
}

impl Default for Severity {
    fn default() -> (r: Self)
        ensures
            r == Severity::Error,
    {
        Severity::Error
    }
}

impl Default for TechStack {
    fn default() -> (r: Self)
        ensures
            r.language@.len() == 0,
            r.framework@.len() == 0,
            r.database@.len() == 0,
            r.messaging@.len() == 0,
            r.additional@.len() == 0,
    {
        TechStack {
            language: String::new(),
            framework: String::new(),
            database: String::new(),
            messaging: String::new(),
            additional: Vec::new(),
        }
    }
}

impl Default for NamingConventions {
    fn default() -> (r: Self)
        ensures
            r.entities@.len() == 0,
            r.value_objects@.len() == 0,
            r.services@.len() == 0,
            r.repositories@.len() == 0,
            r.events@.len() == 0,
    {
        NamingConventions {
            entities: String::new(),
            value_objects: String::new(),
            services: String::new(),
            repositories: String::new(),
            events: String::new(),
        }
    }
}

impl Default for FileStructure {
    fn default() -> (r: Self)
        ensures
            r.pattern@.len() == 0,
            r.layers@.len() == 0,
    {
        FileStructure { pattern: String::new(), layers: Vec::new() }
    }
}

impl Default for Conventions {
    fn default() -> (r: Self)
        ensures
            r.naming.entities@.len() == 0,
            r.naming.value_objects@.len() == 0,
            r.naming.services@.len() == 0,
            r.naming.repositories@.len() == 0,
            r.naming.events@.len() == 0,
            r.file_structure.pattern@.len() == 0,
            r.file_structure.layers@.len() == 0,
            r.error_handling@.len() == 0,
            r.testing@.len() == 0,
    {
        Conventions {
            naming: NamingConventions::default(),
            file_structure: FileStructure::default(),
            error_handling: String::new(),
            testing: String::new(),
        }
    }
}

// ─── Construction and validation ───────────────────────────────────────────

/// Why a model was rejected.
#[derive(Debug, Clone, PartialEq, Eq)]
pub enum ModelError {
    MissingName,
    MissingContextName,
    /// An entity of the named context has no name.
    MissingEntityName { context: String },
}

pub ghost enum ModelErrorView {
    MissingName,
    MissingContextName,
    MissingEntityName { context: Seq<char> },
}

impl View for ModelError {
    type V = ModelErrorView;

    open spec fn view(&self) -> ModelErrorView {
        match self {
            ModelError::MissingName => ModelErrorView::MissingName,
            ModelError::MissingContextName => ModelErrorView::MissingContextName,
            ModelError::MissingEntityName { context } => ModelErrorView::MissingEntityName {
                context: context@,
            },
        }
    }
}

impl ModelError {
    pub fn message(&self) -> (r: String)
        ensures
            r@ == match self@ {
                ModelErrorView::MissingName => "Domain model must have a name"@,
                ModelErrorView::MissingContextName => "Bounded context must have a name"@,
                ModelErrorView::MissingEntityName { context } => "Entity in bounded context '"@
                    + context + "' must have a name"@,
            },
    {
        match self {
            ModelError::MissingName => String::from_str("Domain model must have a name"),
            ModelError::MissingContextName => String::from_str("Bounded context must have a name"),
            ModelError::MissingEntityName { context } => String::from_str(
                "Entity in bounded context '",
            ).concat(context.as_str()).concat("' must have a name"),
        }
    }
}

/// What is wrong with one context: its own name missing, or one of its
/// entities' names.
pub open spec fn context_error(bc: BoundedContext) -> Option<ModelErrorView> {
    if bc.name@.len() == 0 {
        Some(ModelErrorView::MissingContextName)
    } else if exists|i: int|
        0 <= i < bc.entities@.len() && (#[trigger] bc.entities@[i]).name@.len() == 0 {
        Some(ModelErrorView::MissingEntityName { context: bc.name@ })
    } else {
        None
    }
}

/// The error of the first of the first `n` contexts that has one.
pub open spec fn first_context_error(bcs: Seq<BoundedContext>, n: int) -> Option<ModelErrorView>
    decreases n,
{
    if n <= 0 {
        None
    } else {
        match first_context_error(bcs, n - 1) {
            Some(e) => Some(e),
            None => context_error(bcs[n - 1]),
        }
    }
}

/// Why a model is invalid, if it is: every name must be non-empty, checked
/// for the model, then context by context.
pub open spec fn model_error(m: DomainModel) -> Option<ModelErrorView> {
    if m.name@.len() == 0 {
        Some(ModelErrorView::MissingName)
    } else {
        first_context_error(m.bounded_contexts@, m.bounded_contexts@.len() as int)
    }
}

proof fn lemma_first_error_stays(bcs: Seq<BoundedContext>, n: int, m: int)
    requires
        n <= m,
        first_context_error(bcs, n) is Some,
    ensures
        first_context_error(bcs, m) == first_context_error(bcs, n),
    decreases m - n,
{
    if n < m {
        lemma_first_error_stays(bcs, n, m - 1);
    }
}

/// A character allowed in a plain path segment: an ASCII letter or digit,
/// `-` or `_`.
pub open spec fn plain_char(c: char) -> bool {
    ('a' <= c && c <= 'z') || ('A' <= c && c <= 'Z') || ('0' <= c && c <= '9') || c == '-' || c
        == '_'
}

/// A path made of one plain segment: non-empty, with no separator, dot or
/// anything but ASCII letters, digits, `-` and `_`. On every platform such a
/// path is its own final component.
pub open spec fn plain_name(p: Seq<char>) -> bool {
    p.len() > 0 && forall|i: int| 0 <= i < p.len() ==> plain_char(#[trigger] p[i])
}

/// The fields of default conventions and an empty tech stack, as the
/// `Default` impls build them.
pub open spec fn has_default_settings(m: DomainModel) -> bool {
    &&& m.tech_stack.language@.len() == 0
    &&& m.tech_stack.framework@.len() == 0
    &&& m.tech_stack.database@.len() == 0
    &&& m.tech_stack.messaging@.len() == 0
    &&& m.tech_stack.additional@.len() == 0
    &&& m.conventions.naming.entities@.len() == 0
    &&& m.conventions.naming.value_objects@.len() == 0
    &&& m.conventions.naming.services@.len() == 0
    &&& m.conventions.naming.repositories@.len() == 0
    &&& m.conventions.naming.events@.len() == 0
    &&& m.conventions.file_structure.pattern@.len() == 0
    &&& m.conventions.file_structure.layers@.len() == 0
    &&& m.conventions.error_handling@.len() == 0
    &&& m.conventions.testing@.len() == 0
}

/// Relies on `Path::file_name`: the final component of a path, if any,
/// converted lossily to UTF-8. A component is never empty, and a path of one
/// plain segment is its own final component on every platform; beyond that
/// the result depends on the platform's path syntax.
#[verifier::external_body]
fn final_component(path: &str) -> (r: Option<String>)
    ensures
        plain_name(path@) ==> r is Some && r->0@ == path@,
        r is Some ==> r->0@.len() > 0,
{
    std::path::Path::new(path).file_name().map(|n| n.to_string_lossy().to_string())
}

impl DomainModel {
    /// A model with the given name, or `Unnamed` without one, default
    /// settings, and nothing else in it.
    pub fn named(name: Option<String>) -> (r: DomainModel)
        ensures
            r.name@ == match name {
                Some(n) => n@,
                None => "Unnamed"@,
            },
            r.description@.len() == 0,
            r.bounded_contexts@.len() == 0,
            r.rules@.len() == 0,
            has_default_settings(r),
    {
        let name = match name {
            Some(n) => n,
            None => String::from_str("Unnamed"),
        };
        DomainModel {
            name,
            description: String::new(),
            bounded_contexts: Vec::new(),
            rules: Vec::new(),
            tech_stack: TechStack::default(),
            conventions: Conventions::default(),
        }
    }

    /// An empty model for a workspace, named after the last component of
    /// its path (`Unnamed` where there is none), with default settings.
    pub fn empty(workspace_path: &str) -> (r: DomainModel)
        ensures
            plain_name(workspace_path@) ==> r.name@ == workspace_path@,
            r.name@.len() > 0,
            r.description@.len() == 0,
            r.bounded_contexts@.len() == 0,
            r.rules@.len() == 0,
            has_default_settings(r),
    {
        let name = final_component(workspace_path);
        proof {
            reveal_strlit("Unnamed");
        }
        Self::named(name)
    }

    /// Checks that the model, each context and each entity has a name,
    /// reporting the first that does not.
    pub fn validate(&self) -> (r: Result<(), ModelError>)
        ensures
            match r {
                Ok(()) => model_error(*self) is None,
                Err(e) => model_error(*self) == Some(e@),
            },
    {
        if crate::names::is_blank(&self.name) {
            return Err(ModelError::MissingName);
        }
        let bcs = &self.bounded_contexts;
        let mut i: usize = 0;
        while i < bcs.len()
            invariant
                i <= bcs@.len(),
                bcs == &self.bounded_contexts,
                self.name@.len() > 0,
                first_context_error(bcs@, i as int) is None,
            decreases bcs@.len() - i,
        {
            let bc = &bcs[i];
            if crate::names::is_blank(&bc.name) {
                proof {
                    assert(first_context_error(bcs@, i + 1) == Some(ModelErrorView::MissingContextName));
                    lemma_first_error_stays(bcs@, i + 1, bcs@.len() as int);
                }
                return Err(ModelError::MissingContextName);
            }
            let mut k: usize = 0;
            while k < bc.entities.len()
                invariant
                    i < bcs@.len(),
                    bcs == &self.bounded_contexts,
                    *bc == bcs@[i as int],
                    bc.name@.len() > 0,
                    self.name@.len() > 0,
                    first_context_error(bcs@, i as int) is None,
                    k <= bc.entities@.len(),
                    forall|j: int| 0 <= j < k ==> (#[trigger] bc.entities@[j]).name@.len() > 0,
                decreases bc.entities@.len() - k,
            {
                if crate::names::is_blank(&bc.entities[k].name) {
                    proof {
                        assert(bc.entities@[k as int].name@.len() == 0);
                        assert(first_context_error(bcs@, i + 1) == Some(
                            ModelErrorView::MissingEntityName { context: bc.name@ },
                        ));
                        lemma_first_error_stays(bcs@, i + 1, bcs@.len() as int);
                    }
                    return Err(ModelError::MissingEntityName { context: bc.name.clone() });
                }
                k = k + 1;
            }
            proof {
                assert(context_error(bcs@[i as int]) is None);
            }
            i = i + 1;
        }
        Ok(())
    }
}

/// Metadata about a stored project.
#[derive(Debug, Clone)]
pub struct ProjectInfo {
    pub workspace_path: String,
    pub project_name: String,
    pub updated_at: String,
}

} // verus!
