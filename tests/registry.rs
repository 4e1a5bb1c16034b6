use domcp::model::{BoundedContext, Conventions, DomainModel, Entity, Service, ServiceKind, TechStack};
use domcp::registry::DomainRegistry;
use domcp::tools::{dependency_allowed, dependency_explanation, is_write_tool, layer_for_kind};
use domcp::paths::resolve_path;
use domcp::protocol::{error_result, text_result, ContentBlock};

fn context(name: &str, deps: Vec<&str>) -> BoundedContext {
    BoundedContext {
        name: name.into(),
        description: "".into(),
        module: "".into(),
        entities: vec![],
        value_objects: vec![],
        services: vec![],
        repositories: vec![],
        events: vec![],
        dependencies: deps.into_iter().map(String::from).collect(),
    }
}

fn test_model() -> DomainModel {
    let mut identity = context("Identity", vec![]);
    identity.entities.push(Entity {
        name: "User".into(),
        description: "A user".into(),
        aggregate_root: true,
        fields: vec![],
        methods: vec![],
        invariants: vec![],
    });
    identity.services.push(Service {
        name: "AuthService".into(),
        description: "".into(),
        kind: ServiceKind::Application,
        methods: vec![],
        dependencies: vec![],
    });
    DomainModel {
        name: "TestProject".into(),
        description: "".into(),
        bounded_contexts: vec![identity, context("Billing", vec!["Identity"])],
        rules: vec![],
        tech_stack: TechStack::default(),
        conventions: Conventions::default(),
    }
}

#[test]
fn finds_context_ignoring_case() {
    let m = test_model();
    let r = DomainRegistry::new(&m);
    assert_eq!(r.find_context("billing").unwrap().name, "Billing");
    assert!(r.find_context("Shipping").is_none());
    assert_eq!(r.context_names(), vec!["Identity", "Billing"]);
}

#[test]
fn finds_entity_and_service() {
    let m = test_model();
    let r = DomainRegistry::new(&m);
    let (bc, e) = r.find_entity("user").unwrap();
    assert_eq!(bc.name, "Identity");
    assert!(e.aggregate_root);
    assert!(r.find_entity("Nonexistent").is_none());
    let (bc, s) = r.find_service("AUTHSERVICE").unwrap();
    assert_eq!(bc.name, "Identity");
    assert_eq!(s.name, "AuthService");
    assert!(r.find_service("Mailer").is_none());
}

#[test]
fn dependency_rules() {
    let m = test_model();
    assert!(dependency_allowed(&m.bounded_contexts[1], "identity"));
    assert!(!dependency_allowed(&m.bounded_contexts[0], "Billing"));
}

#[test]
fn suggested_paths_by_kind() {
    let pattern = "src/{context}/{layer}/{type}.rs";
    assert_eq!(layer_for_kind("entity"), "domain");
    assert_eq!(layer_for_kind("value_object"), "domain");
    assert_eq!(layer_for_kind("event"), "domain");
    assert_eq!(layer_for_kind("service"), "application");
    assert_eq!(layer_for_kind("repository"), "infrastructure");
    assert_eq!(layer_for_kind("adapter"), "adapter");
    assert_eq!(
        resolve_path(pattern, "Identity", &layer_for_kind("entity"), "User"),
        "src/identity/domain/user.rs"
    );
    assert_eq!(
        resolve_path(pattern, "Identity", &layer_for_kind("repository"), "UserRepository"),
        "src/identity/infrastructure/user_repository.rs"
    );
}

#[test]
fn tool_results() {
    let ok = text_result("fine".into());
    assert!(ok.is_error.is_none());
    assert!(matches!(&ok.content[0], ContentBlock::Text { text } if text == "fine"));
    let err = error_result("broken".into());
    assert_eq!(err.is_error, Some(true));
    assert!(matches!(&err.content[0], ContentBlock::Text { text } if text == "broken"));
}

#[test]
fn write_tool_names() {
    assert!(is_write_tool("update_entity"));
    assert!(is_write_tool("save_model"));
    assert!(!is_write_tool("get_entity"));
    assert!(!is_write_tool("Update_Entity"));
}

#[test]
fn dependency_explanations() {
    let m = test_model();
    assert_eq!(
        dependency_explanation(&m.bounded_contexts[1], "Billing", "Identity"),
        "'Identity' is an allowed dependency of 'Billing'"
    );
    assert_eq!(
        dependency_explanation(&m.bounded_contexts[0], "Identity", "Billing"),
        "'Identity' is NOT allowed to depend on 'Billing'. Allowed dependencies: none"
    );
    let mut c = m.bounded_contexts[1].clone();
    c.dependencies.push("Shipping".into());
    assert_eq!(
        dependency_explanation(&c, "Billing", "Audit"),
        "'Billing' is NOT allowed to depend on 'Audit'. Allowed dependencies: Identity, Shipping"
    );
}
