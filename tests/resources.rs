use domcp::model::{BoundedContext, Conventions, DomainModel, TechStack};
use domcp::resources::{context_resource, list_resources};

fn test_model() -> DomainModel {
    DomainModel {
        name: "TestProject".into(),
        description: "Test".into(),
        bounded_contexts: vec![BoundedContext {
            name: "Identity".into(),
            description: "Auth context".into(),
            module: "src/identity".into(),
            entities: vec![],
            value_objects: vec![],
            services: vec![],
            repositories: vec![],
            events: vec![],
            dependencies: vec![],
        }],
        rules: vec![],
        tech_stack: TechStack::default(),
        conventions: Conventions::default(),
    }
}

#[test]
fn test_list_resources_includes_static_and_context() {
    let model = test_model();
    let resources = list_resources(&model);
    assert_eq!(resources.len(), 4);
    assert!(resources.iter().any(|r| r.uri == "domcp://architecture/overview"));
    assert!(resources.iter().any(|r| r.uri == "domcp://context/identity"));
}

#[test]
fn context_resource_fields() {
    let r = context_resource("Identity", "identity");
    assert_eq!(r.uri, "domcp://context/identity");
    assert_eq!(r.name, "Context: Identity");
    assert_eq!(r.description, "Bounded context 'Identity' — entities, services, events");
    assert_eq!(r.mime_type, "application/json");
}

#[test]
fn listed_context_uri_is_lower_cased() {
    let mut model = test_model();
    model.bounded_contexts[0].name = "BillingCORE".into();
    let resources = list_resources(&model);
    assert_eq!(resources[3].uri, "domcp://context/billingcore");
    assert_eq!(resources[3].name, "Context: BillingCORE");
}
