use domcp::model::{BoundedContext, DomainModel, Entity, ModelError};

fn context(name: &str) -> BoundedContext {
    BoundedContext {
        name: name.into(),
        description: "".into(),
        module: "".into(),
        entities: vec![],
        value_objects: vec![],
        services: vec![],
        repositories: vec![],
        events: vec![],
        dependencies: vec![],
    }
}

fn entity(name: &str) -> Entity {
    Entity {
        name: name.into(),
        description: "".into(),
        aggregate_root: false,
        fields: vec![],
        methods: vec![],
        invariants: vec![],
    }
}

#[test]
fn empty_model_named_after_workspace() {
    let m = DomainModel::empty("/tmp/my-project");
    assert_eq!(m.name, "my-project");
    assert!(m.bounded_contexts.is_empty());
    assert!(m.rules.is_empty());
    assert_eq!(m.description, "");
}

#[test]
fn empty_model_without_file_name() {
    assert_eq!(DomainModel::empty("/").name, "Unnamed");
    assert_eq!(DomainModel::named(None).name, "Unnamed");
    assert_eq!(DomainModel::named(Some("Shop".into())).name, "Shop");
}

#[test]
fn validate_accepts_named_model() {
    let mut m = DomainModel::named(Some("Shop".into()));
    let mut c = context("Sales");
    c.entities.push(entity("Order"));
    m.bounded_contexts.push(c);
    assert_eq!(m.validate(), Ok(()));
}

#[test]
fn validate_reports_each_error() {
    let mut m = DomainModel::named(Some("".into()));
    assert_eq!(m.validate(), Err(ModelError::MissingName));
    assert_eq!(ModelError::MissingName.message(), "Domain model must have a name");
    m.name = "Shop".into();
    m.bounded_contexts.push(context(""));
    assert_eq!(m.validate(), Err(ModelError::MissingContextName));
    m.bounded_contexts[0].name = "Sales".into();
    m.bounded_contexts[0].entities.push(entity(""));
    let err = m.validate().unwrap_err();
    assert_eq!(err, ModelError::MissingEntityName { context: "Sales".into() });
    assert_eq!(err.message(), "Entity in bounded context 'Sales' must have a name");
}

#[test]
fn empty_model_has_default_settings() {
    let m = DomainModel::empty("workspace_01");
    assert_eq!(m.name, "workspace_01");
    assert_eq!(m.tech_stack.language, "");
    assert!(m.tech_stack.additional.is_empty());
    assert_eq!(m.conventions.naming.entities, "");
    assert_eq!(m.conventions.file_structure.pattern, "");
    assert!(m.conventions.file_structure.layers.is_empty());
    assert_eq!(DomainModel::empty("").name, "Unnamed");
}
