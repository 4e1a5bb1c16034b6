use domcp::edits::{
    merge_fields, merge_methods, parse_fields, parse_service_kind, remove_entity,
    update_bounded_context, update_entity, update_event, update_service, ContextUpdate,
    EntityUpdate, EventUpdate, FieldPatch, MethodPatch, ServiceUpdate,
};
use domcp::model::{
    BoundedContext, Conventions, DomainModel, Entity, Field, Method, ServiceKind, TechStack,
};
use domcp::protocol::{ContentBlock, ToolCallResult};

fn test_model() -> DomainModel {
    DomainModel {
        name: "TestProject".into(),
        description: "Test".into(),
        bounded_contexts: vec![BoundedContext {
            name: "Identity".into(),
            description: "Auth context".into(),
            module: "src/identity".into(),
            entities: vec![Entity {
                name: "User".into(),
                description: "A user".into(),
                aggregate_root: true,
                fields: vec![Field {
                    name: "id".into(),
                    field_type: "UserId".into(),
                    required: true,
                    description: "".into(),
                }],
                methods: vec![],
                invariants: vec!["Email must be unique".into()],
            }],
            value_objects: vec![],
            services: vec![],
            repositories: vec![],
            events: vec![],
            dependencies: vec![],
        }],
        rules: vec![],
        tech_stack: TechStack::default(),
        conventions: Conventions::default(),
    }
}

fn text(r: &ToolCallResult) -> &str {
    match &r.content[0] {
        ContentBlock::Text { text } => text,
    }
}

fn patch(name: &str, ty: Option<&str>) -> FieldPatch {
    FieldPatch {
        name: Some(name.into()),
        field_type: ty.map(String::from),
        required: None,
        description: None,
    }
}

fn entity_update(context: &str, name: &str) -> EntityUpdate {
    EntityUpdate {
        context: context.into(),
        name: name.into(),
        description: None,
        aggregate_root: None,
        fields: None,
        methods: None,
        invariants: None,
    }
}

#[test]
fn entity_update_adds_field() {
    let mut model = test_model();
    let mut u = entity_update("Identity", "User");
    u.fields = Some(vec![FieldPatch {
        name: Some("email".into()),
        field_type: Some("String".into()),
        required: Some(true),
        description: None,
    }]);
    let r = update_entity(&mut model, u);
    assert!(r.is_error.is_none());
    assert_eq!(text(&r), "Updated entity 'User' in 'Identity'");
    let fields = &model.bounded_contexts[0].entities[0].fields;
    assert_eq!(fields.len(), 2);
    assert_eq!(fields[1].name, "email");
    assert!(fields[1].required);
}

#[test]
fn entity_update_merges_existing_field() {
    let mut model = test_model();
    let mut u = entity_update("identity", "user");
    u.fields = Some(vec![patch("id", Some("Uuid"))]);
    u.invariants = Some(vec!["Email must be unique".into(), "Name is set".into()]);
    u.aggregate_root = Some(false);
    update_entity(&mut model, u);
    let e = &model.bounded_contexts[0].entities[0];
    assert_eq!(e.fields.len(), 1);
    assert_eq!(e.fields[0].field_type, "Uuid");
    assert!(e.fields[0].required);
    assert!(!e.aggregate_root);
    assert_eq!(e.invariants, vec!["Email must be unique".to_string(), "Name is set".to_string()]);
}

#[test]
fn entity_update_creates_entity() {
    let mut model = test_model();
    let mut u = entity_update("Identity", "Role");
    u.description = Some("A role assignment".into());
    u.aggregate_root = Some(false);
    u.fields = Some(vec![patch("name", Some("String")), patch("broken", None)]);
    let r = update_entity(&mut model, u);
    assert_eq!(text(&r), "Created entity 'Role' in 'Identity'");
    let e = &model.bounded_contexts[0].entities[1];
    assert_eq!(e.name, "Role");
    assert_eq!(e.description, "A role assignment");
    assert_eq!(e.fields.len(), 1);
    assert_eq!(e.fields[0].description, "");
}

#[test]
fn entity_update_unknown_context() {
    let mut model = test_model();
    let r = update_entity(&mut model, entity_update("Nonexistent", "Foo"));
    assert_eq!(r.is_error, Some(true));
    assert_eq!(text(&r), "Bounded context 'Nonexistent' not found");
    assert_eq!(model.bounded_contexts[0].entities.len(), 1);
}

#[test]
fn context_create_and_update() {
    let mut model = test_model();
    let r = update_bounded_context(
        &mut model,
        ContextUpdate {
            name: "Billing".into(),
            description: Some("Billing context".into()),
            module: Some("src/billing".into()),
            dependencies: Some(vec!["Identity".into()]),
        },
    );
    assert_eq!(text(&r), "Created bounded context 'Billing'");
    assert_eq!(model.bounded_contexts.len(), 2);
    assert_eq!(model.bounded_contexts[1].module, "src/billing");
    assert_eq!(model.bounded_contexts[1].dependencies, vec!["Identity".to_string()]);
    let r = update_bounded_context(
        &mut model,
        ContextUpdate {
            name: "Identity".into(),
            description: Some("Updated description".into()),
            module: None,
            dependencies: None,
        },
    );
    assert_eq!(text(&r), "Updated bounded context 'Identity'");
    assert_eq!(model.bounded_contexts[0].description, "Updated description");
    assert_eq!(model.bounded_contexts[0].module, "src/identity");
    let r = update_bounded_context(
        &mut model,
        ContextUpdate { name: "".into(), description: None, module: None, dependencies: None },
    );
    assert_eq!(r.is_error, Some(true));
    assert_eq!(text(&r), "'name' is required");
}

#[test]
fn entity_removal() {
    let mut model = test_model();
    let r = remove_entity(&mut model, "Identity".into(), "NotHere".into());
    assert_eq!(r.is_error, Some(true));
    assert_eq!(text(&r), "Entity 'NotHere' not found in 'Identity'");
    let r = remove_entity(&mut model, "Identity".into(), "user".into());
    assert!(r.is_error.is_none());
    assert_eq!(text(&r), "Removed entity 'user' from 'Identity'");
    assert!(model.bounded_contexts[0].entities.is_empty());
}

#[test]
fn service_create_then_merge_methods() {
    let mut model = test_model();
    let login = MethodPatch {
        name: Some("login".into()),
        description: None,
        parameters: None,
        return_type: Some("Token".into()),
    };
    let r = update_service(
        &mut model,
        ServiceUpdate {
            context: "Identity".into(),
            name: "AuthService".into(),
            kind: parse_service_kind("application"),
            description: Some("Handles authentication".into()),
            methods: Some(vec![login]),
            dependencies: None,
        },
    );
    assert_eq!(text(&r), "Created service 'AuthService' in 'Identity'");
    let logout = MethodPatch {
        name: Some("logout".into()),
        description: None,
        parameters: None,
        return_type: Some("void".into()),
    };
    let r = update_service(
        &mut model,
        ServiceUpdate {
            context: "Identity".into(),
            name: "AuthService".into(),
            kind: parse_service_kind("application"),
            description: None,
            methods: Some(vec![logout]),
            dependencies: None,
        },
    );
    assert_eq!(text(&r), "Updated service 'AuthService' in 'Identity'");
    let svc = &model.bounded_contexts[0].services[0];
    assert!(matches!(svc.kind, ServiceKind::Application));
    assert_eq!(svc.description, "Handles authentication");
    assert_eq!(svc.methods.len(), 2);
    assert_eq!(svc.methods[0].return_type, "Token");
    assert_eq!(svc.methods[1].name, "logout");
}

#[test]
fn event_create() {
    let mut model = test_model();
    let r = update_event(
        &mut model,
        EventUpdate {
            context: "Identity".into(),
            name: "UserRegistered".into(),
            description: None,
            source: Some("User".into()),
            fields: Some(vec![patch("user_id", Some("UserId"))]),
        },
    );
    assert_eq!(text(&r), "Created event 'UserRegistered' in 'Identity'");
    let ev = &model.bounded_contexts[0].events[0];
    assert_eq!(ev.source, "User");
    assert_eq!(ev.fields[0].field_type, "UserId");
}

#[test]
fn service_kind_names() {
    assert!(matches!(parse_service_kind("application"), ServiceKind::Application));
    assert!(matches!(parse_service_kind("infrastructure"), ServiceKind::Infrastructure));
    assert!(matches!(parse_service_kind("domain"), ServiceKind::Domain));
    assert!(matches!(parse_service_kind("Application"), ServiceKind::Domain));
}

#[test]
fn field_and_method_merging() {
    let mut fields = vec![Field {
        name: "id".into(),
        field_type: "UserId".into(),
        required: true,
        description: "key".into(),
    }];
    merge_fields(&mut fields, &vec![patch("ID", Some("Uuid")), FieldPatch {
        name: Some("id".into()),
        field_type: None,
        required: Some(false),
        description: None,
    }, patch("note", None)]);
    assert_eq!(fields.len(), 2);
    assert_eq!(fields[0].field_type, "UserId");
    assert!(!fields[0].required);
    assert_eq!(fields[0].description, "key");
    assert_eq!(fields[1].name, "ID");
    assert_eq!(parse_fields(&vec![patch("a", Some("T")), patch("b", None)]).len(), 1);
    let mut methods = vec![Method {
        name: "run".into(),
        description: "".into(),
        parameters: vec![],
        return_type: "()".into(),
    }];
    merge_methods(&mut methods, &vec![MethodPatch {
        name: Some("run".into()),
        description: Some("go".into()),
        parameters: Some(vec![patch("x", Some("u8"))]),
        return_type: None,
    }]);
    assert_eq!(methods.len(), 1);
    assert_eq!(methods[0].description, "go");
    assert!(methods[0].parameters.is_empty());
    assert_eq!(methods[0].return_type, "()");
}
