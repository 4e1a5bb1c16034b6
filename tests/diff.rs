use domcp::change::{Area, ChangeKind, Snapshot};
use domcp::diff::diff_models;
use domcp::model::{
    ArchitecturalRule, BoundedContext, Conventions, DomainEvent, DomainModel, Entity, Field,
    FileStructure, Repository, Service, ServiceKind, Severity, TechStack, ValueObject,
};
use domcp::plan::{plan_refactoring, ActionKind, Priority};

fn base_model() -> DomainModel {
    DomainModel {
        name: "Test".into(),
        description: "".into(),
        bounded_contexts: vec![BoundedContext {
            name: "Identity".into(),
            description: "".into(),
            module: "src/identity".into(),
            entities: vec![Entity {
                name: "User".into(),
                description: "".into(),
                aggregate_root: true,
                fields: vec![Field {
                    name: "id".into(),
                    field_type: "UserId".into(),
                    required: true,
                    description: "".into(),
                }],
                methods: vec![],
                invariants: vec![],
            }],
            value_objects: vec![],
            services: vec![],
            repositories: vec![],
            events: vec![],
            dependencies: vec![],
        }],
        rules: vec![],
        tech_stack: TechStack::default(),
        conventions: Conventions {
            file_structure: FileStructure {
                pattern: "src/{context}/{layer}/{type}.rs".into(),
                layers: vec!["domain".into(), "application".into()],
            },
            ..Default::default()
        },
    }
}

fn role() -> Entity {
    Entity {
        name: "Role".into(),
        description: "".into(),
        aggregate_root: false,
        fields: vec![],
        methods: vec![],
        invariants: vec![],
    }
}

#[test]
fn test_no_changes_for_identical_models() {
    let m = base_model();
    let changes = diff_models(&m, &m);
    assert!(changes.is_empty());
}

#[test]
fn test_detect_new_entity() {
    let old = base_model();
    let mut new = base_model();
    new.bounded_contexts[0].entities.push(role());
    let changes = diff_models(&old, &new);
    assert_eq!(changes.len(), 1);
    assert!(matches!(changes[0].kind, ChangeKind::Added));
    assert!(changes[0].path.contains("Role"));
}

#[test]
fn test_detect_removed_entity() {
    let old = base_model();
    let mut new = base_model();
    new.bounded_contexts[0].entities.clear();
    let changes = diff_models(&old, &new);
    assert_eq!(changes.len(), 1);
    assert!(matches!(changes[0].kind, ChangeKind::Removed));
}

#[test]
fn test_detect_new_field() {
    let old = base_model();
    let mut new = base_model();
    new.bounded_contexts[0].entities[0].fields.push(Field {
        name: "email".into(),
        field_type: "String".into(),
        required: true,
        description: "".into(),
    });
    let changes = diff_models(&old, &new);
    assert_eq!(changes.len(), 1);
    assert!(changes[0].path.contains("email"));
}

#[test]
fn test_detect_field_type_change() {
    let old = base_model();
    let mut new = base_model();
    new.bounded_contexts[0].entities[0].fields[0].field_type = "Uuid".into();
    let changes = diff_models(&old, &new);
    assert_eq!(changes.len(), 1);
    assert!(matches!(changes[0].kind, ChangeKind::Modified));
}

#[test]
fn test_detect_new_bounded_context() {
    let old = base_model();
    let mut new = base_model();
    new.bounded_contexts.push(BoundedContext {
        name: "Billing".into(),
        description: "".into(),
        module: "src/billing".into(),
        entities: vec![],
        value_objects: vec![],
        services: vec![],
        repositories: vec![],
        events: vec![],
        dependencies: vec!["Identity".into()],
    });
    let changes = diff_models(&old, &new);
    assert!(changes
        .iter()
        .any(|c| matches!(c.kind, ChangeKind::Added) && c.path.contains("Billing")));
}

#[test]
fn test_detect_module_move() {
    let old = base_model();
    let mut new = base_model();
    new.bounded_contexts[0].module = "src/auth".into();
    let changes = diff_models(&old, &new);
    assert_eq!(changes.len(), 1);
    assert!(matches!(changes[0].kind, ChangeKind::Moved));
}

#[test]
fn test_detect_removed_event() {
    let old = {
        let mut m = base_model();
        m.bounded_contexts[0].events.push(DomainEvent {
            name: "UserCreated".into(),
            description: "".into(),
            fields: vec![],
            source: "User".into(),
        });
        m
    };
    let new = base_model();
    let changes = diff_models(&old, &new);
    assert!(changes
        .iter()
        .any(|c| matches!(c.kind, ChangeKind::Removed) && c.path.contains("UserCreated")));
}

#[test]
fn test_detect_service_kind_change() {
    let old = {
        let mut m = base_model();
        m.bounded_contexts[0].services.push(Service {
            name: "AuthService".into(),
            description: "".into(),
            kind: ServiceKind::Domain,
            methods: vec![],
            dependencies: vec![],
        });
        m
    };
    let mut new = old.clone();
    new.bounded_contexts[0].services[0].kind = ServiceKind::Application;
    let changes = diff_models(&old, &new);
    assert!(changes
        .iter()
        .any(|c| matches!(c.kind, ChangeKind::Modified) && c.path.contains("AuthService")));
}

#[test]
fn test_detect_new_value_object() {
    let old = base_model();
    let mut new = base_model();
    new.bounded_contexts[0].value_objects.push(ValueObject {
        name: "Email".into(),
        description: "".into(),
        fields: vec![],
        validation_rules: vec![],
    });
    let changes = diff_models(&old, &new);
    assert!(changes
        .iter()
        .any(|c| matches!(c.kind, ChangeKind::Added) && c.path.contains("Email")));
}

#[test]
fn test_detect_new_repository() {
    let old = base_model();
    let mut new = base_model();
    new.bounded_contexts[0].repositories.push(Repository {
        name: "UserRepository".into(),
        aggregate: "User".into(),
        methods: vec![],
    });
    let changes = diff_models(&old, &new);
    assert!(changes
        .iter()
        .any(|c| matches!(c.kind, ChangeKind::Added) && c.path.contains("UserRepository")));
}

#[test]
fn test_detect_modified_rule() {
    let old = {
        let mut m = base_model();
        m.rules.push(ArchitecturalRule {
            id: "RULE-1".into(),
            description: "Old description".into(),
            severity: Severity::Warning,
            scope: "".into(),
        });
        m
    };
    let mut new = old.clone();
    new.rules[0].description = "New description".into();
    let changes = diff_models(&old, &new);
    assert!(changes
        .iter()
        .any(|c| matches!(c.kind, ChangeKind::Modified) && c.path.contains("RULE-1")));
}

#[test]
fn test_plan_refactoring_creates_file_for_new_entity() {
    let old = base_model();
    let mut new = base_model();
    new.bounded_contexts[0].entities.push(role());
    let changes = diff_models(&old, &new);
    let plan = plan_refactoring(&changes, &new.conventions);
    assert!(!plan.code_actions.is_empty());
    assert!(plan
        .code_actions
        .iter()
        .any(|a| matches!(a.action, ActionKind::CreateFile) && a.file_path.contains("role")));
}

#[test]
fn test_plan_refactoring_field_migration_note() {
    let old = base_model();
    let mut new = base_model();
    new.bounded_contexts[0].entities[0].fields.push(Field {
        name: "avatar".into(),
        field_type: "String".into(),
        required: false,
        description: "".into(),
    });
    let changes = diff_models(&old, &new);
    let plan = plan_refactoring(&changes, &new.conventions);
    assert!(plan.migration_notes.iter().any(|n| n.contains("ALTER TABLE")));
}

// ─── Scenarios and properties ──────────────────────────────────────────────

#[test]
fn new_entity_scenario_paths_and_priorities() {
    let old = base_model();
    let mut new = base_model();
    new.bounded_contexts[0].entities.push(role());
    let changes = diff_models(&old, &new);
    assert_eq!(changes.len(), 1);
    assert!(matches!(changes[0].kind, ChangeKind::Added));
    assert_eq!(changes[0].path, "Identity.entities.Role");
    assert_eq!(changes[0].description, "New entity 'Role' in context 'Identity'");
    assert!(matches!(changes[0].target.area, Area::Entity));
    let plan = plan_refactoring(&changes, &new.conventions);
    assert_eq!(plan.code_actions.len(), 2);
    let create = plan
        .code_actions
        .iter()
        .find(|a| matches!(a.action, ActionKind::CreateFile))
        .unwrap();
    assert_eq!(create.file_path, "src/identity/domain/role.rs");
    assert!(matches!(create.priority, Priority::High));
    assert!(plan.code_actions.iter().any(|a| matches!(a.action, ActionKind::AddTest)));
    assert_eq!(plan.migration_notes, vec!["New entity 'Role' — may need database migration".to_string()]);
    assert!(!plan.migration_notes.iter().any(|n| n.contains("ALTER TABLE")));
}

#[test]
fn field_type_change_scenario() {
    let old = base_model();
    let mut new = base_model();
    new.bounded_contexts[0].entities[0].fields[0].field_type = "Uuid".into();
    let changes = diff_models(&old, &new);
    assert_eq!(changes.len(), 1);
    assert!(matches!(changes[0].kind, ChangeKind::Modified));
    assert_eq!(changes[0].path, "Identity.User.fields.id");
    assert!(changes[0].path.ends_with("fields.id"));
    assert_eq!(changes[0].description, "Field 'id' on 'User' type changed: UserId → Uuid");
    let plan = plan_refactoring(&changes, &new.conventions);
    assert_eq!(plan.code_actions.len(), 1);
    assert!(matches!(plan.code_actions[0].action, ActionKind::ModifyFile));
    assert!(matches!(plan.code_actions[0].priority, Priority::Critical));
    assert_eq!(plan.code_actions[0].file_path, "src/identity/domain/user.rs");
    assert_eq!(plan.migration_notes.len(), 1);
    assert!(plan.migration_notes[0].contains("data migration"));
}

#[test]
fn removed_field_scenario() {
    let mut old = base_model();
    old.bounded_contexts[0].entities[0].fields.push(Field {
        name: "avatar".into(),
        field_type: "String".into(),
        required: false,
        description: "".into(),
    });
    let new = base_model();
    let changes = diff_models(&old, &new);
    assert_eq!(changes.len(), 1);
    assert!(matches!(changes[0].kind, ChangeKind::Removed));
    assert_eq!(changes[0].path, "Identity.User.fields.avatar");
    let plan = plan_refactoring(&changes, &new.conventions);
    assert!(plan.migration_notes.iter().any(|n| n.contains("ALTER TABLE")));
    assert_eq!(
        plan.migration_notes[0],
        "Removed field 'avatar' from 'User' — needs ALTER TABLE migration"
    );
}

#[test]
fn context_move_scenario() {
    let old = base_model();
    let mut new = base_model();
    new.bounded_contexts[0].module = "src/auth".into();
    let changes = diff_models(&old, &new);
    assert_eq!(changes.len(), 1);
    assert!(matches!(changes[0].kind, ChangeKind::Moved));
    assert_eq!(changes[0].path, "Identity.module_path");
    assert!(matches!(&changes[0].before, Some(Snapshot::Text(t)) if t == "src/identity"));
    assert!(matches!(&changes[0].after, Some(Snapshot::Text(t)) if t == "src/auth"));
    let plan = plan_refactoring(&changes, &new.conventions);
    assert_eq!(plan.code_actions.len(), 1);
    assert!(matches!(plan.code_actions[0].action, ActionKind::MoveFile));
    assert!(matches!(plan.code_actions[0].priority, Priority::Critical));
    assert_eq!(plan.code_actions[0].file_path, "src/identity");
    assert_eq!(plan.code_actions[0].description, "Move module from src/identity to src/auth");
}

#[test]
fn clearing_module_path_is_not_a_move() {
    let old = base_model();
    let mut new = base_model();
    new.bounded_contexts[0].module = "".into();
    assert!(diff_models(&old, &new).is_empty());
}

#[test]
fn removed_becomes_added_when_reversed() {
    let mut a = base_model();
    a.bounded_contexts[0].events.push(DomainEvent {
        name: "UserCreated".into(),
        description: "".into(),
        fields: vec![],
        source: "User".into(),
    });
    a.bounded_contexts[0].dependencies.push("Billing".into());
    let mut b = base_model();
    b.bounded_contexts[0].name = "identity".into();
    let forward = diff_models(&a, &b);
    let backward = diff_models(&b, &a);
    for c in forward.iter().filter(|c| matches!(c.kind, ChangeKind::Removed)) {
        assert!(backward.iter().any(|d| matches!(d.kind, ChangeKind::Added)
            && d.path.eq_ignore_ascii_case(&c.path)));
    }
    assert_eq!(forward.len(), 2);
    assert_eq!(backward.len(), 2);
    assert_eq!(backward[0].path, "Identity.events.UserCreated");
    assert_eq!(backward[1].path, "Identity.dependencies.Billing");
}

#[test]
fn names_match_ignoring_ascii_case() {
    let old = base_model();
    let mut new = base_model();
    new.bounded_contexts[0].name = "IDENTITY".into();
    new.bounded_contexts[0].entities[0].name = "user".into();
    assert!(diff_models(&old, &new).is_empty());
}

#[test]
fn rule_changes_in_order() {
    let mut old = base_model();
    old.rules.push(ArchitecturalRule {
        id: "R-1".into(),
        description: "keep".into(),
        severity: Severity::Error,
        scope: "".into(),
    });
    old.rules.push(ArchitecturalRule {
        id: "R-2".into(),
        description: "gone".into(),
        severity: Severity::Info,
        scope: "".into(),
    });
    let mut new = base_model();
    new.rules.push(ArchitecturalRule {
        id: "R-1".into(),
        description: "keep".into(),
        severity: Severity::Warning,
        scope: "".into(),
    });
    new.rules.push(ArchitecturalRule {
        id: "R-3".into(),
        description: "fresh".into(),
        severity: Severity::Info,
        scope: "".into(),
    });
    let changes = diff_models(&old, &new);
    let paths: Vec<&str> = changes.iter().map(|c| c.path.as_str()).collect();
    assert_eq!(paths, vec!["rules.R-3", "rules.R-2", "rules.R-1"]);
    assert_eq!(changes[0].description, "New rule: R-3 — fresh");
    assert_eq!(changes[1].description, "Removed rule: R-2");
    assert!(matches!(changes[2].kind, ChangeKind::Modified));
}

#[test]
fn nested_entity_and_service_changes() {
    let mut old = base_model();
    old.bounded_contexts[0].services.push(Service {
        name: "Auth".into(),
        description: "".into(),
        kind: ServiceKind::Domain,
        methods: vec![],
        dependencies: vec!["Clock".into()],
    });
    let mut new = old.clone();
    new.bounded_contexts[0].entities[0].aggregate_root = false;
    new.bounded_contexts[0].entities[0].invariants.push("id is unique".into());
    new.bounded_contexts[0].services[0].dependencies = vec!["Mailer".into()];
    let changes = diff_models(&old, &new);
    let paths: Vec<&str> = changes.iter().map(|c| c.path.as_str()).collect();
    assert_eq!(
        paths,
        vec![
            "Identity.User.aggregate_root",
            "Identity.User.invariants",
            "Identity.services.Auth.dependencies.Mailer",
            "Identity.services.Auth.dependencies.Clock",
        ]
    );
    assert_eq!(changes[0].description, "'User' aggregate root: true → false");
    assert_eq!(changes[1].description, "New invariant on 'User': id is unique");
}

#[test]
fn planning_twice_gives_identical_output() {
    let old = base_model();
    let mut new = base_model();
    new.bounded_contexts[0].entities.push(role());
    new.bounded_contexts[0].entities[0].fields[0].field_type = "Uuid".into();
    let changes = diff_models(&old, &new);
    let first = plan_refactoring(&changes, &new.conventions);
    let second = plan_refactoring(&diff_models(&old, &new), &new.conventions);
    assert_eq!(format!("{:?}", first), format!("{:?}", second));
    assert_eq!(first.model_changes.len(), changes.len());
}

#[test]
fn actions_come_out_by_priority() {
    let mut old = base_model();
    old.bounded_contexts[0].entities.push(role());
    let mut new = base_model();
    new.bounded_contexts[0].events.push(DomainEvent {
        name: "UserCreated".into(),
        description: "".into(),
        fields: vec![],
        source: "User".into(),
    });
    new.bounded_contexts[0].entities[0].fields.push(Field {
        name: "email".into(),
        field_type: "String".into(),
        required: true,
        description: "".into(),
    });
    new.bounded_contexts.push(BoundedContext {
        name: "Billing".into(),
        description: "".into(),
        module: "".into(),
        entities: vec![],
        value_objects: vec![],
        services: vec![],
        repositories: vec![],
        events: vec![],
        dependencies: vec![],
    });
    let changes = diff_models(&old, &new);
    let plan = plan_refactoring(&changes, &new.conventions);
    let rank = |p: &Priority| match p {
        Priority::Critical => 0,
        Priority::High => 1,
        Priority::Medium => 2,
        Priority::Low => 3,
    };
    let ranks: Vec<i32> = plan.code_actions.iter().map(|a| rank(&a.priority)).collect();
    assert_eq!(ranks, vec![0, 1, 1, 1, 2]);
    let paths: Vec<&str> = plan.code_actions.iter().map(|a| a.file_path.as_str()).collect();
    assert_eq!(
        paths,
        vec![
            "src/identity/domain/role.rs",
            "src/identity/domain/user.rs",
            "src/billing/domain/mod.rs",
            "src/billing/application/mod.rs",
            "src/identity/domain/user_created.rs",
        ]
    );
    assert_eq!(
        plan.migration_notes,
        vec![
            "New field 'email' on 'User' — needs ALTER TABLE migration".to_string(),
            "Removed entity 'Role' — needs DROP TABLE migration".to_string(),
        ]
    );
}

#[test]
fn unlisted_change_shapes_give_no_action() {
    let mut old = base_model();
    old.rules.push(ArchitecturalRule {
        id: "R-1".into(),
        description: "".into(),
        severity: Severity::Error,
        scope: "".into(),
    });
    let mut new = base_model();
    new.bounded_contexts[0].value_objects.push(ValueObject {
        name: "Email".into(),
        description: "".into(),
        fields: vec![],
        validation_rules: vec![],
    });
    new.bounded_contexts[0].entities[0].aggregate_root = false;
    let changes = diff_models(&old, &new);
    assert_eq!(changes.len(), 3);
    let plan = plan_refactoring(&changes, &new.conventions);
    assert!(plan.code_actions.is_empty());
    assert!(plan.migration_notes.is_empty());
}
