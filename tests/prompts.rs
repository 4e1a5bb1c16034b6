use domcp::model::{ArchitecturalRule, BoundedContext, Conventions, DomainModel, Severity, TechStack};
use domcp::prompts::{get_prompt, list_prompts};
use domcp::protocol::ContentBlock;

fn test_model() -> DomainModel {
    DomainModel {
        name: "TestProject".into(),
        description: "Test".into(),
        bounded_contexts: vec![BoundedContext {
            name: "Identity".into(),
            description: "".into(),
            module: "".into(),
            entities: vec![],
            value_objects: vec![],
            services: vec![],
            repositories: vec![],
            events: vec![],
            dependencies: vec![],
        }],
        rules: vec![],
        tech_stack: TechStack::default(),
        conventions: Conventions::default(),
    }
}

fn text_of(block: &ContentBlock) -> &str {
    match block {
        ContentBlock::Text { text } => text,
    }
}

#[test]
fn test_list_prompts() {
    let prompts = list_prompts();
    assert_eq!(prompts.len(), 1);
    assert_eq!(prompts[0].name, "domcp_guidelines");
}

#[test]
fn test_get_prompt_found() {
    let model = test_model();
    let result = get_prompt(&model, "domcp_guidelines");
    assert!(result.is_some());
    let prompt = result.unwrap();
    assert!(prompt.description.contains("TestProject"));
    assert_eq!(prompt.messages.len(), 1);
}

#[test]
fn test_get_prompt_not_found() {
    let model = test_model();
    assert!(get_prompt(&model, "nonexistent").is_none());
}

#[test]
fn test_prompt_includes_contexts() {
    let model = test_model();
    let prompt = get_prompt(&model, "domcp_guidelines").unwrap();
    let text = match &prompt.messages[0].content {
        ContentBlock::Text { text } => text,
    };
    assert!(text.contains("Identity"));
}

#[test]
fn prompt_text_for_empty_model_and_rules() {
    let mut model = test_model();
    model.bounded_contexts.clear();
    model.rules.push(ArchitecturalRule {
        id: "LAYER-001".into(),
        description: "Domain must not depend on infra".into(),
        severity: Severity::Warning,
        scope: "domain".into(),
    });
    let prompt = get_prompt(&model, "domcp_guidelines").unwrap();
    assert_eq!(prompt.description, "Architecture guidelines for TestProject");
    assert_eq!(prompt.messages[0].role, "user");
    let text = text_of(&prompt.messages[0].content);
    assert!(text.starts_with("## DOMCP — TestProject\n\nNo bounded contexts defined yet.\n\n**This project has no domain model yet.**"));
    assert!(text.ends_with("\n### Rules\n\n- **LAYER-001** (warning): Domain must not depend on infra\n"));
}

#[test]
fn prompt_lists_context_names() {
    let mut model = test_model();
    model.bounded_contexts.push(BoundedContext {
        name: "Billing".into(),
        description: "".into(),
        module: "".into(),
        entities: vec![],
        value_objects: vec![],
        services: vec![],
        repositories: vec![],
        events: vec![],
        dependencies: vec![],
    });
    let prompt = get_prompt(&model, "domcp_guidelines").unwrap();
    let text = text_of(&prompt.messages[0].content);
    assert!(text.contains("\nBounded contexts: Identity, Billing\n\n### Workflow"));
    assert!(get_prompt(&model, "DOMCP_GUIDELINES").is_none());
}
