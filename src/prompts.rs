//! The guidelines prompt: a short text naming the project, its bounded
//! contexts, the workflow to follow and its architectural rules.
use vstd::prelude::*;
use crate::model::{ArchitecturalRule, BoundedContext, DomainModel, Severity};
use crate::protocol::{ContentBlock, PromptDefinition, PromptGetResult, PromptMessage};

verus! {

/// `parts` joined with `sep` between consecutive parts.
pub open spec fn joined(parts: Seq<Seq<char>>, sep: Seq<char>) -> Seq<char>
    decreases parts.len(),
{
    if parts.len() == 0 {
        Seq::empty()
    } else if parts.len() == 1 {
        parts[0]
    } else {
        joined(parts.drop_last(), sep) + sep + parts.last()
    }
}

pub open spec fn severity_word(s: Severity) -> Seq<char> {
    match s {
        Severity::Error => "error"@,
        Severity::Warning => "warning"@,
        Severity::Info => "info"@,
    }
}

pub open spec fn rule_line(r: ArchitecturalRule) -> Seq<char> {
    "- **"@ + r.id@ + "** ("@ + severity_word(r.severity) + "): "@ + r.description@
}

pub open spec fn context_line(bcs: Seq<BoundedContext>) -> Seq<char> {
    if bcs.len() == 0 {
        "No bounded contexts defined yet."@
    } else {
        "Bounded contexts: "@ + joined(bcs.map_values(|bc: BoundedContext| bc.name@), ", "@)
    }
}

pub open spec fn bootstrap_text(bcs: Seq<BoundedContext>) -> Seq<char> {
    if bcs.len() == 0 {
        "\n**This project has no domain model yet.** Analyze the codebase first: identify bounded contexts, entities, services, and events using the write tools, then call `save_model` to persist.\n"@
    } else {
        Seq::empty()
    }
}

pub open spec fn rules_section(rules: Seq<ArchitecturalRule>) -> Seq<char> {
    if rules.len() == 0 {
        Seq::empty()
    } else {
        "\n### Rules\n\n"@ + joined(rules.map_values(|r: ArchitecturalRule| rule_line(r)), "\n"@)
            + "\n"@
    }
}

/// The text of the guidelines prompt for a model.
pub open spec fn guidelines_text(m: DomainModel) -> Seq<char> {
    "## DOMCP — "@ + m.name@ + "\n\n"@ + context_line(m.bounded_contexts@) + "\n"@ + bootstrap_text(
        m.bounded_contexts@,
    ) + "\n### Workflow\n\n1. **Before writing code** → call `get_architecture_overview`\n2. **Before creating files** → call `suggest_file_path`\n3. **Before cross-context imports** → call `validate_dependency`\n4. **After model changes** → call `compare_model`, then `draft_refactoring_plan`, then `save_model`\n"@
        + rules_section(m.rules@)
}

/// The prompts the server offers: the guidelines prompt alone.
pub fn list_prompts() -> (r: Vec<PromptDefinition>)
    ensures
        r@.len() == 1,
        r@[0].name@ == "domcp_guidelines"@,
        r@[0].description@
            == "Architecture guidelines and mandatory tool usage for DOMCP. Use this prompt to understand how to work with the domain model and which tools to call before writing or modifying code."@,
        r@[0].arguments@.len() == 0,
{
    vec![
        PromptDefinition {
            name: String::from_str("domcp_guidelines"),
            description: String::from_str(
                "Architecture guidelines and mandatory tool usage for DOMCP. Use this prompt to understand how to work with the domain model and which tools to call before writing or modifying code.",
            ),
            arguments: Vec::new(),
        },
    ]
}

/// The prompt called `name`, if there is one.
pub fn get_prompt(model: &DomainModel, name: &str) -> (r: Option<PromptGetResult>)
    ensures
        r is Some <==> name@ == "domcp_guidelines"@,
        r is Some ==> is_guidelines(r->0, *model),
{
    if String::from_str(name) == String::from_str("domcp_guidelines") {
        Some(build_guidelines_prompt(model))
    } else {
        None
    }
}

pub open spec fn is_guidelines(p: PromptGetResult, m: DomainModel) -> bool {
    &&& p.description@ == "Architecture guidelines for "@ + m.name@
    &&& p.messages@.len() == 1
    &&& p.messages@[0].role@ == "user"@
    &&& p.messages@[0].content.text_of() == guidelines_text(m)
}

fn severity_text(s: Severity) -> (r: &'static str)
    ensures
        r@ == severity_word(s),
{
    match s {
        Severity::Error => "error",
        Severity::Warning => "warning",
        Severity::Info => "info",
    }
}

fn context_names_joined(bcs: &Vec<BoundedContext>) -> (r: String)
    ensures
        r@ == joined(bcs@.map_values(|bc: BoundedContext| bc.name@), ", "@),
{
    let ghost names = bcs@.map_values(|bc: BoundedContext| bc.name@);
    let mut out = String::new();
    let mut i: usize = 0;
    while i < bcs.len()
        invariant
            i <= bcs@.len(),
            names == bcs@.map_values(|bc: BoundedContext| bc.name@),
            out@ == joined(names.take(i as int), ", "@),
        decreases bcs@.len() - i,
    {
        proof {
            assert(names.take(i + 1).drop_last() =~= names.take(i as int));
        }
        if i == 0 {
            out = bcs[i].name.clone();
            proof {
                assert(out@ == names.take(1)[0]);
            }
        } else {
            out = out.concat(", ").concat(bcs[i].name.as_str());
        }
        i = i + 1;
    }
    proof {
        assert(names.take(bcs@.len() as int) =~= names);
    }
    out
}

/// Joins texts with `sep` between consecutive ones.
pub fn join_texts(parts: &Vec<String>, sep: &str) -> (r: String)
    ensures
        r@ == joined(parts@.map_values(|p: String| p@), sep@),
{
    let ghost texts = parts@.map_values(|p: String| p@);
    let mut out = String::new();
    let mut i: usize = 0;
    while i < parts.len()
        invariant
            i <= parts@.len(),
            texts == parts@.map_values(|p: String| p@),
            out@ == joined(texts.take(i as int), sep@),
        decreases parts@.len() - i,
    {
        proof {
            assert(texts.take(i + 1).drop_last() =~= texts.take(i as int));
        }
        if i == 0 {
            out = parts[i].clone();
            proof {
                assert(out@ == texts.take(1)[0]);
            }
        } else {
            out = out.concat(sep).concat(parts[i].as_str());
        }
        i = i + 1;
    }
    proof {
        assert(texts.take(parts@.len() as int) =~= texts);
    }
    out
}

fn rule_lines_joined(rules: &Vec<ArchitecturalRule>) -> (r: String)
    ensures
        r@ == joined(rules@.map_values(|r: ArchitecturalRule| rule_line(r)), "\n"@),
{
    let ghost lines = rules@.map_values(|r: ArchitecturalRule| rule_line(r));
    let mut out = String::new();
    let mut i: usize = 0;
    while i < rules.len()
        invariant
            i <= rules@.len(),
            lines == rules@.map_values(|r: ArchitecturalRule| rule_line(r)),
            out@ == joined(lines.take(i as int), "\n"@),
        decreases rules@.len() - i,
    {
        proof {
            assert(lines.take(i + 1).drop_last() =~= lines.take(i as int));
        }
        let r = &rules[i];
        let line = String::from_str("- **").concat(r.id.as_str()).concat("** (").concat(
            severity_text(r.severity),
        ).concat("): ").concat(r.description.as_str());
        if i == 0 {
            out = line;
            proof {
                assert(out@ == lines.take(1)[0]);
            }
        } else {
            out = out.concat("\n").concat(line.as_str());
        }
        i = i + 1;
    }
    proof {
        assert(lines.take(rules@.len() as int) =~= lines);
    }
    out
}

fn build_guidelines_prompt(model: &DomainModel) -> (r: PromptGetResult)
    ensures
        is_guidelines(r, *model),
{
    let is_empty = model.bounded_contexts.len() == 0;
    let context_line = if is_empty {
        String::from_str("No bounded contexts defined yet.")
    } else {
        String::from_str("Bounded contexts: ").concat(
            context_names_joined(&model.bounded_contexts).as_str(),
        )
    };
    let bootstrap = if is_empty {
        String::from_str(
            "\n**This project has no domain model yet.** Analyze the codebase first: identify bounded contexts, entities, services, and events using the write tools, then call `save_model` to persist.\n",
        )
    } else {
        String::new()
    };
    let rules_section = if model.rules.len() == 0 {
        String::new()
    } else {
        String::from_str("\n### Rules\n\n").concat(rule_lines_joined(&model.rules).as_str()).concat(
            "\n",
        )
    };
    let text = String::from_str("## DOMCP — ").concat(model.name.as_str()).concat("\n\n").concat(
        context_line.as_str(),
    ).concat("\n").concat(bootstrap.as_str()).concat(
        "\n### Workflow\n\n1. **Before writing code** → call `get_architecture_overview`\n2. **Before creating files** → call `suggest_file_path`\n3. **Before cross-context imports** → call `validate_dependency`\n4. **After model changes** → call `compare_model`, then `draft_refactoring_plan`, then `save_model`\n",
    ).concat(rules_section.as_str());
    PromptGetResult {
        description: String::from_str("Architecture guidelines for ").concat(model.name.as_str()),
        messages: vec![PromptMessage { role: String::from_str("user"), content: ContentBlock::Text { text } }],
    }
}

} // verus!
