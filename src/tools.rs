//! Decisions behind the read-only tools: which layer an artifact kind
//! belongs to, and whether one context may depend on another.
use vstd::prelude::*;
use crate::diff::{contains_key, has_key};
use crate::model::BoundedContext;
use crate::prompts::{join_texts, joined};

verus! {

/// The layer an artifact kind belongs to: entities, value objects and
/// events to `domain`, services to `application`, repositories to
/// `infrastructure`; any other kind names its own layer.
pub open spec fn layer_of_kind(kind: Seq<char>) -> Seq<char> {
    if kind == "entity"@ || kind == "value_object"@ || kind == "event"@ {
        "domain"@
    } else if kind == "service"@ {
        "application"@
    } else if kind == "repository"@ {
        "infrastructure"@
    } else {
        kind
    }
}

pub fn layer_for_kind(kind: &str) -> (r: String)
    ensures
        r@ == layer_of_kind(kind@),
{
    let k = String::from_str(kind);
    if k == String::from_str("entity") || k == String::from_str("value_object") || k
        == String::from_str("event") {
        String::from_str("domain")
    } else if k == String::from_str("service") {
        String::from_str("application")
    } else if k == String::from_str("repository") {
        String::from_str("infrastructure")
    } else {
        k
    }
}

/// Whether `bc` lists `to` among its allowed dependencies, up to ASCII case.
pub fn dependency_allowed(bc: &BoundedContext, to: &str) -> (r: bool)
    ensures
        r == has_key(bc.dependencies@, to@, false),
{
    contains_key(&bc.dependencies, &String::from_str(to), false)
}

/// The explanation given when asked whether context `from` (whose record is
/// `bc`) may depend on `to`.
pub open spec fn dependency_explanation_text(bc: BoundedContext, from: Seq<char>, to: Seq<char>) -> Seq<char> {
    if has_key(bc.dependencies@, to, false) {
        "'"@ + to + "' is an allowed dependency of '"@ + from + "'"@
    } else {
        "'"@ + from + "' is NOT allowed to depend on '"@ + to + "'. Allowed dependencies: "@
            + if bc.dependencies@.len() == 0 {
            "none"@
        } else {
            joined(bc.dependencies@.map_values(|p: String| p@), ", "@)
        }
    }
}

pub fn dependency_explanation(bc: &BoundedContext, from: &str, to: &str) -> (r: String)
    ensures
        r@ == dependency_explanation_text(*bc, from@, to@),
{
    if dependency_allowed(bc, to) {
        String::from_str("'").concat(to).concat("' is an allowed dependency of '").concat(from).concat("'")
    } else {
        let listed = if bc.dependencies.len() == 0 {
            String::from_str("none")
        } else {
            join_texts(&bc.dependencies, ", ")
        };
        String::from_str("'").concat(from).concat("' is NOT allowed to depend on '").concat(to).concat(
            "'. Allowed dependencies: ",
        ).concat(listed.as_str())
    }
}

/// The tools that change the model or the store, and so take the mutable
/// path.
pub open spec fn write_tool(name: Seq<char>) -> bool {
    ||| name == "update_bounded_context"@
    ||| name == "update_entity"@
    ||| name == "update_service"@
    ||| name == "update_event"@
    ||| name == "remove_entity"@
    ||| name == "compare_model"@
    ||| name == "draft_refactoring_plan"@
    ||| name == "save_model"@
}

pub fn is_write_tool(name: &str) -> (r: bool)
    ensures
        r == write_tool(name@),
{
    let n = String::from_str(name);
    n == String::from_str("update_bounded_context") || n == String::from_str("update_entity") || n
        == String::from_str("update_service") || n == String::from_str("update_event") || n
        == String::from_str("remove_entity") || n == String::from_str("compare_model") || n
        == String::from_str("draft_refactoring_plan") || n == String::from_str("save_model")
}

} // verus!
