//! The resources the server lists: three fixed architecture views and one
//! per bounded context.
use vstd::prelude::*;
use crate::model::DomainModel;
use crate::protocol::ResourceDefinition;

verus! {

/// The Unicode lower-case form of a text.
pub uninterp spec fn lowercase_of(s: Seq<char>) -> Seq<char>;

/// Relies on `str::to_lowercase`: the Unicode lower-case mapping, which
/// depends on the characters alone.
#[verifier::external_body]
fn lowercase(s: &str) -> (r: String)
    ensures
        r@ == lowercase_of(s@),
{
    s.to_lowercase()
}

pub open spec fn is_resource(
    r: ResourceDefinition,
    uri: Seq<char>,
    name: Seq<char>,
    description: Seq<char>,
) -> bool {
    &&& r.uri@ == uri
    &&& r.name@ == name
    &&& r.description@ == description
    &&& r.mime_type@ == "application/json"@
}

/// The resource describing the context `name`, whose lower-case form is
/// `lowered`.
pub fn context_resource(name: &str, lowered: &str) -> (r: ResourceDefinition)
    ensures
        is_resource(
            r,
            "domcp://context/"@ + lowered@,
            "Context: "@ + name@,
            "Bounded context '"@ + name@ + "' — entities, services, events"@,
        ),
{
    ResourceDefinition {
        uri: String::from_str("domcp://context/").concat(lowered),
        name: String::from_str("Context: ").concat(name),
        description: String::from_str("Bounded context '").concat(name).concat(
            "' — entities, services, events",
        ),
        mime_type: String::from_str("application/json"),
    }
}

/// The overview, rules and conventions resources, then one resource per
/// bounded context, addressed by its lower-cased name.
pub fn list_resources(model: &DomainModel) -> (r: Vec<ResourceDefinition>)
    ensures
        r@.len() == 3 + model.bounded_contexts@.len(),
        is_resource(
            r@[0],
            "domcp://architecture/overview"@,
            "Architecture Overview"@,
            "Complete architecture overview with all bounded contexts, entities, and rules"@,
        ),
        is_resource(
            r@[1],
            "domcp://architecture/rules"@,
            "Architectural Rules"@,
            "All architectural constraints and rules"@,
        ),
        is_resource(
            r@[2],
            "domcp://architecture/conventions"@,
            "Conventions"@,
            "Naming, file structure, error handling, and testing conventions"@,
        ),
        forall|i: int|
            0 <= i < model.bounded_contexts@.len() ==> {
                let n = model.bounded_contexts@[i].name@;
                is_resource(
                    #[trigger] r@[3 + i],
                    "domcp://context/"@ + lowercase_of(n),
                    "Context: "@ + n,
                    "Bounded context '"@ + n + "' — entities, services, events"@,
                )
            },
{
    let mut resources: Vec<ResourceDefinition> = Vec::new();
    resources.push(
        ResourceDefinition {
            uri: String::from_str("domcp://architecture/overview"),
            name: String::from_str("Architecture Overview"),
            description: String::from_str(
                "Complete architecture overview with all bounded contexts, entities, and rules",
            ),
            mime_type: String::from_str("application/json"),
        },
    );
    resources.push(
        ResourceDefinition {
            uri: String::from_str("domcp://architecture/rules"),
            name: String::from_str("Architectural Rules"),
            description: String::from_str("All architectural constraints and rules"),
            mime_type: String::from_str("application/json"),
        },
    );
    resources.push(
        ResourceDefinition {
            uri: String::from_str("domcp://architecture/conventions"),
            name: String::from_str("Conventions"),
            description: String::from_str(
                "Naming, file structure, error handling, and testing conventions",
            ),
            mime_type: String::from_str("application/json"),
        },
    );
    let bcs = &model.bounded_contexts;
    let mut i: usize = 0;
    while i < bcs.len()
        invariant
            i <= bcs@.len(),
            bcs == &model.bounded_contexts,
            resources@.len() == 3 + i,
            is_resource(
                resources@[0],
                "domcp://architecture/overview"@,
                "Architecture Overview"@,
                "Complete architecture overview with all bounded contexts, entities, and rules"@,
            ),
            is_resource(
                resources@[1],
                "domcp://architecture/rules"@,
                "Architectural Rules"@,
                "All architectural constraints and rules"@,
            ),
            is_resource(
                resources@[2],
                "domcp://architecture/conventions"@,
                "Conventions"@,
                "Naming, file structure, error handling, and testing conventions"@,
            ),
            forall|k: int|
                0 <= k < i ==> {
                    let n = bcs@[k].name@;
                    is_resource(
                        #[trigger] resources@[3 + k],
                        "domcp://context/"@ + lowercase_of(n),
                        "Context: "@ + n,
                        "Bounded context '"@ + n + "' — entities, services, events"@,
                    )
                },
        decreases bcs@.len() - i,
    {
        let name = bcs[i].name.as_str();
        let lowered = lowercase(name);
        resources.push(context_resource(name, lowered.as_str()));
        i = i + 1;
    }
    resources
}

} // verus!
