//! Read-only lookups into a model: contexts, entities and services by name,
//! matched up to ASCII case, the first match winning.
use vstd::prelude::*;
use crate::diff::{first_key, position, Artifact};
use crate::model::{BoundedContext, DomainModel, Entity, Service};

verus! {

/// Query access to one model.
pub struct DomainRegistry<'a> {
    model: &'a DomainModel,
}

/// The first context, among the first `n`, holding an entity named `name`,
/// with that entity's index in it.
pub open spec fn entity_hit(bcs: Seq<BoundedContext>, name: Seq<char>, n: int) -> Option<(int, int)>
    decreases n,
{
    if n <= 0 {
        None
    } else {
        match entity_hit(bcs, name, n - 1) {
            Some(p) => Some(p),
            None => match first_key(bcs[n - 1].entities@, name, false) {
                Some(j) => Some((n - 1, j)),
                None => None,
            },
        }
    }
}

/// The first context, among the first `n`, holding a service named `name`,
/// with that service's index in it.
pub open spec fn service_hit(bcs: Seq<BoundedContext>, name: Seq<char>, n: int) -> Option<(int, int)>
    decreases n,
{
    if n <= 0 {
        None
    } else {
        match service_hit(bcs, name, n - 1) {
            Some(p) => Some(p),
            None => match first_key(bcs[n - 1].services@, name, false) {
                Some(j) => Some((n - 1, j)),
                None => None,
            },
        }
    }
}

proof fn lemma_entity_hit_stays(bcs: Seq<BoundedContext>, name: Seq<char>, n: int, m: int)
    requires
        n <= m,
        entity_hit(bcs, name, n) is Some,
    ensures
        entity_hit(bcs, name, m) == entity_hit(bcs, name, n),
    decreases m - n,
{
    if n < m {
        lemma_entity_hit_stays(bcs, name, n, m - 1);
    }
}

proof fn lemma_service_hit_stays(bcs: Seq<BoundedContext>, name: Seq<char>, n: int, m: int)
    requires
        n <= m,
        service_hit(bcs, name, n) is Some,
    ensures
        service_hit(bcs, name, m) == service_hit(bcs, name, n),
    decreases m - n,
{
    if n < m {
        lemma_service_hit_stays(bcs, name, n, m - 1);
    }
}

impl<'a> DomainRegistry<'a> {
    /// The model this registry reads.
    pub closed spec fn model(&self) -> DomainModel {
        *self.model
    }

    pub fn new(model: &'a DomainModel) -> (r: Self)
        ensures
            r.model() == *model,
    {
        DomainRegistry { model }
    }

    /// The first context whose name matches `name` up to ASCII case.
    pub fn find_context(&self, name: &str) -> (r: Option<&BoundedContext>)
        ensures
            match first_key(self.model().bounded_contexts@, name@, false) {
                Some(i) => r is Some && *r->0 == self.model().bounded_contexts@[i],
                None => r is None,
            },
    {
        let key = String::from_str(name);
        match position(&self.model.bounded_contexts, &key, false) {
            Some(i) => Some(&self.model.bounded_contexts[i]),
            None => None,
        }
    }

    /// The first entity named `name` (up to ASCII case), searching the
    /// contexts in order, with the context that holds it.
    pub fn find_entity(&self, name: &str) -> (r: Option<(&BoundedContext, &Entity)>)
        ensures
            match entity_hit(
                self.model().bounded_contexts@,
                name@,
                self.model().bounded_contexts@.len() as int,
            ) {
                Some((i, j)) => match r {
                    Some(pair) => *pair.0 == self.model().bounded_contexts@[i] && *pair.1
                        == self.model().bounded_contexts@[i].entities@[j],
                    None => false,
                },
                None => r is None,
            },
    {
        let key = String::from_str(name);
        let bcs = &self.model.bounded_contexts;
        let mut i: usize = 0;
        while i < bcs.len()
            invariant
                i <= bcs@.len(),
                bcs == &self.model().bounded_contexts,
                key@ == name@,
                entity_hit(bcs@, name@, i as int) is None,
            decreases bcs@.len() - i,
        {
            let bc = &bcs[i];
            match position(&bc.entities, &key, false) {
                Some(j) => {
                    proof {
                        lemma_entity_hit_stays(bcs@, name@, i + 1, bcs@.len() as int);
                    }
                    return Some((bc, &bc.entities[j]));
                },
                None => {},
            }
            i = i + 1;
        }
        None
    }

    /// The first service named `name` (up to ASCII case), searching the
    /// contexts in order, with the context that holds it.
    pub fn find_service(&self, name: &str) -> (r: Option<(&BoundedContext, &Service)>)
        ensures
            match service_hit(
                self.model().bounded_contexts@,
                name@,
                self.model().bounded_contexts@.len() as int,
            ) {
                Some((i, j)) => match r {
                    Some(pair) => *pair.0 == self.model().bounded_contexts@[i] && *pair.1
                        == self.model().bounded_contexts@[i].services@[j],
                    None => false,
                },
                None => r is None,
            },
    {
        let key = String::from_str(name);
        let bcs = &self.model.bounded_contexts;
        let mut i: usize = 0;
        while i < bcs.len()
            invariant
                i <= bcs@.len(),
                bcs == &self.model().bounded_contexts,
                key@ == name@,
                service_hit(bcs@, name@, i as int) is None,
            decreases bcs@.len() - i,
        {
            let bc = &bcs[i];
            match position(&bc.services, &key, false) {
                Some(j) => {
                    proof {
                        lemma_service_hit_stays(bcs@, name@, i + 1, bcs@.len() as int);
                    }
                    return Some((bc, &bc.services[j]));
                },
                None => {},
            }
            i = i + 1;
        }
        None
    }

    /// The names of all contexts, in order.
    pub fn context_names(&self) -> (r: Vec<&str>)
        ensures
            r@.len() == self.model().bounded_contexts@.len(),
            forall|i: int|
                0 <= i < r@.len() ==> (#[trigger] r@[i])@ == self.model().bounded_contexts@[i].name@,
    {
        let bcs = &self.model.bounded_contexts;
        let mut names: Vec<&str> = Vec::new();
        let mut i: usize = 0;
        while i < bcs.len()
            invariant
                i <= bcs@.len(),
                bcs == &self.model().bounded_contexts,
                names@.len() == i,
                forall|k: int| 0 <= k < i ==> (#[trigger] names@[k])@ == bcs@[k].name@,
            decreases bcs@.len() - i,
        {
            names.push(bcs[i].name.as_str());
            i = i + 1;
        }
        names
    }
}

} // verus!
