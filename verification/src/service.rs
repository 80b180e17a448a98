//! The service that answers miscellaneous requests.
use vstd::prelude::*;

verus! {

/// The names of the collections that every user has.
#[derive(Debug, Clone, PartialEq, Eq)]
pub struct DefaultCollections {
    /// All of the names.
    pub names: Vec<String>,
    /// The collection of media that were begun and not finished.
    pub in_progress: String,
    /// The collection of media that the user made up.
    pub custom: String,
}

impl DefaultCollections {
    pub open spec fn has(self, name: Seq<char>) -> bool {
        exists|i: int| 0 <= i < self.names@.len() && #[trigger] self.names@[i]@ == name
    }

    /// The collections with a purpose are among all of them.
    pub open spec fn wf(self) -> bool {
        self.has(self.in_progress@) && self.has(self.custom@)
    }

    pub fn contains(&self, name: &String) -> (found: bool)
        ensures
            found == self.has(name@),
    {
        for i in 0..self.names.len()
            invariant
                forall|j: int| 0 <= j < i ==> #[trigger] self.names@[j]@ != name@,
        {
            if self.names[i] == *name {
                return true;
            }
        }
        false
    }
}

/// Decides how requests are carried out.
#[derive(Debug, Clone, PartialEq, Eq)]
pub struct MiscService {
    pub defaults: DefaultCollections,
}

impl MiscService {
    pub open spec fn wf(self) -> bool {
        self.defaults.wf()
    }

    pub fn new(defaults: DefaultCollections) -> (service: Self)
        requires
            defaults.wf(),
        ensures
            service.wf(),
            service.defaults == defaults,
    {
        MiscService { defaults }
    }
}

/// Law: a collection is a default one exactly if its name is one of the names, letter by
/// letter.
pub proof fn law_default_names(defaults: DefaultCollections, name: Seq<char>)
    ensures
        defaults.has(name) <==> exists|i: int|
            0 <= i < defaults.names@.len() && #[trigger] defaults.names@[i]@ == name,
        defaults.wf() <==> defaults.has(defaults.in_progress@) && defaults.has(defaults.custom@),
{
}

} // verus!
