//! The registry of embedding functions: a mapping from names to the
//! functions that turn a column of input into a column of embeddings.

use vstd::prelude::*;
use vstd::hash_map::StringHashMap;
use vstd::string::StringExecFns;

verus! {

/// The functions that are registered, each under its name. Names are
/// unique; registering under a name that is taken replaces the function.
#[verifier::reject_recursive_types(F)]
pub struct EmbeddingsRegistry<F> {
    functions: StringHashMap<F>,
}

impl<F> View for EmbeddingsRegistry<F> {
    type V = Map<Seq<char>, F>;

    /// The functions that are registered, by name.
    closed spec fn view(&self) -> Map<Seq<char>, F> {
        self.functions@
    }
}

impl<F> EmbeddingsRegistry<F> {
    /// Create a new, empty registry.
    pub fn new() -> (r: Self)
        ensures
            r@ == Map::<Seq<char>, F>::empty(),
    {
        EmbeddingsRegistry { functions: StringHashMap::new() }
    }

    /// Register a function under `name`. A function that was registered
    /// under that name before is replaced.
    pub fn register(&mut self, name: &str, function: F)
        ensures
            final(self)@ == old(self)@.insert(name@, function),
    {
        self.functions.insert(String::from_str(name), function);
    }

    /// Get an embedding function by name.
    pub fn get(&self, name: &str) -> (r: Option<&F>)
        ensures
            match r {
                Some(function) => self@.contains_key(name@) && self@[name@] == *function,
                None => !self@.contains_key(name@),
            },
    {
        self.functions.get(name)
    }
}

} // verus!
