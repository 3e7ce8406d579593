//! The context of one session.

use crate::fields::FieldMap;
use crate::registry::Registry;
use vstd::prelude::*;

verus! {

/// What one session shares among its operations: the registry of item
/// kinds, and the input that the user interface handed in last. It is made
/// when the session starts, lent to every operation, and dropped when the
/// session ends; no operation keeps it.
#[derive(Debug)]
pub struct World {
    registry: Registry,
    input: FieldMap,
}

impl World {
    /// The registry of the session.
    pub closed spec fn spec_registry(&self) -> Registry {
        self.registry
    }

    /// The current input.
    pub closed spec fn spec_input(&self) -> Map<Seq<char>, Seq<char>> {
        self.input@
    }

    /// The context of a session over `registry`, without input yet.
    pub fn new(registry: Registry) -> (res: Self)
        ensures
            res.spec_registry() == registry,
            res.spec_input() == Map::<Seq<char>, Seq<char>>::empty(),
    {
        World { registry, input: FieldMap::new() }
    }

    /// The registry of the session.
    pub fn registry(&self) -> (res: &Registry)
        ensures
            *res == self.spec_registry(),
    {
        &self.registry
    }

    /// The current input.
    pub fn input(&self) -> (res: &FieldMap)
        ensures
            res@ == self.spec_input(),
    {
        &self.input
    }

    /// Replaces the current input by `input`.
    pub fn set_input(&mut self, input: FieldMap)
        ensures
            final(self).spec_input() == input@,
            final(self).spec_registry() == old(self).spec_registry(),
    {
        self.input = input;
    }
}

} // verus!
