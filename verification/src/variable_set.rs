//! Sets of graph nodes.
//!
//! A [`VariableSet`] collects graph nodes, keyed by their identity,
//! for calls that take a set of nodes at once — for instance the
//! nodes whose state a forward pass should retain.

use vstd::prelude::*;

use crate::variable::Variable;

verus! {

/// The identities named by a list of nodes.
spec fn members_set(s: Seq<Variable>) -> Set<u64>
    decreases s.len(),
{
    if s.len() == 0 {
        Set::empty()
    } else {
        members_set(s.drop_last()).insert(s.last()@.id)
    }
}

/// A set of graph nodes, keyed by identity.
pub struct VariableSet {
    members: Vec<Variable>,
}

impl View for VariableSet {
    type V = Set<u64>;

    closed spec fn view(&self) -> Set<u64> {
        members_set(self.members@)
    }
}

impl VariableSet {
    /// An empty set.
    pub fn new() -> (r: VariableSet)
        ensures
            r@ == Set::<u64>::empty(),
    {
        VariableSet { members: Vec::new() }
    }

    /// Adds a node.  Adding a node already present changes nothing.
    pub fn add(&mut self, variable: &Variable)
        ensures
            final(self)@ == old(self)@.insert(variable@.id),
    {
        let ghost prev = self.members@;
        self.members.push(variable.clone());
        proof {
            assert(self.members@.drop_last() =~= prev);
        }
    }
}

} // verus!
