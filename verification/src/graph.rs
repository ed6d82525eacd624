//! The issuer of graph-node identities.
//!
//! Every graph node carries an identity that the binding maps key on.
//! A [`Graph`] hands out those identities, each one fresh, so that two
//! nodes built separately never collide in a binding map.  Its view is
//! the next identity it will issue; every identity already issued is
//! strictly below the view.

use vstd::prelude::*;

verus! {

/// Issues the identities of graph nodes.
pub struct Graph {
    next_id: u64,
}

impl View for Graph {
    type V = u64;

    closed spec fn view(&self) -> u64 {
        self.next_id
    }
}

impl Graph {
    /// An empty graph; no identity has been issued yet.
    pub fn new() -> (r: Graph)
        ensures
            r@ == 0,
    {
        Graph { next_id: 0 }
    }

    /// The next fresh identity.  Identities only grow, so the result
    /// differs from every identity issued before.
    pub(crate) fn issue_id(&mut self) -> (r: u64)
        requires
            old(self)@ < u64::MAX,
        ensures
            r == old(self)@,
            final(self)@ == old(self)@ + 1,
    {
        let id = self.next_id;
        self.next_id = self.next_id + 1;
        id
    }
}

} // verus!
