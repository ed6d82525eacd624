//! Replacement maps from placeholder nodes to their substitutes.
//!
//! A [`ReplacementMap`] pairs placeholder nodes, keyed by their
//! identity, with the nodes that are to take their place (see
//! [`crate::function::Function::replace_placeholders`]).  Mapping an
//! already-mapped node overwrites the earlier mapping: the last write
//! wins.

use vstd::prelude::*;

use crate::variable::VarData;
use crate::variable::Variable;

verus! {

/// One mapping held by the map.
struct Replacement {
    key: Variable,
    replacement: Variable,
}

/// The map described by a list of mappings, later mappings winning.
spec fn replacements_map(s: Seq<Replacement>) -> Map<u64, VarData>
    decreases s.len(),
{
    if s.len() == 0 {
        Map::empty()
    } else {
        replacements_map(s.drop_last()).insert(s.last().key@.id, s.last().replacement@)
    }
}

/// In a mapping list whose entries beyond `i` all carry other keys,
/// entry `i` decides what the map holds at its key.
proof fn lemma_replacements_map_found(s: Seq<Replacement>, id: u64, i: int)
    requires
        0 <= i < s.len(),
        s[i].key@.id == id,
        forall|j: int| i < j < s.len() ==> s[j].key@.id != id,
    ensures
        replacements_map(s).contains_key(id),
        replacements_map(s)[id] == s[i].replacement@,
    decreases s.len(),
{
    if i < s.len() - 1 {
        assert(s.drop_last()[i] == s[i]);
        lemma_replacements_map_found(s.drop_last(), id, i);
    }
}

/// A key no mapping carries is not in the map.
proof fn lemma_replacements_map_absent(s: Seq<Replacement>, id: u64)
    requires
        forall|j: int| 0 <= j < s.len() ==> s[j].key@.id != id,
    ensures
        !replacements_map(s).contains_key(id),
    decreases s.len(),
{
    if s.len() > 0 {
        lemma_replacements_map_absent(s.drop_last(), id);
    }
}

/// A map from placeholder nodes to the nodes that replace them.  Its
/// view is a map from node identity to the replacement's record.
pub struct ReplacementMap {
    entries: Vec<Replacement>,
}

impl View for ReplacementMap {
    type V = Map<u64, VarData>;

    closed spec fn view(&self) -> Map<u64, VarData> {
        replacements_map(self.entries@)
    }
}

impl ReplacementMap {
    /// An empty replacement map.
    pub fn new() -> (r: ReplacementMap)
        ensures
            r@ == Map::<u64, VarData>::empty(),
    {
        ReplacementMap { entries: Vec::new() }
    }

    /// Maps a node to its replacement.  An earlier mapping of the
    /// same node is overwritten: the last write wins.
    pub fn add(&mut self, variable: &Variable, replacement: &Variable)
        ensures
            final(self)@ == old(self)@.insert(variable@.id, replacement@),
    {
        let ghost prev = self.entries@;
        self.entries.push(Replacement {
            key: variable.clone(),
            replacement: replacement.clone(),
        });
        proof {
            assert(self.entries@.drop_last() =~= prev);
        }
    }

    /// The replacement a node is mapped to, if any.
    pub(crate) fn get(&self, id: u64) -> (r: Option<Variable>)
        ensures
            r is Some <==> self@.contains_key(id),
            r matches Some(v) ==> v@ == self@[id],
    {
        let mut i: usize = self.entries.len();
        while i > 0
            invariant
                i <= self.entries.len(),
                forall|j: int| i <= j < self.entries@.len() ==> self.entries@[j].key@.id != id,
            decreases i,
        {
            i = i - 1;
            let entry = &self.entries[i];
            if entry.key.id() == id {
                proof {
                    lemma_replacements_map_found(self.entries@, id, i as int);
                }
                return Option::Some(entry.replacement.clone());
            }
        }
        proof {
            lemma_replacements_map_absent(self.entries@, id);
        }
        Option::None
    }
}

} // verus!
