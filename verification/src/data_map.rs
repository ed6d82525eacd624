//! Binding maps from graph nodes to tensor values.
//!
//! A [`DataMap`] is the collection an evaluation call receives: it
//! pairs graph nodes, keyed by their identity, with tensor values.  A
//! node may also be bound to an empty placeholder (see
//! [`DataMap::add_null`]) when the callee is expected to allocate the
//! value itself.
//!
//! Binding an already-bound node overwrites the earlier binding: the
//! last write wins.  Looking up a node bound to the empty placeholder
//! reports it as absent, exactly like a node never bound at all; the
//! two cases are deliberately not distinguished by [`DataMap::get`].

use vstd::prelude::*;

use crate::value::ValData;
use crate::value::Value;
use crate::variable::Variable;

verus! {

/// One binding held by a map.
struct Binding<T> {
    key: Variable,
    value: Option<Value<T>>,
}

/// The map described by a list of bindings, later bindings winning.
spec fn bindings_map<T>(s: Seq<Binding<T>>) -> Map<u64, Option<ValData<T>>>
    decreases s.len(),
{
    if s.len() == 0 {
        Map::empty()
    } else {
        bindings_map(s.drop_last()).insert(
            s.last().key@.id,
            match s.last().value {
                Option::Some(v) => Option::Some(v@),
                Option::None => Option::None,
            },
        )
    }
}

/// What a lookup of `id` observes in the map `m`: the bound value, or
/// nothing when the key is unbound or bound to the empty placeholder.
pub open spec fn lookup<T>(m: Map<u64, Option<ValData<T>>>, id: u64) -> Option<ValData<T>> {
    if m.contains_key(id) && m[id] is Some {
        m[id]
    } else {
        Option::None
    }
}

/// Binding a node and looking it up observes the bound value.
pub proof fn lemma_insert_then_lookup<T>(
    m: Map<u64, Option<ValData<T>>>,
    id: u64,
    v: ValData<T>,
)
    ensures
        lookup(m.insert(id, Option::Some(v)), id) == Option::Some(v),
{
}

/// Of two bindings of one node, the second is the one observed: the
/// last write wins.
pub proof fn lemma_insert_twice<T>(
    m: Map<u64, Option<ValData<T>>>,
    id: u64,
    v1: Option<ValData<T>>,
    v2: Option<ValData<T>>,
)
    ensures
        m.insert(id, v1).insert(id, v2) =~= m.insert(id, v2),
        lookup(m.insert(id, v1).insert(id, v2), id) == lookup(m.insert(id, v2), id),
{
}

/// A node never bound is observed as absent.
pub proof fn lemma_lookup_absent<T>(m: Map<u64, Option<ValData<T>>>, id: u64)
    requires
        !m.contains_key(id),
    ensures
        lookup(m, id) == Option::<ValData<T>>::None,
{
}

/// A node bound to the empty placeholder is observed as absent.
pub proof fn lemma_lookup_null<T>(m: Map<u64, Option<ValData<T>>>, id: u64)
    ensures
        lookup(m.insert(id, Option::None), id) == Option::<ValData<T>>::None,
{
}

/// In a binding list whose entries beyond `i` all carry other keys,
/// entry `i` decides what the map holds at its key.
proof fn lemma_bindings_map_found<T>(s: Seq<Binding<T>>, id: u64, i: int)
    requires
        0 <= i < s.len(),
        s[i].key@.id == id,
        forall|j: int| i < j < s.len() ==> s[j].key@.id != id,
    ensures
        bindings_map(s).contains_key(id),
        bindings_map(s)[id] == (match s[i].value {
            Option::Some(v) => Option::Some(v@),
            Option::None => Option::<ValData<T>>::None,
        }),
    decreases s.len(),
{
    if i == s.len() - 1 {
    } else {
        assert(s.drop_last()[i] == s[i]);
        lemma_bindings_map_found(s.drop_last(), id, i);
    }
}

/// A key no binding carries is not in the map.
proof fn lemma_bindings_map_absent<T>(s: Seq<Binding<T>>, id: u64)
    requires
        forall|j: int| 0 <= j < s.len() ==> s[j].key@.id != id,
    ensures
        !bindings_map(s).contains_key(id),
    decreases s.len(),
{
    if s.len() > 0 {
        lemma_bindings_map_absent(s.drop_last(), id);
    }
}

/// A binding map handed to an evaluation call.  Its view is a map
/// from node identity to the bound value, where `None` stands for the
/// empty placeholder.
pub struct DataMap<T> {
    entries: Vec<Binding<T>>,
}

impl<T> View for DataMap<T> {
    type V = Map<u64, Option<ValData<T>>>;

    closed spec fn view(&self) -> Map<u64, Option<ValData<T>>> {
        bindings_map(self.entries@)
    }
}

impl<T: Copy> DataMap<T> {
    /// An empty binding map.
    pub fn new() -> (r: DataMap<T>)
        ensures
            r@ == Map::<u64, Option<ValData<T>>>::empty(),
    {
        DataMap { entries: Vec::new() }
    }

    /// Binds a node to a value.  An earlier binding of the same node
    /// is overwritten: the last write wins.
    pub fn add(&mut self, variable: &Variable, value: &Value<T>)
        ensures
            final(self)@ == old(self)@.insert(variable@.id, Option::Some(value@)),
    {
        let ghost prev = self.entries@;
        self.entries.push(Binding { key: variable.clone(), value: Option::Some(value.clone()) });
        proof {
            assert(self.entries@.drop_last() =~= prev);
        }
    }

    /// Binds a node to the empty placeholder, asking the evaluation
    /// callee to allocate the value.  An earlier binding of the same
    /// node is overwritten.
    pub fn add_null(&mut self, variable: &Variable)
        ensures
            final(self)@ == old(self)@.insert(variable@.id, Option::<ValData<T>>::None),
    {
        let ghost prev = self.entries@;
        self.entries.push(Binding { key: variable.clone(), value: Option::None });
        proof {
            assert(self.entries@.drop_last() =~= prev);
        }
    }

    /// The value a node is bound to.  A node never bound, or bound to
    /// the empty placeholder, is reported as absent.
    pub fn get(&self, variable: &Variable) -> (r: Option<Value<T>>)
        ensures
            (match r {
                Option::Some(v) => lookup(self@, variable@.id) == Option::Some(v@),
                Option::None => lookup(self@, variable@.id) is None,
            }),
    {
        let id = variable.id();
        let mut i: usize = self.entries.len();
        while i > 0
            invariant
                i <= self.entries.len(),
                id == variable@.id,
                forall|j: int| i <= j < self.entries@.len() ==> self.entries@[j].key@.id != id,
            decreases i,
        {
            i = i - 1;
            let entry = &self.entries[i];
            if entry.key.id() == id {
                proof {
                    lemma_bindings_map_found(self.entries@, id, i as int);
                    assert(self.entries@[i as int] == *entry);
                }
                match &entry.value {
                    Option::Some(v) => {
                        return Option::Some(v.clone());
                    },
                    Option::None => {
                        return Option::None;
                    },
                }
            }
        }
        proof {
            lemma_bindings_map_absent(self.entries@, id);
        }
        Option::None
    }
}

} // verus!
