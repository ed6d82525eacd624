//! Graph-node handles.
//!
//! A [`Variable`] is the host-side handle of one node in a computation
//! graph: an input placeholder, a trainable parameter, a constant, a
//! placeholder awaiting replacement, or the output of an operation.
//! The handle records everything the host can read back — identity,
//! kind, shape, name, sparsity, gradient flag — together with the
//! trainable parameter leaves that lie beneath the node, so that a
//! whole model's parameters can be collected from any of its outputs.
//! The numeric content of parameters and constants lives with the
//! engine that evaluates the graph, not in the handle.

use vstd::prelude::*;
use vstd::string::StringExecFns;

use crate::axis::Axis;
use crate::device::DeviceDescriptor;
use crate::graph::Graph;
use crate::shape::Shape;
use crate::shape::copy_dims;
use crate::shape::dim_product;

verus! {

/// What a graph node stands for.
#[derive(Clone, Copy, PartialEq, Eq, Structural, Debug)]
pub enum VariableKind {
    /// A data input bound at evaluation time.
    Input,
    /// A trainable parameter owned by the engine.
    Parameter,
    /// A fixed tensor owned by the engine.
    Constant,
    /// A hole to be replaced by another node later.
    Placeholder,
    /// The output of an operation.
    Output,
}

/// The record of one trainable parameter leaf.
pub ghost struct ParamData {
    pub id: u64,
    pub dims: Seq<usize>,
    pub name: Seq<char>,
    pub is_sparse: bool,
    pub needs_gradient: bool,
}

/// The mathematical content of a graph-node handle.
pub ghost struct VarData {
    pub id: u64,
    pub kind: VariableKind,
    pub dims: Seq<usize>,
    pub name: Seq<char>,
    pub is_sparse: bool,
    pub needs_gradient: bool,
    /// The trainable parameter leaves beneath this node.  Empty for
    /// every leaf node; a parameter stands for itself (see
    /// [`param_seq`]).
    pub params: Seq<ParamData>,
}

/// A node viewed as a parameter leaf.
pub open spec fn as_param(v: VarData) -> ParamData {
    ParamData {
        id: v.id,
        dims: v.dims,
        name: v.name,
        is_sparse: v.is_sparse,
        needs_gradient: v.needs_gradient,
    }
}

/// The parameter leaves a node contributes to an operation built on
/// it: a parameter contributes itself, any other node the leaves
/// recorded beneath it.
pub open spec fn param_seq(v: VarData) -> Seq<ParamData> {
    if v.kind == VariableKind::Parameter {
        seq![as_param(v)]
    } else {
        v.params
    }
}

/// Whether some leaf in the sequence has the given identity.
pub open spec fn has_param_id(s: Seq<ParamData>, id: u64) -> bool {
    exists|i: int| 0 <= i < s.len() && s[i].id == id
}

/// The set of identities of the leaves in the sequence.
pub open spec fn param_ids(s: Seq<ParamData>) -> Set<u64> {
    s.map_values(|p: ParamData| p.id).to_set()
}

/// Whether no two leaves in the sequence share an identity.
pub open spec fn unique_param_ids(s: Seq<ParamData>) -> bool {
    forall|i: int, j: int| 0 <= i < j < s.len() ==> s[i].id != s[j].id
}

/// The union of two leaf sequences: all of `a`, then those leaves of
/// `b` whose identity has not been seen yet.
pub open spec fn spec_merge_params(a: Seq<ParamData>, b: Seq<ParamData>) -> Seq<ParamData>
    decreases b.len(),
{
    if b.len() == 0 {
        a
    } else {
        let m = spec_merge_params(a, b.drop_last());
        if has_param_id(m, b.last().id) {
            m
        } else {
            m.push(b.last())
        }
    }
}

/// An identity is present in a sequence exactly when it is in the
/// sequence's identity set.
pub proof fn lemma_has_param_id_ids(s: Seq<ParamData>, id: u64)
    ensures
        has_param_id(s, id) <==> param_ids(s).contains(id),
{
    let mapped = s.map_values(|p: ParamData| p.id);
    if has_param_id(s, id) {
        let i = choose|i: int| 0 <= i < s.len() && s[i].id == id;
        assert(mapped[i] == id);
        assert(mapped.to_set().contains(id));
    }
    if param_ids(s).contains(id) {
        assert(mapped.contains(id));
        let i = choose|i: int| 0 <= i < mapped.len() && mapped[i] == id;
        assert(s[i].id == id);
    }
}

/// Merging unions the identity sets.
pub proof fn lemma_merge_params_ids(a: Seq<ParamData>, b: Seq<ParamData>)
    ensures
        param_ids(spec_merge_params(a, b)) =~= param_ids(a).union(param_ids(b)),
    decreases b.len(),
{
    if b.len() == 0 {
        assert(b.map_values(|p: ParamData| p.id).to_set() =~= Set::<u64>::empty());
    } else {
        lemma_merge_params_ids(a, b.drop_last());
        let m = spec_merge_params(a, b.drop_last());
        let r = spec_merge_params(a, b);
        assert forall|id: u64| param_ids(r).contains(id)
            implies param_ids(a).union(param_ids(b)).contains(id) by {
            lemma_has_param_id_ids(r, id);
            lemma_has_param_id_ids(m, id);
            lemma_has_param_id_ids(a, id);
            lemma_has_param_id_ids(b.drop_last(), id);
            lemma_has_param_id_ids(b, id);
            let i = choose|i: int| 0 <= i < r.len() && r[i].id == id;
            if i < m.len() {
                assert(has_param_id(m, id));
            } else {
                assert(r[i] == b.last());
                assert(b[b.len() - 1].id == id);
            }
        }
        assert forall|id: u64| param_ids(a).union(param_ids(b)).contains(id)
            implies param_ids(r).contains(id) by {
            lemma_has_param_id_ids(r, id);
            lemma_has_param_id_ids(m, id);
            lemma_has_param_id_ids(a, id);
            lemma_has_param_id_ids(b.drop_last(), id);
            lemma_has_param_id_ids(b, id);
            if param_ids(a).contains(id) {
                let i = choose|i: int| 0 <= i < m.len() && m[i].id == id;
                assert(r[i].id == id);
            } else {
                assert(has_param_id(b, id));
                let i = choose|i: int| 0 <= i < b.len() && b[i].id == id;
                if i < b.len() - 1 {
                    assert(b.drop_last()[i].id == id);
                    let k = choose|k: int| 0 <= k < m.len() && m[k].id == id;
                    assert(r[k].id == id);
                } else {
                    if has_param_id(m, id) {
                        let k = choose|k: int| 0 <= k < m.len() && m[k].id == id;
                        assert(r[k].id == id);
                    } else {
                        assert(r.last().id == id);
                    }
                }
            }
        }
    }
}

/// Merging keeps identities unique when they start unique on the left.
pub proof fn lemma_merge_params_unique(a: Seq<ParamData>, b: Seq<ParamData>)
    requires
        unique_param_ids(a),
    ensures
        unique_param_ids(spec_merge_params(a, b)),
    decreases b.len(),
{
    if b.len() > 0 {
        lemma_merge_params_unique(a, b.drop_last());
        let m = spec_merge_params(a, b.drop_last());
        let r = spec_merge_params(a, b);
        if !has_param_id(m, b.last().id) {
            assert forall|i: int, j: int| 0 <= i < j < r.len() implies r[i].id != r[j].id by {
                if j == r.len() - 1 {
                    assert(r[i] == m[i]);
                    assert(!(m[i].id == b.last().id));
                }
            }
        }
    }
}

/// The record behind one trainable parameter leaf.
pub(crate) struct ParamInfo {
    pub(crate) id: u64,
    pub(crate) dims: Vec<usize>,
    pub(crate) name: String,
    pub(crate) is_sparse: bool,
    pub(crate) needs_gradient: bool,
}

impl View for ParamInfo {
    type V = ParamData;

    closed spec fn view(&self) -> ParamData {
        ParamData {
            id: self.id,
            dims: self.dims@,
            name: self.name@,
            is_sparse: self.is_sparse,
            needs_gradient: self.needs_gradient,
        }
    }
}

impl ParamInfo {
    pub(crate) fn duplicate(&self) -> (r: ParamInfo)
        ensures
            r@ == self@,
    {
        ParamInfo {
            id: self.id,
            dims: copy_dims(&self.dims),
            name: self.name.clone(),
            is_sparse: self.is_sparse,
            needs_gradient: self.needs_gradient,
        }
    }
}

/// The view of a whole leaf list.
pub(crate) open spec fn infos_view(s: Seq<ParamInfo>) -> Seq<ParamData> {
    s.map_values(|p: ParamInfo| p@)
}

/// Appending one leaf appends its record to the view.
pub(crate) proof fn lemma_infos_view_push(s: Seq<ParamInfo>, p: ParamInfo)
    ensures
        infos_view(s.push(p)) =~= infos_view(s).push(p@),
{
    assert forall|j: int| 0 <= j < s.len() + 1
        implies infos_view(s.push(p))[j] == infos_view(s).push(p@)[j] by {
        if j < s.len() {
            assert(s.push(p)[j] == s[j]);
        } else {
            assert(s.push(p)[j] == p);
        }
    }
}

/// Copies a leaf list.
pub(crate) fn clone_params(v: &Vec<ParamInfo>) -> (r: Vec<ParamInfo>)
    ensures
        infos_view(r@) == infos_view(v@),
{
    let mut r: Vec<ParamInfo> = Vec::new();
    let mut i: usize = 0;
    while i < v.len()
        invariant
            i <= v.len(),
            r@.len() == i,
            forall|j: int| 0 <= j < i ==> r@[j]@ == v@[j]@,
        decreases v.len() - i,
    {
        r.push(v[i].duplicate());
        i = i + 1;
    }
    assert forall|j: int| 0 <= j < v@.len()
        implies infos_view(r@)[j] == infos_view(v@)[j] by {
        assert(infos_view(r@)[j] == r@[j]@);
        assert(infos_view(v@)[j] == v@[j]@);
    }
    assert(infos_view(r@) =~= infos_view(v@));
    r
}

/// Whether a leaf with the given identity is already in the list.
pub(crate) fn contains_param_id(v: &Vec<ParamInfo>, id: u64) -> (r: bool)
    ensures
        r == has_param_id(infos_view(v@), id),
{
    let mut i: usize = 0;
    while i < v.len()
        invariant
            i <= v.len(),
            forall|j: int| 0 <= j < i ==> infos_view(v@)[j].id != id,
        decreases v.len() - i,
    {
        if v[i].id == id {
            assert(infos_view(v@)[i as int].id == id);
            return true;
        }
        i = i + 1;
    }
    false
}

/// Unions two leaf lists, keeping the first occurrence of each
/// identity.
pub(crate) fn merge_params(a: &Vec<ParamInfo>, b: &Vec<ParamInfo>) -> (r: Vec<ParamInfo>)
    ensures
        infos_view(r@) == spec_merge_params(infos_view(a@), infos_view(b@)),
{
    let mut r = clone_params(a);
    let mut i: usize = 0;
    assert(infos_view(b@).take(0) =~= Seq::<ParamData>::empty());
    while i < b.len()
        invariant
            i <= b.len(),
            infos_view(r@) == spec_merge_params(infos_view(a@), infos_view(b@).take(i as int)),
        decreases b.len() - i,
    {
        proof {
            assert(infos_view(b@).take(i + 1).drop_last() =~= infos_view(b@).take(i as int));
            assert(infos_view(b@).take(i + 1).last() == infos_view(b@)[i as int]);
        }
        if !contains_param_id(&r, b[i].id) {
            let ghost prev = r@;
            let dup = b[i].duplicate();
            r.push(dup);
            proof {
                lemma_infos_view_push(prev, dup);
                assert(infos_view(r@) =~= infos_view(prev).push(infos_view(b@)[i as int]));
            }
        }
        i = i + 1;
    }
    assert(infos_view(b@).take(b@.len() as int) =~= infos_view(b@));
    r
}

/// The view of a whole node list.
pub open spec fn vars_view(s: Seq<Variable>) -> Seq<VarData> {
    s.map_values(|v: Variable| v@)
}

/// Copies a node list; every handle keeps its identity and record.
pub(crate) fn clone_variables(v: &Vec<Variable>) -> (r: Vec<Variable>)
    ensures
        vars_view(r@) == vars_view(v@),
{
    let mut r: Vec<Variable> = Vec::new();
    let mut i: usize = 0;
    while i < v.len()
        invariant
            i <= v.len(),
            r@.len() == i,
            forall|j: int| 0 <= j < i ==> r@[j]@ == v@[j]@,
        decreases v.len() - i,
    {
        r.push(v[i].clone());
        i = i + 1;
    }
    assert forall|j: int| 0 <= j < v@.len()
        implies vars_view(r@)[j] == vars_view(v@)[j] by {
        assert(vars_view(r@)[j] == r@[j]@);
        assert(vars_view(v@)[j] == v@[j]@);
    }
    assert(vars_view(r@) =~= vars_view(v@));
    r
}

/// The parameter leaves gathered from a run of nodes, added to an
/// accumulator one node after another, each node contributing the
/// leaves of [`param_seq`].
pub open spec fn merge_all(acc: Seq<ParamData>, s: Seq<VarData>) -> Seq<ParamData>
    decreases s.len(),
{
    if s.len() == 0 {
        acc
    } else {
        spec_merge_params(merge_all(acc, s.drop_last()), param_seq(s.last()))
    }
}

/// Gathers the parameter leaves of a run of nodes into an
/// accumulator.
pub(crate) fn merge_all_params(acc: Vec<ParamInfo>, vars: &Vec<Variable>) -> (r: Vec<ParamInfo>)
    ensures
        infos_view(r@) == merge_all(infos_view(acc@), vars_view(vars@)),
{
    let ghost acc0 = infos_view(acc@);
    let mut r = acc;
    let mut i: usize = 0;
    assert(vars_view(vars@).take(0) =~= Seq::<VarData>::empty());
    while i < vars.len()
        invariant
            i <= vars.len(),
            infos_view(r@) == merge_all(acc0, vars_view(vars@).take(i as int)),
        decreases vars.len() - i,
    {
        proof {
            assert(vars_view(vars@).take(i + 1).drop_last() =~= vars_view(vars@).take(i as int));
            assert(vars_view(vars@).take(i + 1).last() == vars_view(vars@)[i as int]);
            assert(vars_view(vars@)[i as int] == vars@[i as int]@);
        }
        let contributed = vars[i].param_list();
        r = merge_params(&r, &contributed);
        i = i + 1;
    }
    assert(vars_view(vars@).take(vars@.len() as int) =~= vars_view(vars@));
    r
}

/// Gathering never lists one parameter twice: the leaves gathered
/// from any run of nodes carry pairwise distinct identities once the
/// accumulator does.
pub proof fn lemma_merge_all_unique(acc: Seq<ParamData>, s: Seq<VarData>)
    requires
        unique_param_ids(acc),
    ensures
        unique_param_ids(merge_all(acc, s)),
    decreases s.len(),
{
    if s.len() > 0 {
        lemma_merge_all_unique(acc, s.drop_last());
        lemma_merge_params_unique(merge_all(acc, s.drop_last()), param_seq(s.last()));
    }
}

/// The record of the node a parameter leaf reconstructs to.
pub open spec fn param_to_var(p: ParamData) -> VarData {
    VarData {
        id: p.id,
        kind: VariableKind::Parameter,
        dims: p.dims,
        name: p.name,
        is_sparse: p.is_sparse,
        needs_gradient: p.needs_gradient,
        params: Seq::<ParamData>::empty(),
    }
}

/// How the engine should fill a parameter when it is created.
pub enum ParameterInitializer<T> {
    /// Every element set to one value.
    Constant(T),
    /// Uniform noise with the given scale.
    Uniform(T),
    /// Normal noise with the given scale.
    Normal(T),
    /// Xavier initialization.
    Xavier,
    /// Glorot initialization, uniform variant.
    GlorotUniform,
    /// Glorot initialization, normal variant.
    GlorotNormal,
    /// He initialization, uniform variant.
    HeUniform,
    /// He initialization, normal variant.
    HeNormal,
}

impl<T: Copy> ParameterInitializer<T> {
    /// Every element set to `value`.
    pub fn constant(value: T) -> (r: Self)
        ensures
            r == ParameterInitializer::Constant(value),
    {
        ParameterInitializer::Constant(value)
    }

    /// Uniform noise with scale `scale`.
    pub fn uniform(scale: T) -> (r: Self)
        ensures
            r == ParameterInitializer::Uniform(scale),
    {
        ParameterInitializer::Uniform(scale)
    }

    /// Normal noise with scale `scale`.
    pub fn normal(scale: T) -> (r: Self)
        ensures
            r == ParameterInitializer::Normal(scale),
    {
        ParameterInitializer::Normal(scale)
    }

    /// Xavier initialization.
    pub fn xavier() -> (r: Self)
        ensures
            r == ParameterInitializer::<T>::Xavier,
    {
        ParameterInitializer::Xavier
    }

    /// Glorot initialization, uniform variant.
    pub fn glorot_uniform() -> (r: Self)
        ensures
            r == ParameterInitializer::<T>::GlorotUniform,
    {
        ParameterInitializer::GlorotUniform
    }

    /// Glorot initialization, normal variant.
    pub fn glorot_normal() -> (r: Self)
        ensures
            r == ParameterInitializer::<T>::GlorotNormal,
    {
        ParameterInitializer::GlorotNormal
    }

    /// He initialization, uniform variant.
    pub fn he_uniform() -> (r: Self)
        ensures
            r == ParameterInitializer::<T>::HeUniform,
    {
        ParameterInitializer::HeUniform
    }

    /// He initialization, normal variant.
    pub fn he_normal() -> (r: Self)
        ensures
            r == ParameterInitializer::<T>::HeNormal,
    {
        ParameterInitializer::HeNormal
    }
}

/// The host-side handle of one graph node.
pub struct Variable {
    id: u64,
    kind: VariableKind,
    dims: Vec<usize>,
    name: String,
    is_sparse: bool,
    needs_gradient: bool,
    params: Vec<ParamInfo>,
}

impl View for Variable {
    type V = VarData;

    closed spec fn view(&self) -> VarData {
        VarData {
            id: self.id,
            kind: self.kind,
            dims: self.dims@,
            name: self.name@,
            is_sparse: self.is_sparse,
            needs_gradient: self.needs_gradient,
            params: infos_view(self.params@),
        }
    }
}

impl Clone for Variable {
    /// A clone is the same node: it carries the same identity and the
    /// same record.
    fn clone(&self) -> (r: Self)
        ensures
            r@ == self@,
    {
        Variable {
            id: self.id,
            kind: self.kind,
            dims: copy_dims(&self.dims),
            name: self.name.clone(),
            is_sparse: self.is_sparse,
            needs_gradient: self.needs_gradient,
            params: clone_params(&self.params),
        }
    }
}

impl Variable {
    /// Builds a leaf node: used by every public constructor.
    fn leaf(g: &mut Graph, kind: VariableKind, dims: Vec<usize>, name: String,
        is_sparse: bool, needs_gradient: bool) -> (r: Variable)
        requires
            old(g)@ < u64::MAX,
        ensures
            final(g)@ == old(g)@ + 1,
            r@ == (VarData {
                id: old(g)@,
                kind: kind,
                dims: dims@,
                name: name@,
                is_sparse: is_sparse,
                needs_gradient: needs_gradient,
                params: Seq::<ParamData>::empty(),
            }),
    {
        let id = g.issue_id();
        let r = Variable { id, kind, dims, name, is_sparse, needs_gradient, params: Vec::new() };
        assert(infos_view(Seq::<ParamInfo>::empty()) =~= Seq::<ParamData>::empty());
        r
    }

    /// Builds the output node of an operation, carrying the parameter
    /// leaves beneath it.
    pub(crate) fn output(g: &mut Graph, dims: Vec<usize>, name: String, needs_gradient: bool,
        params: Vec<ParamInfo>) -> (r: Variable)
        requires
            old(g)@ < u64::MAX,
        ensures
            final(g)@ == old(g)@ + 1,
            r@ == (VarData {
                id: old(g)@,
                kind: VariableKind::Output,
                dims: dims@,
                name: name@,
                is_sparse: false,
                needs_gradient: needs_gradient,
                params: infos_view(params@),
            }),
    {
        let id = g.issue_id();
        Variable {
            id,
            kind: VariableKind::Output,
            dims,
            name,
            is_sparse: false,
            needs_gradient,
            params,
        }
    }

    /// An input node with every attribute spelled out.  The dynamic
    /// axes are placement information for the engine; the handle does
    /// not read them back.
    pub fn create(g: &mut Graph, shape: &Shape, is_sparse: bool, needs_gradient: bool,
        name: &str, dynamic_axes: &Vec<Axis>) -> (r: Variable)
        requires
            old(g)@ < u64::MAX,
        ensures
            final(g)@ == old(g)@ + 1,
            r@ == (VarData {
                id: old(g)@,
                kind: VariableKind::Input,
                dims: shape@,
                name: name@,
                is_sparse: is_sparse,
                needs_gradient: needs_gradient,
                params: Seq::<ParamData>::empty(),
            }),
    {
        let _ = dynamic_axes;
        Variable::leaf(g, VariableKind::Input, shape.to_vec(), String::from_str(name),
            is_sparse, needs_gradient)
    }

    /// A dense input node with the given shape.
    pub fn input_variable(g: &mut Graph, shape: &Shape) -> (r: Variable)
        requires
            old(g)@ < u64::MAX,
        ensures
            final(g)@ == old(g)@ + 1,
            r@ == (VarData {
                id: old(g)@,
                kind: VariableKind::Input,
                dims: shape@,
                name: Seq::<char>::empty(),
                is_sparse: false,
                needs_gradient: false,
                params: Seq::<ParamData>::empty(),
            }),
    {
        Variable::leaf(g, VariableKind::Input, shape.to_vec(), String::new(), false, false)
    }

    /// A sparse input node with the given shape.
    pub fn sparse_input_variable(g: &mut Graph, shape: &Shape) -> (r: Variable)
        requires
            old(g)@ < u64::MAX,
        ensures
            final(g)@ == old(g)@ + 1,
            r@ == (VarData {
                id: old(g)@,
                kind: VariableKind::Input,
                dims: shape@,
                name: Seq::<char>::empty(),
                is_sparse: true,
                needs_gradient: false,
                params: Seq::<ParamData>::empty(),
            }),
    {
        Variable::leaf(g, VariableKind::Input, shape.to_vec(), String::new(), true, false)
    }

    /// A dense input node with a name.
    pub fn input_variable_with_name(g: &mut Graph, shape: &Shape, name: &str) -> (r: Variable)
        requires
            old(g)@ < u64::MAX,
        ensures
            final(g)@ == old(g)@ + 1,
            r@ == (VarData {
                id: old(g)@,
                kind: VariableKind::Input,
                dims: shape@,
                name: name@,
                is_sparse: false,
                needs_gradient: false,
                params: Seq::<ParamData>::empty(),
            }),
    {
        Variable::leaf(g, VariableKind::Input, shape.to_vec(), String::from_str(name),
            false, false)
    }

    /// A dense input node that asks for a gradient.
    pub fn input_variable_with_gradient(g: &mut Graph, shape: &Shape) -> (r: Variable)
        requires
            old(g)@ < u64::MAX,
        ensures
            final(g)@ == old(g)@ + 1,
            r@ == (VarData {
                id: old(g)@,
                kind: VariableKind::Input,
                dims: shape@,
                name: Seq::<char>::empty(),
                is_sparse: false,
                needs_gradient: true,
                params: Seq::<ParamData>::empty(),
            }),
    {
        Variable::leaf(g, VariableKind::Input, shape.to_vec(), String::new(), false, true)
    }

    /// A trainable parameter node.  The engine fills its storage as
    /// the initializer asks; the handle records shape and identity.
    pub fn parameter<T: Copy>(g: &mut Graph, shape: &Shape,
        initializer: &ParameterInitializer<T>, device: DeviceDescriptor) -> (r: Variable)
        requires
            old(g)@ < u64::MAX,
        ensures
            final(g)@ == old(g)@ + 1,
            r@ == (VarData {
                id: old(g)@,
                kind: VariableKind::Parameter,
                dims: shape@,
                name: Seq::<char>::empty(),
                is_sparse: false,
                needs_gradient: true,
                params: Seq::<ParamData>::empty(),
            }),
    {
        let _ = initializer;
        let _ = device;
        Variable::leaf(g, VariableKind::Parameter, shape.to_vec(), String::new(), false, true)
    }

    /// A placeholder node, to be replaced before evaluation.
    pub fn placeholder(g: &mut Graph, shape: &Shape) -> (r: Variable)
        requires
            old(g)@ < u64::MAX,
        ensures
            final(g)@ == old(g)@ + 1,
            r@ == (VarData {
                id: old(g)@,
                kind: VariableKind::Placeholder,
                dims: shape@,
                name: Seq::<char>::empty(),
                is_sparse: false,
                needs_gradient: false,
                params: Seq::<ParamData>::empty(),
            }),
    {
        Variable::leaf(g, VariableKind::Placeholder, shape.to_vec(), String::new(), false, false)
    }

    /// A scalar constant node.  The value is engine data; the handle
    /// records the rank-zero shape.
    pub fn constant_scalar<T: Copy>(g: &mut Graph, value: T) -> (r: Variable)
        requires
            old(g)@ < u64::MAX,
        ensures
            final(g)@ == old(g)@ + 1,
            r@ == (VarData {
                id: old(g)@,
                kind: VariableKind::Constant,
                dims: Seq::<usize>::empty(),
                name: Seq::<char>::empty(),
                is_sparse: false,
                needs_gradient: false,
                params: Seq::<ParamData>::empty(),
            }),
    {
        let _ = value;
        Variable::leaf(g, VariableKind::Constant, Vec::new(), String::new(), false, false)
    }

    /// A constant node with every element set to one value.
    pub fn constant_repeat<T: Copy>(g: &mut Graph, shape: &Shape, value: T) -> (r: Variable)
        requires
            old(g)@ < u64::MAX,
        ensures
            final(g)@ == old(g)@ + 1,
            r@ == (VarData {
                id: old(g)@,
                kind: VariableKind::Constant,
                dims: shape@,
                name: Seq::<char>::empty(),
                is_sparse: false,
                needs_gradient: false,
                params: Seq::<ParamData>::empty(),
            }),
    {
        let _ = value;
        Variable::leaf(g, VariableKind::Constant, shape.to_vec(), String::new(), false, false)
    }

    /// A constant node filled from a buffer, which must hold exactly
    /// one element per point of the shape.
    pub fn constant_from_slice<T: Copy>(g: &mut Graph, shape: &Shape, value: &Vec<T>,
        device: DeviceDescriptor) -> (r: Variable)
        requires
            old(g)@ < u64::MAX,
            dim_product(shape@) == value@.len(),
        ensures
            final(g)@ == old(g)@ + 1,
            r@ == (VarData {
                id: old(g)@,
                kind: VariableKind::Constant,
                dims: shape@,
                name: Seq::<char>::empty(),
                is_sparse: false,
                needs_gradient: false,
                params: Seq::<ParamData>::empty(),
            }),
    {
        let _ = value;
        let _ = device;
        Variable::leaf(g, VariableKind::Constant, shape.to_vec(), String::new(), false, false)
    }

    /// A node whose elements the engine draws from a normal
    /// distribution each time it is evaluated.
    pub fn normal_random<T: Copy>(g: &mut Graph, x: &Shape, mean: T, scale: T) -> (r: Variable)
        requires
            old(g)@ < u64::MAX,
        ensures
            final(g)@ == old(g)@ + 1,
            r@ == (VarData {
                id: old(g)@,
                kind: VariableKind::Output,
                dims: x@,
                name: Seq::<char>::empty(),
                is_sparse: false,
                needs_gradient: false,
                params: Seq::<ParamData>::empty(),
            }),
    {
        let _ = mean;
        let _ = scale;
        let r = Variable::output(g, x.to_vec(), String::new(), false, Vec::new());
        assert(infos_view(Seq::<ParamInfo>::empty()) =~= Seq::<ParamData>::empty());
        r
    }

    /// A node whose elements the engine draws from a Bernoulli
    /// distribution each time it is evaluated.
    pub fn bernoulli_random<T: Copy>(g: &mut Graph, x: &Shape, mean: T) -> (r: Variable)
        requires
            old(g)@ < u64::MAX,
        ensures
            final(g)@ == old(g)@ + 1,
            r@ == (VarData {
                id: old(g)@,
                kind: VariableKind::Output,
                dims: x@,
                name: Seq::<char>::empty(),
                is_sparse: false,
                needs_gradient: false,
                params: Seq::<ParamData>::empty(),
            }),
    {
        let _ = mean;
        let r = Variable::output(g, x.to_vec(), String::new(), false, Vec::new());
        assert(infos_view(Seq::<ParamInfo>::empty()) =~= Seq::<ParamData>::empty());
        r
    }

    /// A node whose elements the engine draws from a uniform
    /// distribution each time it is evaluated.
    pub fn uniform_random<T: Copy>(g: &mut Graph, x: &Shape, low: T, high: T) -> (r: Variable)
        requires
            old(g)@ < u64::MAX,
        ensures
            final(g)@ == old(g)@ + 1,
            r@ == (VarData {
                id: old(g)@,
                kind: VariableKind::Output,
                dims: x@,
                name: Seq::<char>::empty(),
                is_sparse: false,
                needs_gradient: false,
                params: Seq::<ParamData>::empty(),
            }),
    {
        let _ = low;
        let _ = high;
        let r = Variable::output(g, x.to_vec(), String::new(), false, Vec::new());
        assert(infos_view(Seq::<ParamInfo>::empty()) =~= Seq::<ParamData>::empty());
        r
    }

    /// A node whose elements the engine draws from a Gumbel
    /// distribution each time it is evaluated.
    pub fn gumbel_random<T: Copy>(g: &mut Graph, x: &Shape, loc: T, scale: T) -> (r: Variable)
        requires
            old(g)@ < u64::MAX,
        ensures
            final(g)@ == old(g)@ + 1,
            r@ == (VarData {
                id: old(g)@,
                kind: VariableKind::Output,
                dims: x@,
                name: Seq::<char>::empty(),
                is_sparse: false,
                needs_gradient: false,
                params: Seq::<ParamData>::empty(),
            }),
    {
        let _ = loc;
        let _ = scale;
        let r = Variable::output(g, x.to_vec(), String::new(), false, Vec::new());
        assert(infos_view(Seq::<ParamInfo>::empty()) =~= Seq::<ParamData>::empty());
        r
    }

    /// The shape of this node.
    pub fn shape(&self) -> (r: Shape)
        ensures
            r@ == self@.dims,
    {
        Shape::new(copy_dims(&self.dims))
    }

    /// Whether this node is a trainable parameter.
    pub fn is_parameter(&self) -> (r: bool)
        ensures
            r == (self@.kind == VariableKind::Parameter),
    {
        match self.kind {
            VariableKind::Parameter => true,
            _ => false,
        }
    }

    /// The name this node was given at construction.
    pub fn name(&self) -> (r: String)
        ensures
            r@ == self@.name,
    {
        self.name.clone()
    }

    /// The parameter leaves this node contributes to an operation
    /// built on it.
    pub(crate) fn param_list(&self) -> (r: Vec<ParamInfo>)
        ensures
            infos_view(r@) == param_seq(self@),
    {
        match self.kind {
            VariableKind::Parameter => {
                let mut r: Vec<ParamInfo> = Vec::new();
                r.push(ParamInfo {
                    id: self.id,
                    dims: copy_dims(&self.dims),
                    name: self.name.clone(),
                    is_sparse: self.is_sparse,
                    needs_gradient: self.needs_gradient,
                });
                assert(infos_view(r@) =~= seq![as_param(self@)]);
                r
            },
            _ => {
                clone_params(&self.params)
            },
        }
    }

    /// Rebuilds the handle of a parameter leaf.
    pub(crate) fn from_param_info(p: &ParamInfo) -> (r: Variable)
        ensures
            r@ == (VarData {
                id: p@.id,
                kind: VariableKind::Parameter,
                dims: p@.dims,
                name: p@.name,
                is_sparse: p@.is_sparse,
                needs_gradient: p@.needs_gradient,
                params: Seq::<ParamData>::empty(),
            }),
    {
        let r = Variable {
            id: p.id,
            kind: VariableKind::Parameter,
            dims: copy_dims(&p.dims),
            name: p.name.clone(),
            is_sparse: p.is_sparse,
            needs_gradient: p.needs_gradient,
            params: Vec::new(),
        };
        assert(infos_view(Seq::<ParamInfo>::empty()) =~= Seq::<ParamData>::empty());
        r
    }

    /// This node as a parameter leaf record.
    pub(crate) fn as_param_info(&self) -> (r: ParamInfo)
        ensures
            r@ == as_param(self@),
    {
        ParamInfo {
            id: self.id,
            dims: copy_dims(&self.dims),
            name: self.name.clone(),
            is_sparse: self.is_sparse,
            needs_gradient: self.needs_gradient,
        }
    }

    /// The dimensions of this node, as a fresh list.
    pub(crate) fn dims_vec(&self) -> (r: Vec<usize>)
        ensures
            r@ == self@.dims,
    {
        copy_dims(&self.dims)
    }

    /// Whether this node needs a gradient.
    pub(crate) fn needs_gradient_flag(&self) -> (r: bool)
        ensures
            r == self@.needs_gradient,
    {
        self.needs_gradient
    }

    /// The identity of this node.
    pub(crate) fn id(&self) -> (r: u64)
        ensures
            r == self@.id,
    {
        self.id
    }

    /// The kind of this node.
    pub(crate) fn kind(&self) -> (r: VariableKind)
        ensures
            r == self@.kind,
    {
        self.kind
    }
}

} // verus!
