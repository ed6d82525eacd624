//! Computation subgraphs.
//!
//! A [`Function`] is the host-side handle of a computation: the nodes
//! it reads, the nodes it produces, and the trainable parameter
//! leaves gathered beneath it.  Operations (see [`crate::ops`]) build
//! functions one node at a time; [`Function::combine`] bundles several
//! outputs; [`Function::replace_placeholders`] substitutes the
//! placeholder inputs of a built function.

use vstd::prelude::*;

use crate::replacement_map::ReplacementMap;
use crate::variable::ParamData;
use crate::variable::ParamInfo;
use crate::variable::VarData;
use crate::variable::Variable;
use crate::variable::VariableKind;
use crate::variable::clone_params;
use crate::variable::clone_variables;
use crate::variable::infos_view;
use crate::variable::merge_all;
use crate::variable::merge_all_params;
use crate::variable::param_seq;
use crate::variable::param_to_var;
use crate::variable::vars_view;

verus! {

/// The mathematical content of a computation handle.
pub ghost struct FnData {
    pub inputs: Seq<VarData>,
    pub outputs: Seq<VarData>,
    pub parameters: Seq<ParamData>,
}

/// A node after placeholder replacement: a placeholder the map knows
/// is replaced, every other node stays.
pub open spec fn spec_replaced(v: VarData, m: Map<u64, VarData>) -> VarData {
    if v.kind == VariableKind::Placeholder && m.contains_key(v.id) {
        m[v.id]
    } else {
        v
    }
}

/// The host-side handle of one computation.
pub struct Function {
    inputs: Vec<Variable>,
    outputs: Vec<Variable>,
    parameters: Vec<ParamInfo>,
}

impl View for Function {
    type V = FnData;

    closed spec fn view(&self) -> FnData {
        FnData {
            inputs: vars_view(self.inputs@),
            outputs: vars_view(self.outputs@),
            parameters: infos_view(self.parameters@),
        }
    }
}

impl Clone for Function {
    /// A clone is the same computation: it reads, produces and trains
    /// the same nodes.
    fn clone(&self) -> (r: Self)
        ensures
            r@ == self@,
    {
        Function {
            inputs: clone_variables(&self.inputs),
            outputs: clone_variables(&self.outputs),
            parameters: clone_params(&self.parameters),
        }
    }
}

impl Function {
    /// Builds a handle from its parts.
    pub(crate) fn from_parts(inputs: Vec<Variable>, outputs: Vec<Variable>,
        parameters: Vec<ParamInfo>) -> (r: Function)
        ensures
            r@ == (FnData {
                inputs: vars_view(inputs@),
                outputs: vars_view(outputs@),
                parameters: infos_view(parameters@),
            }),
    {
        Function { inputs, outputs, parameters }
    }

    /// The computation that just passes one node through.
    pub fn from_variable(var: &Variable) -> (r: Function)
        ensures
            r@.inputs == seq![var@],
            r@.outputs == seq![var@],
            r@.parameters == param_seq(var@),
    {
        let mut inputs: Vec<Variable> = Vec::new();
        inputs.push(var.clone());
        let mut outputs: Vec<Variable> = Vec::new();
        outputs.push(var.clone());
        let parameters = var.param_list();
        assert(vars_view(inputs@) =~= seq![var@]);
        assert(vars_view(outputs@) =~= seq![var@]);
        Function { inputs, outputs, parameters }
    }

    /// Bundles several nodes into one computation with one output per
    /// node, gathering the parameter leaves of them all.
    pub fn combine(variables: &Vec<Variable>) -> (r: Function)
        ensures
            r@.inputs == vars_view(variables@),
            r@.outputs == vars_view(variables@),
            r@.parameters == merge_all(Seq::<ParamData>::empty(), vars_view(variables@)),
    {
        let inputs = clone_variables(variables);
        let outputs = clone_variables(variables);
        let parameters = merge_all_params(Vec::new(), variables);
        assert(infos_view(Seq::<ParamInfo>::empty()) =~= Seq::<ParamData>::empty());
        Function { inputs, outputs, parameters }
    }

    /// The number of nodes this computation produces.
    pub fn num_outputs(&self) -> (r: usize)
        ensures
            r == self@.outputs.len(),
    {
        self.outputs.len()
    }

    /// The number of nodes this computation reads.
    pub fn num_inputs(&self) -> (r: usize)
        ensures
            r == self@.inputs.len(),
    {
        self.inputs.len()
    }

    /// The number of trainable parameter leaves beneath this
    /// computation.
    pub fn num_parameters(&self) -> (r: usize)
        ensures
            r == self@.parameters.len(),
    {
        self.parameters.len()
    }

    /// The nodes this computation reads.
    pub fn inputs(&self) -> (r: Vec<Variable>)
        ensures
            vars_view(r@) == self@.inputs,
    {
        clone_variables(&self.inputs)
    }

    /// The nodes this computation produces.
    pub fn outputs(&self) -> (r: Vec<Variable>)
        ensures
            vars_view(r@) == self@.outputs,
    {
        clone_variables(&self.outputs)
    }

    /// The trainable parameter leaves beneath this computation, each
    /// handed back as a parameter node.
    pub fn parameters(&self) -> (r: Vec<Variable>)
        ensures
            vars_view(r@) == self@.parameters.map_values(|p: ParamData| param_to_var(p)),
    {
        let mut r: Vec<Variable> = Vec::new();
        let mut i: usize = 0;
        while i < self.parameters.len()
            invariant
                i <= self.parameters.len(),
                r@.len() == i,
                forall|j: int| 0 <= j < i
                    ==> r@[j]@ == param_to_var(infos_view(self.parameters@)[j]),
            decreases self.parameters.len() - i,
        {
            r.push(Variable::from_param_info(&self.parameters[i]));
            i = i + 1;
        }
        assert forall|j: int| 0 <= j < self.parameters@.len()
            implies vars_view(r@)[j]
                == self@.parameters.map_values(|p: ParamData| param_to_var(p))[j] by {
            assert(vars_view(r@)[j] == r@[j]@);
        }
        assert(vars_view(r@) =~= self@.parameters.map_values(|p: ParamData| param_to_var(p)));
        r
    }

    /// The single node this computation produces.  A computation with
    /// several outputs has no such node and is reported as such.
    pub fn to_variable(&self) -> (r: Result<Variable, &'static str>)
        requires
            self@.outputs.len() >= 1,
        ensures
            r is Ok <==> self@.outputs.len() == 1,
            r matches Ok(v) ==> v@ == self@.outputs[0],
    {
        if self.outputs.len() > 1 {
            Result::Err("Cannot convert function with multiple outputs into Variable")
        } else {
            Result::Ok(self.outputs[0].clone())
        }
    }

    /// Substitutes the placeholder inputs this computation reads.  A
    /// placeholder the map knows is replaced by its substitute, which
    /// must have the placeholder's shape; every other input stays.
    /// The outputs stay, and the parameter leaves of the substitutes
    /// join the gathered parameters.
    pub fn replace_placeholders(self, placeholder_replacements: &ReplacementMap) -> (r: Function)
        requires
            forall|i: int| 0 <= i < self@.inputs.len()
                ==> (#[trigger] spec_replaced(self@.inputs[i], placeholder_replacements@)).dims
                    == self@.inputs[i].dims,
        ensures
            r@.outputs == self@.outputs,
            r@.inputs == self@.inputs.map_values(
                |v: VarData| spec_replaced(v, placeholder_replacements@),
            ),
            r@.parameters == merge_all(self@.parameters, r@.inputs),
    {
        let ghost replaced = self@.inputs.map_values(
            |v: VarData| spec_replaced(v, placeholder_replacements@),
        );
        let mut new_inputs: Vec<Variable> = Vec::new();
        let mut i: usize = 0;
        while i < self.inputs.len()
            invariant
                i <= self.inputs.len(),
                new_inputs@.len() == i,
                replaced == vars_view(self.inputs@).map_values(
                    |v: VarData| spec_replaced(v, placeholder_replacements@),
                ),
                forall|j: int| 0 <= j < i ==> new_inputs@[j]@ == replaced[j],
            decreases self.inputs.len() - i,
        {
            let v = &self.inputs[i];
            let is_placeholder = match v.kind() {
                VariableKind::Placeholder => true,
                _ => false,
            };
            if is_placeholder {
                match placeholder_replacements.get(v.id()) {
                    Option::Some(substitute) => {
                        new_inputs.push(substitute);
                    },
                    Option::None => {
                        new_inputs.push(v.clone());
                    },
                }
            } else {
                new_inputs.push(v.clone());
            }
            i = i + 1;
        }
        assert forall|j: int| 0 <= j < new_inputs@.len()
            implies vars_view(new_inputs@)[j] == replaced[j] by {
            assert(vars_view(new_inputs@)[j] == new_inputs@[j]@);
        }
        assert(vars_view(new_inputs@) =~= replaced);
        let parameters = merge_all_params(self.parameters, &new_inputs);
        Function { inputs: new_inputs, outputs: self.outputs, parameters }
    }
}

} // verus!
