//! Parameter-update rules.
//!
//! A [`Learner`] names the rule by which the engine updates a set of
//! trainable parameters after each training step, together with the
//! schedules that drive the rule.  Every node handed to a learner
//! must be a parameter; [`check_parameters`] is the host-side check
//! for that condition.

use vstd::prelude::*;

use crate::variable::ParamData;
use crate::variable::VarData;
use crate::variable::ParamInfo;
use crate::variable::VariableKind;
use crate::variable::Variable;
use crate::variable::as_param;
use crate::variable::infos_view;
use crate::variable::vars_view;

verus! {

/// A schedule of one training hyperparameter, constant over the run.
pub struct DoubleParameterSchedule<T> {
    value: T,
}

impl<T> View for DoubleParameterSchedule<T> {
    type V = T;

    closed spec fn view(&self) -> T {
        self.value
    }
}

impl<T: Copy> DoubleParameterSchedule<T> {
    /// The schedule that holds one value per sample throughout.
    pub fn constant(x: T) -> (r: DoubleParameterSchedule<T>)
        ensures
            r@ == x,
    {
        DoubleParameterSchedule { value: x }
    }
}

/// The parameter-update rules a learner can follow.
#[derive(Clone, Copy, PartialEq, Eq, Structural, Debug)]
pub enum LearnerKind {
    /// Plain stochastic gradient descent.
    Sgd,
    /// Stochastic gradient descent with momentum.
    MomentumSgd,
    /// The Adam rule.
    Adam,
}

/// The mathematical content of a learner.
pub ghost struct LearnerData<T> {
    pub kind: LearnerKind,
    pub parameters: Seq<ParamData>,
    pub learning_rate: T,
    pub momentum: Option<T>,
}

/// Whether every node in a run is a trainable parameter.
pub open spec fn all_parameters(s: Seq<VarData>) -> bool {
    forall|i: int| 0 <= i < s.len() ==> s[i].kind == VariableKind::Parameter
}


/// Whether every given node is a trainable parameter: the host-side
/// check a learner's nodes must pass.
pub fn check_parameters(parameters: &Vec<Variable>) -> (r: bool)
    ensures
        r == all_parameters(vars_view(parameters@)),
{
    let mut i: usize = 0;
    while i < parameters.len()
        invariant
            i <= parameters.len(),
            forall|j: int| 0 <= j < i
                ==> vars_view(parameters@)[j].kind == VariableKind::Parameter,
        decreases parameters.len() - i,
    {
        if !parameters[i].is_parameter() {
            assert(vars_view(parameters@)[i as int].kind != VariableKind::Parameter);
            return false;
        }
        assert(vars_view(parameters@)[i as int].kind == VariableKind::Parameter);
        i = i + 1;
    }
    true
}

/// Turns a run of parameter nodes into leaf records.
fn collect_params(parameters: &Vec<Variable>) -> (r: Vec<ParamInfo>)
    ensures
        infos_view(r@) == vars_view(parameters@).map_values(|v: VarData| as_param(v)),
{
    let mut r: Vec<ParamInfo> = Vec::new();
    let mut i: usize = 0;
    while i < parameters.len()
        invariant
            i <= parameters.len(),
            r@.len() == i,
            forall|j: int| 0 <= j < i ==> r@[j]@ == as_param(vars_view(parameters@)[j]),
        decreases parameters.len() - i,
    {
        r.push(parameters[i].as_param_info());
        i = i + 1;
    }
    assert forall|j: int| 0 <= j < parameters@.len()
        implies infos_view(r@)[j]
            == vars_view(parameters@).map_values(|v: VarData| as_param(v))[j] by {
        assert(infos_view(r@)[j] == r@[j]@);
    }
    assert(infos_view(r@) =~= vars_view(parameters@).map_values(|v: VarData| as_param(v)));
    r
}

/// A parameter-update rule bound to the parameters it updates.
pub struct Learner<T> {
    kind: LearnerKind,
    parameters: Vec<ParamInfo>,
    learning_rate: T,
    momentum: Option<T>,
}

impl<T> View for Learner<T> {
    type V = LearnerData<T>;

    closed spec fn view(&self) -> LearnerData<T> {
        LearnerData {
            kind: self.kind,
            parameters: infos_view(self.parameters@),
            learning_rate: self.learning_rate,
            momentum: self.momentum,
        }
    }
}

impl<T: Copy> Clone for Learner<T> {
    /// A clone follows the same rule on the same parameters.
    fn clone(&self) -> (r: Self)
        ensures
            r@ == self@,
    {
        Learner {
            kind: self.kind,
            parameters: crate::variable::clone_params(&self.parameters),
            learning_rate: self.learning_rate,
            momentum: self.momentum,
        }
    }
}

impl<T: Copy> Learner<T> {
    /// Plain stochastic gradient descent over the given parameters.
    pub fn sgd(parameters: &Vec<Variable>,
        learning_rate_schedule: &DoubleParameterSchedule<T>) -> (r: Learner<T>)
        requires
            all_parameters(vars_view(parameters@)),
        ensures
            r@ == (LearnerData {
                kind: LearnerKind::Sgd,
                parameters: vars_view(parameters@).map_values(|v: VarData| as_param(v)),
                learning_rate: learning_rate_schedule@,
                momentum: Option::<T>::None,
            }),
    {
        Learner {
            kind: LearnerKind::Sgd,
            parameters: collect_params(parameters),
            learning_rate: learning_rate_schedule.value,
            momentum: Option::None,
        }
    }

    /// Stochastic gradient descent with momentum over the given
    /// parameters.
    pub fn momentum_sgd(parameters: &Vec<Variable>,
        learning_rate_schedule: &DoubleParameterSchedule<T>,
        momentum_schedule: &DoubleParameterSchedule<T>) -> (r: Learner<T>)
        requires
            all_parameters(vars_view(parameters@)),
        ensures
            r@ == (LearnerData {
                kind: LearnerKind::MomentumSgd,
                parameters: vars_view(parameters@).map_values(|v: VarData| as_param(v)),
                learning_rate: learning_rate_schedule@,
                momentum: Option::Some(momentum_schedule@),
            }),
    {
        Learner {
            kind: LearnerKind::MomentumSgd,
            parameters: collect_params(parameters),
            learning_rate: learning_rate_schedule.value,
            momentum: Option::Some(momentum_schedule.value),
        }
    }

    /// The Adam rule over the given parameters.
    pub fn adam(parameters: &Vec<Variable>,
        learning_rate_schedule: &DoubleParameterSchedule<T>,
        momentum_schedule: &DoubleParameterSchedule<T>) -> (r: Learner<T>)
        requires
            all_parameters(vars_view(parameters@)),
        ensures
            r@ == (LearnerData {
                kind: LearnerKind::Adam,
                parameters: vars_view(parameters@).map_values(|v: VarData| as_param(v)),
                learning_rate: learning_rate_schedule@,
                momentum: Option::Some(momentum_schedule@),
            }),
    {
        Learner {
            kind: LearnerKind::Adam,
            parameters: collect_params(parameters),
            learning_rate: learning_rate_schedule.value,
            momentum: Option::Some(momentum_schedule.value),
        }
    }
}

} // verus!
