//! Training-loop controllers.
//!
//! A [`Trainer`] bundles what one training run needs: the model under
//! training, the loss to descend, optionally a further evaluation
//! criterion, and the learner that updates the parameters after each
//! step.  The steps themselves are the engine's work; the trainer
//! records what they are to run over.

use vstd::prelude::*;

use crate::function::FnData;
use crate::function::Function;
use crate::learner::Learner;
use crate::learner::LearnerData;

verus! {

/// The mathematical content of a trainer.
pub ghost struct TrainerData<T> {
    pub model: FnData,
    pub loss: FnData,
    pub evaluation: Option<FnData>,
    pub learner: LearnerData<T>,
}

/// One training run's model, criteria and update rule.
pub struct Trainer<T> {
    model: Function,
    loss: Function,
    evaluation: Option<Function>,
    learner: Learner<T>,
}

impl<T> View for Trainer<T> {
    type V = TrainerData<T>;

    closed spec fn view(&self) -> TrainerData<T> {
        TrainerData {
            model: self.model@,
            loss: self.loss@,
            evaluation: match self.evaluation {
                Option::Some(ref e) => Option::Some(e@),
                Option::None => Option::None,
            },
            learner: self.learner@,
        }
    }
}

impl<T: Copy> Trainer<T> {
    /// A trainer over a model, a loss and a learner.
    pub fn new(model: &Function, loss: &Function, learner: &Learner<T>) -> (r: Trainer<T>)
        ensures
            r@ == (TrainerData {
                model: model@,
                loss: loss@,
                evaluation: Option::<FnData>::None,
                learner: learner@,
            }),
    {
        Trainer {
            model: model.clone(),
            loss: loss.clone(),
            evaluation: Option::None,
            learner: learner.clone(),
        }
    }

    /// A trainer that also tracks a further evaluation criterion.
    pub fn new_with_evalatuion(model: &Function, loss: &Function, evaluation: &Function,
        learner: &Learner<T>) -> (r: Trainer<T>)
        ensures
            r@ == (TrainerData {
                model: model@,
                loss: loss@,
                evaluation: Option::Some(evaluation@),
                learner: learner@,
            }),
    {
        Trainer {
            model: model.clone(),
            loss: loss.clone(),
            evaluation: Option::Some(evaluation.clone()),
            learner: learner.clone(),
        }
    }
}

} // verus!
