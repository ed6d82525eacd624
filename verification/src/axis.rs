//! Axis descriptors.
//!
//! An [`Axis`] names one axis of a tensor, or a whole family of axes,
//! when an operation must say which direction it acts along.

use vstd::prelude::*;
use vstd::string::StringExecFns;

verus! {

/// One axis of a tensor, or a family of axes.
pub enum Axis {
    /// Every axis, static and dynamic alike.
    All,
    /// Every static axis.
    AllStatic,
    /// The implicit minibatch axis.
    DefaultBatch,
    /// A dynamic axis known by name.
    NamedDynamic(String),
    /// A static axis given by its index.
    Static(i32),
}

impl Axis {
    /// The descriptor that stands for all axes.
    pub fn all() -> (r: Axis)
        ensures
            r == Axis::All,
    {
        Axis::All
    }

    /// The descriptor that stands for all static axes.
    pub fn all_static() -> (r: Axis)
        ensures
            r == Axis::AllStatic,
    {
        Axis::AllStatic
    }

    /// The implicit minibatch axis.
    pub fn default_batch_axis() -> (r: Axis)
        ensures
            r == Axis::DefaultBatch,
    {
        Axis::DefaultBatch
    }

    /// A dynamic axis with the given name.
    pub fn named_dynamic(name: &str) -> (r: Axis)
        ensures
            r matches Axis::NamedDynamic(s) && s@ == name@,
    {
        Axis::NamedDynamic(String::from_str(name))
    }

    /// The static axis with the given index.
    pub fn new(number: i32) -> (r: Axis)
        ensures
            r == Axis::Static(number),
    {
        Axis::Static(number)
    }
}

impl Clone for Axis {
    /// A clone describes the same axis.
    fn clone(&self) -> (r: Self)
        ensures
            r == *self,
    {
        match self {
            Axis::All => Axis::All,
            Axis::AllStatic => Axis::AllStatic,
            Axis::DefaultBatch => Axis::DefaultBatch,
            Axis::NamedDynamic(s) => Axis::NamedDynamic(s.clone()),
            Axis::Static(n) => Axis::Static(*n),
        }
    }
}

} // verus!
