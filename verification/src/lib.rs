//! A computation-graph binding front end, modelled and verified.
//!
//! The library mirrors the host-visible surface of a deep-learning
//! toolkit binding: tensor shapes, axis descriptors, graph-node handles
//! issued by a [`Graph`], binding maps that pair nodes with tensor
//! values, and the host-side bookkeeping (shape rules, parameter
//! collection, placeholder replacement) that the binding performs
//! before any work is handed to a numeric engine.  The numeric engine
//! itself (kernel execution, automatic differentiation, optimizer math)
//! is outside this crate; every contract here speaks only of what the
//! host side constructs, stores and reads back.

pub mod axis;
pub mod data_map;
pub mod device;
pub mod function;
pub mod graph;
pub mod learner;
pub mod ops;
pub mod replacement_map;
pub mod shape;
pub mod trainer;
pub mod value;
pub mod variable;
pub mod variable_set;

pub use axis::Axis;
pub use data_map::DataMap;
pub use device::DeviceDescriptor;
pub use function::Function;
pub use graph::Graph;
pub use learner::DoubleParameterSchedule;
pub use learner::Learner;
pub use replacement_map::ReplacementMap;
pub use shape::Shape;
pub use trainer::Trainer;
pub use value::Value;
pub use variable::ParameterInitializer;
pub use variable::Variable;
pub use variable::VariableKind;
pub use variable_set::VariableSet;
