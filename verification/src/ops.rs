//! Graph-construction operations.
//!
//! Each operation builds one new computation node from its operands:
//! it records the operands as inputs, gathers their trainable
//! parameter leaves, and produces a fresh output node whose shape
//! follows the operation's shape rule.  The numeric work the node
//! stands for is the engine's; what the host can read back — shapes,
//! identities, gathered parameters — is pinned down here.
//!
//! Elementwise operations broadcast their operands: along each axis
//! both share, the dimensions must agree or one must be one; the
//! output takes the larger dimension, and all axes only one operand
//! has.

use vstd::prelude::*;
use vstd::string::StringExecFns;

use crate::axis::Axis;
use crate::function::FnData;
use crate::function::Function;
use crate::graph::Graph;
use crate::shape::Shape;
use crate::variable::ParamData;
use crate::variable::ParamInfo;
use crate::variable::VarData;
use crate::variable::Variable;
use crate::variable::VariableKind;
use crate::variable::clone_params;
use crate::variable::infos_view;
use crate::variable::merge_all;
use crate::variable::merge_all_params;
use crate::variable::vars_view;

verus! {

/// Whether two shapes broadcast against each other.
pub open spec fn broadcast_compatible(a: Seq<usize>, b: Seq<usize>) -> bool {
    forall|i: int| 0 <= i < a.len() && i < b.len() ==> a[i] == b[i] || a[i] == 1 || b[i] == 1
}

/// The shape two compatible shapes broadcast to.
pub open spec fn broadcast_dims(a: Seq<usize>, b: Seq<usize>) -> Seq<usize> {
    Seq::new(
        if a.len() >= b.len() { a.len() } else { b.len() },
        |i: int|
            if i >= a.len() {
                b[i]
            } else if i >= b.len() {
                a[i]
            } else if a[i] == 1 {
                b[i]
            } else {
                a[i]
            },
    )
}

/// The output node of an operation: fresh, shaped by the operation's
/// rule, carrying the gathered parameter leaves.
pub open spec fn op_output(g0: u64, dims: Seq<usize>, name: Seq<char>, needs_gradient: bool,
    params: Seq<ParamData>) -> VarData {
    VarData {
        id: g0,
        kind: VariableKind::Output,
        dims: dims,
        name: name,
        is_sparse: false,
        needs_gradient: needs_gradient,
        params: params,
    }
}

/// What every operation on one operand guarantees: the operand is the
/// one input, its parameter leaves are gathered, and the single
/// output is fresh with the given shape and name.
pub open spec fn unary_op_result(r: FnData, g0: u64, x: VarData, dims: Seq<usize>,
    name: Seq<char>, needs_gradient: bool) -> bool {
    &&& r.inputs == seq![x]
    &&& r.parameters == merge_all(Seq::<ParamData>::empty(), seq![x])
    &&& r.outputs == seq![op_output(g0, dims, name, needs_gradient, r.parameters)]
}

/// What every operation on two operands guarantees.
pub open spec fn binary_op_result(r: FnData, g0: u64, x: VarData, y: VarData,
    dims: Seq<usize>) -> bool {
    &&& r.inputs == seq![x, y]
    &&& r.parameters == merge_all(Seq::<ParamData>::empty(), seq![x, y])
    &&& r.outputs == seq![op_output(
        g0,
        dims,
        Seq::<char>::empty(),
        x.needs_gradient || y.needs_gradient,
        r.parameters,
    )]
}

/// What every operation on three operands guarantees.
pub open spec fn ternary_op_result(r: FnData, g0: u64, x: VarData, y: VarData, z: VarData,
    dims: Seq<usize>) -> bool {
    &&& r.inputs == seq![x, y, z]
    &&& r.parameters == merge_all(Seq::<ParamData>::empty(), seq![x, y, z])
    &&& r.outputs == seq![op_output(
        g0,
        dims,
        Seq::<char>::empty(),
        x.needs_gradient || y.needs_gradient || z.needs_gradient,
        r.parameters,
    )]
}

/// Builds the computation of one operation: the given inputs, one
/// fresh output, the gathered parameter leaves.
fn build_op(g: &mut Graph, inputs: Vec<Variable>, dims: Vec<usize>, name: String,
    needs_gradient: bool) -> (r: Function)
    requires
        old(g)@ < u64::MAX,
    ensures
        final(g)@ == old(g)@ + 1,
        r@.inputs == vars_view(inputs@),
        r@.parameters == merge_all(Seq::<ParamData>::empty(), vars_view(inputs@)),
        r@.outputs == seq![op_output(old(g)@, dims@, name@, needs_gradient, r@.parameters)],
{
    let parameters = merge_all_params(Vec::new(), &inputs);
    assert(infos_view(Seq::<ParamInfo>::empty()) =~= Seq::<ParamData>::empty());
    let out = Variable::output(g, dims, name, needs_gradient, clone_params(&parameters));
    let mut outputs: Vec<Variable> = Vec::new();
    outputs.push(out);
    proof {
        assert(vars_view(outputs@) =~= seq![outputs@[0]@]);
    }
    Function::from_parts(inputs, outputs, parameters)
}

/// Builds an operation on one operand.
fn build_unary(g: &mut Graph, x: &Variable, dims: Vec<usize>, name: String,
    needs_gradient: bool) -> (r: Function)
    requires
        old(g)@ < u64::MAX,
    ensures
        final(g)@ == old(g)@ + 1,
        unary_op_result(r@, old(g)@, x@, dims@, name@, needs_gradient),
{
    let mut inputs: Vec<Variable> = Vec::new();
    inputs.push(x.clone());
    assert(vars_view(inputs@) =~= seq![x@]);
    build_op(g, inputs, dims, name, needs_gradient)
}

/// Builds an operation on two operands.
fn build_binary(g: &mut Graph, x: &Variable, y: &Variable, dims: Vec<usize>) -> (r: Function)
    requires
        old(g)@ < u64::MAX,
    ensures
        final(g)@ == old(g)@ + 1,
        binary_op_result(r@, old(g)@, x@, y@, dims@),
{
    let mut inputs: Vec<Variable> = Vec::new();
    inputs.push(x.clone());
    inputs.push(y.clone());
    assert(vars_view(inputs@) =~= seq![x@, y@]);
    let needs_gradient = x.needs_gradient_flag() || y.needs_gradient_flag();
    build_op(g, inputs, dims, String::new(), needs_gradient)
}

/// Builds an operation on three operands.
fn build_ternary(g: &mut Graph, x: &Variable, y: &Variable, z: &Variable, dims: Vec<usize>) -> (r:
    Function)
    requires
        old(g)@ < u64::MAX,
    ensures
        final(g)@ == old(g)@ + 1,
        ternary_op_result(r@, old(g)@, x@, y@, z@, dims@),
{
    let mut inputs: Vec<Variable> = Vec::new();
    inputs.push(x.clone());
    inputs.push(y.clone());
    inputs.push(z.clone());
    assert(vars_view(inputs@) =~= seq![x@, y@, z@]);
    let needs_gradient = x.needs_gradient_flag() || y.needs_gradient_flag()
        || z.needs_gradient_flag();
    build_op(g, inputs, dims, String::new(), needs_gradient)
}

/// Negates the operand elementwise.
pub fn negate(g: &mut Graph, x: &Variable) -> (r: Function)
    requires
        old(g)@ < u64::MAX,
    ensures
        final(g)@ == old(g)@ + 1,
        unary_op_result(r@, old(g)@, x@, x@.dims, Seq::<char>::empty(), x@.needs_gradient),
{
    build_unary(g, x, x.dims_vec(), String::new(), x.needs_gradient_flag())
}

/// Applies the logistic function elementwise.
pub fn sigmoid(g: &mut Graph, x: &Variable) -> (r: Function)
    requires
        old(g)@ < u64::MAX,
    ensures
        final(g)@ == old(g)@ + 1,
        unary_op_result(r@, old(g)@, x@, x@.dims, Seq::<char>::empty(), x@.needs_gradient),
{
    build_unary(g, x, x.dims_vec(), String::new(), x.needs_gradient_flag())
}

/// Applies the hyperbolic tangent elementwise.
pub fn tanh(g: &mut Graph, x: &Variable) -> (r: Function)
    requires
        old(g)@ < u64::MAX,
    ensures
        final(g)@ == old(g)@ + 1,
        unary_op_result(r@, old(g)@, x@, x@.dims, Seq::<char>::empty(), x@.needs_gradient),
{
    build_unary(g, x, x.dims_vec(), String::new(), x.needs_gradient_flag())
}

/// Applies the rectifier elementwise.
pub fn relu(g: &mut Graph, x: &Variable) -> (r: Function)
    requires
        old(g)@ < u64::MAX,
    ensures
        final(g)@ == old(g)@ + 1,
        unary_op_result(r@, old(g)@, x@, x@.dims, Seq::<char>::empty(), x@.needs_gradient),
{
    build_unary(g, x, x.dims_vec(), String::new(), x.needs_gradient_flag())
}

/// Applies the exponential elementwise.
pub fn exp(g: &mut Graph, x: &Variable) -> (r: Function)
    requires
        old(g)@ < u64::MAX,
    ensures
        final(g)@ == old(g)@ + 1,
        unary_op_result(r@, old(g)@, x@, x@.dims, Seq::<char>::empty(), x@.needs_gradient),
{
    build_unary(g, x, x.dims_vec(), String::new(), x.needs_gradient_flag())
}

/// Applies the natural logarithm elementwise.
pub fn log(g: &mut Graph, x: &Variable) -> (r: Function)
    requires
        old(g)@ < u64::MAX,
    ensures
        final(g)@ == old(g)@ + 1,
        unary_op_result(r@, old(g)@, x@, x@.dims, Seq::<char>::empty(), x@.needs_gradient),
{
    build_unary(g, x, x.dims_vec(), String::new(), x.needs_gradient_flag())
}

/// Takes the absolute value elementwise.
pub fn abs(g: &mut Graph, x: &Variable) -> (r: Function)
    requires
        old(g)@ < u64::MAX,
    ensures
        final(g)@ == old(g)@ + 1,
        unary_op_result(r@, old(g)@, x@, x@.dims, Seq::<char>::empty(), x@.needs_gradient),
{
    build_unary(g, x, x.dims_vec(), String::new(), x.needs_gradient_flag())
}

/// Normalizes the operand with the softmax function.
pub fn softmax(g: &mut Graph, x: &Variable) -> (r: Function)
    requires
        old(g)@ < u64::MAX,
    ensures
        final(g)@ == old(g)@ + 1,
        unary_op_result(r@, old(g)@, x@, x@.dims, Seq::<char>::empty(), x@.needs_gradient),
{
    build_unary(g, x, x.dims_vec(), String::new(), x.needs_gradient_flag())
}

/// Passes the operand through unchanged.
pub fn alias(g: &mut Graph, x: &Variable) -> (r: Function)
    requires
        old(g)@ < u64::MAX,
    ensures
        final(g)@ == old(g)@ + 1,
        unary_op_result(r@, old(g)@, x@, x@.dims, Seq::<char>::empty(), x@.needs_gradient),
{
    build_unary(g, x, x.dims_vec(), String::new(), x.needs_gradient_flag())
}

/// Passes the operand through under a name.
pub fn named_alias(g: &mut Graph, x: &Variable, name: &str) -> (r: Function)
    requires
        old(g)@ < u64::MAX,
    ensures
        final(g)@ == old(g)@ + 1,
        unary_op_result(r@, old(g)@, x@, x@.dims, name@, x@.needs_gradient),
{
    build_unary(g, x, x.dims_vec(), String::from_str(name), x.needs_gradient_flag())
}

/// Passes the operand through and stops gradients at it: the output
/// asks for no gradient.
pub fn stop_gradient(g: &mut Graph, x: &Variable) -> (r: Function)
    requires
        old(g)@ < u64::MAX,
    ensures
        final(g)@ == old(g)@ + 1,
        unary_op_result(r@, old(g)@, x@, x@.dims, Seq::<char>::empty(), false),
{
    build_unary(g, x, x.dims_vec(), String::new(), false)
}

/// Randomly zeroes elements at the given rate during training.
pub fn dropout<T: Copy>(g: &mut Graph, x: &Variable, dropout_rate: T) -> (r: Function)
    requires
        old(g)@ < u64::MAX,
    ensures
        final(g)@ == old(g)@ + 1,
        unary_op_result(r@, old(g)@, x@, x@.dims, Seq::<char>::empty(), x@.needs_gradient),
{
    let _ = dropout_rate;
    build_unary(g, x, x.dims_vec(), String::new(), x.needs_gradient_flag())
}

/// Reads the operand one step earlier along its sequence axis.
pub fn past_value(g: &mut Graph, x: &Variable) -> (r: Function)
    requires
        old(g)@ < u64::MAX,
    ensures
        final(g)@ == old(g)@ + 1,
        unary_op_result(r@, old(g)@, x@, x@.dims, Seq::<char>::empty(), x@.needs_gradient),
{
    build_unary(g, x, x.dims_vec(), String::new(), x.needs_gradient_flag())
}

/// Reads the operand one step later along its sequence axis.
pub fn future_value(g: &mut Graph, x: &Variable) -> (r: Function)
    requires
        old(g)@ < u64::MAX,
    ensures
        final(g)@ == old(g)@ + 1,
        unary_op_result(r@, old(g)@, x@, x@.dims, Seq::<char>::empty(), x@.needs_gradient),
{
    build_unary(g, x, x.dims_vec(), String::new(), x.needs_gradient_flag())
}

/// Reads the operand one step earlier along its sequence axis, with
/// an initial value that broadcasts into the operand's shape for the
/// first step.
pub fn past_value_with_init(g: &mut Graph, x: &Variable, initial: &Variable) -> (r: Function)
    requires
        old(g)@ < u64::MAX,
        broadcast_compatible(x@.dims, initial@.dims),
        broadcast_dims(x@.dims, initial@.dims) == x@.dims,
    ensures
        final(g)@ == old(g)@ + 1,
        binary_op_result(r@, old(g)@, x@, initial@, x@.dims),
{
    build_binary(g, x, initial, x.dims_vec())
}

/// Reads the operand one step later along its sequence axis, with an
/// initial value that broadcasts into the operand's shape for the
/// last step.
pub fn future_value_with_init(g: &mut Graph, x: &Variable, initial: &Variable) -> (r: Function)
    requires
        old(g)@ < u64::MAX,
        broadcast_compatible(x@.dims, initial@.dims),
        broadcast_dims(x@.dims, initial@.dims) == x@.dims,
    ensures
        final(g)@ == old(g)@ + 1,
        binary_op_result(r@, old(g)@, x@, initial@, x@.dims),
{
    build_binary(g, x, initial, x.dims_vec())
}

/// Reshapes the operand; the new shape must hold exactly as many
/// elements as the old one.
pub fn reshape(g: &mut Graph, x: &Variable, shape: &Shape) -> (r: Function)
    requires
        old(g)@ < u64::MAX,
        crate::shape::dim_product(x@.dims) == crate::shape::dim_product(shape@),
    ensures
        final(g)@ == old(g)@ + 1,
        unary_op_result(r@, old(g)@, x@, shape@, Seq::<char>::empty(), x@.needs_gradient),
{
    build_unary(g, x, shape.to_vec(), String::new(), x.needs_gradient_flag())
}

/// Adds the operands elementwise, broadcasting.
pub fn plus(g: &mut Graph, x: &Variable, y: &Variable) -> (r: Function)
    requires
        old(g)@ < u64::MAX,
        broadcast_compatible(x@.dims, y@.dims),
    ensures
        final(g)@ == old(g)@ + 1,
        binary_op_result(r@, old(g)@, x@, y@, broadcast_dims(x@.dims, y@.dims)),
{
    let xd = x.dims_vec();
    let yd = y.dims_vec();
    let dims = broadcast_vec(&xd, &yd);
    build_binary(g, x, y, dims)
}

/// Subtracts the second operand from the first elementwise,
/// broadcasting.
pub fn minus(g: &mut Graph, x: &Variable, y: &Variable) -> (r: Function)
    requires
        old(g)@ < u64::MAX,
        broadcast_compatible(x@.dims, y@.dims),
    ensures
        final(g)@ == old(g)@ + 1,
        binary_op_result(r@, old(g)@, x@, y@, broadcast_dims(x@.dims, y@.dims)),
{
    let xd = x.dims_vec();
    let yd = y.dims_vec();
    let dims = broadcast_vec(&xd, &yd);
    build_binary(g, x, y, dims)
}

/// Multiplies the operands elementwise, broadcasting.
pub fn element_times(g: &mut Graph, x: &Variable, y: &Variable) -> (r: Function)
    requires
        old(g)@ < u64::MAX,
        broadcast_compatible(x@.dims, y@.dims),
    ensures
        final(g)@ == old(g)@ + 1,
        binary_op_result(r@, old(g)@, x@, y@, broadcast_dims(x@.dims, y@.dims)),
{
    let xd = x.dims_vec();
    let yd = y.dims_vec();
    let dims = broadcast_vec(&xd, &yd);
    build_binary(g, x, y, dims)
}

/// Divides the first operand by the second elementwise, broadcasting.
pub fn element_divide(g: &mut Graph, x: &Variable, y: &Variable) -> (r: Function)
    requires
        old(g)@ < u64::MAX,
        broadcast_compatible(x@.dims, y@.dims),
    ensures
        final(g)@ == old(g)@ + 1,
        binary_op_result(r@, old(g)@, x@, y@, broadcast_dims(x@.dims, y@.dims)),
{
    let xd = x.dims_vec();
    let yd = y.dims_vec();
    let dims = broadcast_vec(&xd, &yd);
    build_binary(g, x, y, dims)
}

/// Multiplies a matrix onto the second operand: the matrix's second
/// axis is contracted with the operand's first axis.
pub fn times(g: &mut Graph, x: &Variable, y: &Variable) -> (r: Function)
    requires
        old(g)@ < u64::MAX,
        x@.dims.len() == 2,
        y@.dims.len() >= 1,
        x@.dims[1] == y@.dims[0],
    ensures
        final(g)@ == old(g)@ + 1,
        binary_op_result(r@, old(g)@, x@, y@, seq![x@.dims[0]] + y@.dims.skip(1)),
{
    let xd = x.dims_vec();
    let yd = y.dims_vec();
    let dims = contracted_dims(xd[0], &yd);
    build_binary(g, x, y, dims)
}

/// Multiplies the transpose of a matrix onto the second operand: the
/// matrix's first axis is contracted with the operand's first axis.
pub fn transpose_times(g: &mut Graph, x: &Variable, y: &Variable) -> (r: Function)
    requires
        old(g)@ < u64::MAX,
        x@.dims.len() == 2,
        y@.dims.len() >= 1,
        x@.dims[0] == y@.dims[0],
    ensures
        final(g)@ == old(g)@ + 1,
        binary_op_result(r@, old(g)@, x@, y@, seq![x@.dims[1]] + y@.dims.skip(1)),
{
    let xd = x.dims_vec();
    let yd = y.dims_vec();
    let dims = contracted_dims(xd[1], &yd);
    build_binary(g, x, y, dims)
}

/// Swaps the two axes of a matrix-shaped operand.
pub fn transpose(g: &mut Graph, x: &Variable) -> (r: Function)
    requires
        old(g)@ < u64::MAX,
        x@.dims.len() == 2,
    ensures
        final(g)@ == old(g)@ + 1,
        unary_op_result(r@, old(g)@, x@, seq![x@.dims[1], x@.dims[0]], Seq::<char>::empty(),
            x@.needs_gradient),
{
    let xd = x.dims_vec();
    let mut dims: Vec<usize> = Vec::new();
    dims.push(xd[1]);
    dims.push(xd[0]);
    assert(dims@ =~= seq![x@.dims[1], x@.dims[0]]);
    build_unary(g, x, dims, String::new(), x.needs_gradient_flag())
}

/// Bounds the first operand elementwise between the other two, whose
/// shapes broadcast into its shape.
pub fn clip(g: &mut Graph, x: &Variable, min: &Variable, max: &Variable) -> (r: Function)
    requires
        old(g)@ < u64::MAX,
        broadcast_compatible(x@.dims, min@.dims),
        broadcast_dims(x@.dims, min@.dims) == x@.dims,
        broadcast_compatible(x@.dims, max@.dims),
        broadcast_dims(x@.dims, max@.dims) == x@.dims,
    ensures
        final(g)@ == old(g)@ + 1,
        ternary_op_result(r@, old(g)@, x@, min@, max@, x@.dims),
{
    build_ternary(g, x, min, max, x.dims_vec())
}

/// Applies the inverse sine elementwise.
pub fn asin(g: &mut Graph, x: &Variable) -> (r: Function)
    requires
        old(g)@ < u64::MAX,
    ensures
        final(g)@ == old(g)@ + 1,
        unary_op_result(r@, old(g)@, x@, x@.dims, Seq::<char>::empty(), x@.needs_gradient),
{
    build_unary(g, x, x.dims_vec(), String::new(), x.needs_gradient_flag())
}

/// Applies the sine elementwise.
pub fn sin(g: &mut Graph, x: &Variable) -> (r: Function)
    requires
        old(g)@ < u64::MAX,
    ensures
        final(g)@ == old(g)@ + 1,
        unary_op_result(r@, old(g)@, x@, x@.dims, Seq::<char>::empty(), x@.needs_gradient),
{
    build_unary(g, x, x.dims_vec(), String::new(), x.needs_gradient_flag())
}

/// Applies the inverse cosine elementwise.
pub fn acos(g: &mut Graph, x: &Variable) -> (r: Function)
    requires
        old(g)@ < u64::MAX,
    ensures
        final(g)@ == old(g)@ + 1,
        unary_op_result(r@, old(g)@, x@, x@.dims, Seq::<char>::empty(), x@.needs_gradient),
{
    build_unary(g, x, x.dims_vec(), String::new(), x.needs_gradient_flag())
}

/// Applies the cosine elementwise.
pub fn cos(g: &mut Graph, x: &Variable) -> (r: Function)
    requires
        old(g)@ < u64::MAX,
    ensures
        final(g)@ == old(g)@ + 1,
        unary_op_result(r@, old(g)@, x@, x@.dims, Seq::<char>::empty(), x@.needs_gradient),
{
    build_unary(g, x, x.dims_vec(), String::new(), x.needs_gradient_flag())
}

/// Applies the hyperbolic cosine elementwise.
pub fn cosh(g: &mut Graph, x: &Variable) -> (r: Function)
    requires
        old(g)@ < u64::MAX,
    ensures
        final(g)@ == old(g)@ + 1,
        unary_op_result(r@, old(g)@, x@, x@.dims, Seq::<char>::empty(), x@.needs_gradient),
{
    build_unary(g, x, x.dims_vec(), String::new(), x.needs_gradient_flag())
}

/// Applies the hyperbolic sine elementwise.
pub fn sinh(g: &mut Graph, x: &Variable) -> (r: Function)
    requires
        old(g)@ < u64::MAX,
    ensures
        final(g)@ == old(g)@ + 1,
        unary_op_result(r@, old(g)@, x@, x@.dims, Seq::<char>::empty(), x@.needs_gradient),
{
    build_unary(g, x, x.dims_vec(), String::new(), x.needs_gradient_flag())
}

/// Squares the operand elementwise.
pub fn square(g: &mut Graph, x: &Variable) -> (r: Function)
    requires
        old(g)@ < u64::MAX,
    ensures
        final(g)@ == old(g)@ + 1,
        unary_op_result(r@, old(g)@, x@, x@.dims, Seq::<char>::empty(), x@.needs_gradient),
{
    build_unary(g, x, x.dims_vec(), String::new(), x.needs_gradient_flag())
}

/// Takes the square root elementwise.
pub fn sqrt(g: &mut Graph, x: &Variable) -> (r: Function)
    requires
        old(g)@ < u64::MAX,
    ensures
        final(g)@ == old(g)@ + 1,
        unary_op_result(r@, old(g)@, x@, x@.dims, Seq::<char>::empty(), x@.needs_gradient),
{
    build_unary(g, x, x.dims_vec(), String::new(), x.needs_gradient_flag())
}

/// Rounds the operand elementwise.
pub fn round(g: &mut Graph, x: &Variable) -> (r: Function)
    requires
        old(g)@ < u64::MAX,
    ensures
        final(g)@ == old(g)@ + 1,
        unary_op_result(r@, old(g)@, x@, x@.dims, Seq::<char>::empty(), x@.needs_gradient),
{
    build_unary(g, x, x.dims_vec(), String::new(), x.needs_gradient_flag())
}

/// Rounds the operand down elementwise.
pub fn floor(g: &mut Graph, x: &Variable) -> (r: Function)
    requires
        old(g)@ < u64::MAX,
    ensures
        final(g)@ == old(g)@ + 1,
        unary_op_result(r@, old(g)@, x@, x@.dims, Seq::<char>::empty(), x@.needs_gradient),
{
    build_unary(g, x, x.dims_vec(), String::new(), x.needs_gradient_flag())
}

/// Rounds the operand up elementwise.
pub fn ceil(g: &mut Graph, x: &Variable) -> (r: Function)
    requires
        old(g)@ < u64::MAX,
    ensures
        final(g)@ == old(g)@ + 1,
        unary_op_result(r@, old(g)@, x@, x@.dims, Seq::<char>::empty(), x@.needs_gradient),
{
    build_unary(g, x, x.dims_vec(), String::new(), x.needs_gradient_flag())
}

/// Takes the reciprocal elementwise.
pub fn reciprocal(g: &mut Graph, x: &Variable) -> (r: Function)
    requires
        old(g)@ < u64::MAX,
    ensures
        final(g)@ == old(g)@ + 1,
        unary_op_result(r@, old(g)@, x@, x@.dims, Seq::<char>::empty(), x@.needs_gradient),
{
    build_unary(g, x, x.dims_vec(), String::new(), x.needs_gradient_flag())
}

/// Marks the largest element of the operand.
pub fn hardmax(g: &mut Graph, x: &Variable) -> (r: Function)
    requires
        old(g)@ < u64::MAX,
    ensures
        final(g)@ == old(g)@ + 1,
        unary_op_result(r@, old(g)@, x@, x@.dims, Seq::<char>::empty(), x@.needs_gradient),
{
    build_unary(g, x, x.dims_vec(), String::new(), x.needs_gradient_flag())
}

/// Moves the operand's last axis onto the batch axis.
pub fn to_batch(g: &mut Graph, x: &Variable) -> (r: Function)
    requires
        old(g)@ < u64::MAX,
    ensures
        final(g)@ == old(g)@ + 1,
        unary_op_result(r@, old(g)@, x@, x@.dims, Seq::<char>::empty(), x@.needs_gradient),
{
    build_unary(g, x, x.dims_vec(), String::new(), x.needs_gradient_flag())
}

/// Applies the exponential linear unit elementwise.
pub fn elu(g: &mut Graph, x: &Variable) -> (r: Function)
    requires
        old(g)@ < u64::MAX,
    ensures
        final(g)@ == old(g)@ + 1,
        unary_op_result(r@, old(g)@, x@, x@.dims, Seq::<char>::empty(), x@.needs_gradient),
{
    build_unary(g, x, x.dims_vec(), String::new(), x.needs_gradient_flag())
}

/// Applies the leaky rectifier elementwise.
pub fn leaky_relu(g: &mut Graph, x: &Variable) -> (r: Function)
    requires
        old(g)@ < u64::MAX,
    ensures
        final(g)@ == old(g)@ + 1,
        unary_op_result(r@, old(g)@, x@, x@.dims, Seq::<char>::empty(), x@.needs_gradient),
{
    build_unary(g, x, x.dims_vec(), String::new(), x.needs_gradient_flag())
}

/// Applies the softplus function elementwise.
pub fn softplus(g: &mut Graph, x: &Variable) -> (r: Function)
    requires
        old(g)@ < u64::MAX,
    ensures
        final(g)@ == old(g)@ + 1,
        unary_op_result(r@, old(g)@, x@, x@.dims, Seq::<char>::empty(), x@.needs_gradient),
{
    build_unary(g, x, x.dims_vec(), String::new(), x.needs_gradient_flag())
}

/// Reads the first step of the operand's sequence.
pub fn first(g: &mut Graph, x: &Variable) -> (r: Function)
    requires
        old(g)@ < u64::MAX,
    ensures
        final(g)@ == old(g)@ + 1,
        unary_op_result(r@, old(g)@, x@, x@.dims, Seq::<char>::empty(), x@.needs_gradient),
{
    build_unary(g, x, x.dims_vec(), String::new(), x.needs_gradient_flag())
}

/// Reads the last step of the operand's sequence.
pub fn last(g: &mut Graph, x: &Variable) -> (r: Function)
    requires
        old(g)@ < u64::MAX,
    ensures
        final(g)@ == old(g)@ + 1,
        unary_op_result(r@, old(g)@, x@, x@.dims, Seq::<char>::empty(), x@.needs_gradient),
{
    build_unary(g, x, x.dims_vec(), String::new(), x.needs_gradient_flag())
}

/// Adds the operands in log space, broadcasting.
pub fn log_add_exp(g: &mut Graph, x: &Variable, y: &Variable) -> (r: Function)
    requires
        old(g)@ < u64::MAX,
        broadcast_compatible(x@.dims, y@.dims),
    ensures
        final(g)@ == old(g)@ + 1,
        binary_op_result(r@, old(g)@, x@, y@, broadcast_dims(x@.dims, y@.dims)),
{
    let xd = x.dims_vec();
    let yd = y.dims_vec();
    let dims = broadcast_vec(&xd, &yd);
    build_binary(g, x, y, dims)
}

/// Raises the first operand to the second elementwise, broadcasting.
pub fn pow(g: &mut Graph, x: &Variable, y: &Variable) -> (r: Function)
    requires
        old(g)@ < u64::MAX,
        broadcast_compatible(x@.dims, y@.dims),
    ensures
        final(g)@ == old(g)@ + 1,
        binary_op_result(r@, old(g)@, x@, y@, broadcast_dims(x@.dims, y@.dims)),
{
    let xd = x.dims_vec();
    let yd = y.dims_vec();
    let dims = broadcast_vec(&xd, &yd);
    build_binary(g, x, y, dims)
}

/// Compares the operands for equality elementwise, broadcasting.
pub fn equal(g: &mut Graph, x: &Variable, y: &Variable) -> (r: Function)
    requires
        old(g)@ < u64::MAX,
        broadcast_compatible(x@.dims, y@.dims),
    ensures
        final(g)@ == old(g)@ + 1,
        binary_op_result(r@, old(g)@, x@, y@, broadcast_dims(x@.dims, y@.dims)),
{
    let xd = x.dims_vec();
    let yd = y.dims_vec();
    let dims = broadcast_vec(&xd, &yd);
    build_binary(g, x, y, dims)
}

/// Compares the operands for inequality elementwise, broadcasting.
pub fn not_equal(g: &mut Graph, x: &Variable, y: &Variable) -> (r: Function)
    requires
        old(g)@ < u64::MAX,
        broadcast_compatible(x@.dims, y@.dims),
    ensures
        final(g)@ == old(g)@ + 1,
        binary_op_result(r@, old(g)@, x@, y@, broadcast_dims(x@.dims, y@.dims)),
{
    let xd = x.dims_vec();
    let yd = y.dims_vec();
    let dims = broadcast_vec(&xd, &yd);
    build_binary(g, x, y, dims)
}

/// Compares the operands elementwise with the strict order, broadcasting.
pub fn less(g: &mut Graph, x: &Variable, y: &Variable) -> (r: Function)
    requires
        old(g)@ < u64::MAX,
        broadcast_compatible(x@.dims, y@.dims),
    ensures
        final(g)@ == old(g)@ + 1,
        binary_op_result(r@, old(g)@, x@, y@, broadcast_dims(x@.dims, y@.dims)),
{
    let xd = x.dims_vec();
    let yd = y.dims_vec();
    let dims = broadcast_vec(&xd, &yd);
    build_binary(g, x, y, dims)
}

/// Compares the operands elementwise with the weak order, broadcasting.
pub fn less_equal(g: &mut Graph, x: &Variable, y: &Variable) -> (r: Function)
    requires
        old(g)@ < u64::MAX,
        broadcast_compatible(x@.dims, y@.dims),
    ensures
        final(g)@ == old(g)@ + 1,
        binary_op_result(r@, old(g)@, x@, y@, broadcast_dims(x@.dims, y@.dims)),
{
    let xd = x.dims_vec();
    let yd = y.dims_vec();
    let dims = broadcast_vec(&xd, &yd);
    build_binary(g, x, y, dims)
}

/// Compares the operands elementwise with the reversed strict order, broadcasting.
pub fn greater(g: &mut Graph, x: &Variable, y: &Variable) -> (r: Function)
    requires
        old(g)@ < u64::MAX,
        broadcast_compatible(x@.dims, y@.dims),
    ensures
        final(g)@ == old(g)@ + 1,
        binary_op_result(r@, old(g)@, x@, y@, broadcast_dims(x@.dims, y@.dims)),
{
    let xd = x.dims_vec();
    let yd = y.dims_vec();
    let dims = broadcast_vec(&xd, &yd);
    build_binary(g, x, y, dims)
}

/// Compares the operands elementwise with the reversed weak order, broadcasting.
pub fn greater_equal(g: &mut Graph, x: &Variable, y: &Variable) -> (r: Function)
    requires
        old(g)@ < u64::MAX,
        broadcast_compatible(x@.dims, y@.dims),
    ensures
        final(g)@ == old(g)@ + 1,
        binary_op_result(r@, old(g)@, x@, y@, broadcast_dims(x@.dims, y@.dims)),
{
    let xd = x.dims_vec();
    let yd = y.dims_vec();
    let dims = broadcast_vec(&xd, &yd);
    build_binary(g, x, y, dims)
}

/// Normalizes the operand with the softmax function along one axis.
pub fn softmax_with_axis(g: &mut Graph, x: &Variable, axis: &Axis) -> (r: Function)
    requires
        old(g)@ < u64::MAX,
    ensures
        final(g)@ == old(g)@ + 1,
        unary_op_result(r@, old(g)@, x@, x@.dims, Seq::<char>::empty(), x@.needs_gradient),
{
    let _ = axis;
    build_unary(g, x, x.dims_vec(), String::new(), x.needs_gradient_flag())
}

/// Lets the first operand follow the second operand's dynamic axes;
/// its own shape stays.
pub fn broadcast_as(g: &mut Graph, x: &Variable, y: &Variable) -> (r: Function)
    requires
        old(g)@ < u64::MAX,
    ensures
        final(g)@ == old(g)@ + 1,
        binary_op_result(r@, old(g)@, x@, y@, x@.dims),
{
    build_binary(g, x, y, x.dims_vec())
}

/// Lets the first operand follow the second operand's sequence axis;
/// its own shape stays.
pub fn to_sequence_like(g: &mut Graph, x: &Variable, y: &Variable) -> (r: Function)
    requires
        old(g)@ < u64::MAX,
    ensures
        final(g)@ == old(g)@ + 1,
        binary_op_result(r@, old(g)@, x@, y@, x@.dims),
{
    build_binary(g, x, y, x.dims_vec())
}

/// A node of the operand's shape whose elements the engine draws
/// from a normal distribution each time it is evaluated.
pub fn normal_random_like<T: Copy>(g: &mut Graph, x: &Variable, mean: T, scale: T) -> (r:
    Function)
    requires
        old(g)@ < u64::MAX,
    ensures
        final(g)@ == old(g)@ + 1,
        unary_op_result(r@, old(g)@, x@, x@.dims, Seq::<char>::empty(), false),
{
    let _ = mean;
    let _ = scale;
    build_unary(g, x, x.dims_vec(), String::new(), false)
}

/// A node of the operand's shape whose elements the engine draws
/// from a Bernoulli distribution each time it is evaluated.
pub fn bernoulli_random_like<T: Copy>(g: &mut Graph, x: &Variable, mean: T) -> (r: Function)
    requires
        old(g)@ < u64::MAX,
    ensures
        final(g)@ == old(g)@ + 1,
        unary_op_result(r@, old(g)@, x@, x@.dims, Seq::<char>::empty(), false),
{
    let _ = mean;
    build_unary(g, x, x.dims_vec(), String::new(), false)
}

/// A node of the operand's shape whose elements the engine draws
/// from a uniform distribution each time it is evaluated.
pub fn uniform_random_like<T: Copy>(g: &mut Graph, x: &Variable, low: T, high: T) -> (r:
    Function)
    requires
        old(g)@ < u64::MAX,
    ensures
        final(g)@ == old(g)@ + 1,
        unary_op_result(r@, old(g)@, x@, x@.dims, Seq::<char>::empty(), false),
{
    let _ = low;
    let _ = high;
    build_unary(g, x, x.dims_vec(), String::new(), false)
}

/// A node of the operand's shape whose elements the engine draws
/// from a Gumbel distribution each time it is evaluated.
pub fn gumbel_random_like<T: Copy>(g: &mut Graph, x: &Variable, loc: T, scale: T) -> (r:
    Function)
    requires
        old(g)@ < u64::MAX,
    ensures
        final(g)@ == old(g)@ + 1,
        unary_op_result(r@, old(g)@, x@, x@.dims, Seq::<char>::empty(), false),
{
    let _ = loc;
    let _ = scale;
    build_unary(g, x, x.dims_vec(), String::new(), false)
}

/// The index a static axis descriptor names.
fn static_axis_index(axis: &Axis) -> (r: i32)
    requires
        *axis matches Axis::Static(_),
    ensures
        *axis == Axis::Static(r),
{
    match axis {
        Axis::Static(v) => *v,
        _ => unreached(),
    }
}

/// A dimension list with two positions exchanged.
pub open spec fn swapped_dims(dims: Seq<usize>, i: int, j: int) -> Seq<usize> {
    dims.update(i, dims[j]).update(j, dims[i])
}

/// Exchanges two static axes of the operand.
pub fn transpose_axes(g: &mut Graph, x: &Variable, axis1: &Axis, axis2: &Axis) -> (r: Function)
    requires
        old(g)@ < u64::MAX,
        *axis1 matches Axis::Static(a) && 0 <= a && (a as int) < x@.dims.len(),
        *axis2 matches Axis::Static(b) && 0 <= b && (b as int) < x@.dims.len(),
    ensures
        final(g)@ == old(g)@ + 1,
        *axis1 matches Axis::Static(a) ==> *axis2 matches Axis::Static(b) ==> unary_op_result(
            r@,
            old(g)@,
            x@,
            swapped_dims(x@.dims, a as int, b as int),
            Seq::<char>::empty(),
            x@.needs_gradient,
        ),
{
    let a = static_axis_index(axis1);
    let b = static_axis_index(axis2);
    let mut dims = x.dims_vec();
    let da = dims[a as usize];
    let db = dims[b as usize];
    dims.set(a as usize, db);
    dims.set(b as usize, da);
    assert(dims@ =~= swapped_dims(x@.dims, a as int, b as int));
    build_unary(g, x, dims, String::new(), x.needs_gradient_flag())
}

/// Builds one reduction along a static axis: the reduced axis keeps
/// one point, every other axis stays.
fn build_reduction(g: &mut Graph, x: &Variable, axis: &Axis) -> (r: Function)
    requires
        old(g)@ < u64::MAX,
        *axis matches Axis::Static(k) && 0 <= k && (k as int) < x@.dims.len(),
    ensures
        final(g)@ == old(g)@ + 1,
        *axis matches Axis::Static(k) ==> unary_op_result(
            r@,
            old(g)@,
            x@,
            x@.dims.update(k as int, 1),
            Seq::<char>::empty(),
            x@.needs_gradient,
        ),
{
    let k = static_axis_index(axis);
    let mut dims = x.dims_vec();
    dims.set(k as usize, 1);
    build_unary(g, x, dims, String::new(), x.needs_gradient_flag())
}

/// Sums the operand along one static axis.
pub fn reduce_sum(g: &mut Graph, x: &Variable, axis: &Axis) -> (r: Function)
    requires
        old(g)@ < u64::MAX,
        *axis matches Axis::Static(k) && 0 <= k && (k as int) < x@.dims.len(),
    ensures
        final(g)@ == old(g)@ + 1,
        *axis matches Axis::Static(k) ==> unary_op_result(r@, old(g)@, x@,
            x@.dims.update(k as int, 1), Seq::<char>::empty(), x@.needs_gradient),
{
    build_reduction(g, x, axis)
}

/// Sums the operand in log space along one static axis.
pub fn reduce_log_sum(g: &mut Graph, x: &Variable, axis: &Axis) -> (r: Function)
    requires
        old(g)@ < u64::MAX,
        *axis matches Axis::Static(k) && 0 <= k && (k as int) < x@.dims.len(),
    ensures
        final(g)@ == old(g)@ + 1,
        *axis matches Axis::Static(k) ==> unary_op_result(r@, old(g)@, x@,
            x@.dims.update(k as int, 1), Seq::<char>::empty(), x@.needs_gradient),
{
    build_reduction(g, x, axis)
}

/// Averages the operand along one static axis.
pub fn reduce_mean(g: &mut Graph, x: &Variable, axis: &Axis) -> (r: Function)
    requires
        old(g)@ < u64::MAX,
        *axis matches Axis::Static(k) && 0 <= k && (k as int) < x@.dims.len(),
    ensures
        final(g)@ == old(g)@ + 1,
        *axis matches Axis::Static(k) ==> unary_op_result(r@, old(g)@, x@,
            x@.dims.update(k as int, 1), Seq::<char>::empty(), x@.needs_gradient),
{
    build_reduction(g, x, axis)
}

/// Takes the largest element along one static axis.
pub fn reduce_max(g: &mut Graph, x: &Variable, axis: &Axis) -> (r: Function)
    requires
        old(g)@ < u64::MAX,
        *axis matches Axis::Static(k) && 0 <= k && (k as int) < x@.dims.len(),
    ensures
        final(g)@ == old(g)@ + 1,
        *axis matches Axis::Static(k) ==> unary_op_result(r@, old(g)@, x@,
            x@.dims.update(k as int, 1), Seq::<char>::empty(), x@.needs_gradient),
{
    build_reduction(g, x, axis)
}

/// Takes the smallest element along one static axis.
pub fn reduce_min(g: &mut Graph, x: &Variable, axis: &Axis) -> (r: Function)
    requires
        old(g)@ < u64::MAX,
        *axis matches Axis::Static(k) && 0 <= k && (k as int) < x@.dims.len(),
    ensures
        final(g)@ == old(g)@ + 1,
        *axis matches Axis::Static(k) ==> unary_op_result(r@, old(g)@, x@,
            x@.dims.update(k as int, 1), Seq::<char>::empty(), x@.needs_gradient),
{
    build_reduction(g, x, axis)
}

/// Multiplies the operand's elements along one static axis.
pub fn reduce_prod(g: &mut Graph, x: &Variable, axis: &Axis) -> (r: Function)
    requires
        old(g)@ < u64::MAX,
        *axis matches Axis::Static(k) && 0 <= k && (k as int) < x@.dims.len(),
    ensures
        final(g)@ == old(g)@ + 1,
        *axis matches Axis::Static(k) ==> unary_op_result(r@, old(g)@, x@,
            x@.dims.update(k as int, 1), Seq::<char>::empty(), x@.needs_gradient),
{
    build_reduction(g, x, axis)
}

/// Marks the position of the largest element along one static axis.
pub fn argmax(g: &mut Graph, x: &Variable, axis: &Axis) -> (r: Function)
    requires
        old(g)@ < u64::MAX,
        *axis matches Axis::Static(k) && 0 <= k && (k as int) < x@.dims.len(),
    ensures
        final(g)@ == old(g)@ + 1,
        *axis matches Axis::Static(k) ==> unary_op_result(r@, old(g)@, x@,
            x@.dims.update(k as int, 1), Seq::<char>::empty(), x@.needs_gradient),
{
    build_reduction(g, x, axis)
}

/// Marks the position of the smallest element along one static axis.
pub fn argmin(g: &mut Graph, x: &Variable, axis: &Axis) -> (r: Function)
    requires
        old(g)@ < u64::MAX,
        *axis matches Axis::Static(k) && 0 <= k && (k as int) < x@.dims.len(),
    ensures
        final(g)@ == old(g)@ + 1,
        *axis matches Axis::Static(k) ==> unary_op_result(r@, old(g)@, x@,
            x@.dims.update(k as int, 1), Seq::<char>::empty(), x@.needs_gradient),
{
    build_reduction(g, x, axis)
}

/// Whether any node in a run asks for a gradient.
pub open spec fn any_needs_gradient(s: Seq<VarData>) -> bool {
    exists|i: int| 0 <= i < s.len() && s[i].needs_gradient
}

/// Whether a run gains a node that asks for a gradient as it grows by
/// one.
proof fn lemma_any_needs_gradient_take(s: Seq<VarData>, n: int)
    requires
        0 <= n < s.len(),
    ensures
        any_needs_gradient(s.take(n + 1)) == (any_needs_gradient(s.take(n))
            || s[n].needs_gradient),
{
    if any_needs_gradient(s.take(n + 1)) {
        let w = choose|i: int| 0 <= i < n + 1 && (#[trigger] s.take(n + 1)[i]).needs_gradient;
        if w < n {
            assert(s.take(n)[w].needs_gradient);
        }
    }
    if any_needs_gradient(s.take(n)) {
        let w = choose|i: int| 0 <= i < n && (#[trigger] s.take(n)[i]).needs_gradient;
        assert(s.take(n + 1)[w].needs_gradient);
    }
    if s[n].needs_gradient {
        assert(s.take(n + 1)[n].needs_gradient);
    }
}

/// The sum of the dimensions along one axis over a run of nodes.
pub open spec fn spliced_sum(s: Seq<VarData>, k: int) -> int
    decreases s.len(),
{
    if s.len() == 0 {
        0
    } else {
        spliced_sum(s.drop_last(), k) + s.last().dims[k]
    }
}

/// With the axis in range everywhere, partial sums stay between zero
/// and the whole sum.
proof fn lemma_spliced_sum_take_le(s: Seq<VarData>, k: int, n: int)
    requires
        0 <= n <= s.len(),
        forall|i: int| 0 <= i < s.len() ==> 0 <= k < (#[trigger] s[i]).dims.len(),
    ensures
        0 <= spliced_sum(s.take(n), k),
        spliced_sum(s.take(n), k) <= spliced_sum(s, k),
    decreases s.len() - n,
{
    if n == s.len() {
        assert(s.take(n) =~= s);
        lemma_spliced_sum_nonneg(s, k);
    } else {
        lemma_spliced_sum_take_le(s, k, n + 1);
        assert(s.take(n + 1).drop_last() =~= s.take(n));
        assert(s.take(n + 1).last() == s[n]);
        assert(forall|i: int| 0 <= i < s.take(n).len() ==> 0 <= k < (#[trigger] s.take(
            n,
        )[i]).dims.len());
        lemma_spliced_sum_nonneg(s.take(n), k);
    }
}

/// With the axis in range everywhere, the sum is not negative.
proof fn lemma_spliced_sum_nonneg(s: Seq<VarData>, k: int)
    requires
        forall|i: int| 0 <= i < s.len() ==> 0 <= k < (#[trigger] s[i]).dims.len(),
    ensures
        0 <= spliced_sum(s, k),
    decreases s.len(),
{
    if s.len() > 0 {
        lemma_spliced_sum_nonneg(s.drop_last(), k);
    }
}

/// Concatenates the operands along one static axis: along that axis
/// the dimensions add up, along every other axis they must agree.
pub fn splice(g: &mut Graph, variables: &Vec<Variable>, axis: &Axis) -> (r: Function)
    requires
        old(g)@ < u64::MAX,
        variables@.len() >= 1,
        *axis matches Axis::Static(k) && 0 <= k && (k as int) < vars_view(
            variables@,
        )[0].dims.len(),
        forall|i: int| 0 <= i < variables@.len() ==> (#[trigger] vars_view(
            variables@,
        )[i]).dims.len() == vars_view(variables@)[0].dims.len(),
        *axis matches Axis::Static(k) ==> forall|i: int, d: int|
            0 <= i < variables@.len() && 0 <= d < vars_view(variables@)[0].dims.len() && d != (
            k as int) ==> (#[trigger] vars_view(variables@)[i].dims[d]) == vars_view(
                variables@,
            )[0].dims[d],
        *axis matches Axis::Static(k) ==> spliced_sum(vars_view(variables@), k as int)
            <= usize::MAX,
    ensures
        final(g)@ == old(g)@ + 1,
        r@.inputs == vars_view(variables@),
        r@.parameters == merge_all(Seq::<ParamData>::empty(), vars_view(variables@)),
        *axis matches Axis::Static(k) ==> r@.outputs == seq![op_output(
            old(g)@,
            vars_view(variables@)[0].dims.update(
                k as int,
                spliced_sum(vars_view(variables@), k as int) as usize,
            ),
            Seq::<char>::empty(),
            any_needs_gradient(vars_view(variables@)),
            r@.parameters,
        )],
{
    let ghost views = vars_view(variables@);
    let k = static_axis_index(axis);
    let ku = k as usize;
    proof {
        assert forall|i: int| 0 <= i < views.len()
            implies 0 <= (k as int) < (#[trigger] views[i]).dims.len() by {}
    }
    let mut total: usize = 0;
    let mut i: usize = 0;
    assert(views.take(0) =~= Seq::<VarData>::empty());
    while i < variables.len()
        invariant
            i <= variables.len(),
            views == vars_view(variables@),
            0 <= (k as int),
            ku as int == k as int,
            forall|j: int| 0 <= j < views.len()
                ==> 0 <= (k as int) < (#[trigger] views[j]).dims.len(),
            spliced_sum(views, k as int) <= usize::MAX,
            total == spliced_sum(views.take(i as int), k as int),
        decreases variables.len() - i,
    {
        proof {
            lemma_spliced_sum_take_le(views, k as int, i + 1);
            assert(views.take(i + 1).drop_last() =~= views.take(i as int));
            assert(views.take(i + 1).last() == views[i as int]);
            assert(views[i as int] == variables@[i as int]@);
        }
        let vd = variables[i].dims_vec();
        total = total + vd[ku];
        i = i + 1;
    }
    assert(views.take(views.len() as int) =~= views);
    let mut ng = false;
    let mut j: usize = 0;
    assert(!any_needs_gradient(views.take(0)));
    while j < variables.len()
        invariant
            j <= variables.len(),
            views == vars_view(variables@),
            ng == any_needs_gradient(views.take(j as int)),
        decreases variables.len() - j,
    {
        proof {
            lemma_any_needs_gradient_take(views, j as int);
        }
        ng = ng || variables[j].needs_gradient_flag();
        j = j + 1;
    }
    assert(views.take(views.len() as int) =~= views);
    let mut dims = variables[0].dims_vec();
    dims.set(ku, total);
    assert(dims@ =~= views[0].dims.update(k as int, spliced_sum(views, k as int) as usize));
    build_op(g, crate::variable::clone_variables(variables), dims, String::new(), ng)
}

/// An index into one axis, counted from the front when it is not
/// negative and from one past the end when it is.
pub open spec fn resolved_index(d: usize, b: i32) -> int {
    if b >= 0 {
        b as int
    } else {
        d + b
    }
}

/// Whether a pair of indices cuts a non-empty span out of one axis.
pub open spec fn valid_span(d: usize, b: i32, e: i32) -> bool {
    0 <= resolved_index(d, b) && resolved_index(d, b) < resolved_index(d, e)
        && resolved_index(d, e) <= d
}

/// Whether an axis descriptor names one static axis position.
pub open spec fn axis_selects(a: Axis, i: int) -> bool {
    a matches Axis::Static(k) && k as int == i
}

/// The shape left when spans are cut out of the listed axes: a listed
/// axis keeps its span's length, every other axis stays.
pub open spec fn sliced_dims(dims: Seq<usize>, axes: Seq<Axis>, bs: Seq<i32>, es: Seq<i32>) -> Seq<
    usize,
> {
    Seq::new(
        dims.len(),
        |i: int|
            if exists|j: int| 0 <= j < axes.len() && axis_selects(axes[j], i) {
                let j = choose|j: int| 0 <= j < axes.len() && axis_selects(axes[j], i);
                (resolved_index(dims[i], es[j]) - resolved_index(dims[i], bs[j])) as usize
            } else {
                dims[i]
            },
    )
}

/// Listing one more axis changes the shape at that axis alone.
proof fn lemma_sliced_dims_step(dims: Seq<usize>, axes: Seq<Axis>, bs: Seq<i32>, es: Seq<i32>,
    n: int, k: int)
    requires
        0 <= n < axes.len(),
        axes.len() == bs.len(),
        axes.len() == es.len(),
        axis_selects(axes[n], k),
        0 <= k < dims.len(),
        forall|j1: int, j2: int| 0 <= j1 < j2 < axes.len() ==> axes[j1] != axes[j2],
    ensures
        sliced_dims(dims, axes.take(n + 1), bs.take(n + 1), es.take(n + 1)) =~= sliced_dims(
            dims,
            axes.take(n),
            bs.take(n),
            es.take(n),
        ).update(
            k,
            (resolved_index(dims[k], es[n]) - resolved_index(dims[k], bs[n])) as usize,
        ),
{
    let long = sliced_dims(dims, axes.take(n + 1), bs.take(n + 1), es.take(n + 1));
    let short = sliced_dims(dims, axes.take(n), bs.take(n), es.take(n));
    assert forall|i: int| 0 <= i < dims.len() implies long[i] == short.update(
        k,
        (resolved_index(dims[k], es[n]) - resolved_index(dims[k], bs[n])) as usize,
    )[i] by {
        if i == k {
            assert(axis_selects(axes.take(n + 1)[n], i));
            let j = choose|j: int| 0 <= j < n + 1 && #[trigger] axis_selects(axes.take(n + 1)[j], i);
            assert(axes[j] matches Axis::Static(kj) && kj as int == i);
            assert(axes[n] matches Axis::Static(kn) && kn as int == i);
            assert(axes[j] == axes[n]);
            assert(j == n);
        } else {
            if exists|j: int| 0 <= j < n + 1 && #[trigger] axis_selects(axes.take(n + 1)[j], i) {
                let j = choose|j: int| 0 <= j < n + 1 && #[trigger] axis_selects(axes.take(n + 1)[j], i);
                assert(j != n);
                assert(axis_selects(axes.take(n)[j], i));
                let j2 = choose|j2: int| 0 <= j2 < n && #[trigger] axis_selects(axes.take(n)[j2], i);
                assert(axes[j] == axes[j2]);
                assert(j == j2);
            } else {
                if exists|j2: int| 0 <= j2 < n && #[trigger] axis_selects(axes.take(n)[j2], i) {
                    let j2 = choose|j2: int| 0 <= j2 < n && #[trigger] axis_selects(axes.take(n)[j2], i);
                    assert(axis_selects(axes.take(n + 1)[j2], i));
                }
            }
        }
    }
}

/// Cuts a span out of each listed static axis of the operand: along a
/// listed axis only the points from the begin index up to, and not
/// including, the end index remain, a negative index counting from
/// one past the end of the axis.
pub fn slice(g: &mut Graph, x: &Variable, axis: &Vec<Axis>, begin_index: &Vec<i32>,
    end_index: &Vec<i32>) -> (r: Function)
    requires
        old(g)@ < u64::MAX,
        axis@.len() == begin_index@.len(),
        axis@.len() == end_index@.len(),
        forall|j: int| 0 <= j < axis@.len() ==> ((#[trigger] axis@[j]) matches Axis::Static(kj)
            && 0 <= kj && (kj as int) < x@.dims.len()),
        forall|j1: int, j2: int| 0 <= j1 < j2 < axis@.len() ==> axis@[j1] != axis@[j2],
        forall|j: int| 0 <= j < axis@.len() ==> ((#[trigger] axis@[j]) matches Axis::Static(kj)
            ==> valid_span(x@.dims[kj as int], begin_index@[j], end_index@[j])),
    ensures
        final(g)@ == old(g)@ + 1,
        unary_op_result(r@, old(g)@, x@, sliced_dims(x@.dims, axis@, begin_index@, end_index@),
            Seq::<char>::empty(), x@.needs_gradient),
{
    let ghost xdims = x@.dims;
    let mut dims = x.dims_vec();
    let mut j: usize = 0;
    proof {
        let empty_sliced = sliced_dims(xdims, axis@.take(0), begin_index@.take(0),
            end_index@.take(0));
        assert forall|i: int| 0 <= i < xdims.len() implies empty_sliced[i] == xdims[i] by {
            if exists|j: int| 0 <= j < axis@.take(0).len() && #[trigger] axis_selects(
                axis@.take(0)[j],
                i,
            ) {
                let j = choose|j: int| 0 <= j < axis@.take(0).len() && #[trigger] axis_selects(
                    axis@.take(0)[j],
                    i,
                );
                assert(false);
            }
        }
        assert(empty_sliced =~= xdims);
    }
    while j < axis.len()
        invariant
            j <= axis.len(),
            xdims == x@.dims,
            axis@.len() == begin_index@.len(),
            axis@.len() == end_index@.len(),
            forall|jj: int| 0 <= jj < axis@.len() ==> ((#[trigger] axis@[jj]) matches Axis::Static(
                kj,
            ) && 0 <= kj && (kj as int) < xdims.len()),
            forall|j1: int, j2: int| 0 <= j1 < j2 < axis@.len() ==> axis@[j1] != axis@[j2],
            forall|jj: int| 0 <= jj < axis@.len() ==> ((#[trigger] axis@[jj]) matches Axis::Static(
                kj,
            ) ==> valid_span(xdims[kj as int], begin_index@[jj], end_index@[jj])),
            dims@ == sliced_dims(xdims, axis@.take(j as int), begin_index@.take(j as int),
                end_index@.take(j as int)),
        decreases axis.len() - j,
    {
        let k = static_axis_index(&axis[j]);
        let ku = k as usize;
        let ghost short = dims@;
        proof {
            assert(axis_selects(axis@[j as int], k as int));
            lemma_sliced_dims_step(xdims, axis@, begin_index@, end_index@, j as int, k as int);
            // the position about to change still holds the operand's
            // dimension: no earlier listed axis selects it
            if exists|jj: int| 0 <= jj < j && #[trigger] axis_selects(
                axis@.take(j as int)[jj],
                k as int,
            ) {
                let jj = choose|jj: int| 0 <= jj < j && #[trigger] axis_selects(
                    axis@.take(j as int)[jj],
                    k as int,
                );
                assert(axis@[jj] == axis@[j as int]);
                assert(false);
            }
            assert(short[k as int] == xdims[k as int]);
        }
        let d = dims[ku];
        let b = begin_index[j];
        let e = end_index[j];
        let rb: usize = if b >= 0 {
            b as usize
        } else {
            d - ((-(b as i64)) as usize)
        };
        let re: usize = if e >= 0 {
            e as usize
        } else {
            d - ((-(e as i64)) as usize)
        };
        proof {
            assert(valid_span(xdims[k as int], b, e));
            assert(rb == resolved_index(xdims[k as int], b));
            assert(re == resolved_index(xdims[k as int], e));
        }
        dims.set(ku, re - rb);
        proof {
            assert(dims@ =~= sliced_dims(xdims, axis@.take(j + 1), begin_index@.take(j + 1),
                end_index@.take(j + 1)));
        }
        j = j + 1;
    }
    proof {
        assert(axis@.take(axis@.len() as int) =~= axis@);
        assert(begin_index@.take(begin_index@.len() as int) =~= begin_index@);
        assert(end_index@.take(end_index@.len() as int) =~= end_index@);
    }
    build_unary(g, x, dims, String::new(), x.needs_gradient_flag())
}

/// The contraction shape: one leading dimension, then all but the
/// first axis of the contracted operand.
fn contracted_dims(head: usize, yd: &Vec<usize>) -> (r: Vec<usize>)
    requires
        yd@.len() >= 1,
    ensures
        r@ == seq![head] + yd@.skip(1),
{
    let mut dims: Vec<usize> = Vec::new();
    dims.push(head);
    let mut i: usize = 1;
    while i < yd.len()
        invariant
            1 <= i <= yd.len(),
            dims@ == seq![head] + yd@.skip(1).take(i - 1),
        decreases yd.len() - i,
    {
        dims.push(yd[i]);
        assert(dims@ =~= seq![head] + yd@.skip(1).take(i as int));
        i = i + 1;
    }
    assert(dims@ =~= seq![head] + yd@.skip(1));
    dims
}

/// The broadcast of two compatible shapes.
fn broadcast_vec(a: &Vec<usize>, b: &Vec<usize>) -> (r: Vec<usize>)
    requires
        broadcast_compatible(a@, b@),
    ensures
        r@ == broadcast_dims(a@, b@),
{
    let n: usize = if a.len() >= b.len() { a.len() } else { b.len() };
    let mut r: Vec<usize> = Vec::new();
    let mut i: usize = 0;
    while i < n
        invariant
            i <= n,
            n == broadcast_dims(a@, b@).len(),
            r@.len() == i,
            forall|j: int| 0 <= j < i ==> r@[j] == broadcast_dims(a@, b@)[j],
        decreases n - i,
    {
        let d: usize = if i >= a.len() {
            b[i]
        } else if i >= b.len() {
            a[i]
        } else if a[i] == 1 {
            b[i]
        } else {
            a[i]
        };
        r.push(d);
        i = i + 1;
    }
    assert(r@ =~= broadcast_dims(a@, b@));
    r
}

} // verus!
