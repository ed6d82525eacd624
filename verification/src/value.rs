//! Tensor-value handles.
//!
//! A [`Value`] carries one tensor the host hands to, or reads back
//! from, an evaluation: a buffer of scalars together with the full
//! shape the engine sees, dynamic axes included.  The scalar type is a
//! parameter: the binding moves buffers across without interpreting
//! their elements.
//!
//! A batch of samples occupies the two dynamic axes as one step of
//! `n` sequences, a single sequence as `n` steps of one sequence.

use vstd::prelude::*;

use crate::device::DeviceDescriptor;
use crate::shape::Shape;
use crate::shape::copy_dims;
use crate::shape::dim_product;

verus! {

/// The mathematical content of a tensor value: its full shape and its
/// elements.
pub ghost struct ValData<T> {
    pub dims: Seq<usize>,
    pub data: Seq<T>,
}

/// A positive multiple of a positive number is at least that number.
proof fn lemma_multiple_bounds(len: int, total: int)
    requires
        total >= 1,
        len >= 1,
        len % total == 0,
    ensures
        total <= len,
{
    if len < total {
        assert(len % total == len) by (nonlinear_arith)
            requires
                0 <= len < total,
        ;
    }
}

/// Copies a scalar buffer.
pub(crate) fn copy_buffer<T: Copy>(v: &Vec<T>) -> (r: Vec<T>)
    ensures
        r@ == v@,
{
    let mut r: Vec<T> = Vec::new();
    let mut i: usize = 0;
    while i < v.len()
        invariant
            i <= v.len(),
            r@ == v@.take(i as int),
        decreases v.len() - i,
    {
        r.push(v[i]);
        assert(r@ =~= v@.take(i + 1));
        i = i + 1;
    }
    assert(r@ =~= v@);
    r
}

/// One tensor crossing the evaluation boundary.
pub struct Value<T> {
    dims: Vec<usize>,
    data: Vec<T>,
}

impl<T> View for Value<T> {
    type V = ValData<T>;

    closed spec fn view(&self) -> ValData<T> {
        ValData { dims: self.dims@, data: self.data@ }
    }
}

impl<T: Copy> Clone for Value<T> {
    /// A clone carries the same tensor.
    fn clone(&self) -> (r: Self)
        ensures
            r@ == self@,
    {
        Value { dims: copy_dims(&self.dims), data: copy_buffer(&self.data) }
    }
}

impl<T: Copy> Value<T> {
    /// A minibatch of samples of the given shape, one sample after
    /// another in the buffer.  The buffer length must be a positive
    /// multiple of the sample size; the batch size is the quotient.
    pub fn batch_from_vec(shape: &Shape, data: &Vec<T>, device: DeviceDescriptor) -> (r: Value<T>)
        requires
            dim_product(shape@) >= 1,
            data@.len() >= 1,
            (data@.len() as int) % dim_product(shape@) == 0,
        ensures
            r@.dims == shape@.push(1).push(((data@.len() as int) / dim_product(shape@)) as usize),
            r@.data == data@,
    {
        let _ = device;
        proof {
            assert(data.len() <= usize::MAX);
            lemma_multiple_bounds(data@.len() as int, dim_product(shape@));
        }
        let total = shape.total_size();
        let n: usize = data.len() / total;
        let mut dims = shape.to_vec();
        dims.push(1);
        dims.push(n);
        Value { dims, data: copy_buffer(data) }
    }

    /// One sequence of samples of the given shape, one step after
    /// another in the buffer.  The buffer length must be a positive
    /// multiple of the sample size; the sequence length is the
    /// quotient.
    pub fn sequence_from_vec(shape: &Shape, data: &Vec<T>, device: DeviceDescriptor) -> (r: Value<
        T,
    >)
        requires
            dim_product(shape@) >= 1,
            data@.len() >= 1,
            (data@.len() as int) % dim_product(shape@) == 0,
        ensures
            r@.dims == shape@.push(((data@.len() as int) / dim_product(shape@)) as usize).push(1),
            r@.data == data@,
    {
        let _ = device;
        proof {
            assert(data.len() <= usize::MAX);
            lemma_multiple_bounds(data@.len() as int, dim_product(shape@));
        }
        let total = shape.total_size();
        let len: usize = data.len() / total;
        let mut dims = shape.to_vec();
        dims.push(len);
        dims.push(1);
        Value { dims, data: copy_buffer(data) }
    }

    /// A single tensor of exactly the given shape, with no dynamic
    /// axes.  The buffer must hold one element per point of the shape.
    pub fn from_vec(shape: &Shape, data: &Vec<T>, device: DeviceDescriptor) -> (r: Value<T>)
        requires
            dim_product(shape@) <= usize::MAX,
            dim_product(shape@) == data@.len(),
        ensures
            r@.dims == shape@,
            r@.data == data@,
    {
        let _ = device;
        Value { dims: shape.to_vec(), data: copy_buffer(data) }
    }

    /// The elements of this tensor, in buffer order.
    pub fn to_vec(&self) -> (r: Vec<T>)
        ensures
            r@ == self@.data,
    {
        copy_buffer(&self.data)
    }

    /// The full shape of this tensor, dynamic axes included.
    pub fn shape(&self) -> (r: Shape)
        ensures
            r@ == self@.dims,
    {
        Shape::new(copy_dims(&self.dims))
    }
}

} // verus!
