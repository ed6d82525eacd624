//! Tensor shape descriptors.
//!
//! A [`Shape`] is the host-side record of a tensor's dimensions.  Its
//! view is the sequence of dimensions; every method is specified
//! against that sequence.

use vstd::prelude::*;

verus! {

/// The product of a sequence of dimensions; the number of elements a
/// tensor of this shape holds.
pub open spec fn dim_product(dims: Seq<usize>) -> int
    decreases dims.len(),
{
    if dims.len() == 0 {
        1
    } else {
        dim_product(dims.drop_last()) * dims.last()
    }
}

/// The product of a concatenation is the product of the products.
pub proof fn lemma_dim_product_append(a: Seq<usize>, b: Seq<usize>)
    ensures
        dim_product(a + b) == dim_product(a) * dim_product(b),
    decreases b.len(),
{
    if b.len() == 0 {
        assert(a + b =~= a);
    } else {
        lemma_dim_product_append(a, b.drop_last());
        assert((a + b).drop_last() =~= a + b.drop_last());
        assert((a + b).last() == b.last());
        assert((dim_product(a) * dim_product(b.drop_last())) * b.last()
            == dim_product(a) * (dim_product(b.drop_last()) * b.last())) by (nonlinear_arith);
    }
}

/// A dimension equal to zero forces the whole product to zero.
proof fn lemma_dim_product_zero(dims: Seq<usize>, i: int)
    requires
        0 <= i < dims.len(),
        dims[i] == 0,
    ensures
        dim_product(dims) == 0,
    decreases dims.len(),
{
    if i == dims.len() - 1 {
        assert(dim_product(dims.drop_last()) * 0 == 0) by (nonlinear_arith);
    } else {
        lemma_dim_product_zero(dims.drop_last(), i);
        assert(0 * dims.last() == 0) by (nonlinear_arith);
    }
}

/// With every dimension positive, the product is positive.
proof fn lemma_dim_product_pos(dims: Seq<usize>)
    requires
        forall|i: int| 0 <= i < dims.len() ==> dims[i] >= 1,
    ensures
        dim_product(dims) >= 1,
    decreases dims.len(),
{
    if dims.len() > 0 {
        lemma_dim_product_pos(dims.drop_last());
        assert(dim_product(dims.drop_last()) * dims.last() >= 1) by (nonlinear_arith)
            requires
                dim_product(dims.drop_last()) >= 1,
                dims.last() >= 1,
        ;
    }
}

/// With every dimension positive, the product of a prefix never
/// exceeds the product of the whole sequence.
proof fn lemma_dim_product_prefix_le(dims: Seq<usize>, n: int)
    requires
        0 <= n <= dims.len(),
        forall|i: int| 0 <= i < dims.len() ==> dims[i] >= 1,
    ensures
        1 <= dim_product(dims.take(n)),
        dim_product(dims.take(n)) <= dim_product(dims),
{
    let pre = dims.take(n);
    let post = dims.skip(n);
    assert(pre + post =~= dims);
    lemma_dim_product_append(pre, post);
    assert(forall|i: int| 0 <= i < pre.len() ==> pre[i] >= 1);
    assert(forall|i: int| 0 <= i < post.len() ==> post[i] >= 1);
    lemma_dim_product_pos(pre);
    lemma_dim_product_pos(post);
    assert(dim_product(pre) <= dim_product(pre) * dim_product(post)) by (nonlinear_arith)
        requires
            dim_product(pre) >= 1,
            dim_product(post) >= 1,
    ;
}

/// Whether one dimension list ends with another: the check a buffer's
/// own dimensions must pass against the dimensions a tensor shape
/// expects.
pub fn dims_suffix_matches(expected: &Vec<usize>, data_shape: &Vec<usize>) -> (r: bool)
    ensures
        r == (data_shape@.len() >= expected@.len() && data_shape@.skip(
            data_shape@.len() - expected@.len(),
        ) == expected@),
{
    if data_shape.len() < expected.len() {
        return false;
    }
    let offset: usize = data_shape.len() - expected.len();
    let ghost tail = data_shape@.skip(offset as int);
    let mut i: usize = 0;
    while i < expected.len()
        invariant
            i <= expected.len(),
            offset + expected@.len() == data_shape@.len(),
            data_shape@.len() <= usize::MAX,
            tail == data_shape@.skip(offset as int),
            forall|j: int| 0 <= j < i ==> tail[j] == expected@[j],
        decreases expected.len() - i,
    {
        if data_shape[offset + i] != expected[i] {
            assert(tail[i as int] != expected@[i as int]);
            assert(tail != expected@);
            return false;
        }
        i = i + 1;
    }
    assert(tail =~= expected@);
    true
}

/// Copies a dimension list.
pub(crate) fn copy_dims(v: &Vec<usize>) -> (r: Vec<usize>)
    ensures
        r@ == v@,
{
    let mut r: Vec<usize> = Vec::new();
    let mut i: usize = 0;
    while i < v.len()
        invariant
            i <= v.len(),
            r@ == v@.take(i as int),
        decreases v.len() - i,
    {
        r.push(v[i]);
        assert(r@ =~= v@.take(i + 1));
        i = i + 1;
    }
    assert(r@ =~= v@);
    r
}

/// A tensor shape: the dimensions of one sample, fastest-varying
/// dimension first.
pub struct Shape {
    dims: Vec<usize>,
}

impl View for Shape {
    type V = Seq<usize>;

    closed spec fn view(&self) -> Seq<usize> {
        self.dims@
    }
}

impl Clone for Shape {
    /// A clone carries the same dimensions.
    fn clone(&self) -> (r: Self)
        ensures
            r@ == self@,
    {
        Shape { dims: copy_dims(&self.dims) }
    }
}

impl Shape {
    /// The rank-zero shape of a scalar.
    pub fn scalar() -> (r: Shape)
        ensures
            r@ == Seq::<usize>::empty(),
    {
        Shape { dims: Vec::new() }
    }

    /// A shape with the given dimensions.
    pub fn new(data: Vec<usize>) -> (r: Shape)
        ensures
            r@ == data@,
    {
        Shape { dims: data }
    }

    /// The number of axes.
    pub fn rank(&self) -> (r: usize)
        ensures
            r == self@.len(),
    {
        self.dims.len()
    }

    /// The dimension along one axis.
    pub fn get(&self, axis: usize) -> (r: usize)
        requires
            axis < self@.len(),
        ensures
            r == self@[axis as int],
    {
        self.dims[axis]
    }

    /// The number of elements a tensor of this shape holds: the
    /// product of all dimensions.
    pub fn total_size(&self) -> (r: usize)
        requires
            dim_product(self@) <= usize::MAX,
        ensures
            r == dim_product(self@),
    {
        // A zero dimension short-circuits the product, so that the
        // bound on the final product is enough to rule out overflow.
        let mut i: usize = 0;
        while i < self.dims.len()
            invariant
                i <= self.dims.len(),
                forall|j: int| 0 <= j < i ==> self.dims@[j] >= 1,
            decreases self.dims.len() - i,
        {
            if self.dims[i] == 0 {
                proof {
                    lemma_dim_product_zero(self@, i as int);
                }
                return 0;
            }
            i = i + 1;
        }
        let mut acc: usize = 1;
        let mut k: usize = 0;
        assert(self@.take(0) =~= Seq::<usize>::empty());
        while k < self.dims.len()
            invariant
                k <= self.dims.len(),
                acc == dim_product(self@.take(k as int)),
                dim_product(self@) <= usize::MAX,
                forall|j: int| 0 <= j < self.dims@.len() ==> self.dims@[j] >= 1,
            decreases self.dims.len() - k,
        {
            proof {
                lemma_dim_product_prefix_le(self@, k + 1);
                assert(self@.take(k + 1).drop_last() =~= self@.take(k as int));
                assert(self@.take(k + 1).last() == self@[k as int]);
            }
            acc = acc * self.dims[k];
            k = k + 1;
        }
        assert(self@.take(self.dims@.len() as int) =~= self@);
        acc
    }

    /// This shape with another shape's axes appended after its own.
    pub fn append_shape(&self, shape: &Shape) -> (r: Shape)
        ensures
            r@ == self@ + shape@,
    {
        let mut dims = self.clone().dims;
        let mut i: usize = 0;
        while i < shape.dims.len()
            invariant
                i <= shape.dims.len(),
                dims@ == self.dims@ + shape.dims@.take(i as int),
            decreases shape.dims.len() - i,
        {
            dims.push(shape.dims[i]);
            assert(dims@ =~= self.dims@ + shape.dims@.take(i + 1));
            i = i + 1;
        }
        assert(dims@ =~= self.dims@ + shape.dims@);
        Shape { dims }
    }

    /// The dimensions, first axis first.
    pub fn to_vec(&self) -> (r: Vec<usize>)
        ensures
            r@ == self@,
    {
        let mut ret: Vec<usize> = Vec::new();
        let mut i: usize = 0;
        while i < self.dims.len()
            invariant
                i <= self.dims.len(),
                ret@ == self.dims@.take(i as int),
            decreases self.dims.len() - i,
        {
            ret.push(self.dims[i]);
            assert(ret@ =~= self.dims@.take(i + 1));
            i = i + 1;
        }
        assert(ret@ =~= self.dims@);
        ret
    }

    /// The dimensions, last axis first.
    pub fn to_vec_reversed(&self) -> (r: Vec<usize>)
        ensures
            r@.len() == self@.len(),
            forall|i: int| 0 <= i < self@.len() ==> r@[i] == self@[self@.len() - 1 - i],
    {
        let mut ret: Vec<usize> = Vec::new();
        let mut i: usize = self.dims.len();
        while i > 0
            invariant
                i <= self.dims.len(),
                ret@.len() == self.dims@.len() - i,
                forall|j: int| 0 <= j < ret@.len()
                    ==> ret@[j] == self.dims@[self.dims@.len() - 1 - j],
            decreases i,
        {
            i = i - 1;
            ret.push(self.dims[i]);
        }
        ret
    }
}

} // verus!
