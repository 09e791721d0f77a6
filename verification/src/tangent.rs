//! Tangent vectors: the coordinates of an element of the linear space attached at a point.
use vstd::prelude::*;
use vstd::slice::slice_to_vec;
use crate::scalar::Scalar;

verus! {

/// A tangent vector, as its coordinates in the ambient representation of its manifold.
///
/// The base point is not stored: whoever holds the vector knows where it is attached.
#[derive(Debug)]
pub struct TangentVector {
    pub components: Vec<Scalar>,
}

impl View for TangentVector {
    type V = Seq<Scalar>;

    open spec fn view(&self) -> Seq<Scalar> {
        self.components@
    }
}

/// The sequence of `len` positive zeros.
pub open spec fn zeros(len: nat) -> Seq<Scalar> {
    Seq::new(len, |i: int| Scalar { bits: 0 })
}

impl TangentVector {
    pub fn new(components: Vec<Scalar>) -> (v: Self)
        ensures
            v@ == components@,
    {
        TangentVector { components }
    }

    /// The number of coordinates.
    pub fn dim(&self) -> (n: usize)
        ensures
            n == self@.len(),
    {
        self.components.len()
    }

    /// The vector of `dim` coordinates that are all positive zero.
    pub fn zero(dim: usize) -> (v: Self)
        ensures
            v@ == zeros(dim as nat),
    {
        let mut components: Vec<Scalar> = Vec::new();
        let mut i: usize = 0;
        while i < dim
            invariant
                i <= dim,
                components@ == zeros(i as nat),
            decreases dim - i,
        {
            components.push(Scalar::zero());
            i = i + 1;
            assert(components@ =~= zeros(i as nat));
        }
        TangentVector { components }
    }
}

impl Clone for TangentVector {
    fn clone(&self) -> (v: Self)
        ensures
            v@ == self@,
    {
        TangentVector { components: slice_to_vec(self.components.as_slice()) }
    }
}

} // verus!
