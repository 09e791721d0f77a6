//! Flat space: every vector of the right length is a point, and every tangent space is the
//! space itself.
use vstd::prelude::*;
use vstd::slice::slice_to_vec;
use crate::error::{verdict, ManifoldError, ManifoldErrorView};
use crate::scalar::Scalar;
use crate::tangent::TangentVector;

verus! {

pub struct Euclidean {
    pub dimension: usize,
}

impl Euclidean {
    /// The verdict on a candidate point of `len` coordinates.
    pub open spec fn point_verdict(&self, len: nat) -> Result<(), ManifoldErrorView> {
        if len != self.dimension {
            Err(ManifoldErrorView::DimensionMismatch { expected: self.dimension as nat, got: len })
        } else {
            Ok(())
        }
    }

    /// The verdict on a candidate tangent vector of `tangent_len` coordinates at a candidate
    /// point of `len` coordinates: the point is judged first.
    pub open spec fn tangent_verdict(&self, len: nat, tangent_len: nat) -> Result<
        (),
        ManifoldErrorView,
    > {
        if len != self.dimension {
            Err(ManifoldErrorView::DimensionMismatch { expected: self.dimension as nat, got: len })
        } else if tangent_len != self.dimension {
            Err(
                ManifoldErrorView::DimensionMismatch {
                    expected: self.dimension as nat,
                    got: tangent_len,
                },
            )
        } else {
            Ok(())
        }
    }

    pub fn new(dimension: usize) -> (e: Self)
        ensures
            e.dimension == dimension,
    {
        Euclidean { dimension }
    }

    /// The intrinsic dimension, which is also the number of coordinates of a point.
    pub fn dim(&self) -> (n: usize)
        ensures
            n == self.dimension,
    {
        self.dimension
    }

    /// A point is valid when it has `dimension` coordinates; their values are not looked at.
    pub fn check_point(&self, point: &[Scalar]) -> (r: Result<(), ManifoldError>)
        ensures
            verdict(r) == self.point_verdict(point@.len()),
    {
        if point.len() != self.dimension {
            return Err(ManifoldError::dimension_mismatch(self.dimension, point.len()));
        }
        Ok(())
    }

    /// A tangent vector is valid at a valid point when it has `dimension` coordinates.
    pub fn check_tangent_vector(&self, point: &[Scalar], tangent: &TangentVector) -> (r: Result<
        (),
        ManifoldError,
    >)
        ensures
            verdict(r) == self.tangent_verdict(point@.len(), tangent@.len()),
    {
        self.check_point(point)?;
        if tangent.dim() != self.dimension {
            return Err(ManifoldError::dimension_mismatch(self.dimension, tangent.dim()));
        }
        Ok(())
    }

    /// Every vector is its own nearest point: the coordinates are returned as they are.
    pub fn project_to_manifold(&self, point: &[Scalar]) -> (r: Result<Vec<Scalar>, ManifoldError>)
        ensures
            r matches Ok(projected) && projected@ == point@,
    {
        Ok(slice_to_vec(point))
    }

    /// Every vector is tangent: the vector is returned as it is.
    pub fn project_to_tangent_space(&self, point: &[Scalar], vector: &TangentVector) -> (r: Result<
        TangentVector,
        ManifoldError,
    >)
        ensures
            r matches Ok(projected) && projected@ == vector@,
    {
        Ok(vector.clone())
    }
}

} // verus!
