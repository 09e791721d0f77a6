//! Riemannian metrics: the bilinear form that measures tangent vectors at a point.
use vstd::prelude::*;
use crate::error::ManifoldError;
use crate::matrix::{identity, is_identity};
use crate::scalar::Scalar;

verus! {

/// The metric of flat space: at every point the identity tensor.
pub struct EuclideanMetric;

impl EuclideanMetric {
    /// The metric tensor at `point`, flattened row by row: the identity matrix whose size is the
    /// number of coordinates of the point.
    pub fn metric_tensor(&self, point: &[Scalar]) -> (r: Result<Vec<Scalar>, ManifoldError>)
        requires
            point@.len() * point@.len() <= usize::MAX,
        ensures
            r matches Ok(tensor) && is_identity(tensor@, point@.len() as int),
    {
        Ok(identity(point.len()))
    }
}

} // verus!
