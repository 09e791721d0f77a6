//! The unit sphere of intrinsic dimension `n`, embedded in `n + 1` coordinates.
//!
//! A point is a vector of unit length, a tangent vector at it is orthogonal to it, both within
//! the tolerance `1e-10`. The sums, roots and trigonometric functions are evaluated by the
//! caller; what they mean for the operation at hand is decided here.
use vstd::prelude::*;
use vstd::slice::slice_to_vec;
use vstd::arithmetic::power2::pow2;
use crate::error::{verdict, ManifoldError, ManifoldErrorView};
use crate::numeric::{clamped_is_between, units_are_exact};
use crate::scalar::{Scalar, MINUS_ONE_BITS, ONE_BITS, TOLERANCE_BITS};
use crate::tangent::{zeros, TangentVector};

verus! {

pub const NOT_UNIT_NORM: &'static str = "Point norm is not 1.0";

pub const NOT_ORTHOGONAL: &'static str = "Tangent vector not orthogonal to point";

pub const ZERO_VECTOR: &'static str = "Cannot project zero vector to sphere";

pub const ANTIPODAL: &'static str = "Points are antipodal, logarithm map is not unique";

/// What is left to do once an operation has been decided.
#[derive(Debug)]
pub enum Step<T> {
    /// The result is known without further arithmetic.
    Settled(T),
    /// The inputs are regular: the caller evaluates the closed formula of the operation.
    Evaluate,
}

pub struct Sphere {
    pub dimension: usize,
}

impl Sphere {
    /// The sphere has an embedding dimension that a `usize` can hold.
    pub open spec fn well_formed(&self) -> bool {
        self.dimension < usize::MAX
    }

    /// The verdict on a candidate point of `len` coordinates whose squared norm, less one, was
    /// evaluated as `norm_excess`.
    pub open spec fn point_verdict(&self, len: nat, norm_excess: Scalar) -> Result<
        (),
        ManifoldErrorView,
    > {
        if len != self.dimension + 1 {
            Err(
                ManifoldErrorView::DimensionMismatch {
                    expected: (self.dimension + 1) as nat,
                    got: len,
                },
            )
        } else if norm_excess.beyond(Scalar { bits: TOLERANCE_BITS }) {
            Err(ManifoldErrorView::PointNotOnManifold { reason: NOT_UNIT_NORM@ })
        } else {
            Ok(())
        }
    }

    /// The verdict on a vector of `vector_len` coordinates that is to be projected onto the
    /// tangent space at a point: the point must be valid and the shapes must agree.
    pub open spec fn ambient_verdict(&self, len: nat, norm_excess: Scalar, vector_len: nat) -> Result<
        (),
        ManifoldErrorView,
    > {
        if self.point_verdict(len, norm_excess) is Err {
            self.point_verdict(len, norm_excess)
        } else if vector_len != self.dimension + 1 {
            Err(
                ManifoldErrorView::DimensionMismatch {
                    expected: (self.dimension + 1) as nat,
                    got: vector_len,
                },
            )
        } else {
            Ok(())
        }
    }

    /// The verdict on a candidate tangent vector of `tangent_len` coordinates whose dot product
    /// with the point was evaluated as `dot`.
    pub open spec fn tangent_verdict(
        &self,
        len: nat,
        norm_excess: Scalar,
        tangent_len: nat,
        dot: Scalar,
    ) -> Result<(), ManifoldErrorView> {
        if self.ambient_verdict(len, norm_excess, tangent_len) is Err {
            self.ambient_verdict(len, norm_excess, tangent_len)
        } else if dot.beyond(Scalar { bits: TOLERANCE_BITS }) {
            Err(ManifoldErrorView::InvalidTangentVector { reason: NOT_ORTHOGONAL@ })
        } else {
            Ok(())
        }
    }

    /// What the exponential map does at `point` along a tangent of length `tangent_norm`: a
    /// tangent shorter than the tolerance moves nowhere, any other follows the great circle.
    pub open spec fn exp_outcome(
        &self,
        point: Seq<Scalar>,
        norm_excess: Scalar,
        tangent_len: nat,
        dot: Scalar,
        tangent_norm: Scalar,
    ) -> Result<Step<Seq<Scalar>>, ManifoldErrorView> {
        match self.tangent_verdict(point.len(), norm_excess, tangent_len, dot) {
            Err(e) => Err(e),
            Ok(_) => if tangent_norm.below(Scalar { bits: TOLERANCE_BITS }) {
                Ok(Step::Settled(point))
            } else {
                Ok(Step::Evaluate)
            },
        }
    }

    /// What the logarithm map does between two points that enclose the angle `theta`, whose sine
    /// was evaluated as `sin_theta`: coinciding points give the zero vector, antipodal points
    /// have no logarithm, any other pair follows the chord formula.
    pub open spec fn log_outcome(
        &self,
        len: nat,
        norm_excess: Scalar,
        other_len: nat,
        other_excess: Scalar,
        theta: Scalar,
        sin_theta: Scalar,
    ) -> Result<Step<Seq<Scalar>>, ManifoldErrorView> {
        if let Err(e) = self.point_verdict(len, norm_excess) {
            Err(e)
        } else if let Err(e) = self.point_verdict(other_len, other_excess) {
            Err(e)
        } else if theta.within(Scalar { bits: TOLERANCE_BITS }) {
            Ok(Step::Settled(zeros((self.dimension + 1) as nat)))
        } else if sin_theta.within(Scalar { bits: TOLERANCE_BITS }) {
            Err(ManifoldErrorView::NumericalError(ANTIPODAL@))
        } else {
            Ok(Step::Evaluate)
        }
    }

    /// Whether a vector of length `norm` can be scaled onto the sphere.
    pub open spec fn projection_verdict(norm: Scalar) -> Result<(), ManifoldErrorView> {
        if norm.below(Scalar { bits: TOLERANCE_BITS }) {
            Err(ManifoldErrorView::NumericalError(ZERO_VECTOR@))
        } else {
            Ok(())
        }
    }

    pub fn new(dimension: usize) -> (s: Self)
        ensures
            s.dimension == dimension,
    {
        Sphere { dimension }
    }

    /// Tests whether the embedding dimension fits a `usize`, which every operation asks for.
    pub fn is_well_formed(&self) -> (b: bool)
        ensures
            b == self.well_formed(),
    {
        self.dimension < usize::MAX
    }

    /// The number of coordinates of a point.
    pub fn embedding_dim(&self) -> (n: usize)
        requires
            self.well_formed(),
        ensures
            n == self.dimension + 1,
    {
        self.dimension + 1
    }

    /// The intrinsic dimension.
    pub fn dim(&self) -> (n: usize)
        ensures
            n == self.dimension,
    {
        self.dimension
    }

    /// Validates a point. `norm_excess` is the squared norm of the point less one, as the
    /// caller evaluated it; where the number of coordinates is wrong it is not looked at. A
    /// NaN is not beyond the tolerance, so a point whose norm is no number passes.
    pub fn check_point(&self, point: &[Scalar], norm_excess: Scalar) -> (r: Result<
        (),
        ManifoldError,
    >)
        requires
            self.well_formed(),
        ensures
            verdict(r) == self.point_verdict(point@.len(), norm_excess),
    {
        if point.len() != self.embedding_dim() {
            return Err(ManifoldError::dimension_mismatch(self.embedding_dim(), point.len()));
        }
        if norm_excess.exceeds(Scalar::tolerance()) {
            return Err(ManifoldError::point_not_on_manifold(NOT_UNIT_NORM));
        }
        Ok(())
    }

    /// Validates the inputs of a projection onto the tangent space at `point`: the point lies on
    /// the sphere and `vector` has as many coordinates. The vector need not be orthogonal to the
    /// point; the projection makes it so.
    pub fn check_ambient_vector(
        &self,
        point: &[Scalar],
        norm_excess: Scalar,
        vector: &TangentVector,
    ) -> (r: Result<(), ManifoldError>)
        requires
            self.well_formed(),
        ensures
            verdict(r) == self.ambient_verdict(point@.len(), norm_excess, vector@.len()),
    {
        self.check_point(point, norm_excess)?;
        if vector.dim() != self.embedding_dim() {
            return Err(ManifoldError::dimension_mismatch(self.embedding_dim(), vector.dim()));
        }
        Ok(())
    }

    /// Validates a tangent vector at `point`. `norm_excess` is the squared norm of the point less
    /// one, `dot` the dot product of point and tangent, both as the caller evaluated them.
    pub fn check_tangent_vector(
        &self,
        point: &[Scalar],
        norm_excess: Scalar,
        tangent: &TangentVector,
        dot: Scalar,
    ) -> (r: Result<(), ManifoldError>)
        requires
            self.well_formed(),
        ensures
            verdict(r) == self.tangent_verdict(point@.len(), norm_excess, tangent@.len(), dot),
    {
        self.check_ambient_vector(point, norm_excess, tangent)?;
        if dot.exceeds(Scalar::tolerance()) {
            return Err(ManifoldError::invalid_tangent_vector(NOT_ORTHOGONAL));
        }
        Ok(())
    }

    /// Decides whether a vector of Euclidean length `norm` can be projected onto the sphere by
    /// dividing it by that length. A vector shorter than the tolerance has no direction.
    pub fn project_to_manifold(norm: Scalar) -> (r: Result<(), ManifoldError>)
        ensures
            verdict(r) == Self::projection_verdict(norm),
    {
        if norm.lt(Scalar::tolerance()) {
            return Err(ManifoldError::numerical(ZERO_VECTOR));
        }
        Ok(())
    }

    /// Decides the exponential map at `point` along `tangent`, whose Euclidean length was
    /// evaluated as `tangent_norm`.
    ///
    /// Invalid inputs fail as `check_tangent_vector` says. A tangent shorter than the tolerance
    /// settles on `point` itself. Otherwise the caller evaluates, coordinate by coordinate,
    /// `point * cos(r) + tangent * sin(r) / r` with `r` the length of the tangent.
    pub fn exp(
        &self,
        point: &[Scalar],
        norm_excess: Scalar,
        tangent: &TangentVector,
        dot: Scalar,
        tangent_norm: Scalar,
    ) -> (r: Result<Step<Vec<Scalar>>, ManifoldError>)
        requires
            self.well_formed(),
        ensures
            step_view(r) == self.exp_outcome(
                point@,
                norm_excess,
                tangent@.len(),
                dot,
                tangent_norm,
            ),
    {
        self.check_tangent_vector(point, norm_excess, tangent, dot)?;
        if tangent_norm.lt(Scalar::tolerance()) {
            return Ok(Step::Settled(slice_to_vec(point)));
        }
        Ok(Step::Evaluate)
    }

    /// The dot product of two points, brought into `[-1, 1]` so that it is the cosine of an
    /// angle. A NaN stays a NaN.
    pub fn clamp_cosine(dot: Scalar) -> (c: Scalar)
        ensures
            c == dot.clamped(Scalar { bits: MINUS_ONE_BITS }, Scalar { bits: ONE_BITS }),
    {
        dot.clamp(Scalar::minus_one(), Scalar::one())
    }

    /// Decides the logarithm map from `point` to `other`. `theta` is the arc cosine of the
    /// clamped dot product of the two points and `sin_theta` its sine, as the caller evaluated
    /// them.
    ///
    /// Invalid points fail as `check_point` says, `point` first. An angle within the tolerance
    /// settles on the zero vector. A sine within the tolerance means antipodal points, which
    /// have no unique logarithm. Otherwise the caller evaluates, coordinate by coordinate,
    /// `(other - point * c) * theta / sin_theta` with `c` the clamped dot product.
    pub fn log(
        &self,
        point: &[Scalar],
        norm_excess: Scalar,
        other: &[Scalar],
        other_excess: Scalar,
        theta: Scalar,
        sin_theta: Scalar,
    ) -> (r: Result<Step<TangentVector>, ManifoldError>)
        requires
            self.well_formed(),
        ensures
            step_view(r) == self.log_outcome(
                point@.len(),
                norm_excess,
                other@.len(),
                other_excess,
                theta,
                sin_theta,
            ),
    {
        self.check_point(point, norm_excess)?;
        self.check_point(other, other_excess)?;
        if theta.falls_short(Scalar::tolerance()) {
            return Ok(Step::Settled(TangentVector::zero(self.embedding_dim())));
        }
        if sin_theta.falls_short(Scalar::tolerance()) {
            return Err(ManifoldError::numerical(ANTIPODAL));
        }
        Ok(Step::Evaluate)
    }
}

/// The view of a decided operation: a settled value is seen through its view, an error through
/// its own.
pub open spec fn step_view<T: View>(r: Result<Step<T>, ManifoldError>) -> Result<
    Step<T::V>,
    ManifoldErrorView,
> {
    match r {
        Ok(Step::Settled(value)) => Ok(Step::Settled(value@)),
        Ok(Step::Evaluate) => Ok(Step::Evaluate),
        Err(e) => Err(e@),
    }
}

/// A move shorter than the tolerance goes nowhere: where the point and the tangent are valid and
/// the length of the tangent is below `1e-10`, zero included, the exponential map settles on
/// the point itself, and the point is as valid after the move as before.
pub proof fn short_moves_stay(
    sphere: Sphere,
    point: Seq<Scalar>,
    norm_excess: Scalar,
    tangent_len: nat,
    dot: Scalar,
    tangent_norm: Scalar,
)
    requires
        sphere.tangent_verdict(point.len(), norm_excess, tangent_len, dot) is Ok,
        tangent_norm.below(Scalar { bits: TOLERANCE_BITS }),
    ensures
        sphere.exp_outcome(point, norm_excess, tangent_len, dot, tangent_norm) == Ok::<
            Step<Seq<Scalar>>,
            ManifoldErrorView,
        >(Step::Settled(point)),
        sphere.exp_outcome(point, norm_excess, tangent_len, dot, Scalar { bits: 0 }) == Ok::<
            Step<Seq<Scalar>>,
            ManifoldErrorView,
        >(Step::Settled(point)),
        sphere.point_verdict(point.len(), norm_excess) is Ok,
{
}

/// The clamped dot product of two points is the cosine of an angle: unless it is a NaN, it is a
/// number from -1 to 1.
pub proof fn clamped_cosine_is_in_range(dot: Scalar)
    requires
        !dot.nan(),
    ensures
        -pow2(1074) <= dot.clamped(
            Scalar { bits: MINUS_ONE_BITS },
            Scalar { bits: ONE_BITS },
        ).position() <= pow2(1074),
{
    units_are_exact();
    clamped_is_between(dot, Scalar { bits: MINUS_ONE_BITS }, Scalar { bits: ONE_BITS });
}

} // verus!
