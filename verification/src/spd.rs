//! Symmetric positive-definite matrices under the affine-invariant metric.
//!
//! Points and tangent vectors are `n` by `n` matrices, flattened row by row. A point is
//! symmetric within `1e-10` and has a Cholesky factor; a tangent vector is symmetric. The
//! factorizations, inverses and products are evaluated by the caller; what they mean for the
//! operation at hand is decided here.
use vstd::prelude::*;
use crate::error::{verdict, ManifoldError, ManifoldErrorView};
use crate::matrix::{
    floor_diagonal,
    floored,
    floored_diagonal_is_positive,
    flooring_keeps_symmetry,
    is_symmetric,
    place,
    symmetric_exactly,
    symmetric_within,
};
use crate::scalar::{Scalar, TOLERANCE_BITS};
use crate::tangent::TangentVector;

verus! {

pub const NOT_SYMMETRIC: &'static str = "Matrix is not symmetric";

pub const NOT_POSITIVE_DEFINITE: &'static str = "Matrix is not positive definite";

pub const TANGENT_NOT_SYMMETRIC: &'static str = "Tangent vector matrix is not symmetric";

pub const NO_FACTOR: &'static str = "Cholesky decomposition failed";

pub const NO_FACTOR_FOR_POINT: &'static str = "Cholesky decomposition failed for point";

pub const NO_INVERSE: &'static str = "Matrix inversion failed";

/// What the caller has measured of a flattened matrix: the entries of its skew part `M - Mᵗ`,
/// row by row, and whether a Cholesky factorization of it succeeded.
#[derive(Debug)]
pub struct MatrixReading {
    pub skew: Vec<Scalar>,
    pub positive_definite: bool,
}

pub struct SPD {
    pub dimension: usize,
}

impl SPD {
    /// The matrices have a number of entries, and of degrees of freedom, that a `usize` can
    /// hold.
    pub open spec fn well_formed(&self) -> bool {
        self.dimension * (self.dimension + 1) <= usize::MAX
    }

    /// The verdict on a flattening of `len` coordinates.
    pub open spec fn dimension_verdict(&self, len: nat) -> Result<(), ManifoldErrorView> {
        if len != self.dimension * self.dimension {
            Err(
                ManifoldErrorView::DimensionMismatch {
                    expected: (self.dimension * self.dimension) as nat,
                    got: len,
                },
            )
        } else {
            Ok(())
        }
    }

    /// The verdict on a candidate point of `len` coordinates: first the shape, then symmetry,
    /// then positive definiteness.
    pub open spec fn point_verdict(&self, len: nat, skew: Seq<Scalar>, positive_definite: bool) -> Result<
        (),
        ManifoldErrorView,
    > {
        if self.dimension_verdict(len) is Err {
            self.dimension_verdict(len)
        } else if !symmetric_within(skew, self.dimension as int) {
            Err(ManifoldErrorView::PointNotOnManifold { reason: NOT_SYMMETRIC@ })
        } else if !positive_definite {
            Err(ManifoldErrorView::PointNotOnManifold { reason: NOT_POSITIVE_DEFINITE@ })
        } else {
            Ok(())
        }
    }

    /// The verdict on a candidate tangent vector at a candidate point: first the point, then the
    /// shape of the tangent, then its symmetry.
    pub open spec fn tangent_verdict(
        &self,
        len: nat,
        skew: Seq<Scalar>,
        positive_definite: bool,
        tangent_len: nat,
        tangent_skew: Seq<Scalar>,
    ) -> Result<(), ManifoldErrorView> {
        if self.point_verdict(len, skew, positive_definite) is Err {
            self.point_verdict(len, skew, positive_definite)
        } else if self.dimension_verdict(tangent_len) is Err {
            self.dimension_verdict(tangent_len)
        } else if !symmetric_within(tangent_skew, self.dimension as int) {
            Err(ManifoldErrorView::InvalidTangentVector { reason: TANGENT_NOT_SYMMETRIC@ })
        } else {
            Ok(())
        }
    }

    /// The verdict on the linear algebra that whitens a matrix at a point: the point needs a
    /// Cholesky factor, and the factor an inverse. `missing` is the text for a missing factor.
    pub open spec fn whitening_verdict(factored: bool, inverted: bool, missing: Seq<char>) -> Result<
        (),
        ManifoldErrorView,
    > {
        if !factored {
            Err(ManifoldErrorView::LinearAlgebraError(missing))
        } else if !inverted {
            Err(ManifoldErrorView::LinearAlgebraError(NO_INVERSE@))
        } else {
            Ok(())
        }
    }

    pub fn new(dimension: usize) -> (s: Self)
        ensures
            s.dimension == dimension,
    {
        SPD { dimension }
    }

    /// Tests whether the numbers of entries and of degrees of freedom fit a `usize`, which
    /// every operation asks for.
    pub fn is_well_formed(&self) -> (b: bool)
        ensures
            b == self.well_formed(),
    {
        match self.dimension.checked_add(1) {
            None => {
                proof {
                    assert(self.dimension * (self.dimension + 1) > usize::MAX) by (nonlinear_arith)
                        requires
                            self.dimension == usize::MAX,
                            usize::MAX >= 1,
                    ;
                }
                false
            },
            Some(next) => self.dimension.checked_mul(next).is_some(),
        }
    }

    /// The intrinsic dimension: the number of entries on and above the diagonal.
    pub fn dim(&self) -> (n: usize)
        requires
            self.well_formed(),
        ensures
            n == self.dimension * (self.dimension + 1) / 2,
    {
        proof {
            assert(self.dimension + 1 <= usize::MAX) by (nonlinear_arith)
                requires
                    self.dimension * (self.dimension + 1) <= usize::MAX,
                    0 <= self.dimension,
            ;
        }
        self.dimension * (self.dimension + 1) / 2
    }

    /// The number of coordinates of a point or tangent vector.
    pub fn ambient_dim(&self) -> (n: usize)
        requires
            self.well_formed(),
        ensures
            n == self.dimension * self.dimension,
    {
        proof {
            assert(self.dimension * self.dimension <= self.dimension * (self.dimension + 1))
                by (nonlinear_arith);
        }
        self.dimension * self.dimension
    }

    /// Checks that a flattening has `dimension * dimension` coordinates. This is the one check
    /// that needs no measurement, and the one that must pass before a matrix can be measured.
    pub fn check_dimension(&self, len: usize) -> (r: Result<(), ManifoldError>)
        requires
            self.well_formed(),
        ensures
            verdict(r) == self.dimension_verdict(len as nat),
    {
        let expected: usize = self.ambient_dim();
        if len != expected {
            return Err(ManifoldError::dimension_mismatch(expected, len));
        }
        Ok(())
    }

    /// Decides whether the matrix with skew part `skew` is symmetric within the tolerance.
    pub fn is_symmetric(&self, skew: &[Scalar]) -> (b: bool)
        requires
            self.well_formed(),
        ensures
            b == symmetric_within(skew@, self.dimension as int),
    {
        proof {
            assert(self.dimension * self.dimension <= self.dimension * (self.dimension + 1))
                by (nonlinear_arith);
        }
        is_symmetric(self.dimension, skew)
    }

    /// Validates a point. Where the shape is wrong the reading is not looked at.
    pub fn check_point(&self, point: &[Scalar], reading: &MatrixReading) -> (r: Result<
        (),
        ManifoldError,
    >)
        requires
            self.well_formed(),
        ensures
            verdict(r) == self.point_verdict(
                point@.len(),
                reading.skew@,
                reading.positive_definite,
            ),
    {
        self.check_dimension(point.len())?;
        if !self.is_symmetric(reading.skew.as_slice()) {
            return Err(ManifoldError::point_not_on_manifold(NOT_SYMMETRIC));
        }
        if !reading.positive_definite {
            return Err(ManifoldError::point_not_on_manifold(NOT_POSITIVE_DEFINITE));
        }
        Ok(())
    }

    /// Validates a tangent vector at a point. `tangent_skew` holds the entries of the skew part
    /// of the tangent matrix, row by row.
    pub fn check_tangent_vector(
        &self,
        point: &[Scalar],
        reading: &MatrixReading,
        tangent: &TangentVector,
        tangent_skew: &[Scalar],
    ) -> (r: Result<(), ManifoldError>)
        requires
            self.well_formed(),
        ensures
            verdict(r) == self.tangent_verdict(
                point@.len(),
                reading.skew@,
                reading.positive_definite,
                tangent@.len(),
                tangent_skew@,
            ),
    {
        self.check_point(point, reading)?;
        self.check_dimension(tangent.dim())?;
        if !self.is_symmetric(tangent_skew) {
            return Err(ManifoldError::invalid_tangent_vector(TANGENT_NOT_SYMMETRIC));
        }
        Ok(())
    }

    /// Finishes the projection of a matrix onto the manifold. `symmetrized` is `(M + Mᵗ) / 2` as
    /// the caller evaluated it; each of its diagonal entries is raised to at least `1e-10`.
    ///
    /// The result is symmetric bit for bit whenever `symmetrized` is, and every entry on its
    /// diagonal is a number that is no smaller than `1e-10`.
    pub fn project_to_manifold(&self, symmetrized: Vec<Scalar>) -> (r: Result<
        Vec<Scalar>,
        ManifoldError,
    >)
        requires
            self.well_formed(),
        ensures
            match r {
                Ok(projected) => {
                    &&& self.dimension_verdict(symmetrized@.len()) is Ok
                    &&& floored(symmetrized@, self.dimension as int, projected@)
                    &&& symmetric_exactly(symmetrized@, self.dimension as int)
                        ==> symmetric_exactly(projected@, self.dimension as int)
                    &&& forall|i: int|
                        0 <= i < self.dimension ==> {
                            let entry = #[trigger] projected@[place(self.dimension as int, i, i)];
                            !entry.nan() && entry.position() >= (Scalar {
                                bits: TOLERANCE_BITS,
                            }).position()
                        }
                },
                Err(e) => Err::<(), ManifoldErrorView>(e@) == self.dimension_verdict(symmetrized@.len()),
            },
    {
        self.check_dimension(symmetrized.len())?;
        let projected = floor_diagonal(self.dimension, symmetrized);
        proof {
            let n = self.dimension as int;
            if symmetric_exactly(symmetrized@, n) {
                flooring_keeps_symmetry(symmetrized@, n, projected@);
            }
            assert forall|i: int| 0 <= i < n implies {
                let entry = #[trigger] projected@[place(n, i, i)];
                !entry.nan() && entry.position() >= (Scalar { bits: TOLERANCE_BITS }).position()
            } by {
                floored_diagonal_is_positive(symmetrized@, n, projected@, i);
            }
        }
        Ok(projected)
    }

    /// Decides the exponential map once its inputs are measured: the inputs must be valid, the
    /// point must have a Cholesky factor `L` and `L` an inverse. On `Ok` the caller evaluates
    /// `L * exp(L⁻¹ * V * L⁻ᵗ) * Lᵗ`.
    pub fn exp(
        &self,
        point: &[Scalar],
        reading: &MatrixReading,
        tangent: &TangentVector,
        tangent_skew: &[Scalar],
        factored: bool,
        inverted: bool,
    ) -> (r: Result<(), ManifoldError>)
        requires
            self.well_formed(),
        ensures
            verdict(r) == (if self.tangent_verdict(
                point@.len(),
                reading.skew@,
                reading.positive_definite,
                tangent@.len(),
                tangent_skew@,
            ) is Err {
                self.tangent_verdict(
                    point@.len(),
                    reading.skew@,
                    reading.positive_definite,
                    tangent@.len(),
                    tangent_skew@,
                )
            } else {
                Self::whitening_verdict(factored, inverted, NO_FACTOR@)
            }),
    {
        self.check_tangent_vector(point, reading, tangent, tangent_skew)?;
        Self::check_whitening(factored, inverted, NO_FACTOR)
    }

    /// Decides the logarithm map once its inputs are measured: both points must be valid,
    /// `point` first, `point` must have a Cholesky factor `L` and `L` an inverse. On `Ok` the
    /// caller evaluates `L * log(L⁻¹ * Q * L⁻ᵗ) * Lᵗ`.
    pub fn log(
        &self,
        point: &[Scalar],
        reading: &MatrixReading,
        other: &[Scalar],
        other_reading: &MatrixReading,
        factored: bool,
        inverted: bool,
    ) -> (r: Result<(), ManifoldError>)
        requires
            self.well_formed(),
        ensures
            verdict(r) == (if self.point_verdict(
                point@.len(),
                reading.skew@,
                reading.positive_definite,
            ) is Err {
                self.point_verdict(point@.len(), reading.skew@, reading.positive_definite)
            } else if self.point_verdict(
                other@.len(),
                other_reading.skew@,
                other_reading.positive_definite,
            ) is Err {
                self.point_verdict(
                    other@.len(),
                    other_reading.skew@,
                    other_reading.positive_definite,
                )
            } else {
                Self::whitening_verdict(factored, inverted, NO_FACTOR_FOR_POINT@)
            }),
    {
        self.check_point(point, reading)?;
        self.check_point(other, other_reading)?;
        Self::check_whitening(factored, inverted, NO_FACTOR_FOR_POINT)
    }

    /// Decides the inner product `trace(P⁻¹ * V1 * P⁻¹ * V2)` once the shapes are known and the
    /// inversion of the point was tried.
    pub fn inner_product(
        &self,
        point: &[Scalar],
        v1: &TangentVector,
        v2: &TangentVector,
        inverted: bool,
    ) -> (r: Result<(), ManifoldError>)
        requires
            self.well_formed(),
        ensures
            verdict(r) == (if self.dimension_verdict(point@.len()) is Err {
                self.dimension_verdict(point@.len())
            } else if self.dimension_verdict(v1@.len()) is Err {
                self.dimension_verdict(v1@.len())
            } else if self.dimension_verdict(v2@.len()) is Err {
                self.dimension_verdict(v2@.len())
            } else if !inverted {
                Err(ManifoldErrorView::LinearAlgebraError(NO_INVERSE@))
            } else {
                Ok(())
            }),
    {
        self.check_dimension(point.len())?;
        self.check_dimension(v1.dim())?;
        self.check_dimension(v2.dim())?;
        if !inverted {
            return Err(ManifoldError::linear_algebra(NO_INVERSE));
        }
        Ok(())
    }

    fn check_whitening(factored: bool, inverted: bool, missing: &str) -> (r: Result<
        (),
        ManifoldError,
    >)
        ensures
            verdict(r) == Self::whitening_verdict(factored, inverted, missing@),
    {
        if !factored {
            return Err(ManifoldError::linear_algebra(missing));
        }
        if !inverted {
            return Err(ManifoldError::linear_algebra(NO_INVERSE));
        }
        Ok(())
    }
}

} // verus!
