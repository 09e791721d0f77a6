//! Riemannian optimization, decided on bit patterns.
//!
//! The geometry of a manifold needs arithmetic that rounds: sums, products, roots, trigonometric
//! functions, factorizations. This crate holds everything else. It keeps real numbers as the
//! bit patterns of binary64 values, and from the values that the caller has computed it decides
//! which points and tangent vectors are valid, which failure comes first, which matrix entries
//! are looked at or replaced, when a power series stops and how an optimizer run proceeds.
pub mod error;
pub mod euclidean;
pub mod matrix;
pub mod metric;
pub mod numeric;
pub mod optimizer;
pub mod scalar;
pub mod series;
pub mod spd;
pub mod sphere;
pub mod tangent;

pub use error::ManifoldError;
pub use euclidean::Euclidean;
pub use metric::EuclideanMetric;
pub use optimizer::{Action, Event, GradientDescent, Phase};
pub use scalar::Scalar;
pub use series::Series;
pub use spd::{MatrixReading, SPD};
pub use sphere::{Sphere, Step};
pub use tangent::TangentVector;
