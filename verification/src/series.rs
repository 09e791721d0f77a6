//! The control of the truncated matrix power series.
//!
//! The matrix exponential and logarithm of the SPD manifold are sums of at most 19 and 49 terms.
//! After each term the caller shows the matrix that the series has just produced; the series
//! goes on to the next term unless every entry of it is negligible or the cap is reached. The
//! sums and products are the caller's.
use vstd::prelude::*;
use crate::matrix::{all_negligible, negligible};
use crate::scalar::{Scalar, MINUS_ONE_BITS, ONE_BITS};

verus! {

/// The number of terms of the exponential series.
pub const EXPONENTIAL_TERMS: usize = 19;

/// The number of terms of the logarithm series.
pub const LOGARITHM_TERMS: usize = 49;

/// A power series whose terms are numbered from 1 to `last`.
pub struct Series {
    pub last: usize,
}

impl Series {
    /// The term that follows term `k`, if any: none once the matrix shown after term `k` is
    /// negligible or `k` has reached the cap.
    pub open spec fn successor(&self, k: int, small: bool) -> Option<int> {
        if small || k >= self.last {
            None
        } else {
            Some(k + 1)
        }
    }

    /// The term at which the series stands after `steps` advances from term 1, where `small(k)`
    /// tells whether the matrix shown after term `k` was negligible; none once it has stopped.
    pub open spec fn term_after(&self, small: spec_fn(int) -> bool, steps: nat) -> Option<int>
        decreases steps,
    {
        if steps == 0 {
            Some(1)
        } else {
            match self.term_after(small, (steps - 1) as nat) {
                Some(k) => self.successor(k, small(k)),
                None => None,
            }
        }
    }

    /// The series `I + W + W²/2 + ...` of the matrix exponential: term `k` is the term before
    /// it, times `W`, divided by `k`.
    pub fn exponential() -> (s: Self)
        ensures
            s.last == EXPONENTIAL_TERMS,
    {
        Series { last: EXPONENTIAL_TERMS }
    }

    /// The series `A - A²/2 + A³/3 - ...` of the matrix logarithm of `I + A`: term `k` is `A`
    /// to the power `k`, times `sign(k) / k`.
    pub fn logarithm() -> (s: Self)
        ensures
            s.last == LOGARITHM_TERMS,
    {
        Series { last: LOGARITHM_TERMS }
    }

    /// The number of the first term.
    pub fn first(&self) -> (k: usize)
        ensures
            k == 1,
    {
        1
    }

    /// Decides what follows term `k`. `shown` holds the entries of the matrix that the series
    /// has produced with term `k`: for the exponential the term itself, for the logarithm the
    /// next power of `A`.
    pub fn advance(&self, k: usize, shown: &[Scalar]) -> (next: Option<usize>)
        ensures
            match next {
                Some(k1) => self.successor(k as int, negligible(shown@)) == Some(k1 as int),
                None => self.successor(k as int, negligible(shown@)) is None,
            },
    {
        if k >= self.last || all_negligible(shown) {
            None
        } else {
            Some(k + 1)
        }
    }

    /// The sign of term `k` of the logarithm series: plus one for an odd `k`, minus one for an
    /// even one.
    pub fn sign(k: usize) -> (s: Scalar)
        ensures
            s.bits == (if k % 2 == 1 {
                ONE_BITS
            } else {
                MINUS_ONE_BITS
            }),
    {
        if k % 2 == 1 {
            Scalar::one()
        } else {
            Scalar::minus_one()
        }
    }
}

/// A series is at term `steps + 1` after `steps` advances, or has stopped; it never stands
/// beyond its cap, and after as many advances as it has terms it has stopped.
pub proof fn series_is_capped(series: Series, small: spec_fn(int) -> bool, steps: nat)
    requires
        series.last >= 1,
    ensures
        series.term_after(small, steps) matches Some(k) ==> k == steps + 1 && k <= series.last,
        steps >= series.last ==> series.term_after(small, steps) is None,
    decreases steps,
{
    if steps > 0 {
        series_is_capped(series, small, (steps - 1) as nat);
    }
}

/// The series stops at the first term after which the matrix shown is negligible: while no such
/// term has come and the cap is not reached, it advances term by term, and after such a term it
/// has stopped.
pub proof fn series_stops_when_negligible(series: Series, small: spec_fn(int) -> bool, steps: nat)
    requires
        series.last >= 1,
    ensures
        (forall|k: int| 1 <= k <= steps ==> !#[trigger] small(k)) && steps < series.last
            ==> series.term_after(small, steps) == Some(steps as int + 1),
        (exists|k: int| 1 <= k <= steps && #[trigger] small(k)) ==> series.term_after(small, steps) is None,
    decreases steps,
{
    if steps > 0 {
        series_stops_when_negligible(series, small, (steps - 1) as nat);
        series_is_capped(series, small, (steps - 1) as nat);
        if exists|k: int| 1 <= k <= steps && #[trigger] small(k) {
            let k = choose|k: int| 1 <= k <= steps && #[trigger] small(k);
            if k <= steps - 1 {
                assert(series.term_after(small, (steps - 1) as nat) is None);
            } else {
                assert(k == steps);
            }
        }
    }
}

} // verus!
