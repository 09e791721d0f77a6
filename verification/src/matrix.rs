//! Square matrices, flattened row by row.
//!
//! The entry in row `i` and column `j` of an `n` by `n` matrix is coordinate `i * n + j` of its
//! flattening. What is decided here needs the entries only as bit patterns: which entries are
//! looked at, which are replaced and what counts as small.
use vstd::prelude::*;
use crate::numeric::larger_is_an_upper_bound;
use crate::scalar::{Scalar, NEGLIGIBLE_BITS, ONE_BITS, TOLERANCE_BITS};

verus! {

/// The place of entry `(i, j)` in the flattening of an `n` by `n` matrix.
pub open spec fn place(n: int, i: int, j: int) -> int {
    i * n + j
}

/// The places of an `n` by `n` matrix lie below `n * n`, and distinct entries have distinct
/// places.
pub proof fn places_are_distinct(n: int, i: int, j: int, k: int, l: int)
    requires
        0 <= i < n,
        0 <= j < n,
        0 <= k < n,
        0 <= l < n,
    ensures
        0 <= place(n, i, j) < n * n,
        place(n, i, j) == place(n, k, l) ==> i == k && j == l,
{
    assert(i * n + j < n * n) by (nonlinear_arith)
        requires
            0 <= i < n,
            0 <= j < n,
    ;
    assert(0 <= i * n) by (nonlinear_arith)
        requires
            0 <= i,
            0 <= n,
    ;
    if i < k {
        assert(i * n + n <= k * n) by (nonlinear_arith)
            requires
                i < k,
                0 <= n,
        ;
    }
    if k < i {
        assert(k * n + n <= i * n) by (nonlinear_arith)
            requires
                k < i,
                0 <= n,
        ;
    }
}

/// The identity matrix of size `n`: ones on the diagonal, positive zeros elsewhere.
pub open spec fn is_identity(m: Seq<Scalar>, n: int) -> bool {
    &&& m.len() == n * n
    &&& forall|i: int, j: int|
        0 <= i < n && 0 <= j < n ==> #[trigger] m[place(n, i, j)] == (if i == j {
            Scalar { bits: ONE_BITS }
        } else {
            Scalar { bits: 0 }
        })
}

/// A matrix is symmetric within the tolerance when no entry above the diagonal of its skew part
/// `M - Mᵗ` is beyond `1e-10`. A NaN there is not beyond anything, so it passes.
pub open spec fn symmetric_within(skew: Seq<Scalar>, n: int) -> bool {
    &&& skew.len() == n * n
    &&& forall|i: int, j: int|
        0 <= i < j < n ==> !(#[trigger] skew[place(n, i, j)]).beyond(Scalar { bits: TOLERANCE_BITS })
}

/// A matrix is symmetric bit for bit when each entry has the bits of its mirror image.
pub open spec fn symmetric_exactly(m: Seq<Scalar>, n: int) -> bool {
    &&& m.len() == n * n
    &&& forall|i: int, j: int|
        0 <= i < n && 0 <= j < n ==> #[trigger] m[place(n, i, j)] == m[place(n, j, i)]
}

/// `out` is the matrix `m` with each diagonal entry replaced by the larger of itself and
/// `1e-10`.
pub open spec fn floored(m: Seq<Scalar>, n: int, out: Seq<Scalar>) -> bool {
    &&& out.len() == m.len()
    &&& forall|i: int, j: int|
        0 <= i < n && 0 <= j < n ==> #[trigger] out[place(n, i, j)] == (if i == j {
            m[place(n, i, j)].larger(Scalar { bits: TOLERANCE_BITS })
        } else {
            m[place(n, i, j)]
        })
}

/// Every entry is less than `1e-12` in absolute value. A NaN is not.
pub open spec fn negligible(entries: Seq<Scalar>) -> bool {
    forall|k: int| 0 <= k < entries.len() ==> (#[trigger] entries[k]).within(Scalar { bits: NEGLIGIBLE_BITS })
}

/// Builds the identity matrix of size `n`.
pub fn identity(n: usize) -> (m: Vec<Scalar>)
    requires
        n * n <= usize::MAX,
    ensures
        is_identity(m@, n as int),
{
    let mut m: Vec<Scalar> = Vec::new();
    let mut i: usize = 0;
    while i < n
        invariant
            i <= n,
            n * n <= usize::MAX,
            m@.len() == i * n,
            forall|r: int, c: int|
                0 <= r < i && 0 <= c < n ==> #[trigger] m@[place(n as int, r, c)] == (if r == c {
                    Scalar { bits: ONE_BITS }
                } else {
                    Scalar { bits: 0 }
                }),
        decreases n - i,
    {
        let mut j: usize = 0;
        while j < n
            invariant
                i < n,
                j <= n,
                n * n <= usize::MAX,
                m@.len() == i * n + j,
                forall|r: int, c: int|
                    0 <= r < i && 0 <= c < n ==> #[trigger] m@[place(n as int, r, c)] == (if r
                        == c {
                        Scalar { bits: ONE_BITS }
                    } else {
                        Scalar { bits: 0 }
                    }),
                forall|c: int|
                    0 <= c < j ==> #[trigger] m@[place(n as int, i as int, c)] == (if i == c {
                        Scalar { bits: ONE_BITS }
                    } else {
                        Scalar { bits: 0 }
                    }),
            decreases n - j,
        {
            let ghost before = m@;
            if i == j {
                m.push(Scalar::one());
            } else {
                m.push(Scalar::zero());
            }
            proof {
                assert forall|r: int, c: int| 0 <= r < i && 0 <= c < n implies #[trigger] m@[place(
                    n as int,
                    r,
                    c,
                )] == (if r == c {
                    Scalar { bits: ONE_BITS }
                } else {
                    Scalar { bits: 0 }
                }) by {
                    places_are_distinct(n as int, r, c, i as int, j as int);
                    assert(place(n as int, r, c) < before.len()) by (nonlinear_arith)
                        requires
                            0 <= r < i,
                            0 <= c < n,
                            before.len() == i * n + j,
                            0 <= j,
                    ;
                    assert(m@[place(n as int, r, c)] == before[place(n as int, r, c)]);
                }
                assert forall|c: int| 0 <= c < j + 1 implies #[trigger] m@[place(
                    n as int,
                    i as int,
                    c,
                )] == (if i == c {
                    Scalar { bits: ONE_BITS }
                } else {
                    Scalar { bits: 0 }
                }) by {
                    if c < j {
                        assert(m@[place(n as int, i as int, c)] == before[place(
                            n as int,
                            i as int,
                            c,
                        )]);
                    }
                }
            }
            j = j + 1;
        }
        proof {
            assert((i + 1) * n == i * n + n) by (nonlinear_arith);
        }
        i = i + 1;
    }
    m
}

/// Decides whether the matrix with skew part `skew` is symmetric within the tolerance.
///
/// `skew` holds the entries of `M - Mᵗ` as the caller evaluated them, row by row. Only the
/// entries above the diagonal are looked at, row by row, until one is beyond the tolerance.
pub fn is_symmetric(n: usize, skew: &[Scalar]) -> (b: bool)
    requires
        n * n <= usize::MAX,
    ensures
        b == symmetric_within(skew@, n as int),
{
    if skew.len() != n * n {
        return false;
    }
    let mut i: usize = 0;
    while i < n
        invariant
            i <= n,
            skew@.len() == n * n,
            n * n <= usize::MAX,
            forall|r: int, c: int|
                0 <= r < c < n && r < i ==> !(#[trigger] skew@[place(n as int, r, c)]).beyond(
                    Scalar { bits: TOLERANCE_BITS },
                ),
        decreases n - i,
    {
        let mut j: usize = i + 1;
        while j < n
            invariant
                i < n,
                i < j <= n,
                skew@.len() == n * n,
                n * n <= usize::MAX,
                forall|r: int, c: int|
                    0 <= r < c < n && r < i ==> !(#[trigger] skew@[place(n as int, r, c)]).beyond(
                        Scalar { bits: TOLERANCE_BITS },
                    ),
                forall|c: int|
                    i < c < j ==> !(#[trigger] skew@[place(n as int, i as int, c)]).beyond(
                        Scalar { bits: TOLERANCE_BITS },
                    ),
            decreases n - j,
        {
            proof {
                places_are_distinct(n as int, i as int, j as int, i as int, j as int);
            }
            if skew[i * n + j].exceeds(Scalar::tolerance()) {
                assert(skew@[place(n as int, i as int, j as int)].beyond(
                    Scalar { bits: TOLERANCE_BITS },
                ));
                return false;
            }
            j = j + 1;
        }
        i = i + 1;
    }
    true
}

/// Replaces each diagonal entry of an `n` by `n` matrix by the larger of itself and `1e-10`. A
/// NaN on the diagonal becomes `1e-10`; nothing off the diagonal changes.
pub fn floor_diagonal(n: usize, m: Vec<Scalar>) -> (out: Vec<Scalar>)
    requires
        m@.len() == n * n,
    ensures
        floored(m@, n as int, out@),
{
    let mut out = m;
    let len: usize = out.len();
    let mut i: usize = 0;
    while i < n
        invariant
            i <= n,
            m@.len() == n * n,
            n * n == len,
            out@.len() == m@.len(),
            forall|r: int, c: int|
                0 <= r < n && 0 <= c < n ==> #[trigger] out@[place(n as int, r, c)] == (if r == c
                    && r < i {
                    m@[place(n as int, r, c)].larger(Scalar { bits: TOLERANCE_BITS })
                } else {
                    m@[place(n as int, r, c)]
                }),
        decreases n - i,
    {
        proof {
            places_are_distinct(n as int, i as int, i as int, i as int, i as int);
        }
        let ghost before = out@;
        let entry: Scalar = out[i * n + i];
        assert(entry == m@[place(n as int, i as int, i as int)]);
        out.set(i * n + i, entry.max(Scalar::tolerance()));
        proof {
            assert forall|r: int, c: int| 0 <= r < n && 0 <= c < n implies #[trigger] out@[place(
                n as int,
                r,
                c,
            )] == (if r == c && r < i + 1 {
                m@[place(n as int, r, c)].larger(Scalar { bits: TOLERANCE_BITS })
            } else {
                m@[place(n as int, r, c)]
            }) by {
                places_are_distinct(n as int, r, c, i as int, i as int);
                if !(r == i && c == i) {
                    assert(out@[place(n as int, r, c)] == before[place(n as int, r, c)]);
                }
            }
        }
        i = i + 1;
    }
    out
}

/// Decides whether every entry is below `1e-12` in absolute value, the point at which a power
/// series stops adding terms.
pub fn all_negligible(entries: &[Scalar]) -> (b: bool)
    ensures
        b == negligible(entries@),
{
    let mut k: usize = 0;
    while k < entries.len()
        invariant
            k <= entries@.len(),
            forall|l: int| 0 <= l < k ==> (#[trigger] entries@[l]).within(Scalar { bits: NEGLIGIBLE_BITS }),
        decreases entries@.len() - k,
    {
        if !entries[k].falls_short(Scalar::negligible()) {
            return false;
        }
        k = k + 1;
    }
    true
}

/// Flooring the diagonal keeps a matrix symmetric: of a matrix that is symmetric bit for bit,
/// the floored matrix is symmetric bit for bit.
pub proof fn flooring_keeps_symmetry(m: Seq<Scalar>, n: int, out: Seq<Scalar>)
    requires
        0 <= n,
        symmetric_exactly(m, n),
        floored(m, n, out),
    ensures
        symmetric_exactly(out, n),
{
    assert forall|i: int, j: int| 0 <= i < n && 0 <= j < n implies #[trigger] out[place(n, i, j)]
        == out[place(n, j, i)] by {
        assert(m[place(n, i, j)] == m[place(n, j, i)]);
        assert(out[place(n, j, i)] == (if j == i {
            m[place(n, j, i)].larger(Scalar { bits: TOLERANCE_BITS })
        } else {
            m[place(n, j, i)]
        }));
    }
}

/// Flooring the diagonal makes it positive: every diagonal entry of the floored matrix is a
/// number, and no smaller than `1e-10`.
pub proof fn floored_diagonal_is_positive(m: Seq<Scalar>, n: int, out: Seq<Scalar>, i: int)
    requires
        floored(m, n, out),
        0 <= i < n,
    ensures
        !out[place(n, i, i)].nan(),
        out[place(n, i, i)].position() >= (Scalar { bits: TOLERANCE_BITS }).position() > 0,
{
    let floor = Scalar { bits: TOLERANCE_BITS };
    larger_is_an_upper_bound(m[place(n, i, i)], floor);
    larger_is_an_upper_bound(Scalar { bits: 0 }, floor);
    assert((Scalar { bits: 0 }).position() == 0);
    crate::numeric::order_is_numerical(Scalar { bits: 0 }, floor);
}

} // verus!
