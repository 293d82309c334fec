//! Fixed-dimension dense matrices and vectors.
//!
//! A `Matrix<M, N>` has `M` rows and `N` columns, fixed by its type, so the
//! dimensional compatibility of every operation is settled at the type level
//! and never checked at run time. Entries are opaque 64-bit scalar codes:
//! the IEEE 754 binary64 encoding of the numeric entry. The operations in
//! this module only place and move entries — construction, access,
//! transposition and the identity pattern — and each is verified to put
//! every entry exactly where it belongs. Arithmetic that must read entries
//! as numbers is floating point and lives in the application shell, which
//! decodes and re-encodes entries at this boundary.

use vstd::prelude::*;

verus! {

/// The 64-bit scalar code of the number zero.
pub const SCALAR_ZERO: u64 = 0;

/// The 64-bit scalar code of the number one (IEEE 754 binary64).
pub const SCALAR_ONE: u64 = 0x3FF0000000000000;

/// A dense `M` by `N` matrix of 64-bit scalar codes.
pub struct Matrix<const M: usize, const N: usize> {
    data: Vec<Vec<u64>>,
}

/// A vector of length `M` is a single-column matrix.
pub type Vector<const M: usize> = Matrix<M, 1>;

/// `s` is a rectangular table of `m` rows, each `n` entries long.
pub open spec fn is_shape(s: Seq<Seq<u64>>, m: nat, n: nat) -> bool {
    &&& s.len() == m
    &&& forall|i: int| 0 <= i < m ==> (#[trigger] s[i]).len() == n
}

/// The transpose of an `m` by `n` table: entry `(j, i)` of the result is
/// entry `(i, j)` of `s`.
pub open spec fn transpose_of(s: Seq<Seq<u64>>, m: nat, n: nat) -> Seq<Seq<u64>> {
    Seq::new(n, |j: int| Seq::new(m, |i: int| s[i][j]))
}

impl<const M: usize, const N: usize> View for Matrix<M, N> {
    type V = Seq<Seq<u64>>;

    closed spec fn view(&self) -> Seq<Seq<u64>> {
        Seq::new(self.data@.len(), |i: int| self.data@[i]@)
    }
}

impl<const M: usize, const N: usize> Matrix<M, N> {
    /// The stored table has exactly the shape the type promises.
    pub open spec fn wf(&self) -> bool {
        is_shape(self@, M as nat, N as nat)
    }

    /// The all-zero matrix: every entry is the scalar code of zero.
    pub fn zeros() -> (r: Self)
        ensures
            r.wf(),
            forall|i: int, j: int|
                0 <= i < M && 0 <= j < N ==> #[trigger] r@[i][j] == SCALAR_ZERO,
    {
        let mut data: Vec<Vec<u64>> = Vec::new();
        let mut i: usize = 0;
        while i < M
            invariant
                i <= M,
                data@.len() == i,
                forall|p: int| 0 <= p < i ==> (#[trigger] data@[p])@.len() == N,
                forall|p: int, q: int|
                    0 <= p < i && 0 <= q < N ==> #[trigger] data@[p]@[q] == SCALAR_ZERO,
            decreases M - i,
        {
            let mut row: Vec<u64> = Vec::new();
            let mut j: usize = 0;
            while j < N
                invariant
                    j <= N,
                    row@.len() == j,
                    forall|q: int| 0 <= q < j ==> #[trigger] row@[q] == SCALAR_ZERO,
                decreases N - j,
            {
                row.push(SCALAR_ZERO);
                j = j + 1;
            }
            data.push(row);
            i = i + 1;
        }
        Matrix { data }
    }

    /// Wraps a caller-supplied rectangular table of scalar codes; the table
    /// must already have the shape the type promises, and comes through
    /// unchanged.
    pub fn from_data(data: Vec<Vec<u64>>) -> (r: Self)
        requires
            data@.len() == M,
            forall|i: int| 0 <= i < M ==> (#[trigger] data@[i])@.len() == N,
        ensures
            r.wf(),
            forall|i: int| 0 <= i < M ==> #[trigger] r@[i] == data@[i]@,
    {
        Matrix { data }
    }

    /// Hands the stored table back out, unchanged.
    pub fn to_data(self) -> (r: Vec<Vec<u64>>)
        requires
            self.wf(),
        ensures
            r@.len() == M,
            forall|i: int| 0 <= i < M ==> (#[trigger] r@[i])@ == self@[i],
    {
        self.data
    }

    /// Row-then-column access to one entry, zero-based.
    pub fn entry(&self, i: usize, j: usize) -> (v: u64)
        requires
            self.wf(),
            i < M,
            j < N,
        ensures
            v == self@[i as int][j as int],
    {
        proof {
            assert(self@[i as int] == self.data@[i as int]@);
        }
        self.data[i][j]
    }

    /// The transpose: entry `(j, i)` of the result is entry `(i, j)` of
    /// `self`.
    pub fn transpose(&self) -> (r: Matrix<N, M>)
        requires
            self.wf(),
        ensures
            r.wf(),
            r@ == transpose_of(self@, M as nat, N as nat),
            forall|i: int, j: int|
                0 <= i < M && 0 <= j < N ==> #[trigger] r@[j][i] == self@[i][j],
    {
        let mut data: Vec<Vec<u64>> = Vec::new();
        let mut j: usize = 0;
        while j < N
            invariant
                j <= N,
                self.wf(),
                data@.len() == j,
                forall|p: int| 0 <= p < j ==> (#[trigger] data@[p])@.len() == M,
                forall|p: int, q: int|
                    0 <= p < j && 0 <= q < M ==> #[trigger] data@[p]@[q] == self@[q][p],
            decreases N - j,
        {
            let mut row: Vec<u64> = Vec::new();
            let mut i: usize = 0;
            while i < M
                invariant
                    i <= M,
                    j < N,
                    self.wf(),
                    row@.len() == i,
                    forall|q: int| 0 <= q < i ==> #[trigger] row@[q] == self@[q][j as int],
                decreases M - i,
            {
                proof {
                    assert(self@[i as int] == self.data@[i as int]@);
                }
                row.push(self.data[i][j]);
                i = i + 1;
            }
            data.push(row);
            j = j + 1;
        }
        let r = Matrix::<N, M> { data };
        proof {
            assert(r@ =~~= transpose_of(self@, M as nat, N as nat));
        }
        r
    }
}

impl<const M: usize> Matrix<M, M> {
    /// The identity pattern: the scalar code of one on the diagonal and of
    /// zero everywhere else.
    pub fn identity() -> (r: Matrix<M, M>)
        ensures
            r.wf(),
            forall|i: int, j: int|
                0 <= i < M && 0 <= j < M ==> #[trigger] r@[i][j] == (if i == j {
                    SCALAR_ONE
                } else {
                    SCALAR_ZERO
                }),
    {
        let mut data: Vec<Vec<u64>> = Vec::new();
        let mut i: usize = 0;
        while i < M
            invariant
                i <= M,
                data@.len() == i,
                forall|p: int| 0 <= p < i ==> (#[trigger] data@[p])@.len() == M,
                forall|p: int, q: int|
                    0 <= p < i && 0 <= q < M ==> #[trigger] data@[p]@[q] == (if p == q {
                        SCALAR_ONE
                    } else {
                        SCALAR_ZERO
                    }),
            decreases M - i,
        {
            let mut row: Vec<u64> = Vec::new();
            let mut j: usize = 0;
            while j < M
                invariant
                    j <= M,
                    i < M,
                    row@.len() == j,
                    forall|q: int| 0 <= q < j ==> #[trigger] row@[q] == (if i == q {
                        SCALAR_ONE
                    } else {
                        SCALAR_ZERO
                    }),
                decreases M - j,
            {
                if j == i {
                    row.push(SCALAR_ONE);
                } else {
                    row.push(SCALAR_ZERO);
                }
                j = j + 1;
            }
            data.push(row);
            i = i + 1;
        }
        Matrix { data }
    }
}

impl<const M: usize> Matrix<M, 1> {
    /// Builds a column vector from a flat list of `M` scalar codes.
    pub fn from_array(data: Vec<u64>) -> (r: Vector<M>)
        requires
            data@.len() == M,
        ensures
            r.wf(),
            forall|i: int| 0 <= i < M ==> #[trigger] r@[i][0] == data@[i],
    {
        let mut rows: Vec<Vec<u64>> = Vec::new();
        let mut i: usize = 0;
        while i < M
            invariant
                i <= M,
                data@.len() == M,
                rows@.len() == i,
                forall|p: int| 0 <= p < i ==> (#[trigger] rows@[p])@.len() == 1,
                forall|p: int| 0 <= p < i ==> #[trigger] rows@[p]@[0] == data@[p],
            decreases M - i,
        {
            let mut row: Vec<u64> = Vec::new();
            row.push(data[i]);
            rows.push(row);
            i = i + 1;
        }
        Matrix { data: rows }
    }
}

/// Transposing twice gives the original matrix back, for every matrix.
///
/// Stated over `transpose_of`, the spec function that `transpose`'s
/// postcondition pins its result to: applying it to a well-formed matrix's
/// table and then to the result yields the original table.
pub proof fn lemma_transpose_involution<const M: usize, const N: usize>(a: Matrix<M, N>)
    requires
        a.wf(),
    ensures
        transpose_of(transpose_of(a@, M as nat, N as nat), N as nat, M as nat) == a@,
{
    assert(transpose_of(transpose_of(a@, M as nat, N as nat), N as nat, M as nat) =~~= a@);
}

} // verus!
