//! The result buffer: a dense matrix with one column per integration
//! step and one row per state-vector component.

use crate::float::Float;
use vstd::prelude::*;

verus! {

/// A dense, column-oriented matrix of scalars.
///
/// Its view is the sequence of its columns; each column is a sequence
/// of `dim_spec()` scalars. Column `0` of a prepared matrix holds the
/// initial state, and column `i` the state after `i` integration steps.
pub struct Matrix<F> {
    /// Number of rows (components of one state vector).
    nrows: usize,
    /// Number of columns (recorded states).
    ncols: usize,
    /// The entries, column by column.
    data: Vec<F>,
}

impl<F> View for Matrix<F> {
    type V = Seq<Seq<F>>;

    closed spec fn view(&self) -> Seq<Seq<F>> {
        Seq::new(
            self.ncols as nat,
            |i: int| Seq::new(self.nrows as nat, |j: int| self.data@[i * self.nrows + j]),
        )
    }
}

#[verifier::type_invariant]
pub(crate) closed spec fn matrix_inv<F>(m: Matrix<F>) -> bool {
    m.data@.len() == m.nrows * m.ncols
}

impl<F> Matrix<F> {
    /// The number of rows: the dimension of each recorded state vector.
    pub closed spec fn dim_spec(&self) -> nat {
        self.nrows as nat
    }
}

/// Every column of a matrix holds one scalar per row.
pub proof fn lemma_matrix_shape<F>(m: &Matrix<F>)
    ensures
        forall|i: int| 0 <= i < m@.len() ==> (#[trigger] m@[i]).len() == m.dim_spec(),
{
}

/// The entry index of row `j` in column `i` stays inside storage laid
/// out column by column.
proof fn lemma_entry_index_bound(i: int, j: int, nrows: int, ncols: int)
    requires
        0 <= i < ncols,
        0 <= j < nrows,
    ensures
        0 <= i * nrows + j < nrows * ncols,
{
    assert(0 <= i * nrows + j < nrows * ncols) by (nonlinear_arith)
        requires
            0 <= i < ncols,
            0 <= j < nrows,
    ;
}

impl<F: Float> Matrix<F> {
    /// The number of rows, as a run-time value.
    pub fn nrows(&self) -> (r: usize)
        ensures
            r == self.dim_spec(),
    {
        self.nrows
    }

    /// The number of columns, as a run-time value.
    pub fn ncols(&self) -> (r: usize)
        ensures
            r == self@.len(),
    {
        self.ncols
    }

    /// Read the entry in row `r` of column `c`.
    pub fn get(&self, r: usize, c: usize) -> (v: F)
        requires
            c < self@.len(),
            r < self.dim_spec(),
        ensures
            v == self@[c as int][r as int],
    {
        proof {
            use_type_invariant(self);
            lemma_entry_index_bound(c as int, r as int, self.nrows as int, self.ncols as int);
            assert(self.data.len() == self.data@.len());
        }
        self.data[c * self.nrows + r]
    }

    /// Write `v` into the entry in row `r` of column `c`.
    pub fn set(&mut self, r: usize, c: usize, v: F)
        requires
            c < old(self)@.len(),
            r < old(self).dim_spec(),
        ensures
            final(self)@ == old(self)@.update(c as int, old(self)@[c as int].update(r as int, v)),
            final(self).dim_spec() == old(self).dim_spec(),
    {
        proof {
            use_type_invariant(&*self);
            lemma_entry_index_bound(c as int, r as int, self.nrows as int, self.ncols as int);
            assert(self.data.len() == self.data@.len());
        }
        let idx = c * self.nrows + r;
        self.data[idx] = v;
        proof {
            assert forall|i: int, j: int|
                0 <= i < self.ncols && 0 <= j < self.nrows implies #[trigger] self@[i][j] == (if i
                == c && j == r {
                v
            } else {
                old(self)@[i][j]
            }) by {
                lemma_entry_index_bound(i, j, self.nrows as int, self.ncols as int);
                if i != c || j != r {
                    assert(i * self.nrows + j != c * self.nrows + r) by (nonlinear_arith)
                        requires
                            0 <= i < self.ncols,
                            0 <= j < self.nrows,
                            0 <= c < self.ncols,
                            0 <= r < self.nrows,
                            i != c || j != r,
                    ;
                }
            }
            assert(self@ =~~= old(self)@.update(
                c as int,
                old(self)@[c as int].update(r as int, v),
            ));
        }
    }
}

/// An extension trait for the result matrix.
pub trait Ext<F: Float>: Sized + View<V = Seq<Seq<F>>> {
    /// The number of rows: the dimension of each recorded state vector.
    spec fn dim(&self) -> nat;

    /// Initialize a zero-filled matrix with `nrows` rows and `ncols`
    /// columns.
    fn new(nrows: usize, ncols: usize) -> (r: Self)
        requires
            nrows * ncols <= usize::MAX,
        ensures
            r.dim() == nrows,
            r@ == Seq::new(
                ncols as nat,
                |i: int| Seq::new(nrows as nat, |j: int| F::from_ratio_spec(0, 1)),
            ),
    ;

    /// Get the initial values: a copy of column `0`.
    fn initial_values(&self) -> (r: Vec<F>)
        requires
            self@.len() > 0,
        ensures
            r@ == self@[0],
    ;

    /// Set the `i`-th state of the system: store `x` as column `i`.
    fn set_state(&mut self, i: usize, x: Vec<F>)
        requires
            i < old(self)@.len(),
            x@.len() == old(self).dim(),
        ensures
            final(self)@ == old(self)@.update(i as int, x@),
            final(self).dim() == old(self).dim(),
    ;

    /// Get the `i`-th state of the system: a copy of column `i`.
    fn state(&self, i: usize) -> (r: Vec<F>)
        requires
            i < self@.len(),
        ensures
            r@ == self@[i as int],
    ;

    /// Get the `i`-th result vector: a copy of row `i`, one component's
    /// full time series.
    fn result(&self, i: usize) -> (r: Vec<F>)
        requires
            i < self.dim(),
        ensures
            r@ == Seq::new(self@.len(), |c: int| self@[c][i as int]),
    ;
}

impl<F: Float> Ext<F> for Matrix<F> {
    open spec fn dim(&self) -> nat {
        self.dim_spec()
    }

    #[verifier::loop_isolation(false)]
    fn new(nrows: usize, ncols: usize) -> (r: Self) {
        let total = nrows * ncols;
        let zero = F::from_ratio(0, 1);
        let mut data: Vec<F> = Vec::new();
        while data.len() < total
            invariant
                data@.len() <= total,
                forall|k: int| 0 <= k < data@.len() ==> data@[k] == F::from_ratio_spec(0, 1),
            decreases total - data@.len(),
        {
            let ghost pre = data@;
            data.push(zero);
            proof {
                assert forall|k: int| 0 <= k < data@.len() implies data@[k] == F::from_ratio_spec(
                    0,
                    1,
                ) by {
                    if k < pre.len() {
                        assert(data@[k] == pre[k]);
                    } else {
                        assert(data@[k] == zero);
                    }
                }
            }
        }
        let r = Matrix { nrows, ncols, data };
        proof {
            assert forall|i: int, j: int| 0 <= i < ncols && 0 <= j < nrows implies #[trigger] r@[i][j]
                == F::from_ratio_spec(0, 1) by {
                lemma_entry_index_bound(i, j, nrows as int, ncols as int);
            }
            assert(r@ =~~= Seq::new(
                ncols as nat,
                |i: int| Seq::new(nrows as nat, |j: int| F::from_ratio_spec(0, 1)),
            ));
        }
        r
    }

    fn initial_values(&self) -> (r: Vec<F>) {
        self.state(0)
    }

    #[verifier::loop_isolation(false)]
    fn set_state(&mut self, i: usize, x: Vec<F>) {
        proof {
            use_type_invariant(&*self);
        }
        let mut j: usize = 0;
        while j < self.nrows
            invariant
                matrix_inv(*self),
                j <= self.nrows,
                i < self.ncols,
                x@.len() == self.nrows,
                self.nrows == old(self).nrows,
                self.ncols == old(self).ncols,
                forall|jj: int| 0 <= jj < j ==> self.data@[i * self.nrows + jj] == x@[jj],
                forall|k: int|
                    0 <= k < self.data@.len() && !(i * self.nrows <= k < i * self.nrows + j)
                        ==> self.data@[k] == old(self).data@[k],
            decreases self.nrows - j,
        {
            proof {
                lemma_entry_index_bound(i as int, j as int, self.nrows as int, self.ncols as int);
                assert(self.data.len() == self.data@.len());
            }
            let idx = i * self.nrows + j;
            let v = x[j];
            self.data[idx] = v;
            j = j + 1;
        }
        proof {
            assert forall|c: int, jj: int|
                0 <= c < self.ncols && 0 <= jj < self.nrows implies #[trigger] self@[c][jj] == (if c
                == i {
                x@[jj]
            } else {
                old(self)@[c][jj]
            }) by {
                lemma_entry_index_bound(c, jj, self.nrows as int, self.ncols as int);
                if c != i {
                    assert(!(i * self.nrows <= c * self.nrows + jj < i * self.nrows
                        + self.nrows)) by (nonlinear_arith)
                        requires
                            0 <= c < self.ncols,
                            0 <= jj < self.nrows,
                            0 <= i < self.ncols,
                            c != i,
                    ;
                }
            }
            assert(self@ =~~= old(self)@.update(i as int, x@));
        }
    }

    #[verifier::loop_isolation(false)]
    fn state(&self, i: usize) -> (r: Vec<F>) {
        proof {
            use_type_invariant(self);
        }
        let mut r: Vec<F> = Vec::new();
        let mut j: usize = 0;
        while j < self.nrows
            invariant
                matrix_inv(*self),
                j <= self.nrows,
                i < self.ncols,
                r@.len() == j,
                forall|jj: int| 0 <= jj < j ==> r@[jj] == self.data@[i * self.nrows + jj],
            decreases self.nrows - j,
        {
            proof {
                lemma_entry_index_bound(i as int, j as int, self.nrows as int, self.ncols as int);
                assert(self.data.len() == self.data@.len());
            }
            r.push(self.data[i * self.nrows + j]);
            j = j + 1;
        }
        proof {
            assert(r@ =~= self@[i as int]);
        }
        r
    }

    #[verifier::loop_isolation(false)]
    fn result(&self, i: usize) -> (r: Vec<F>) {
        proof {
            use_type_invariant(self);
        }
        let mut r: Vec<F> = Vec::new();
        let mut c: usize = 0;
        while c < self.ncols
            invariant
                matrix_inv(*self),
                c <= self.ncols,
                i < self.nrows,
                r@.len() == c,
                forall|cc: int| 0 <= cc < c ==> r@[cc] == self.data@[cc * self.nrows + i],
            decreases self.ncols - c,
        {
            proof {
                lemma_entry_index_bound(c as int, i as int, self.nrows as int, self.ncols as int);
                assert(self.data.len() == self.data@.len());
            }
            r.push(self.data[c * self.nrows + i]);
            c = c + 1;
        }
        proof {
            assert(r@ =~= Seq::new(self@.len(), |cc: int| self@[cc][i as int]));
        }
        r
    }
}

/// Copy a state vector.
#[verifier::loop_isolation(false)]
pub(crate) fn copy_vec<F: Float>(x: &Vec<F>) -> (r: Vec<F>)
    ensures
        r@ == x@,
{
    let mut r: Vec<F> = Vec::new();
    let mut j: usize = 0;
    while j < x.len()
        invariant
            j <= x@.len(),
            r@.len() == j,
            forall|k: int| 0 <= k < j ==> r@[k] == x@[k],
        decreases x@.len() - j,
    {
        r.push(x[j]);
        j = j + 1;
    }
    proof {
        assert(r@ =~= x@);
    }
    r
}

/// The contents of a freshly prepared matrix: the initial values in
/// column `0`, zeroes in the `n` columns after it.
pub open spec fn prepare_spec<F: Float>(x: Seq<F>, n: nat) -> Seq<Seq<F>> {
    Seq::new(
        n + 1,
        |i: int|
            if i == 0 {
                x
            } else {
                Seq::new(x.len(), |j: int| F::from_ratio_spec(0, 1))
            },
    )
}

/// Prepare a matrix for the result of an `n`-step integration and put
/// the initial values in the first column.
#[verifier::loop_isolation(false)]
pub fn prepare<F: Float>(x: &Vec<F>, n: usize) -> (r: Matrix<F>)
    requires
        n < usize::MAX,
        x@.len() * (n + 1) <= usize::MAX,
    ensures
        r@ == prepare_spec(x@, n as nat),
        r.dim() == x@.len(),
{
    let mut r = Matrix::new(x.len(), n + 1);
    let xc = copy_vec(x);
    r.set_state(0, xc);
    proof {
        assert(r@ =~~= prepare_spec(x@, n as nat));
    }
    r
}

/// The first column of a freshly prepared matrix is exactly the vector
/// of initial values that was passed in, whatever its dimension.
pub proof fn lemma_prepare_initial_values<F: Float>(x: Seq<F>, n: nat)
    ensures
        prepare_spec(x, n)[0] == x,
        prepare_spec(x, n).len() == n + 1,
{
}

} // verus!
