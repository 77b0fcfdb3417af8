//! Linear algebra kernel policy and the mathematics of scatter assembly.
//!
//! The factorizations themselves run on floating-point data in the
//! numeric layer; what stands here is what the engine decides and
//! guarantees about them: which method a system is solved with, which
//! inputs the penalty application accepts, and that scatter assembly is
//! permutation-invariant, so the parallel assembly's interleaving cannot
//! change the assembled matrix.

use vstd::prelude::*;
use vstd::pervasive::VecAdditionalExecFns;
use vstd::seq_lib::{commutative_foldr, lemma_fold_right_permutation};
use crate::error::GazelleError;
use crate::scalar::Scalar;

verus! {

/// The methods the kernel can solve a dense linear system with.
#[derive(Debug, Clone, Copy, PartialEq, Eq, Hash, Structural)]
pub enum SolveMethod {
    /// Cholesky-style factorization, for symmetric positive definite
    /// systems.
    Cholesky,
    /// LU factorization, the general direct method.
    LuDecomposition,
    /// Conjugate gradient iteration, for large symmetric positive
    /// definite systems.
    ConjugateGradient,
}

/// Dense matrix operation policy.
pub struct MatrixOps;

impl MatrixOps {
    /// Which method a direct solve of an `n_rows` by `n_cols` system with
    /// a right-hand side of `rhs_len` entries uses: the matrix must be
    /// square and match its right-hand side; a symmetric positive
    /// definite system is factorized by Cholesky; everything else falls
    /// to LU, directly below one thousand rows and as the iterative
    /// path's own fallback above.
    pub fn select_solve_method(n_rows: usize, n_cols: usize, rhs_len: usize, symmetric: bool, positive_definite: bool) -> (r: Result<SolveMethod, GazelleError>)
        ensures
            r is Ok <==> (n_rows == n_cols && n_rows == rhs_len),
            r matches Err(e) ==> e is MatrixError,
            r matches Ok(m) ==> m == (if symmetric && positive_definite {
                SolveMethod::Cholesky
            } else {
                SolveMethod::LuDecomposition
            }),
    {
        if n_rows != n_cols {
            return Err(GazelleError::MatrixError(
                "Matrix must be square for linear system solving".to_string(),
            ));
        }
        if n_rows != rhs_len {
            return Err(GazelleError::MatrixError(
                "Matrix and vector dimensions must match".to_string(),
            ));
        }
        if symmetric && positive_definite {
            Ok(SolveMethod::Cholesky)
        } else if n_rows < 1000 {
            Ok(SolveMethod::LuDecomposition)
        } else {
            // the iterative path: conjugate gradient wants a symmetric
            // positive definite system, which this is not, so it falls
            // back to the direct method
            Ok(SolveMethod::LuDecomposition)
        }
    }

    /// Which method an explicitly iterative solve uses: conjugate
    /// gradient for a symmetric positive definite system, the direct LU
    /// fallback otherwise.
    pub fn select_iterative_method(symmetric: bool, positive_definite: bool) -> (r: SolveMethod)
        ensures
            r == (if symmetric && positive_definite {
                SolveMethod::ConjugateGradient
            } else {
                SolveMethod::LuDecomposition
            }),
    {
        if symmetric && positive_definite {
            SolveMethod::ConjugateGradient
        } else {
            SolveMethod::LuDecomposition
        }
    }

    /// Whether a penalty application is well formed against an `n`-row
    /// system: as many prescribed values as constrained DOFs, and every
    /// constrained DOF inside the system.
    pub fn check_constraint_application(n: usize, constrained_dofs: &Vec<usize>, prescribed_len: usize) -> (r: Result<(), GazelleError>)
        ensures
            r is Ok <==> (constrained_dofs@.len() == prescribed_len
                && (forall|i: int| 0 <= i < constrained_dofs@.len() ==> (#[trigger] constrained_dofs@[i]) < n)),
            r matches Err(e) ==> e is ValidationError,
    {
        if constrained_dofs.len() != prescribed_len {
            return Err(GazelleError::ValidationError(
                "Number of constrained DOFs must match prescribed values".to_string(),
            ));
        }
        let mut i: usize = 0;
        while i < constrained_dofs.len()
            invariant
                i <= constrained_dofs@.len(),
                forall|k: int| 0 <= k < i ==> (#[trigger] constrained_dofs@[k]) < n,
            decreases constrained_dofs@.len() - i,
        {
            if constrained_dofs[i] >= n {
                return Err(GazelleError::ValidationError(
                    "Constrained DOF exceeds matrix size".to_string(),
                ));
            }
            i += 1;
        }
        Ok(())
    }
}

/// One element's contribution to the global matrix: its global DOF
/// indices and its local matrix, in the exact-arithmetic model that
/// integer values stand for.
pub struct Contribution {
    pub dofs: Seq<int>,
    pub values: Seq<Seq<int>>,
}

/// The global matrix, as a mapping from an index pair to the exact value
/// accumulated there.
pub type GlobalMatrix = spec_fn(int, int) -> int;

/// The part of a contribution's entry at global row `i`, column `j`,
/// summed over its first `q` local columns for local row `p`.
pub open spec fn spec_contribution_cols(c: Contribution, p: int, j: int, q: int) -> int
    decreases q,
{
    if q <= 0 {
        0
    } else {
        spec_contribution_cols(c, p, j, q - 1)
            + if c.dofs[q - 1] == j { c.values[p][q - 1] } else { 0 }
    }
}

/// The part of a contribution's entry at global row `i`, column `j`,
/// summed over its first `p` local rows.
pub open spec fn spec_contribution_rows(c: Contribution, i: int, j: int, p: int) -> int
    decreases p,
{
    if p <= 0 {
        0
    } else {
        spec_contribution_rows(c, i, j, p - 1)
            + if c.dofs[p - 1] == i { spec_contribution_cols(c, p - 1, j, c.dofs.len() as int) } else { 0 }
    }
}

/// What one contribution adds at global entry (i, j): the sum of its
/// local entries over every pair of its local DOFs mapped to (i, j).
/// Overlapping DOFs of different elements accumulate additively.
pub open spec fn spec_contribution_entry(c: Contribution, i: int, j: int) -> int {
    spec_contribution_rows(c, i, j, c.dofs.len() as int)
}

/// The zero global matrix.
pub open spec fn spec_zero_matrix() -> GlobalMatrix {
    |i: int, j: int| 0
}

/// One scatter-add step: the contribution's entries added on top of an
/// already assembled matrix.
pub open spec fn spec_scatter_step(c: Contribution, g: GlobalMatrix) -> GlobalMatrix {
    |i: int, j: int| g(i, j) + spec_contribution_entry(c, i, j)
}

/// The global matrix assembled by scatter-adding the contributions in
/// sequence order.
pub open spec fn spec_assembled(cs: Seq<Contribution>) -> GlobalMatrix {
    cs.fold_right(|c: Contribution, g: GlobalMatrix| spec_scatter_step(c, g), spec_zero_matrix())
}

/// Assembly is permutation-invariant: scatter-adding the same multiset
/// of element contributions in any order yields the same global matrix,
/// entry for entry, because each entry is a sum of independent terms.
/// This is what makes the parallel assembly sound: however the workers'
/// lock acquisitions interleave, the assembled matrix is the one the
/// sequential order yields.
pub proof fn lemma_assembly_permutation_invariant(cs1: Seq<Contribution>, cs2: Seq<Contribution>)
    requires
        cs1.to_multiset() == cs2.to_multiset(),
    ensures
        spec_assembled(cs1) == spec_assembled(cs2),
{
    let f = |c: Contribution, g: GlobalMatrix| spec_scatter_step(c, g);
    assert(commutative_foldr(f)) by {
        assert forall|x: Contribution, y: Contribution, v: GlobalMatrix|
            #[trigger] f(x, f(y, v)) == f(y, f(x, v)) by {
            assert(f(x, f(y, v)) =~= f(y, f(x, v)));
        }
    }
    lemma_fold_right_permutation(cs1, cs2, f, spec_zero_matrix());
}

/// A global load (or displacement) vector in the exact model.
pub type GlobalVector = spec_fn(int) -> int;

/// The dot product of the first `j` columns of row `i` of a global
/// matrix with a displacement vector.
pub open spec fn spec_apply_row(g: GlobalMatrix, u: Seq<int>, i: int, j: int) -> int
    decreases j,
{
    if j <= 0 {
        0
    } else {
        spec_apply_row(g, u, i, j - 1) + g(i, j - 1) * u[j - 1]
    }
}

/// The matrix applied to a displacement vector: the force each global
/// DOF sees.
pub open spec fn spec_apply(g: GlobalMatrix, u: Seq<int>, n: int) -> Seq<int> {
    Seq::new(n as nat, |i: int| spec_apply_row(g, u, i, u.len() as int))
}

/// The zero vector of `n` slots.
pub open spec fn spec_zero_vector(n: int) -> Seq<int> {
    Seq::new(n as nat, |i: int| 0)
}

/// Any matrix maps the zero displacement to the zero force.
proof fn lemma_apply_row_zero(g: GlobalMatrix, n: int, i: int, j: int)
    requires
        0 <= j <= n,
    ensures
        spec_apply_row(g, spec_zero_vector(n), i, j) == 0,
    decreases j,
{
    if j > 0 {
        lemma_apply_row_zero(g, n, i, j - 1);
        assert(spec_zero_vector(n)[j - 1] == 0);
    }
}

/// A zero load with any valid boundary conditions yields the zero
/// displacement vector: whenever the constrained system determines its
/// solution uniquely, the displacement that balances a zero load is the
/// zero vector, since the zero vector already balances it (exact
/// arithmetic).
pub proof fn lemma_zero_load_zero_displacement(g: GlobalMatrix, u: Seq<int>, n: int)
    requires
        0 <= n,
        u.len() == n,
        spec_apply(g, u, n) == spec_zero_vector(n),
        forall|v: Seq<int>, w: Seq<int>|
            v.len() == n && w.len() == n
                && #[trigger] spec_apply(g, v, n) == #[trigger] spec_apply(g, w, n) ==> v == w,
    ensures
        u == spec_zero_vector(n),
{
    let zero = spec_zero_vector(n);
    assert(spec_apply(g, zero, n) =~= zero) by {
        assert forall|i: int| 0 <= i < n
            implies spec_apply(g, zero, n)[i] == zero[i] by {
            lemma_apply_row_zero(g, n, i, n);
        }
    }
    assert(spec_apply(g, u, n) == spec_apply(g, zero, n));
}

/// One penalty application at a constrained DOF: the stiffness gains the
/// penalty at the diagonal entry, the load gains penalty times the
/// prescribed value at the slot.
pub open spec fn spec_penalty_matrix(g: GlobalMatrix, dof: int, penalty: int) -> GlobalMatrix {
    |i: int, j: int| if i == dof && j == dof { g(i, j) + penalty } else { g(i, j) }
}

/// The load vector after one penalty application.
pub open spec fn spec_penalty_load(f: GlobalVector, dof: int, value: int, penalty: int) -> GlobalVector {
    |i: int| if i == dof { f(i) + penalty * value } else { f(i) }
}

/// Re-applying the same penalty constraint to an already constrained DOF
/// only raises the penalty magnitude: the twice-applied system is the
/// once-applied system with the summed penalty, prescribing the same
/// value at the same DOF. The displacement the penalty method drives
/// that DOF toward is therefore the same self-consistent prescribed
/// value, whatever the magnitude.
pub proof fn lemma_penalty_reapplication(g: GlobalMatrix, f: GlobalVector, dof: int, value: int, p1: int, p2: int)
    ensures
        spec_penalty_matrix(spec_penalty_matrix(g, dof, p1), dof, p2)
            == spec_penalty_matrix(g, dof, p1 + p2),
        spec_penalty_load(spec_penalty_load(f, dof, value, p1), dof, value, p2)
            == spec_penalty_load(f, dof, value, p1 + p2),
{
    assert(spec_penalty_matrix(spec_penalty_matrix(g, dof, p1), dof, p2)
        =~= spec_penalty_matrix(g, dof, p1 + p2));
    assert forall|i: int|
        #[trigger] spec_penalty_load(spec_penalty_load(f, dof, value, p1), dof, value, p2)(i)
            == spec_penalty_load(f, dof, value, p1 + p2)(i) by {
        if i == dof {
            assert(p1 * value + p2 * value == (p1 + p2) * value) by (nonlinear_arith);
        }
    }
    assert(spec_penalty_load(spec_penalty_load(f, dof, value, p1), dof, value, p2)
        =~= spec_penalty_load(f, dof, value, p1 + p2));
}

/// The vector after writing `vals[k]` at slot `idxs[k]` for the first
/// `n` writes, in order: a later write to the same slot wins.
pub open spec fn spec_scatter_writes(base: Seq<Scalar>, idxs: Seq<usize>, vals: Seq<Scalar>, n: int) -> Seq<Scalar>
    decreases n,
{
    if n <= 0 {
        base
    } else {
        spec_scatter_writes(base, idxs, vals, n - 1).update(idxs[n - 1] as int, vals[n - 1])
    }
}

/// The zero value at every one of `n` slots.
pub open spec fn spec_zero_values(n: int) -> Seq<Scalar> {
    Seq::new(n as nat, |i: int| Scalar { bits: 0u64 })
}

impl MatrixOps {
    /// The entries of a vector at the given indices, in index-list order.
    pub fn extract_subvector(vector: &Vec<Scalar>, indices: &Vec<usize>) -> (r: Vec<Scalar>)
        requires
            forall|i: int| 0 <= i < indices@.len() ==> (#[trigger] indices@[i]) < vector@.len(),
        ensures
            r@.len() == indices@.len(),
            forall|i: int| 0 <= i < r@.len() ==> #[trigger] r@[i] == vector@[indices@[i] as int],
    {
        let mut r: Vec<Scalar> = Vec::new();
        let mut i: usize = 0;
        while i < indices.len()
            invariant
                i <= indices@.len(),
                forall|k: int| 0 <= k < indices@.len() ==> (#[trigger] indices@[k]) < vector@.len(),
                r@.len() == i,
                forall|k: int| 0 <= k < i ==> #[trigger] r@[k] == vector@[indices@[k] as int],
            decreases indices@.len() - i,
        {
            r.push(vector[indices[i]]);
            i += 1;
        }
        r
    }

    /// The entries of a matrix at the cross product of the given row and
    /// column indices.
    pub fn extract_submatrix(matrix: &Vec<Vec<Scalar>>, row_indices: &Vec<usize>, col_indices: &Vec<usize>) -> (r: Vec<Vec<Scalar>>)
        requires
            forall|i: int| 0 <= i < row_indices@.len() ==> (#[trigger] row_indices@[i]) < matrix@.len(),
            forall|i: int, j: int| #![trigger row_indices@[i], col_indices@[j]]
                0 <= i < row_indices@.len() && 0 <= j < col_indices@.len()
                ==> col_indices@[j] < matrix@[row_indices@[i] as int]@.len(),
        ensures
            r@.len() == row_indices@.len(),
            forall|i: int| 0 <= i < r@.len() ==> (#[trigger] r@[i])@.len() == col_indices@.len(),
            forall|i: int, j: int| 0 <= i < r@.len() && 0 <= j < col_indices@.len()
                ==> #[trigger] r@[i]@[j] == matrix@[row_indices@[i] as int]@[col_indices@[j] as int],
    {
        let mut r: Vec<Vec<Scalar>> = Vec::new();
        let mut i: usize = 0;
        while i < row_indices.len()
            invariant
                i <= row_indices@.len(),
                forall|k: int| 0 <= k < row_indices@.len() ==> (#[trigger] row_indices@[k]) < matrix@.len(),
                forall|k: int, j: int| #![trigger row_indices@[k], col_indices@[j]]
                    0 <= k < row_indices@.len() && 0 <= j < col_indices@.len()
                    ==> col_indices@[j] < matrix@[row_indices@[k] as int]@.len(),
                r@.len() == i,
                forall|k: int| 0 <= k < i ==> (#[trigger] r@[k])@.len() == col_indices@.len(),
                forall|k: int, j: int| 0 <= k < i && 0 <= j < col_indices@.len()
                    ==> #[trigger] r@[k]@[j] == matrix@[row_indices@[k] as int]@[col_indices@[j] as int],
            decreases row_indices@.len() - i,
        {
            let source_row = row_indices[i];
            let mut row: Vec<Scalar> = Vec::new();
            let mut j: usize = 0;
            while j < col_indices.len()
                invariant
                    0 <= i < row_indices@.len(),
                    source_row == row_indices@[i as int],
                    source_row < matrix@.len(),
                    forall|k: int, j2: int| #![trigger row_indices@[k], col_indices@[j2]]
                        0 <= k < row_indices@.len() && 0 <= j2 < col_indices@.len()
                        ==> col_indices@[j2] < matrix@[row_indices@[k] as int]@.len(),
                    j <= col_indices@.len(),
                    row@.len() == j,
                    forall|j2: int| 0 <= j2 < j
                        ==> #[trigger] row@[j2] == matrix@[source_row as int]@[col_indices@[j2] as int],
                decreases col_indices@.len() - j,
            {
                row.push(matrix[source_row][col_indices[j]]);
                j += 1;
            }
            r.push(row);
            i += 1;
        }
        r
    }

    /// Expand a reduced solution to the full DOF vector: free-DOF values
    /// first, prescribed values after, each write landing at its global
    /// slot over a zero background.
    pub fn expand_solution(
        reduced_solution: &Vec<Scalar>,
        free_dofs: &Vec<usize>,
        constrained_dofs: &Vec<usize>,
        prescribed_values: &Vec<Scalar>,
        total_dofs: usize,
    ) -> (r: Vec<Scalar>)
        requires
            free_dofs@.len() == reduced_solution@.len(),
            constrained_dofs@.len() == prescribed_values@.len(),
            forall|i: int| 0 <= i < free_dofs@.len() ==> (#[trigger] free_dofs@[i]) < total_dofs,
            forall|i: int| 0 <= i < constrained_dofs@.len() ==> (#[trigger] constrained_dofs@[i]) < total_dofs,
        ensures
            r@ == spec_scatter_writes(
                spec_scatter_writes(
                    spec_zero_values(total_dofs as int),
                    free_dofs@,
                    reduced_solution@,
                    free_dofs@.len() as int,
                ),
                constrained_dofs@,
                prescribed_values@,
                constrained_dofs@.len() as int,
            ),
    {
        let mut r: Vec<Scalar> = Vec::new();
        let mut g: usize = 0;
        while g < total_dofs
            invariant
                g <= total_dofs,
                r@.len() == g,
                forall|k: int| 0 <= k < g ==> (#[trigger] r@[k]).bits == 0u64,
            decreases total_dofs - g,
        {
            r.push(Scalar::zero());
            g += 1;
        }
        proof {
            assert(r@ =~= spec_zero_values(total_dofs as int));
        }
        let ghost zeros = r@;
        let mut i: usize = 0;
        while i < free_dofs.len()
            invariant
                i <= free_dofs@.len(),
                free_dofs@.len() == reduced_solution@.len(),
                forall|k: int| 0 <= k < free_dofs@.len() ==> (#[trigger] free_dofs@[k]) < total_dofs,
                r@.len() == total_dofs,
                r@ == spec_scatter_writes(zeros, free_dofs@, reduced_solution@, i as int),
            decreases free_dofs@.len() - i,
        {
            r.set(free_dofs[i], reduced_solution[i]);
            i += 1;
        }
        let ghost after_free = r@;
        let mut i: usize = 0;
        while i < constrained_dofs.len()
            invariant
                i <= constrained_dofs@.len(),
                constrained_dofs@.len() == prescribed_values@.len(),
                forall|k: int| 0 <= k < constrained_dofs@.len() ==> (#[trigger] constrained_dofs@[k]) < total_dofs,
                r@.len() == total_dofs,
                r@ == spec_scatter_writes(after_free, constrained_dofs@, prescribed_values@, i as int),
            decreases constrained_dofs@.len() - i,
        {
            r.set(constrained_dofs[i], prescribed_values[i]);
            i += 1;
        }
        r
    }
}

} // verus!
