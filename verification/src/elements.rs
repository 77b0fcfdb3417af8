//! Element formulation library: per family, the local stiffness and mass
//! matrices as integer coefficient stencils, each scaled by one physical
//! factor.
//!
//! A local matrix is a sum of groups: for each group the numeric layer
//! multiplies the integer stencil by the factor the tag names (computed
//! from the material, the section and the element length) and adds the
//! results. Splitting the matrix this way puts its whole structure into
//! verified code: every stencil is proved symmetric, and every stiffness
//! stencil is proved to annihilate the rigid translation along the
//! element axis, so the assembled local stiffness matrix is symmetric and
//! singular for the free-free element whatever the factor values are.
//!
//! The transformation from local to global axes is built from direction
//! cosines of the element geometry and stays with the numeric layer, as
//! does the triple product that yields the global matrix.

use vstd::prelude::*;
use crate::error::GazelleError;
use crate::model::{ElementType, ElementProperties, spec_dofs_per_node};
use crate::materials::MaterialProperties;

verus! {

/// The physical factor a stiffness stencil is scaled by.
#[derive(Debug, Clone, Copy, PartialEq, Eq, Hash, Structural)]
pub enum StiffnessFactor {
    /// E·A / L: axial stiffness per length.
    AxialPerLength,
    /// G·J / L: torsional stiffness per length.
    TorsionPerLength,
    /// E·Iy / L^3.
    BendingYCubic,
    /// E·Iy / L^2.
    BendingYSquare,
    /// E·Iy / L.
    BendingYLinear,
    /// E·Iz / L^3.
    BendingZCubic,
    /// E·Iz / L^2.
    BendingZSquare,
    /// E·Iz / L.
    BendingZLinear,
}

/// The physical factor a mass stencil is scaled by; `m` is the element's
/// total mass `rho·A·L`.
#[derive(Debug, Clone, Copy, PartialEq, Eq, Hash, Structural)]
pub enum MassFactor {
    /// m / 6: the classic consistent 1/3 - 1/6 distribution.
    TotalMassSixth,
    /// m / 420: consistent beam mass, length-free entries.
    ConsistentBeamL0,
    /// m·L / 420: consistent beam mass, entries linear in length.
    ConsistentBeamL1,
    /// m·L^2 / 420: consistent beam mass, entries quadratic in length.
    ConsistentBeamL2,
    /// m / 2: lumped translational mass per node.
    TotalMassHalf,
    /// m·L^2 / 12: lumped rotational inertia per node.
    RotationalTwelfth,
}

/// One group of a local stiffness matrix: an integer stencil and the
/// factor it is scaled by.
#[derive(Debug, Clone, PartialEq)]
pub struct StiffnessTerm {
    pub factor: StiffnessFactor,
    pub coef: Vec<Vec<i64>>,
}

/// One group of a local mass matrix.
#[derive(Debug, Clone, PartialEq)]
pub struct MassTerm {
    pub factor: MassFactor,
    pub coef: Vec<Vec<i64>>,
}

/// The stencil is an `n` by `n` matrix.
pub open spec fn spec_is_square(c: Seq<Vec<i64>>, n: int) -> bool {
    c.len() == n && (forall|i: int| 0 <= i < n ==> (#[trigger] c[i])@.len() == n)
}

/// The stencil is symmetric.
pub open spec fn spec_is_symmetric(c: Seq<Vec<i64>>, n: int) -> bool {
    forall|i: int, j: int| 0 <= i < n && 0 <= j < n ==> (#[trigger] c[i]@[j]) == c[j]@[i]
}

/// The dot product of the first `j` entries of a stencil row with a
/// vector.
pub open spec fn spec_row_dot(row: Seq<i64>, v: Seq<int>, j: int) -> int
    decreases j,
{
    if j <= 0 {
        0
    } else {
        spec_row_dot(row, v, j - 1) + row[j - 1] * v[j - 1]
    }
}

/// Every row of the stencil is orthogonal to `v`: the stencil maps `v`
/// to the zero vector.
pub open spec fn spec_annihilates(c: Seq<Vec<i64>>, v: Seq<int>, n: int) -> bool {
    forall|i: int| 0 <= i < n ==> spec_row_dot((#[trigger] c[i])@, v, n) == 0
}

/// The rigid translation along the element axis of a two-node line
/// element with `n` local DOFs: one at the axial slot of each node block
/// (local DOF 0 and local DOF `half`), zero elsewhere.
pub open spec fn spec_axial_translation(n: int, half: int) -> Seq<int> {
    Seq::new(n as nat, |i: int| if i == 0 || i == half { 1 } else { 0 })
}

/// The rigid translation along local axis `o` of a two-node line
/// element: one at slot `o` of each node block. Axis 0 is the element
/// axis; the next one or two axes are the transverse directions.
pub open spec fn spec_rigid_translation(n: int, half: int, o: int) -> Seq<int> {
    Seq::new(n as nat, |i: int| if i == o || i == half + o { 1 } else { 0 })
}

/// Every stencil of the pattern annihilates the rigid translation along
/// each of the element's `translations` local axes: the free-free
/// element resists no rigid translation at all, along or across its
/// axis.
pub open spec fn spec_annihilates_all_translations(terms: Seq<StiffnessTerm>, n: int, half: int, translations: int) -> bool {
    forall|t: int, o: int|
        #![trigger spec_annihilates(terms[t].coef@, spec_rigid_translation(n, half, o), n)]
        0 <= t < terms.len() && 0 <= o < translations
        ==> spec_annihilates(terms[t].coef@, spec_rigid_translation(n, half, o), n)
}

/// A well-formed stiffness pattern for a free-free line element: every
/// stencil is square, symmetric, and annihilates the rigid axial
/// translation.
pub open spec fn spec_stiffness_pattern_wf(terms: Seq<StiffnessTerm>, n: int, half: int) -> bool {
    forall|t: int| 0 <= t < terms.len() ==> {
        &&& spec_is_square((#[trigger] terms[t]).coef@, n)
        &&& spec_is_symmetric(terms[t].coef@, n)
        &&& spec_annihilates(terms[t].coef@, spec_axial_translation(n, half), n)
    }
}

/// A well-formed mass pattern: every stencil is square and symmetric.
pub open spec fn spec_mass_pattern_wf(terms: Seq<MassTerm>, n: int) -> bool {
    forall|t: int| 0 <= t < terms.len() ==> {
        &&& spec_is_square((#[trigger] terms[t]).coef@, n)
        &&& spec_is_symmetric(terms[t].coef@, n)
    }
}

/// Entry (i, j) of the local matrix assembled from the first `t` groups
/// of a pattern with the given (exact, integer-modeled) factor values.
pub open spec fn spec_combined_entry(terms: Seq<StiffnessTerm>, factors: Seq<int>, i: int, j: int, t: int) -> int
    decreases t,
{
    if t <= 0 {
        0
    } else {
        spec_combined_entry(terms, factors, i, j, t - 1) + factors[t - 1] * terms[t - 1].coef@[i]@[j]
    }
}

/// The dot product of the first `j` entries of row `i` of the assembled
/// local matrix with a vector.
pub open spec fn spec_combined_row_dot(terms: Seq<StiffnessTerm>, factors: Seq<int>, v: Seq<int>, i: int, j: int, t: int) -> int
    decreases j,
{
    if j <= 0 {
        0
    } else {
        spec_combined_row_dot(terms, factors, v, i, j - 1, t)
            + spec_combined_entry(terms, factors, i, j - 1, t) * v[j - 1]
    }
}

/// Symmetry of the assembled matrix follows from symmetry of each group.
proof fn lemma_combined_entry_symmetric(terms: Seq<StiffnessTerm>, factors: Seq<int>, n: int, i: int, j: int, t: int)
    requires
        0 <= i < n,
        0 <= j < n,
        t <= terms.len(),
        forall|k: int| 0 <= k < terms.len() ==> spec_is_symmetric((#[trigger] terms[k]).coef@, n),
    ensures
        spec_combined_entry(terms, factors, i, j, t) == spec_combined_entry(terms, factors, j, i, t),
    decreases t,
{
    if t > 0 {
        lemma_combined_entry_symmetric(terms, factors, n, i, j, t - 1);
        assert(terms[t - 1].coef@[i]@[j] == terms[t - 1].coef@[j]@[i]);
    }
}

/// Splitting off the last group of the assembled row dot product.
proof fn lemma_combined_row_dot_split(terms: Seq<StiffnessTerm>, factors: Seq<int>, v: Seq<int>, i: int, j: int, t: int)
    requires
        1 <= t <= terms.len(),
        0 <= j,
    ensures
        spec_combined_row_dot(terms, factors, v, i, j, t)
            == spec_combined_row_dot(terms, factors, v, i, j, t - 1)
                + factors[t - 1] * spec_row_dot(terms[t - 1].coef@[i]@, v, j),
    decreases j,
{
    if j > 0 {
        lemma_combined_row_dot_split(terms, factors, v, i, j - 1, t);
        let f = factors[t - 1];
        let c = terms[t - 1].coef@[i]@[j - 1] as int;
        let w = v[j - 1];
        let e_prev = spec_combined_entry(terms, factors, i, j - 1, t - 1);
        assert(spec_combined_entry(terms, factors, i, j - 1, t) == e_prev + f * c);
        assert((e_prev + f * c) * w == e_prev * w + f * (c * w)) by (nonlinear_arith);
        assert(f * (spec_row_dot(terms[t - 1].coef@[i]@, v, j - 1) + c * w)
            == f * spec_row_dot(terms[t - 1].coef@[i]@, v, j - 1) + f * (c * w)) by (nonlinear_arith);
    }
}

/// The local stiffness matrix of any line element family is symmetric
/// and, for the unconstrained free-free element, singular: for every
/// pattern whose groups are symmetric and annihilate the rigid axial
/// translation, the matrix assembled with any factor values is symmetric
/// and maps that translation to zero, whatever the factors are.
pub proof fn lemma_local_stiffness_symmetric_and_singular(terms: Seq<StiffnessTerm>, factors: Seq<int>, n: int, half: int)
    requires
        factors.len() == terms.len(),
        spec_stiffness_pattern_wf(terms, n, half),
    ensures
        forall|i: int, j: int| 0 <= i < n && 0 <= j < n
            ==> #[trigger] spec_combined_entry(terms, factors, i, j, terms.len() as int)
                == spec_combined_entry(terms, factors, j, i, terms.len() as int),
        forall|i: int| 0 <= i < n
            ==> #[trigger] spec_combined_row_dot(
                terms, factors, spec_axial_translation(n, half), i, n, terms.len() as int,
            ) == 0,
{
    let len = terms.len() as int;
    let v = spec_axial_translation(n, half);
    assert forall|i: int, j: int| 0 <= i < n && 0 <= j < n
        implies #[trigger] spec_combined_entry(terms, factors, i, j, len)
            == spec_combined_entry(terms, factors, j, i, len) by {
        lemma_combined_entry_symmetric(terms, factors, n, i, j, len);
    }
    assert forall|i: int| 0 <= i < n
        implies #[trigger] spec_combined_row_dot(terms, factors, v, i, n, len) == 0 by {
        assert forall|k: int| 0 <= k < terms.len()
            implies spec_annihilates((#[trigger] terms[k]).coef@, v, n) by {
        }
        lemma_combined_row_dot_vanishes(terms, factors, v, i, n, len);
    }
}

/// With no groups at all, the assembled row dot product is zero.
proof fn lemma_combined_row_dot_zero_terms(terms: Seq<StiffnessTerm>, factors: Seq<int>, v: Seq<int>, i: int, j: int)
    ensures
        spec_combined_row_dot(terms, factors, v, i, j, 0) == 0,
    decreases j,
{
    if j > 0 {
        lemma_combined_row_dot_zero_terms(terms, factors, v, i, j - 1);
    }
}

/// Each group contributes zero to the row dot product against a vector
/// every group annihilates, so the whole pattern does.
proof fn lemma_combined_row_dot_vanishes(terms: Seq<StiffnessTerm>, factors: Seq<int>, v: Seq<int>, i: int, n: int, t: int)
    requires
        0 <= i < n,
        0 <= t <= terms.len(),
        forall|k: int| 0 <= k < terms.len()
            ==> spec_annihilates((#[trigger] terms[k]).coef@, v, n),
    ensures
        spec_combined_row_dot(terms, factors, v, i, n, t) == 0,
    decreases t,
{
    if t == 0 {
        lemma_combined_row_dot_zero_terms(terms, factors, v, i, n);
    } else {
        lemma_combined_row_dot_vanishes(terms, factors, v, i, n, t - 1);
        lemma_combined_row_dot_split(terms, factors, v, i, n, t);
        assert(spec_row_dot(terms[t - 1].coef@[i]@, v, n) == 0);
    }
}

/// The assembled local stiffness matrix maps every rigid translation its
/// groups annihilate to zero, whatever the factor values are: a pattern
/// that annihilates all of its element's translations leaves every
/// rigid translational mode in the free-free null space.
pub proof fn lemma_local_stiffness_annihilates_translations(terms: Seq<StiffnessTerm>, factors: Seq<int>, n: int, half: int, translations: int)
    requires
        factors.len() == terms.len(),
        spec_annihilates_all_translations(terms, n, half, translations),
    ensures
        forall|i: int, o: int| 0 <= i < n && 0 <= o < translations
            ==> #[trigger] spec_combined_row_dot(
                terms, factors, spec_rigid_translation(n, half, o), i, n, terms.len() as int,
            ) == 0,
{
    assert forall|i: int, o: int| 0 <= i < n && 0 <= o < translations
        implies #[trigger] spec_combined_row_dot(
            terms, factors, spec_rigid_translation(n, half, o), i, n, terms.len() as int,
        ) == 0 by {
        let v = spec_rigid_translation(n, half, o);
        assert forall|k: int| 0 <= k < terms.len()
            implies spec_annihilates((#[trigger] terms[k]).coef@, v, n) by {
            assert(spec_annihilates(terms[k].coef@, spec_rigid_translation(n, half, o), n));
        }
        lemma_combined_row_dot_vanishes(terms, factors, v, i, n, terms.len() as int);
    }
}

/// The dot product of a row with the rigid axial translation reduces to
/// the row's entries at the two axial slots.
proof fn lemma_axial_row_dot(row: Seq<i64>, n: int, half: int, j: int)
    requires
        0 < half < n,
        0 <= j <= n,
    ensures
        spec_row_dot(row, spec_axial_translation(n, half), j)
            == (if j > 0 { row[0] as int } else { 0 }) + (if j > half { row[half] as int } else { 0 }),
    decreases j,
{
    if j > 0 {
        lemma_axial_row_dot(row, n, half, j - 1);
        let v = spec_axial_translation(n, half);
        if j - 1 == 0 || j - 1 == half {
            assert(v[j - 1] == 1);
        } else {
            assert(v[j - 1] == 0);
        }
    }
}

/// The dot product of a row with a rigid translation reduces to the
/// row's entries at the translation's two slots.
proof fn lemma_translation_row_dot(row: Seq<i64>, n: int, half: int, o: int, j: int)
    requires
        0 <= o < half,
        half + o < n,
        0 <= j <= n,
    ensures
        spec_row_dot(row, spec_rigid_translation(n, half, o), j)
            == (if j > o { row[o] as int } else { 0 }) + (if j > half + o { row[half + o] as int } else { 0 }),
    decreases j,
{
    if j > 0 {
        lemma_translation_row_dot(row, n, half, o, j - 1);
        let v = spec_rigid_translation(n, half, o);
        if j - 1 == o || j - 1 == half + o {
            assert(v[j - 1] == 1);
        } else {
            assert(v[j - 1] == 0);
        }
    }
}

/// A square stencil whose rows each sum to zero over a translation's two
/// slots annihilates that rigid translation.
proof fn lemma_annihilates_from_slots(c: Seq<Vec<i64>>, n: int, half: int, o: int)
    requires
        0 <= o < half,
        half + o < n,
        spec_is_square(c, n),
        forall|i: int| 0 <= i < n ==> (#[trigger] c[i])@[o] as int + c[i]@[half + o] as int == 0,
    ensures
        spec_annihilates(c, spec_rigid_translation(n, half, o), n),
{
    assert forall|i: int| 0 <= i < n
        implies spec_row_dot((#[trigger] c[i])@, spec_rigid_translation(n, half, o), n) == 0 by {
        lemma_translation_row_dot(c[i]@, n, half, o, n);
    }
}

/// A square stencil whose rows each sum to zero over the two axial slots
/// annihilates the rigid axial translation.
proof fn lemma_annihilates_from_ends(c: Seq<Vec<i64>>, n: int, half: int)
    requires
        0 < half < n,
        spec_is_square(c, n),
        forall|i: int| 0 <= i < n ==> (#[trigger] c[i])@[0] as int + c[i]@[half] as int == 0,
    ensures
        spec_annihilates(c, spec_axial_translation(n, half), n),
{
    assert forall|i: int| 0 <= i < n
        implies spec_row_dot((#[trigger] c[i])@, spec_axial_translation(n, half), n) == 0 by {
        lemma_axial_row_dot(c[i]@, n, half, n);
    }
}

/// Stencil entries of an axial or torsional coupling between slots `a`
/// and `b`: `s` on their diagonal entries, `-s` on their crossings.
pub open spec fn spec_pair_coef(a: int, b: int, s: int, i: int, j: int) -> int {
    if (i == a && j == a) || (i == b && j == b) {
        s
    } else if (i == a && j == b) || (i == b && j == a) {
        -s
    } else {
        0
    }
}

/// Stencil entries coupling the translations `t1`, `t2` with the
/// rotations `r1`, `r2` of a bending group: `s` against `t1`, `-s`
/// against `t2`, symmetric.
pub open spec fn spec_cross_coef(t1: int, t2: int, r1: int, r2: int, s: int, i: int, j: int) -> int {
    if (i == t1 && (j == r1 || j == r2)) || (j == t1 && (i == r1 || i == r2)) {
        s
    } else if (i == t2 && (j == r1 || j == r2)) || (j == t2 && (i == r1 || i == r2)) {
        -s
    } else {
        0
    }
}

/// Stencil entries of a rotational group on slots `r1`, `r2`: `2·s` on
/// the diagonal, `s` on the crossing.
pub open spec fn spec_rot_coef(r1: int, r2: int, s: int, i: int, j: int) -> int {
    if (i == r1 && j == r1) || (i == r2 && j == r2) {
        2 * s
    } else if (i == r1 && j == r2) || (i == r2 && j == r1) {
        s
    } else {
        0
    }
}

/// Mass stencil entries of a consistent coupling between slots `a` and
/// `b`: `d` on their diagonal entries, `o` on their crossings.
pub open spec fn spec_mass_pair_coef(a: int, b: int, d: int, o: int, i: int, j: int) -> int {
    if (i == a && j == a) || (i == b && j == b) {
        d
    } else if (i == a && j == b) || (i == b && j == a) {
        o
    } else {
        0
    }
}

/// The length-linear entries of the consistent planar beam mass stencil,
/// at the common denominator of 420.
pub open spec fn spec_beam_mass_l1_coef(i: int, j: int) -> int {
    if (i == 1 && j == 2) || (i == 2 && j == 1) {
        22
    } else if (i == 1 && j == 5) || (i == 5 && j == 1) {
        -13
    } else if (i == 2 && j == 4) || (i == 4 && j == 2) {
        13
    } else if (i == 4 && j == 5) || (i == 5 && j == 4) {
        -22
    } else {
        0
    }
}

/// The length-quadratic entries of the consistent planar beam mass
/// stencil, at the common denominator of 420.
pub open spec fn spec_beam_mass_l2_coef(i: int, j: int) -> int {
    if (i == 2 && j == 2) || (i == 5 && j == 5) {
        4
    } else if (i == 2 && j == 5) || (i == 5 && j == 2) {
        -3
    } else {
        0
    }
}

/// The lumped translational mass stencil of a space frame: one at the
/// three translation slots of each node block.
pub open spec fn spec_lumped_translation_coef(i: int, j: int) -> int {
    if i == j && i % 6 < 3 {
        1
    } else {
        0
    }
}

/// The lumped rotational inertia stencil of a space frame: one at the
/// three rotation slots of each node block.
pub open spec fn spec_lumped_rotation_coef(i: int, j: int) -> int {
    if i == j && i % 6 >= 3 {
        1
    } else {
        0
    }
}


/// The exact local stiffness pattern of each supported family: the group
/// count, the factor tag of each group, and every stencil entry. A
/// planar frame member shares the planar beam pattern, and a space beam
/// shares the space frame pattern; the unsupported families have no
/// pattern at all.
pub open spec fn spec_stiffness_pattern_of(et: ElementType, v: Seq<StiffnessTerm>) -> bool {
    match et {
        ElementType::Truss2D => {
            &&& v.len() == 1
            &&& v[0].factor is AxialPerLength
            &&& (forall|i: int, j: int| 0 <= i < 4 && 0 <= j < 4
                ==> (#[trigger] v[0].coef@[i]@[j]) as int == spec_pair_coef(0, 2, 1, i, j))
        },
        ElementType::Truss3D => {
            &&& v.len() == 1
            &&& v[0].factor is AxialPerLength
            &&& (forall|i: int, j: int| 0 <= i < 6 && 0 <= j < 6
                ==> (#[trigger] v[0].coef@[i]@[j]) as int == spec_pair_coef(0, 3, 1, i, j))
        },
        ElementType::Beam2D | ElementType::Frame2D => {
            &&& v.len() == 4
            &&& v[0].factor is AxialPerLength
            &&& v[1].factor is BendingZCubic
            &&& v[2].factor is BendingZSquare
            &&& v[3].factor is BendingZLinear
            &&& (forall|i: int, j: int| 0 <= i < 6 && 0 <= j < 6
                ==> (#[trigger] v[0].coef@[i]@[j]) as int == spec_pair_coef(0, 3, 1, i, j))
            &&& (forall|i: int, j: int| 0 <= i < 6 && 0 <= j < 6
                ==> (#[trigger] v[1].coef@[i]@[j]) as int == spec_pair_coef(1, 4, 12, i, j))
            &&& (forall|i: int, j: int| 0 <= i < 6 && 0 <= j < 6
                ==> (#[trigger] v[2].coef@[i]@[j]) as int == spec_cross_coef(1, 4, 2, 5, 6, i, j))
            &&& (forall|i: int, j: int| 0 <= i < 6 && 0 <= j < 6
                ==> (#[trigger] v[3].coef@[i]@[j]) as int == spec_rot_coef(2, 5, 2, i, j))
        },
        ElementType::Beam3D | ElementType::Frame3D => {
            &&& v.len() == 8
            &&& v[0].factor is AxialPerLength
            &&& v[1].factor is TorsionPerLength
            &&& v[2].factor is BendingYCubic
            &&& v[3].factor is BendingYSquare
            &&& v[4].factor is BendingYLinear
            &&& v[5].factor is BendingZCubic
            &&& v[6].factor is BendingZSquare
            &&& v[7].factor is BendingZLinear
            &&& (forall|i: int, j: int| 0 <= i < 12 && 0 <= j < 12
                ==> (#[trigger] v[0].coef@[i]@[j]) as int == spec_pair_coef(0, 6, 1, i, j))
            &&& (forall|i: int, j: int| 0 <= i < 12 && 0 <= j < 12
                ==> (#[trigger] v[1].coef@[i]@[j]) as int == spec_pair_coef(3, 9, 1, i, j))
            &&& (forall|i: int, j: int| 0 <= i < 12 && 0 <= j < 12
                ==> (#[trigger] v[2].coef@[i]@[j]) as int == spec_pair_coef(2, 8, 12, i, j))
            &&& (forall|i: int, j: int| 0 <= i < 12 && 0 <= j < 12
                ==> (#[trigger] v[3].coef@[i]@[j]) as int == spec_cross_coef(2, 8, 4, 10, 6, i, j))
            &&& (forall|i: int, j: int| 0 <= i < 12 && 0 <= j < 12
                ==> (#[trigger] v[4].coef@[i]@[j]) as int == spec_rot_coef(4, 10, 2, i, j))
            &&& (forall|i: int, j: int| 0 <= i < 12 && 0 <= j < 12
                ==> (#[trigger] v[5].coef@[i]@[j]) as int == spec_pair_coef(1, 7, 12, i, j))
            &&& (forall|i: int, j: int| 0 <= i < 12 && 0 <= j < 12
                ==> (#[trigger] v[6].coef@[i]@[j]) as int == spec_cross_coef(1, 7, 5, 11, -6, i, j))
            &&& (forall|i: int, j: int| 0 <= i < 12 && 0 <= j < 12
                ==> (#[trigger] v[7].coef@[i]@[j]) as int == spec_rot_coef(5, 11, 2, i, j))
        },
        ElementType::Plate | ElementType::Shell | ElementType::Solid => false,
    }
}

/// The exact local mass pattern of each supported family, under the same
/// sharing as the stiffness patterns.
pub open spec fn spec_mass_pattern_of(et: ElementType, v: Seq<MassTerm>) -> bool {
    match et {
        ElementType::Truss2D => {
            &&& v.len() == 1
            &&& v[0].factor is TotalMassSixth
            &&& (forall|i: int, j: int| 0 <= i < 4 && 0 <= j < 4
                ==> (#[trigger] v[0].coef@[i]@[j]) as int == spec_mass_pair_coef(0, 2, 2, 1, i, j) + spec_mass_pair_coef(1, 3, 2, 1, i, j))
        },
        ElementType::Truss3D => {
            &&& v.len() == 1
            &&& v[0].factor is TotalMassSixth
            &&& (forall|i: int, j: int| 0 <= i < 6 && 0 <= j < 6
                ==> (#[trigger] v[0].coef@[i]@[j]) as int
                    == spec_mass_pair_coef(0, 3, 2, 1, i, j) + spec_mass_pair_coef(1, 4, 2, 1, i, j)
                        + spec_mass_pair_coef(2, 5, 2, 1, i, j))
        },
        ElementType::Beam2D | ElementType::Frame2D => {
            &&& v.len() == 3
            &&& v[0].factor is ConsistentBeamL0
            &&& v[1].factor is ConsistentBeamL1
            &&& v[2].factor is ConsistentBeamL2
            &&& (forall|i: int, j: int| 0 <= i < 6 && 0 <= j < 6
                ==> (#[trigger] v[0].coef@[i]@[j]) as int == spec_mass_pair_coef(0, 3, 140, 70, i, j) + spec_mass_pair_coef(1, 4, 156, 54, i, j))
            &&& (forall|i: int, j: int| 0 <= i < 6 && 0 <= j < 6
                ==> (#[trigger] v[1].coef@[i]@[j]) as int == spec_beam_mass_l1_coef(i, j))
            &&& (forall|i: int, j: int| 0 <= i < 6 && 0 <= j < 6
                ==> (#[trigger] v[2].coef@[i]@[j]) as int == spec_beam_mass_l2_coef(i, j))
        },
        ElementType::Beam3D | ElementType::Frame3D => {
            &&& v.len() == 2
            &&& v[0].factor is TotalMassHalf
            &&& v[1].factor is RotationalTwelfth
            &&& (forall|i: int, j: int| 0 <= i < 12 && 0 <= j < 12
                ==> (#[trigger] v[0].coef@[i]@[j]) as int == spec_lumped_translation_coef(i, j))
            &&& (forall|i: int, j: int| 0 <= i < 12 && 0 <= j < 12
                ==> (#[trigger] v[1].coef@[i]@[j]) as int == spec_lumped_rotation_coef(i, j))
        },
        ElementType::Plate | ElementType::Shell | ElementType::Solid => false,
    }
}

/// Planar truss: axial stiffness only, between the X slots of its two
/// nodes; consistent mass with the classic 1/3 - 1/6 distribution.
pub struct Truss2D;

impl Truss2D {
    /// The local stiffness pattern: one axial group of E·A/L.
    pub fn local_stiffness_pattern() -> (r: Vec<StiffnessTerm>)
        ensures
            r@.len() == 1,
            r@[0].factor is AxialPerLength,
            forall|i: int, j: int| 0 <= i < 4 && 0 <= j < 4
                ==> (#[trigger] r@[0].coef@[i]@[j]) as int == spec_pair_coef(0, 2, 1, i, j),
            spec_stiffness_pattern_of(ElementType::Truss2D, r@),
            spec_stiffness_pattern_wf(r@, 4, 2),
            spec_annihilates_all_translations(r@, 4, 2, 2),
    {
        let t0 = StiffnessTerm {
            factor: StiffnessFactor::AxialPerLength,
            coef: vec![
                vec![1i64, 0i64, -1i64, 0i64],
                vec![0i64, 0i64, 0i64, 0i64],
                vec![-1i64, 0i64, 1i64, 0i64],
                vec![0i64, 0i64, 0i64, 0i64],
            ],
        };
        proof {
            assert(spec_is_square(t0.coef@, 4));
            assert(spec_is_symmetric(t0.coef@, 4));
            assert forall|i: int| 0 <= i < 4
                implies (#[trigger] t0.coef@[i])@[0] as int + t0.coef@[i]@[2] as int == 0 by {}
            lemma_annihilates_from_ends(t0.coef@, 4, 2);
            assert forall|i: int| 0 <= i < 4
                implies (#[trigger] t0.coef@[i])@[1] as int + t0.coef@[i]@[3] as int == 0 by {}
            lemma_annihilates_from_slots(t0.coef@, 4, 2, 1);
        }
        let mut r: Vec<StiffnessTerm> = Vec::new();
        r.push(t0);
        proof {
            assert(spec_rigid_translation(4, 2, 0) =~= spec_axial_translation(4, 2));
                assert(r@[0] == t0);
            assert forall|t: int, o: int|
                #![trigger spec_annihilates(r@[t].coef@, spec_rigid_translation(4, 2, o), 4)]
                0 <= t < r@.len() && 0 <= o < 2
                implies spec_annihilates(r@[t].coef@, spec_rigid_translation(4, 2, o), 4) by {
            }
        }
        r
    }

    /// The local mass pattern: the consistent truss mass at the common
    /// denominator of 6.
    pub fn mass_pattern() -> (r: Vec<MassTerm>)
        ensures
            r@.len() == 1,
            r@[0].factor is TotalMassSixth,
            forall|i: int, j: int| 0 <= i < 4 && 0 <= j < 4
                ==> (#[trigger] r@[0].coef@[i]@[j]) as int
                    == spec_mass_pair_coef(0, 2, 2, 1, i, j) + spec_mass_pair_coef(1, 3, 2, 1, i, j),
            spec_mass_pattern_of(ElementType::Truss2D, r@),
            spec_mass_pattern_wf(r@, 4),
    {
        let t0 = MassTerm {
            factor: MassFactor::TotalMassSixth,
            coef: vec![
                vec![2i64, 0i64, 1i64, 0i64],
                vec![0i64, 2i64, 0i64, 1i64],
                vec![1i64, 0i64, 2i64, 0i64],
                vec![0i64, 1i64, 0i64, 2i64],
            ],
        };
        proof {
            assert(spec_is_square(t0.coef@, 4));
            assert(spec_is_symmetric(t0.coef@, 4));
        }
        let mut r: Vec<MassTerm> = Vec::new();
        r.push(t0);
        r
    }
}

/// Space truss: axial stiffness only, with direction cosines doing the
/// rest in the numeric layer.
pub struct Truss3D;

impl Truss3D {
    /// The local stiffness pattern: one axial group of E·A/L.
    pub fn local_stiffness_pattern() -> (r: Vec<StiffnessTerm>)
        ensures
            r@.len() == 1,
            r@[0].factor is AxialPerLength,
            forall|i: int, j: int| 0 <= i < 6 && 0 <= j < 6
                ==> (#[trigger] r@[0].coef@[i]@[j]) as int == spec_pair_coef(0, 3, 1, i, j),
            spec_stiffness_pattern_of(ElementType::Truss3D, r@),
            spec_stiffness_pattern_wf(r@, 6, 3),
            spec_annihilates_all_translations(r@, 6, 3, 3),
    {
        let t0 = StiffnessTerm {
            factor: StiffnessFactor::AxialPerLength,
            coef: vec![
                vec![1i64, 0i64, 0i64, -1i64, 0i64, 0i64],
                vec![0i64, 0i64, 0i64, 0i64, 0i64, 0i64],
                vec![0i64, 0i64, 0i64, 0i64, 0i64, 0i64],
                vec![-1i64, 0i64, 0i64, 1i64, 0i64, 0i64],
                vec![0i64, 0i64, 0i64, 0i64, 0i64, 0i64],
                vec![0i64, 0i64, 0i64, 0i64, 0i64, 0i64],
            ],
        };
        proof {
            assert(spec_is_square(t0.coef@, 6));
            assert(spec_is_symmetric(t0.coef@, 6));
            assert forall|i: int| 0 <= i < 6
                implies (#[trigger] t0.coef@[i])@[0] as int + t0.coef@[i]@[3] as int == 0 by {}
            lemma_annihilates_from_ends(t0.coef@, 6, 3);
            assert forall|i: int| 0 <= i < 6
                implies (#[trigger] t0.coef@[i])@[1] as int + t0.coef@[i]@[4] as int == 0 by {}
            lemma_annihilates_from_slots(t0.coef@, 6, 3, 1);
            assert forall|i: int| 0 <= i < 6
                implies (#[trigger] t0.coef@[i])@[2] as int + t0.coef@[i]@[5] as int == 0 by {}
            lemma_annihilates_from_slots(t0.coef@, 6, 3, 2);
        }
        let mut r: Vec<StiffnessTerm> = Vec::new();
        r.push(t0);
        proof {
            assert(spec_rigid_translation(6, 3, 0) =~= spec_axial_translation(6, 3));
                assert(r@[0] == t0);
            assert forall|t: int, o: int|
                #![trigger spec_annihilates(r@[t].coef@, spec_rigid_translation(6, 3, o), 6)]
                0 <= t < r@.len() && 0 <= o < 3
                implies spec_annihilates(r@[t].coef@, spec_rigid_translation(6, 3, o), 6) by {
            }
        }
        r
    }

    /// The local mass pattern: the consistent truss mass at the common
    /// denominator of 6.
    pub fn mass_pattern() -> (r: Vec<MassTerm>)
        ensures
            r@.len() == 1,
            r@[0].factor is TotalMassSixth,
            forall|i: int, j: int| 0 <= i < 6 && 0 <= j < 6
                ==> (#[trigger] r@[0].coef@[i]@[j]) as int
                    == spec_mass_pair_coef(0, 3, 2, 1, i, j) + spec_mass_pair_coef(1, 4, 2, 1, i, j)
                        + spec_mass_pair_coef(2, 5, 2, 1, i, j),
            spec_mass_pattern_of(ElementType::Truss3D, r@),
            spec_mass_pattern_wf(r@, 6),
    {
        let t0 = MassTerm {
            factor: MassFactor::TotalMassSixth,
            coef: vec![
                vec![2i64, 0i64, 0i64, 1i64, 0i64, 0i64],
                vec![0i64, 2i64, 0i64, 0i64, 1i64, 0i64],
                vec![0i64, 0i64, 2i64, 0i64, 0i64, 1i64],
                vec![1i64, 0i64, 0i64, 2i64, 0i64, 0i64],
                vec![0i64, 1i64, 0i64, 0i64, 2i64, 0i64],
                vec![0i64, 0i64, 1i64, 0i64, 0i64, 2i64],
            ],
        };
        proof {
            assert(spec_is_square(t0.coef@, 6));
            assert(spec_is_symmetric(t0.coef@, 6));
        }
        let mut r: Vec<MassTerm> = Vec::new();
        r.push(t0);
        r
    }
}

/// Planar Euler-Bernoulli beam: axial plus bending stiffness in
/// closed-form groups of E·A/L, E·I/L^3, E·I/L^2 and E·I/L; consistent
/// mass at the common denominator of 420.
pub struct Beam2D;

impl Beam2D {
    /// The local stiffness pattern: the axial group and the three bending
    /// groups about the local Z axis.
    pub fn local_stiffness_pattern() -> (r: Vec<StiffnessTerm>)
        ensures
            r@.len() == 4,
            r@[0].factor is AxialPerLength,
            r@[1].factor is BendingZCubic,
            r@[2].factor is BendingZSquare,
            r@[3].factor is BendingZLinear,
            forall|i: int, j: int| 0 <= i < 6 && 0 <= j < 6
                ==> (#[trigger] r@[0].coef@[i]@[j]) as int == spec_pair_coef(0, 3, 1, i, j),
            forall|i: int, j: int| 0 <= i < 6 && 0 <= j < 6
                ==> (#[trigger] r@[1].coef@[i]@[j]) as int == spec_pair_coef(1, 4, 12, i, j),
            forall|i: int, j: int| 0 <= i < 6 && 0 <= j < 6
                ==> (#[trigger] r@[2].coef@[i]@[j]) as int == spec_cross_coef(1, 4, 2, 5, 6, i, j),
            forall|i: int, j: int| 0 <= i < 6 && 0 <= j < 6
                ==> (#[trigger] r@[3].coef@[i]@[j]) as int == spec_rot_coef(2, 5, 2, i, j),
            spec_stiffness_pattern_of(ElementType::Beam2D, r@),
            spec_stiffness_pattern_of(ElementType::Frame2D, r@),
            spec_stiffness_pattern_wf(r@, 6, 3),
            spec_annihilates_all_translations(r@, 6, 3, 2),
    {
        let t0 = StiffnessTerm {
            factor: StiffnessFactor::AxialPerLength,
            coef: vec![
                vec![1i64, 0i64, 0i64, -1i64, 0i64, 0i64],
                vec![0i64, 0i64, 0i64, 0i64, 0i64, 0i64],
                vec![0i64, 0i64, 0i64, 0i64, 0i64, 0i64],
                vec![-1i64, 0i64, 0i64, 1i64, 0i64, 0i64],
                vec![0i64, 0i64, 0i64, 0i64, 0i64, 0i64],
                vec![0i64, 0i64, 0i64, 0i64, 0i64, 0i64],
            ],
        };
        proof {
            assert(spec_is_square(t0.coef@, 6));
            assert(spec_is_symmetric(t0.coef@, 6));
            assert forall|i: int| 0 <= i < 6
                implies (#[trigger] t0.coef@[i])@[0] as int + t0.coef@[i]@[3] as int == 0 by {}
            lemma_annihilates_from_ends(t0.coef@, 6, 3);
            assert forall|i: int| 0 <= i < 6
                implies (#[trigger] t0.coef@[i])@[1] as int + t0.coef@[i]@[4] as int == 0 by {}
            lemma_annihilates_from_slots(t0.coef@, 6, 3, 1);
        }
        let t1 = StiffnessTerm {
            factor: StiffnessFactor::BendingZCubic,
            coef: vec![
                vec![0i64, 0i64, 0i64, 0i64, 0i64, 0i64],
                vec![0i64, 12i64, 0i64, 0i64, -12i64, 0i64],
                vec![0i64, 0i64, 0i64, 0i64, 0i64, 0i64],
                vec![0i64, 0i64, 0i64, 0i64, 0i64, 0i64],
                vec![0i64, -12i64, 0i64, 0i64, 12i64, 0i64],
                vec![0i64, 0i64, 0i64, 0i64, 0i64, 0i64],
            ],
        };
        proof {
            assert(spec_is_square(t1.coef@, 6));
            assert(spec_is_symmetric(t1.coef@, 6));
            assert forall|i: int| 0 <= i < 6
                implies (#[trigger] t1.coef@[i])@[0] as int + t1.coef@[i]@[3] as int == 0 by {}
            lemma_annihilates_from_ends(t1.coef@, 6, 3);
            assert forall|i: int| 0 <= i < 6
                implies (#[trigger] t1.coef@[i])@[1] as int + t1.coef@[i]@[4] as int == 0 by {}
            lemma_annihilates_from_slots(t1.coef@, 6, 3, 1);
        }
        let t2 = StiffnessTerm {
            factor: StiffnessFactor::BendingZSquare,
            coef: vec![
                vec![0i64, 0i64, 0i64, 0i64, 0i64, 0i64],
                vec![0i64, 0i64, 6i64, 0i64, 0i64, 6i64],
                vec![0i64, 6i64, 0i64, 0i64, -6i64, 0i64],
                vec![0i64, 0i64, 0i64, 0i64, 0i64, 0i64],
                vec![0i64, 0i64, -6i64, 0i64, 0i64, -6i64],
                vec![0i64, 6i64, 0i64, 0i64, -6i64, 0i64],
            ],
        };
        proof {
            assert(spec_is_square(t2.coef@, 6));
            assert(spec_is_symmetric(t2.coef@, 6));
            assert forall|i: int| 0 <= i < 6
                implies (#[trigger] t2.coef@[i])@[0] as int + t2.coef@[i]@[3] as int == 0 by {}
            lemma_annihilates_from_ends(t2.coef@, 6, 3);
            assert forall|i: int| 0 <= i < 6
                implies (#[trigger] t2.coef@[i])@[1] as int + t2.coef@[i]@[4] as int == 0 by {}
            lemma_annihilates_from_slots(t2.coef@, 6, 3, 1);
        }
        let t3 = StiffnessTerm {
            factor: StiffnessFactor::BendingZLinear,
            coef: vec![
                vec![0i64, 0i64, 0i64, 0i64, 0i64, 0i64],
                vec![0i64, 0i64, 0i64, 0i64, 0i64, 0i64],
                vec![0i64, 0i64, 4i64, 0i64, 0i64, 2i64],
                vec![0i64, 0i64, 0i64, 0i64, 0i64, 0i64],
                vec![0i64, 0i64, 0i64, 0i64, 0i64, 0i64],
                vec![0i64, 0i64, 2i64, 0i64, 0i64, 4i64],
            ],
        };
        proof {
            assert(spec_is_square(t3.coef@, 6));
            assert(spec_is_symmetric(t3.coef@, 6));
            assert forall|i: int| 0 <= i < 6
                implies (#[trigger] t3.coef@[i])@[0] as int + t3.coef@[i]@[3] as int == 0 by {}
            lemma_annihilates_from_ends(t3.coef@, 6, 3);
            assert forall|i: int| 0 <= i < 6
                implies (#[trigger] t3.coef@[i])@[1] as int + t3.coef@[i]@[4] as int == 0 by {}
            lemma_annihilates_from_slots(t3.coef@, 6, 3, 1);
        }
        let mut r: Vec<StiffnessTerm> = Vec::new();
        r.push(t0);
        r.push(t1);
        r.push(t2);
        r.push(t3);
        proof {
            assert(spec_rigid_translation(6, 3, 0) =~= spec_axial_translation(6, 3));
                assert(r@[0] == t0);
                assert(r@[1] == t1);
                assert(r@[2] == t2);
                assert(r@[3] == t3);
            assert forall|t: int, o: int|
                #![trigger spec_annihilates(r@[t].coef@, spec_rigid_translation(6, 3, o), 6)]
                0 <= t < r@.len() && 0 <= o < 2
                implies spec_annihilates(r@[t].coef@, spec_rigid_translation(6, 3, o), 6) by {
            }
        }
        r
    }

    /// The local mass pattern: the consistent beam mass split by its
    /// power of the length, at the common denominator of 420.
    pub fn mass_pattern() -> (r: Vec<MassTerm>)
        ensures
            r@.len() == 3,
            r@[0].factor is ConsistentBeamL0,
            r@[1].factor is ConsistentBeamL1,
            r@[2].factor is ConsistentBeamL2,
            forall|i: int, j: int| 0 <= i < 6 && 0 <= j < 6
                ==> (#[trigger] r@[0].coef@[i]@[j]) as int
                    == spec_mass_pair_coef(0, 3, 140, 70, i, j) + spec_mass_pair_coef(1, 4, 156, 54, i, j),
            forall|i: int, j: int| 0 <= i < 6 && 0 <= j < 6
                ==> (#[trigger] r@[1].coef@[i]@[j]) as int == spec_beam_mass_l1_coef(i, j),
            forall|i: int, j: int| 0 <= i < 6 && 0 <= j < 6
                ==> (#[trigger] r@[2].coef@[i]@[j]) as int == spec_beam_mass_l2_coef(i, j),
            spec_mass_pattern_of(ElementType::Beam2D, r@),
            spec_mass_pattern_of(ElementType::Frame2D, r@),
            spec_mass_pattern_wf(r@, 6),
    {
        let t0 = MassTerm {
            factor: MassFactor::ConsistentBeamL0,
            coef: vec![
                vec![140i64, 0i64, 0i64, 70i64, 0i64, 0i64],
                vec![0i64, 156i64, 0i64, 0i64, 54i64, 0i64],
                vec![0i64, 0i64, 0i64, 0i64, 0i64, 0i64],
                vec![70i64, 0i64, 0i64, 140i64, 0i64, 0i64],
                vec![0i64, 54i64, 0i64, 0i64, 156i64, 0i64],
                vec![0i64, 0i64, 0i64, 0i64, 0i64, 0i64],
            ],
        };
        proof {
            assert(spec_is_square(t0.coef@, 6));
            assert(spec_is_symmetric(t0.coef@, 6));
        }
        let t1 = MassTerm {
            factor: MassFactor::ConsistentBeamL1,
            coef: vec![
                vec![0i64, 0i64, 0i64, 0i64, 0i64, 0i64],
                vec![0i64, 0i64, 22i64, 0i64, 0i64, -13i64],
                vec![0i64, 22i64, 0i64, 0i64, 13i64, 0i64],
                vec![0i64, 0i64, 0i64, 0i64, 0i64, 0i64],
                vec![0i64, 0i64, 13i64, 0i64, 0i64, -22i64],
                vec![0i64, -13i64, 0i64, 0i64, -22i64, 0i64],
            ],
        };
        proof {
            assert(spec_is_square(t1.coef@, 6));
            assert(spec_is_symmetric(t1.coef@, 6));
        }
        let t2 = MassTerm {
            factor: MassFactor::ConsistentBeamL2,
            coef: vec![
                vec![0i64, 0i64, 0i64, 0i64, 0i64, 0i64],
                vec![0i64, 0i64, 0i64, 0i64, 0i64, 0i64],
                vec![0i64, 0i64, 4i64, 0i64, 0i64, -3i64],
                vec![0i64, 0i64, 0i64, 0i64, 0i64, 0i64],
                vec![0i64, 0i64, 0i64, 0i64, 0i64, 0i64],
                vec![0i64, 0i64, -3i64, 0i64, 0i64, 4i64],
            ],
        };
        proof {
            assert(spec_is_square(t2.coef@, 6));
            assert(spec_is_symmetric(t2.coef@, 6));
        }
        let mut r: Vec<MassTerm> = Vec::new();
        r.push(t0);
        r.push(t1);
        r.push(t2);
        r
    }
}

/// Space frame with six DOFs per node: axial, torsional and two
/// independent bending stiffnesses; simplified lumped mass.
pub struct Frame3D;

impl Frame3D {
    /// The local stiffness pattern: axial, torsion, and the three bending
    /// groups about each of the two local bending axes.
    #[verifier::rlimit(80)]
    pub fn local_stiffness_pattern() -> (r: Vec<StiffnessTerm>)
        ensures
            r@.len() == 8,
            r@[0].factor is AxialPerLength,
            r@[1].factor is TorsionPerLength,
            r@[2].factor is BendingYCubic,
            r@[3].factor is BendingYSquare,
            r@[4].factor is BendingYLinear,
            r@[5].factor is BendingZCubic,
            r@[6].factor is BendingZSquare,
            r@[7].factor is BendingZLinear,
            forall|i: int, j: int| 0 <= i < 12 && 0 <= j < 12
                ==> (#[trigger] r@[0].coef@[i]@[j]) as int == spec_pair_coef(0, 6, 1, i, j),
            forall|i: int, j: int| 0 <= i < 12 && 0 <= j < 12
                ==> (#[trigger] r@[1].coef@[i]@[j]) as int == spec_pair_coef(3, 9, 1, i, j),
            forall|i: int, j: int| 0 <= i < 12 && 0 <= j < 12
                ==> (#[trigger] r@[2].coef@[i]@[j]) as int == spec_pair_coef(2, 8, 12, i, j),
            forall|i: int, j: int| 0 <= i < 12 && 0 <= j < 12
                ==> (#[trigger] r@[3].coef@[i]@[j]) as int == spec_cross_coef(2, 8, 4, 10, 6, i, j),
            forall|i: int, j: int| 0 <= i < 12 && 0 <= j < 12
                ==> (#[trigger] r@[4].coef@[i]@[j]) as int == spec_rot_coef(4, 10, 2, i, j),
            forall|i: int, j: int| 0 <= i < 12 && 0 <= j < 12
                ==> (#[trigger] r@[5].coef@[i]@[j]) as int == spec_pair_coef(1, 7, 12, i, j),
            forall|i: int, j: int| 0 <= i < 12 && 0 <= j < 12
                ==> (#[trigger] r@[6].coef@[i]@[j]) as int == spec_cross_coef(1, 7, 5, 11, -6, i, j),
            forall|i: int, j: int| 0 <= i < 12 && 0 <= j < 12
                ==> (#[trigger] r@[7].coef@[i]@[j]) as int == spec_rot_coef(5, 11, 2, i, j),
            spec_stiffness_pattern_of(ElementType::Beam3D, r@),
            spec_stiffness_pattern_of(ElementType::Frame3D, r@),
            spec_stiffness_pattern_wf(r@, 12, 6),
            spec_annihilates_all_translations(r@, 12, 6, 3),
    {
        let t0 = StiffnessTerm {
            factor: StiffnessFactor::AxialPerLength,
            coef: vec![
                vec![1i64, 0i64, 0i64, 0i64, 0i64, 0i64, -1i64, 0i64, 0i64, 0i64, 0i64, 0i64],
                vec![0i64, 0i64, 0i64, 0i64, 0i64, 0i64, 0i64, 0i64, 0i64, 0i64, 0i64, 0i64],
                vec![0i64, 0i64, 0i64, 0i64, 0i64, 0i64, 0i64, 0i64, 0i64, 0i64, 0i64, 0i64],
                vec![0i64, 0i64, 0i64, 0i64, 0i64, 0i64, 0i64, 0i64, 0i64, 0i64, 0i64, 0i64],
                vec![0i64, 0i64, 0i64, 0i64, 0i64, 0i64, 0i64, 0i64, 0i64, 0i64, 0i64, 0i64],
                vec![0i64, 0i64, 0i64, 0i64, 0i64, 0i64, 0i64, 0i64, 0i64, 0i64, 0i64, 0i64],
                vec![-1i64, 0i64, 0i64, 0i64, 0i64, 0i64, 1i64, 0i64, 0i64, 0i64, 0i64, 0i64],
                vec![0i64, 0i64, 0i64, 0i64, 0i64, 0i64, 0i64, 0i64, 0i64, 0i64, 0i64, 0i64],
                vec![0i64, 0i64, 0i64, 0i64, 0i64, 0i64, 0i64, 0i64, 0i64, 0i64, 0i64, 0i64],
                vec![0i64, 0i64, 0i64, 0i64, 0i64, 0i64, 0i64, 0i64, 0i64, 0i64, 0i64, 0i64],
                vec![0i64, 0i64, 0i64, 0i64, 0i64, 0i64, 0i64, 0i64, 0i64, 0i64, 0i64, 0i64],
                vec![0i64, 0i64, 0i64, 0i64, 0i64, 0i64, 0i64, 0i64, 0i64, 0i64, 0i64, 0i64],
            ],
        };
        proof {
            assert(spec_is_square(t0.coef@, 12));
            assert(spec_is_symmetric(t0.coef@, 12));
            assert forall|i: int| 0 <= i < 12
                implies (#[trigger] t0.coef@[i])@[0] as int + t0.coef@[i]@[6] as int == 0 by {}
            lemma_annihilates_from_ends(t0.coef@, 12, 6);
            assert forall|i: int| 0 <= i < 12
                implies (#[trigger] t0.coef@[i])@[1] as int + t0.coef@[i]@[7] as int == 0 by {}
            lemma_annihilates_from_slots(t0.coef@, 12, 6, 1);
            assert forall|i: int| 0 <= i < 12
                implies (#[trigger] t0.coef@[i])@[2] as int + t0.coef@[i]@[8] as int == 0 by {}
            lemma_annihilates_from_slots(t0.coef@, 12, 6, 2);
        }
        let t1 = StiffnessTerm {
            factor: StiffnessFactor::TorsionPerLength,
            coef: vec![
                vec![0i64, 0i64, 0i64, 0i64, 0i64, 0i64, 0i64, 0i64, 0i64, 0i64, 0i64, 0i64],
                vec![0i64, 0i64, 0i64, 0i64, 0i64, 0i64, 0i64, 0i64, 0i64, 0i64, 0i64, 0i64],
                vec![0i64, 0i64, 0i64, 0i64, 0i64, 0i64, 0i64, 0i64, 0i64, 0i64, 0i64, 0i64],
                vec![0i64, 0i64, 0i64, 1i64, 0i64, 0i64, 0i64, 0i64, 0i64, -1i64, 0i64, 0i64],
                vec![0i64, 0i64, 0i64, 0i64, 0i64, 0i64, 0i64, 0i64, 0i64, 0i64, 0i64, 0i64],
                vec![0i64, 0i64, 0i64, 0i64, 0i64, 0i64, 0i64, 0i64, 0i64, 0i64, 0i64, 0i64],
                vec![0i64, 0i64, 0i64, 0i64, 0i64, 0i64, 0i64, 0i64, 0i64, 0i64, 0i64, 0i64],
                vec![0i64, 0i64, 0i64, 0i64, 0i64, 0i64, 0i64, 0i64, 0i64, 0i64, 0i64, 0i64],
                vec![0i64, 0i64, 0i64, 0i64, 0i64, 0i64, 0i64, 0i64, 0i64, 0i64, 0i64, 0i64],
                vec![0i64, 0i64, 0i64, -1i64, 0i64, 0i64, 0i64, 0i64, 0i64, 1i64, 0i64, 0i64],
                vec![0i64, 0i64, 0i64, 0i64, 0i64, 0i64, 0i64, 0i64, 0i64, 0i64, 0i64, 0i64],
                vec![0i64, 0i64, 0i64, 0i64, 0i64, 0i64, 0i64, 0i64, 0i64, 0i64, 0i64, 0i64],
            ],
        };
        proof {
            assert(spec_is_square(t1.coef@, 12));
            assert(spec_is_symmetric(t1.coef@, 12));
            assert forall|i: int| 0 <= i < 12
                implies (#[trigger] t1.coef@[i])@[0] as int + t1.coef@[i]@[6] as int == 0 by {}
            lemma_annihilates_from_ends(t1.coef@, 12, 6);
            assert forall|i: int| 0 <= i < 12
                implies (#[trigger] t1.coef@[i])@[1] as int + t1.coef@[i]@[7] as int == 0 by {}
            lemma_annihilates_from_slots(t1.coef@, 12, 6, 1);
            assert forall|i: int| 0 <= i < 12
                implies (#[trigger] t1.coef@[i])@[2] as int + t1.coef@[i]@[8] as int == 0 by {}
            lemma_annihilates_from_slots(t1.coef@, 12, 6, 2);
        }
        let t2 = StiffnessTerm {
            factor: StiffnessFactor::BendingYCubic,
            coef: vec![
                vec![0i64, 0i64, 0i64, 0i64, 0i64, 0i64, 0i64, 0i64, 0i64, 0i64, 0i64, 0i64],
                vec![0i64, 0i64, 0i64, 0i64, 0i64, 0i64, 0i64, 0i64, 0i64, 0i64, 0i64, 0i64],
                vec![0i64, 0i64, 12i64, 0i64, 0i64, 0i64, 0i64, 0i64, -12i64, 0i64, 0i64, 0i64],
                vec![0i64, 0i64, 0i64, 0i64, 0i64, 0i64, 0i64, 0i64, 0i64, 0i64, 0i64, 0i64],
                vec![0i64, 0i64, 0i64, 0i64, 0i64, 0i64, 0i64, 0i64, 0i64, 0i64, 0i64, 0i64],
                vec![0i64, 0i64, 0i64, 0i64, 0i64, 0i64, 0i64, 0i64, 0i64, 0i64, 0i64, 0i64],
                vec![0i64, 0i64, 0i64, 0i64, 0i64, 0i64, 0i64, 0i64, 0i64, 0i64, 0i64, 0i64],
                vec![0i64, 0i64, 0i64, 0i64, 0i64, 0i64, 0i64, 0i64, 0i64, 0i64, 0i64, 0i64],
                vec![0i64, 0i64, -12i64, 0i64, 0i64, 0i64, 0i64, 0i64, 12i64, 0i64, 0i64, 0i64],
                vec![0i64, 0i64, 0i64, 0i64, 0i64, 0i64, 0i64, 0i64, 0i64, 0i64, 0i64, 0i64],
                vec![0i64, 0i64, 0i64, 0i64, 0i64, 0i64, 0i64, 0i64, 0i64, 0i64, 0i64, 0i64],
                vec![0i64, 0i64, 0i64, 0i64, 0i64, 0i64, 0i64, 0i64, 0i64, 0i64, 0i64, 0i64],
            ],
        };
        proof {
            assert(spec_is_square(t2.coef@, 12));
            assert(spec_is_symmetric(t2.coef@, 12));
            assert forall|i: int| 0 <= i < 12
                implies (#[trigger] t2.coef@[i])@[0] as int + t2.coef@[i]@[6] as int == 0 by {}
            lemma_annihilates_from_ends(t2.coef@, 12, 6);
            assert forall|i: int| 0 <= i < 12
                implies (#[trigger] t2.coef@[i])@[1] as int + t2.coef@[i]@[7] as int == 0 by {}
            lemma_annihilates_from_slots(t2.coef@, 12, 6, 1);
            assert forall|i: int| 0 <= i < 12
                implies (#[trigger] t2.coef@[i])@[2] as int + t2.coef@[i]@[8] as int == 0 by {}
            lemma_annihilates_from_slots(t2.coef@, 12, 6, 2);
        }
        let t3 = StiffnessTerm {
            factor: StiffnessFactor::BendingYSquare,
            coef: vec![
                vec![0i64, 0i64, 0i64, 0i64, 0i64, 0i64, 0i64, 0i64, 0i64, 0i64, 0i64, 0i64],
                vec![0i64, 0i64, 0i64, 0i64, 0i64, 0i64, 0i64, 0i64, 0i64, 0i64, 0i64, 0i64],
                vec![0i64, 0i64, 0i64, 0i64, 6i64, 0i64, 0i64, 0i64, 0i64, 0i64, 6i64, 0i64],
                vec![0i64, 0i64, 0i64, 0i64, 0i64, 0i64, 0i64, 0i64, 0i64, 0i64, 0i64, 0i64],
                vec![0i64, 0i64, 6i64, 0i64, 0i64, 0i64, 0i64, 0i64, -6i64, 0i64, 0i64, 0i64],
                vec![0i64, 0i64, 0i64, 0i64, 0i64, 0i64, 0i64, 0i64, 0i64, 0i64, 0i64, 0i64],
                vec![0i64, 0i64, 0i64, 0i64, 0i64, 0i64, 0i64, 0i64, 0i64, 0i64, 0i64, 0i64],
                vec![0i64, 0i64, 0i64, 0i64, 0i64, 0i64, 0i64, 0i64, 0i64, 0i64, 0i64, 0i64],
                vec![0i64, 0i64, 0i64, 0i64, -6i64, 0i64, 0i64, 0i64, 0i64, 0i64, -6i64, 0i64],
                vec![0i64, 0i64, 0i64, 0i64, 0i64, 0i64, 0i64, 0i64, 0i64, 0i64, 0i64, 0i64],
                vec![0i64, 0i64, 6i64, 0i64, 0i64, 0i64, 0i64, 0i64, -6i64, 0i64, 0i64, 0i64],
                vec![0i64, 0i64, 0i64, 0i64, 0i64, 0i64, 0i64, 0i64, 0i64, 0i64, 0i64, 0i64],
            ],
        };
        proof {
            assert(spec_is_square(t3.coef@, 12));
            assert(spec_is_symmetric(t3.coef@, 12));
            assert forall|i: int| 0 <= i < 12
                implies (#[trigger] t3.coef@[i])@[0] as int + t3.coef@[i]@[6] as int == 0 by {}
            lemma_annihilates_from_ends(t3.coef@, 12, 6);
            assert forall|i: int| 0 <= i < 12
                implies (#[trigger] t3.coef@[i])@[1] as int + t3.coef@[i]@[7] as int == 0 by {}
            lemma_annihilates_from_slots(t3.coef@, 12, 6, 1);
            assert forall|i: int| 0 <= i < 12
                implies (#[trigger] t3.coef@[i])@[2] as int + t3.coef@[i]@[8] as int == 0 by {}
            lemma_annihilates_from_slots(t3.coef@, 12, 6, 2);
        }
        let t4 = StiffnessTerm {
            factor: StiffnessFactor::BendingYLinear,
            coef: vec![
                vec![0i64, 0i64, 0i64, 0i64, 0i64, 0i64, 0i64, 0i64, 0i64, 0i64, 0i64, 0i64],
                vec![0i64, 0i64, 0i64, 0i64, 0i64, 0i64, 0i64, 0i64, 0i64, 0i64, 0i64, 0i64],
                vec![0i64, 0i64, 0i64, 0i64, 0i64, 0i64, 0i64, 0i64, 0i64, 0i64, 0i64, 0i64],
                vec![0i64, 0i64, 0i64, 0i64, 0i64, 0i64, 0i64, 0i64, 0i64, 0i64, 0i64, 0i64],
                vec![0i64, 0i64, 0i64, 0i64, 4i64, 0i64, 0i64, 0i64, 0i64, 0i64, 2i64, 0i64],
                vec![0i64, 0i64, 0i64, 0i64, 0i64, 0i64, 0i64, 0i64, 0i64, 0i64, 0i64, 0i64],
                vec![0i64, 0i64, 0i64, 0i64, 0i64, 0i64, 0i64, 0i64, 0i64, 0i64, 0i64, 0i64],
                vec![0i64, 0i64, 0i64, 0i64, 0i64, 0i64, 0i64, 0i64, 0i64, 0i64, 0i64, 0i64],
                vec![0i64, 0i64, 0i64, 0i64, 0i64, 0i64, 0i64, 0i64, 0i64, 0i64, 0i64, 0i64],
                vec![0i64, 0i64, 0i64, 0i64, 0i64, 0i64, 0i64, 0i64, 0i64, 0i64, 0i64, 0i64],
                vec![0i64, 0i64, 0i64, 0i64, 2i64, 0i64, 0i64, 0i64, 0i64, 0i64, 4i64, 0i64],
                vec![0i64, 0i64, 0i64, 0i64, 0i64, 0i64, 0i64, 0i64, 0i64, 0i64, 0i64, 0i64],
            ],
        };
        proof {
            assert(spec_is_square(t4.coef@, 12));
            assert(spec_is_symmetric(t4.coef@, 12));
            assert forall|i: int| 0 <= i < 12
                implies (#[trigger] t4.coef@[i])@[0] as int + t4.coef@[i]@[6] as int == 0 by {}
            lemma_annihilates_from_ends(t4.coef@, 12, 6);
            assert forall|i: int| 0 <= i < 12
                implies (#[trigger] t4.coef@[i])@[1] as int + t4.coef@[i]@[7] as int == 0 by {}
            lemma_annihilates_from_slots(t4.coef@, 12, 6, 1);
            assert forall|i: int| 0 <= i < 12
                implies (#[trigger] t4.coef@[i])@[2] as int + t4.coef@[i]@[8] as int == 0 by {}
            lemma_annihilates_from_slots(t4.coef@, 12, 6, 2);
        }
        let t5 = StiffnessTerm {
            factor: StiffnessFactor::BendingZCubic,
            coef: vec![
                vec![0i64, 0i64, 0i64, 0i64, 0i64, 0i64, 0i64, 0i64, 0i64, 0i64, 0i64, 0i64],
                vec![0i64, 12i64, 0i64, 0i64, 0i64, 0i64, 0i64, -12i64, 0i64, 0i64, 0i64, 0i64],
                vec![0i64, 0i64, 0i64, 0i64, 0i64, 0i64, 0i64, 0i64, 0i64, 0i64, 0i64, 0i64],
                vec![0i64, 0i64, 0i64, 0i64, 0i64, 0i64, 0i64, 0i64, 0i64, 0i64, 0i64, 0i64],
                vec![0i64, 0i64, 0i64, 0i64, 0i64, 0i64, 0i64, 0i64, 0i64, 0i64, 0i64, 0i64],
                vec![0i64, 0i64, 0i64, 0i64, 0i64, 0i64, 0i64, 0i64, 0i64, 0i64, 0i64, 0i64],
                vec![0i64, 0i64, 0i64, 0i64, 0i64, 0i64, 0i64, 0i64, 0i64, 0i64, 0i64, 0i64],
                vec![0i64, -12i64, 0i64, 0i64, 0i64, 0i64, 0i64, 12i64, 0i64, 0i64, 0i64, 0i64],
                vec![0i64, 0i64, 0i64, 0i64, 0i64, 0i64, 0i64, 0i64, 0i64, 0i64, 0i64, 0i64],
                vec![0i64, 0i64, 0i64, 0i64, 0i64, 0i64, 0i64, 0i64, 0i64, 0i64, 0i64, 0i64],
                vec![0i64, 0i64, 0i64, 0i64, 0i64, 0i64, 0i64, 0i64, 0i64, 0i64, 0i64, 0i64],
                vec![0i64, 0i64, 0i64, 0i64, 0i64, 0i64, 0i64, 0i64, 0i64, 0i64, 0i64, 0i64],
            ],
        };
        proof {
            assert(spec_is_square(t5.coef@, 12));
            assert(spec_is_symmetric(t5.coef@, 12));
            assert forall|i: int| 0 <= i < 12
                implies (#[trigger] t5.coef@[i])@[0] as int + t5.coef@[i]@[6] as int == 0 by {}
            lemma_annihilates_from_ends(t5.coef@, 12, 6);
            assert forall|i: int| 0 <= i < 12
                implies (#[trigger] t5.coef@[i])@[1] as int + t5.coef@[i]@[7] as int == 0 by {}
            lemma_annihilates_from_slots(t5.coef@, 12, 6, 1);
            assert forall|i: int| 0 <= i < 12
                implies (#[trigger] t5.coef@[i])@[2] as int + t5.coef@[i]@[8] as int == 0 by {}
            lemma_annihilates_from_slots(t5.coef@, 12, 6, 2);
        }
        let t6 = StiffnessTerm {
            factor: StiffnessFactor::BendingZSquare,
            coef: vec![
                vec![0i64, 0i64, 0i64, 0i64, 0i64, 0i64, 0i64, 0i64, 0i64, 0i64, 0i64, 0i64],
                vec![0i64, 0i64, 0i64, 0i64, 0i64, -6i64, 0i64, 0i64, 0i64, 0i64, 0i64, -6i64],
                vec![0i64, 0i64, 0i64, 0i64, 0i64, 0i64, 0i64, 0i64, 0i64, 0i64, 0i64, 0i64],
                vec![0i64, 0i64, 0i64, 0i64, 0i64, 0i64, 0i64, 0i64, 0i64, 0i64, 0i64, 0i64],
                vec![0i64, 0i64, 0i64, 0i64, 0i64, 0i64, 0i64, 0i64, 0i64, 0i64, 0i64, 0i64],
                vec![0i64, -6i64, 0i64, 0i64, 0i64, 0i64, 0i64, 6i64, 0i64, 0i64, 0i64, 0i64],
                vec![0i64, 0i64, 0i64, 0i64, 0i64, 0i64, 0i64, 0i64, 0i64, 0i64, 0i64, 0i64],
                vec![0i64, 0i64, 0i64, 0i64, 0i64, 6i64, 0i64, 0i64, 0i64, 0i64, 0i64, 6i64],
                vec![0i64, 0i64, 0i64, 0i64, 0i64, 0i64, 0i64, 0i64, 0i64, 0i64, 0i64, 0i64],
                vec![0i64, 0i64, 0i64, 0i64, 0i64, 0i64, 0i64, 0i64, 0i64, 0i64, 0i64, 0i64],
                vec![0i64, 0i64, 0i64, 0i64, 0i64, 0i64, 0i64, 0i64, 0i64, 0i64, 0i64, 0i64],
                vec![0i64, -6i64, 0i64, 0i64, 0i64, 0i64, 0i64, 6i64, 0i64, 0i64, 0i64, 0i64],
            ],
        };
        proof {
            assert(spec_is_square(t6.coef@, 12));
            assert(spec_is_symmetric(t6.coef@, 12));
            assert forall|i: int| 0 <= i < 12
                implies (#[trigger] t6.coef@[i])@[0] as int + t6.coef@[i]@[6] as int == 0 by {}
            lemma_annihilates_from_ends(t6.coef@, 12, 6);
            assert forall|i: int| 0 <= i < 12
                implies (#[trigger] t6.coef@[i])@[1] as int + t6.coef@[i]@[7] as int == 0 by {}
            lemma_annihilates_from_slots(t6.coef@, 12, 6, 1);
            assert forall|i: int| 0 <= i < 12
                implies (#[trigger] t6.coef@[i])@[2] as int + t6.coef@[i]@[8] as int == 0 by {}
            lemma_annihilates_from_slots(t6.coef@, 12, 6, 2);
        }
        let t7 = StiffnessTerm {
            factor: StiffnessFactor::BendingZLinear,
            coef: vec![
                vec![0i64, 0i64, 0i64, 0i64, 0i64, 0i64, 0i64, 0i64, 0i64, 0i64, 0i64, 0i64],
                vec![0i64, 0i64, 0i64, 0i64, 0i64, 0i64, 0i64, 0i64, 0i64, 0i64, 0i64, 0i64],
                vec![0i64, 0i64, 0i64, 0i64, 0i64, 0i64, 0i64, 0i64, 0i64, 0i64, 0i64, 0i64],
                vec![0i64, 0i64, 0i64, 0i64, 0i64, 0i64, 0i64, 0i64, 0i64, 0i64, 0i64, 0i64],
                vec![0i64, 0i64, 0i64, 0i64, 0i64, 0i64, 0i64, 0i64, 0i64, 0i64, 0i64, 0i64],
                vec![0i64, 0i64, 0i64, 0i64, 0i64, 4i64, 0i64, 0i64, 0i64, 0i64, 0i64, 2i64],
                vec![0i64, 0i64, 0i64, 0i64, 0i64, 0i64, 0i64, 0i64, 0i64, 0i64, 0i64, 0i64],
                vec![0i64, 0i64, 0i64, 0i64, 0i64, 0i64, 0i64, 0i64, 0i64, 0i64, 0i64, 0i64],
                vec![0i64, 0i64, 0i64, 0i64, 0i64, 0i64, 0i64, 0i64, 0i64, 0i64, 0i64, 0i64],
                vec![0i64, 0i64, 0i64, 0i64, 0i64, 0i64, 0i64, 0i64, 0i64, 0i64, 0i64, 0i64],
                vec![0i64, 0i64, 0i64, 0i64, 0i64, 0i64, 0i64, 0i64, 0i64, 0i64, 0i64, 0i64],
                vec![0i64, 0i64, 0i64, 0i64, 0i64, 2i64, 0i64, 0i64, 0i64, 0i64, 0i64, 4i64],
            ],
        };
        proof {
            assert(spec_is_square(t7.coef@, 12));
            assert(spec_is_symmetric(t7.coef@, 12));
            assert forall|i: int| 0 <= i < 12
                implies (#[trigger] t7.coef@[i])@[0] as int + t7.coef@[i]@[6] as int == 0 by {}
            lemma_annihilates_from_ends(t7.coef@, 12, 6);
            assert forall|i: int| 0 <= i < 12
                implies (#[trigger] t7.coef@[i])@[1] as int + t7.coef@[i]@[7] as int == 0 by {}
            lemma_annihilates_from_slots(t7.coef@, 12, 6, 1);
            assert forall|i: int| 0 <= i < 12
                implies (#[trigger] t7.coef@[i])@[2] as int + t7.coef@[i]@[8] as int == 0 by {}
            lemma_annihilates_from_slots(t7.coef@, 12, 6, 2);
        }
        let mut r: Vec<StiffnessTerm> = Vec::new();
        r.push(t0);
        r.push(t1);
        r.push(t2);
        r.push(t3);
        r.push(t4);
        r.push(t5);
        r.push(t6);
        r.push(t7);
        proof {
            assert(spec_rigid_translation(12, 6, 0) =~= spec_axial_translation(12, 6));
                assert(r@[0] == t0);
                assert(r@[1] == t1);
                assert(r@[2] == t2);
                assert(r@[3] == t3);
                assert(r@[4] == t4);
                assert(r@[5] == t5);
                assert(r@[6] == t6);
                assert(r@[7] == t7);
            assert forall|t: int, o: int|
                #![trigger spec_annihilates(r@[t].coef@, spec_rigid_translation(12, 6, o), 12)]
                0 <= t < r@.len() && 0 <= o < 3
                implies spec_annihilates(r@[t].coef@, spec_rigid_translation(12, 6, o), 12) by {
            }
        }
        r
    }

    /// The local mass pattern: lumped translational mass of m/2 per node
    /// and lumped rotational inertia of m·L^2/12 per node.
    #[verifier::rlimit(40)]
    pub fn mass_pattern() -> (r: Vec<MassTerm>)
        ensures
            r@.len() == 2,
            r@[0].factor is TotalMassHalf,
            r@[1].factor is RotationalTwelfth,
            forall|i: int, j: int| 0 <= i < 12 && 0 <= j < 12
                ==> (#[trigger] r@[0].coef@[i]@[j]) as int == spec_lumped_translation_coef(i, j),
            forall|i: int, j: int| 0 <= i < 12 && 0 <= j < 12
                ==> (#[trigger] r@[1].coef@[i]@[j]) as int == spec_lumped_rotation_coef(i, j),
            spec_mass_pattern_of(ElementType::Beam3D, r@),
            spec_mass_pattern_of(ElementType::Frame3D, r@),
            spec_mass_pattern_wf(r@, 12),
    {
        let t0 = MassTerm {
            factor: MassFactor::TotalMassHalf,
            coef: vec![
                vec![1i64, 0i64, 0i64, 0i64, 0i64, 0i64, 0i64, 0i64, 0i64, 0i64, 0i64, 0i64],
                vec![0i64, 1i64, 0i64, 0i64, 0i64, 0i64, 0i64, 0i64, 0i64, 0i64, 0i64, 0i64],
                vec![0i64, 0i64, 1i64, 0i64, 0i64, 0i64, 0i64, 0i64, 0i64, 0i64, 0i64, 0i64],
                vec![0i64, 0i64, 0i64, 0i64, 0i64, 0i64, 0i64, 0i64, 0i64, 0i64, 0i64, 0i64],
                vec![0i64, 0i64, 0i64, 0i64, 0i64, 0i64, 0i64, 0i64, 0i64, 0i64, 0i64, 0i64],
                vec![0i64, 0i64, 0i64, 0i64, 0i64, 0i64, 0i64, 0i64, 0i64, 0i64, 0i64, 0i64],
                vec![0i64, 0i64, 0i64, 0i64, 0i64, 0i64, 1i64, 0i64, 0i64, 0i64, 0i64, 0i64],
                vec![0i64, 0i64, 0i64, 0i64, 0i64, 0i64, 0i64, 1i64, 0i64, 0i64, 0i64, 0i64],
                vec![0i64, 0i64, 0i64, 0i64, 0i64, 0i64, 0i64, 0i64, 1i64, 0i64, 0i64, 0i64],
                vec![0i64, 0i64, 0i64, 0i64, 0i64, 0i64, 0i64, 0i64, 0i64, 0i64, 0i64, 0i64],
                vec![0i64, 0i64, 0i64, 0i64, 0i64, 0i64, 0i64, 0i64, 0i64, 0i64, 0i64, 0i64],
                vec![0i64, 0i64, 0i64, 0i64, 0i64, 0i64, 0i64, 0i64, 0i64, 0i64, 0i64, 0i64],
            ],
        };
        proof {
            assert(spec_is_square(t0.coef@, 12));
            assert(spec_is_symmetric(t0.coef@, 12));
        }
        let t1 = MassTerm {
            factor: MassFactor::RotationalTwelfth,
            coef: vec![
                vec![0i64, 0i64, 0i64, 0i64, 0i64, 0i64, 0i64, 0i64, 0i64, 0i64, 0i64, 0i64],
                vec![0i64, 0i64, 0i64, 0i64, 0i64, 0i64, 0i64, 0i64, 0i64, 0i64, 0i64, 0i64],
                vec![0i64, 0i64, 0i64, 0i64, 0i64, 0i64, 0i64, 0i64, 0i64, 0i64, 0i64, 0i64],
                vec![0i64, 0i64, 0i64, 1i64, 0i64, 0i64, 0i64, 0i64, 0i64, 0i64, 0i64, 0i64],
                vec![0i64, 0i64, 0i64, 0i64, 1i64, 0i64, 0i64, 0i64, 0i64, 0i64, 0i64, 0i64],
                vec![0i64, 0i64, 0i64, 0i64, 0i64, 1i64, 0i64, 0i64, 0i64, 0i64, 0i64, 0i64],
                vec![0i64, 0i64, 0i64, 0i64, 0i64, 0i64, 0i64, 0i64, 0i64, 0i64, 0i64, 0i64],
                vec![0i64, 0i64, 0i64, 0i64, 0i64, 0i64, 0i64, 0i64, 0i64, 0i64, 0i64, 0i64],
                vec![0i64, 0i64, 0i64, 0i64, 0i64, 0i64, 0i64, 0i64, 0i64, 0i64, 0i64, 0i64],
                vec![0i64, 0i64, 0i64, 0i64, 0i64, 0i64, 0i64, 0i64, 0i64, 1i64, 0i64, 0i64],
                vec![0i64, 0i64, 0i64, 0i64, 0i64, 0i64, 0i64, 0i64, 0i64, 0i64, 1i64, 0i64],
                vec![0i64, 0i64, 0i64, 0i64, 0i64, 0i64, 0i64, 0i64, 0i64, 0i64, 0i64, 1i64],
            ],
        };
        proof {
            assert(spec_is_square(t1.coef@, 12));
            assert(spec_is_symmetric(t1.coef@, 12));
        }
        let mut r: Vec<MassTerm> = Vec::new();
        r.push(t0);
        r.push(t1);
        r
    }
}

/// Plate bending element: declared but unsupported; every formulation
/// request fails fast.
pub struct PlateElement;

impl PlateElement {
    /// Always the unsupported-element error.
    pub fn local_stiffness_pattern() -> (r: Result<Vec<StiffnessTerm>, GazelleError>)
        ensures
            r matches Err(e) && e is UnsupportedElement,
    {
        Err(GazelleError::UnsupportedElement {
            element_type: "Plate elements are not implemented".to_string(),
        })
    }

    /// Always the unsupported-element error.
    pub fn mass_pattern() -> (r: Result<Vec<MassTerm>, GazelleError>)
        ensures
            r matches Err(e) && e is UnsupportedElement,
    {
        Err(GazelleError::UnsupportedElement {
            element_type: "Plate elements are not implemented".to_string(),
        })
    }
}

/// Shell element: declared but unsupported; every formulation request
/// fails fast.
pub struct ShellElement;

impl ShellElement {
    /// Always the unsupported-element error.
    pub fn local_stiffness_pattern() -> (r: Result<Vec<StiffnessTerm>, GazelleError>)
        ensures
            r matches Err(e) && e is UnsupportedElement,
    {
        Err(GazelleError::UnsupportedElement {
            element_type: "Shell elements are not implemented".to_string(),
        })
    }

    /// Always the unsupported-element error.
    pub fn mass_pattern() -> (r: Result<Vec<MassTerm>, GazelleError>)
        ensures
            r matches Err(e) && e is UnsupportedElement,
    {
        Err(GazelleError::UnsupportedElement {
            element_type: "Shell elements are not implemented".to_string(),
        })
    }
}

/// Solid element: declared but unsupported; every formulation request
/// fails fast.
pub struct SolidElement;

impl SolidElement {
    /// Always the unsupported-element error.
    pub fn local_stiffness_pattern() -> (r: Result<Vec<StiffnessTerm>, GazelleError>)
        ensures
            r matches Err(e) && e is UnsupportedElement,
    {
        Err(GazelleError::UnsupportedElement {
            element_type: "Solid elements are not implemented".to_string(),
        })
    }

    /// Always the unsupported-element error.
    pub fn mass_pattern() -> (r: Result<Vec<MassTerm>, GazelleError>)
        ensures
            r matches Err(e) && e is UnsupportedElement,
    {
        Err(GazelleError::UnsupportedElement {
            element_type: "Solid elements are not implemented".to_string(),
        })
    }
}

/// How many translational axes an element family's local frame carries:
/// two for the planar families, three for the spatial ones.
pub open spec fn spec_translation_count(et: ElementType) -> int {
    match et {
        ElementType::Truss2D | ElementType::Beam2D | ElementType::Frame2D => 2,
        ElementType::Truss3D | ElementType::Beam3D | ElementType::Frame3D => 3,
        _ => 0,
    }
}

/// Whether the formulation library supports this family at all.
pub open spec fn spec_family_supported(et: ElementType) -> bool {
    match et {
        ElementType::Plate | ElementType::Shell | ElementType::Solid => false,
        _ => true,
    }
}

/// Which properties a stiffness computation for this family requires.
pub open spec fn spec_stiffness_inputs_ok(et: ElementType, p: ElementProperties, m: MaterialProperties) -> bool {
    match et {
        ElementType::Truss2D | ElementType::Truss3D => {
            p.area is Some && m.young_modulus is Some
        },
        ElementType::Beam2D | ElementType::Frame2D => {
            p.area is Some && p.inertia_z is Some && m.young_modulus is Some
        },
        ElementType::Beam3D | ElementType::Frame3D => {
            &&& p.area is Some
            &&& p.inertia_y is Some
            &&& p.inertia_z is Some
            &&& p.torsional_constant is Some
            &&& m.young_modulus is Some
            &&& m.poisson_ratio is Some
        },
        _ => false,
    }
}

/// Which properties a mass computation for this family requires.
pub open spec fn spec_mass_inputs_ok(et: ElementType, p: ElementProperties, m: MaterialProperties) -> bool {
    match et {
        ElementType::Plate | ElementType::Shell | ElementType::Solid => false,
        _ => p.area is Some && m.density is Some,
    }
}

/// Maps a family tag to its formulation, and checks a formulation's
/// inputs. The dispatch is closed: an unsupported family always fails
/// fast rather than guessing a formulation.
pub struct ElementFactory;

impl ElementFactory {
    /// The local stiffness pattern of a family: a planar frame member
    /// shares the planar beam formulation, and a space beam shares the
    /// space frame formulation.
    pub fn local_stiffness_pattern(element_type: ElementType) -> (r: Result<Vec<StiffnessTerm>, GazelleError>)
        ensures
            r is Ok <==> spec_family_supported(element_type),
            r matches Ok(v) ==> spec_stiffness_pattern_of(element_type, v@),
            r matches Ok(v) ==> spec_stiffness_pattern_wf(
                v@,
                2 * spec_dofs_per_node(element_type),
                spec_dofs_per_node(element_type),
            ),
            r matches Ok(v) ==> spec_annihilates_all_translations(
                v@,
                2 * spec_dofs_per_node(element_type),
                spec_dofs_per_node(element_type),
                spec_translation_count(element_type),
            ),
            r matches Err(e) ==> e is UnsupportedElement,
    {
        match element_type {
            ElementType::Truss2D => Ok(Truss2D::local_stiffness_pattern()),
            ElementType::Truss3D => Ok(Truss3D::local_stiffness_pattern()),
            ElementType::Beam2D => Ok(Beam2D::local_stiffness_pattern()),
            ElementType::Frame2D => Ok(Beam2D::local_stiffness_pattern()),
            ElementType::Beam3D => Ok(Frame3D::local_stiffness_pattern()),
            ElementType::Frame3D => Ok(Frame3D::local_stiffness_pattern()),
            ElementType::Plate => PlateElement::local_stiffness_pattern(),
            ElementType::Shell => ShellElement::local_stiffness_pattern(),
            ElementType::Solid => SolidElement::local_stiffness_pattern(),
        }
    }

    /// The local mass pattern of a family, under the same sharing as the
    /// stiffness patterns.
    pub fn mass_pattern(element_type: ElementType) -> (r: Result<Vec<MassTerm>, GazelleError>)
        ensures
            r is Ok <==> spec_family_supported(element_type),
            r matches Ok(v) ==> spec_mass_pattern_of(element_type, v@),
            r matches Ok(v) ==> spec_mass_pattern_wf(v@, 2 * spec_dofs_per_node(element_type)),
            r matches Err(e) ==> e is UnsupportedElement,
    {
        match element_type {
            ElementType::Truss2D => Ok(Truss2D::mass_pattern()),
            ElementType::Truss3D => Ok(Truss3D::mass_pattern()),
            ElementType::Beam2D => Ok(Beam2D::mass_pattern()),
            ElementType::Frame2D => Ok(Beam2D::mass_pattern()),
            ElementType::Beam3D => Ok(Frame3D::mass_pattern()),
            ElementType::Frame3D => Ok(Frame3D::mass_pattern()),
            ElementType::Plate => PlateElement::mass_pattern(),
            ElementType::Shell => ShellElement::mass_pattern(),
            ElementType::Solid => SolidElement::mass_pattern(),
        }
    }

    /// Whether the properties a stiffness computation needs are present:
    /// a missing one is the invalid-material error naming it, and an
    /// unsupported family is the unsupported-element error.
    pub fn check_stiffness_inputs(element_type: ElementType, properties: &ElementProperties, material: &MaterialProperties) -> (r: Result<(), GazelleError>)
        ensures
            r is Ok <==> spec_stiffness_inputs_ok(element_type, *properties, *material),
            spec_family_supported(element_type) ==> (r matches Err(e) ==> e is InvalidMaterial),
            !spec_family_supported(element_type) ==> (r matches Err(e) && e is UnsupportedElement),
    {
        match element_type {
            ElementType::Truss2D | ElementType::Truss3D => {
                if properties.area.is_none() {
                    return Err(GazelleError::InvalidMaterial {
                        property: "Cross-sectional area required for truss element".to_string(),
                    });
                }
                if material.young_modulus.is_none() {
                    return Err(GazelleError::InvalidMaterial {
                        property: "Young's modulus required".to_string(),
                    });
                }
                Ok(())
            },
            ElementType::Beam2D | ElementType::Frame2D => {
                if properties.area.is_none() {
                    return Err(GazelleError::InvalidMaterial {
                        property: "Cross-sectional area required".to_string(),
                    });
                }
                if properties.inertia_z.is_none() {
                    return Err(GazelleError::InvalidMaterial {
                        property: "Moment of inertia required".to_string(),
                    });
                }
                if material.young_modulus.is_none() {
                    return Err(GazelleError::InvalidMaterial {
                        property: "Young's modulus required".to_string(),
                    });
                }
                Ok(())
            },
            ElementType::Beam3D | ElementType::Frame3D => {
                if properties.area.is_none() {
                    return Err(GazelleError::InvalidMaterial {
                        property: "Cross-sectional area required".to_string(),
                    });
                }
                if properties.inertia_y.is_none() {
                    return Err(GazelleError::InvalidMaterial {
                        property: "Moment of inertia about y-axis required".to_string(),
                    });
                }
                if properties.inertia_z.is_none() {
                    return Err(GazelleError::InvalidMaterial {
                        property: "Moment of inertia about z-axis required".to_string(),
                    });
                }
                if properties.torsional_constant.is_none() {
                    return Err(GazelleError::InvalidMaterial {
                        property: "Torsional constant required".to_string(),
                    });
                }
                if material.young_modulus.is_none() {
                    return Err(GazelleError::InvalidMaterial {
                        property: "Young's modulus required".to_string(),
                    });
                }
                if material.poisson_ratio.is_none() {
                    return Err(GazelleError::InvalidMaterial {
                        property: "Poisson's ratio".to_string(),
                    });
                }
                Ok(())
            },
            ElementType::Plate => Err(GazelleError::UnsupportedElement {
                element_type: "Plate elements are not implemented".to_string(),
            }),
            ElementType::Shell => Err(GazelleError::UnsupportedElement {
                element_type: "Shell elements are not implemented".to_string(),
            }),
            ElementType::Solid => Err(GazelleError::UnsupportedElement {
                element_type: "Solid elements are not implemented".to_string(),
            }),
        }
    }

    /// Whether the properties a mass computation needs are present.
    pub fn check_mass_inputs(element_type: ElementType, properties: &ElementProperties, material: &MaterialProperties) -> (r: Result<(), GazelleError>)
        ensures
            r is Ok <==> spec_mass_inputs_ok(element_type, *properties, *material),
            spec_family_supported(element_type) ==> (r matches Err(e) ==> e is InvalidMaterial),
            !spec_family_supported(element_type) ==> (r matches Err(e) && e is UnsupportedElement),
    {
        match element_type {
            ElementType::Plate => Err(GazelleError::UnsupportedElement {
                element_type: "Plate elements are not implemented".to_string(),
            }),
            ElementType::Shell => Err(GazelleError::UnsupportedElement {
                element_type: "Shell elements are not implemented".to_string(),
            }),
            ElementType::Solid => Err(GazelleError::UnsupportedElement {
                element_type: "Solid elements are not implemented".to_string(),
            }),
            _ => {
                if properties.area.is_none() {
                    return Err(GazelleError::InvalidMaterial {
                        property: "Cross-sectional area required".to_string(),
                    });
                }
                if material.density.is_none() {
                    return Err(GazelleError::InvalidMaterial {
                        property: "Material density required".to_string(),
                    });
                }
                Ok(())
            },
        }
    }

    /// The verdict on a line element's geometry: the numeric layer
    /// measures the length and hands the degeneracy flag here, so a
    /// zero-length (coincident-node) element always fails with a
    /// validation error and never reaches a division by its length.
    pub fn check_element_length(is_degenerate: bool) -> (r: Result<(), GazelleError>)
        ensures
            r is Ok <==> !is_degenerate,
            r matches Err(e) ==> e is ValidationError,
    {
        if is_degenerate {
            Err(GazelleError::ValidationError(
                "Element has zero length".to_string(),
            ))
        } else {
            Ok(())
        }
    }
}

} // verus!
