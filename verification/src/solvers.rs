//! Solvers: DOF numbering, assembly and constraint planning, model
//! validation per analysis kind, and the analysis dispatcher.
//!
//! The numbering policy of a model is decided once and used consistently
//! for element, load and constraint references. A model whose elements
//! all belong to two-dimensional families (at most three DOFs per node)
//! uses a compact scheme: the global index of a node's DOF is the node id
//! times the model-wide maximum DOFs per node, plus a local offset.
//! Every other model uses the full scheme of six slots per node.
//!
//! The numeric work itself (assembling coefficients, applying the
//! penalty, factorizations) belongs to the numeric layer outside this
//! crate, which consumes the plans made here.

use vstd::prelude::*;
use vstd::math::max;
use crate::error::{GazelleError, Validate, message_with_id, spec_decimal_digits};
use crate::scalar::Scalar;
use crate::model::{
    Model, Element, ElementType, Dof, AnalysisType, AnalysisSettings, MAX_NODE_ID,
    spec_dofs_per_node, spec_dof_offset, spec_is_three_dimensional,
    lemma_unique_bounded_ids_len,
};
use crate::loads::{Load, LoadType};
use crate::constraints::{Constraint, ConstraintType};

verus! {

/// Bit pattern of the double 0.05 (the default damping ratio).
pub const BITS_DEFAULT_DAMPING: u64 = 0x3FA9_9999_9999_999A;
/// Bit pattern of the double 0.01 (the default time step).
pub const BITS_DEFAULT_TIME_STEP: u64 = 0x3F84_7AE1_47AE_147B;
/// Bit pattern of the double 1.0 (the default duration).
pub const BITS_DEFAULT_DURATION: u64 = 0x3FF0_0000_0000_0000;

/// Every element family in the sequence is two-dimensional.
pub open spec fn spec_is_2d(elements: Seq<Element>) -> bool {
    forall|i: int| 0 <= i < elements.len()
        ==> !spec_is_three_dimensional((#[trigger] elements[i]).element_type)
}

/// The largest DOFs-per-node figure among the first `n` elements
/// (zero when there are none).
pub open spec fn spec_max_dofs_upto(elements: Seq<Element>, n: int) -> int
    decreases n,
{
    if n <= 0 {
        0
    } else {
        max(spec_max_dofs_upto(elements, n - 1), spec_dofs_per_node(elements[n - 1].element_type))
    }
}

/// The largest DOFs-per-node figure in the model (zero without elements).
pub open spec fn spec_max_dofs(elements: Seq<Element>) -> int {
    spec_max_dofs_upto(elements, elements.len() as int)
}

/// The compact numbering scheme is chosen exactly when every element is
/// two-dimensional and no element wants more than three DOFs per node.
pub open spec fn spec_uses_compact(elements: Seq<Element>) -> bool {
    spec_is_2d(elements) && spec_max_dofs(elements) <= 3
}

/// The width of one node's block of global indices under the model's
/// scheme: the model-wide maximum for compact models, six otherwise.
pub open spec fn spec_scheme_width(elements: Seq<Element>) -> int {
    if spec_uses_compact(elements) {
        spec_max_dofs(elements)
    } else {
        6
    }
}

/// Global index of a nodal DOF under the traditional six-per-node scheme.
pub open spec fn spec_nodal_dof_traditional(node_id: int, d: Dof) -> int {
    node_id * 6 + spec_dof_offset(d)
}

/// Global index of a nodal DOF under the model's scheme. In the compact
/// scheme the rotation about Z takes the slot after the translations, so
/// the offset is capped at the scheme width minus one.
pub open spec fn spec_map_nodal_dof(elements: Seq<Element>, node_id: int, d: Dof) -> int {
    if spec_uses_compact(elements) {
        let w = spec_scheme_width(elements);
        if spec_dof_offset(d) < w {
            node_id * w + spec_dof_offset(d)
        } else if w > 0 {
            node_id * w + (w - 1)
        } else {
            0
        }
    } else {
        spec_nodal_dof_traditional(node_id, d)
    }
}

/// The top global index used by the first `n` node references of an
/// element with `dpn` DOFs per node, under the traditional scheme (zero
/// when there are none).
pub open spec fn spec_nodes_used_max_upto(nodes: Seq<usize>, dpn: int, n: int) -> int
    decreases n,
{
    if n <= 0 {
        0
    } else {
        max(spec_nodes_used_max_upto(nodes, dpn, n - 1), nodes[n - 1] * 6 + dpn - 1)
    }
}

/// The top global index used by the first `n` elements under the
/// traditional scheme.
pub open spec fn spec_elems_used_max_upto(elements: Seq<Element>, n: int) -> int
    decreases n,
{
    if n <= 0 {
        0
    } else {
        let e = elements[n - 1];
        max(
            spec_elems_used_max_upto(elements, n - 1),
            spec_nodes_used_max_upto(e.nodes@, spec_dofs_per_node(e.element_type), e.nodes@.len() as int),
        )
    }
}

/// The global index a load touches under the traditional scheme: only
/// nodal forces address a DOF, and a reference beyond the addressable id
/// range is ignored.
pub open spec fn spec_load_used_dof(l: Load) -> int {
    match l.load_type {
        LoadType::NodalForce { node_id, dof, magnitude } => {
            if node_id <= MAX_NODE_ID {
                spec_nodal_dof_traditional(node_id as int, dof)
            } else {
                0
            }
        },
        _ => 0,
    }
}

/// The top global index touched by the first `n` loads.
pub open spec fn spec_loads_used_max_upto(loads: Seq<Load>, n: int) -> int
    decreases n,
{
    if n <= 0 {
        0
    } else {
        max(spec_loads_used_max_upto(loads, n - 1), spec_load_used_dof(loads[n - 1]))
    }
}

/// The top global index touched by the first `n` pairs of a nodal
/// constraint at `node_id`.
pub open spec fn spec_pairs_used_max_upto(node_id: usize, pairs: Seq<(Dof, Scalar)>, n: int) -> int
    decreases n,
{
    if n <= 0 {
        0
    } else {
        max(
            spec_pairs_used_max_upto(node_id, pairs, n - 1),
            spec_nodal_dof_traditional(node_id as int, pairs[n - 1].0),
        )
    }
}

/// The global indices a constraint touches under the traditional scheme:
/// only the direct nodal variant addresses DOFs, and a reference beyond
/// the addressable id range is ignored.
pub open spec fn spec_constraint_used_max(c: Constraint) -> int {
    match c.constraint_type {
        ConstraintType::NodalConstraint { node_id, constraints } => {
            if node_id <= MAX_NODE_ID {
                spec_pairs_used_max_upto(node_id, constraints@, constraints@.len() as int)
            } else {
                0
            }
        },
        _ => 0,
    }
}

/// The top global index touched by the first `n` constraints.
pub open spec fn spec_constraints_used_max_upto(cs: Seq<Constraint>, n: int) -> int
    decreases n,
{
    if n <= 0 {
        0
    } else {
        max(spec_constraints_used_max_upto(cs, n - 1), spec_constraint_used_max(cs[n - 1]))
    }
}

/// The top global index any element, load or constraint of the model
/// touches under the traditional scheme.
pub open spec fn spec_full_used_max(m: Model) -> int {
    max(
        max(
            spec_elems_used_max_upto(m.elements@, m.elements@.len() as int),
            spec_loads_used_max_upto(m.loads@, m.loads@.len() as int),
        ),
        spec_constraints_used_max_upto(m.constraints@, m.constraints@.len() as int),
    )
}

/// The number of global DOF slots the model's scheme needs: node count
/// times block width for compact models, the top used index plus one for
/// the rest.
pub open spec fn spec_active_dof_count(m: Model) -> int {
    if spec_uses_compact(m.elements@) {
        m.nodes@.len() * spec_max_dofs(m.elements@)
    } else {
        spec_full_used_max(m) + 1
    }
}

/// Whether the model's scheme carries this DOF at all: a purely
/// translational planar model carries only the X and Y translations, a
/// planar model with rotational stiffness adds the rotation about Z, and
/// every other model carries all six.
pub open spec fn spec_dof_family_active(elements: Seq<Element>, d: Dof) -> bool {
    if spec_is_2d(elements) && spec_max_dofs(elements) <= 2 {
        d == Dof::Ux || d == Dof::Uy
    } else if spec_is_2d(elements) && spec_max_dofs(elements) <= 3 {
        d == Dof::Ux || d == Dof::Uy || d == Dof::Rz
    } else {
        true
    }
}

/// Static linear analysis solver.
pub struct StaticSolver {
    pub settings: AnalysisSettings,
}

impl StaticSolver {
    /// A static solver with default settings.
    pub fn new() -> (r: StaticSolver)
        ensures
            r.settings == AnalysisSettings::default_spec(),
    {
        StaticSolver { settings: AnalysisSettings::default() }
    }

    /// A static solver with the given settings.
    pub fn with_settings(settings: AnalysisSettings) -> (r: StaticSolver)
        ensures
            r.settings == settings,
    {
        StaticSolver { settings }
    }

    /// Whether every element of the model belongs to a two-dimensional
    /// family.
    pub fn is_2d_problem(&self, model: &Model) -> (r: bool)
        ensures
            r == spec_is_2d(model.elements@),
    {
        let mut i: usize = 0;
        while i < model.elements.len()
            invariant
                i <= model.elements@.len(),
                forall|k: int| 0 <= k < i
                    ==> !spec_is_three_dimensional((#[trigger] model.elements@[k]).element_type),
            decreases model.elements@.len() - i,
        {
            if model.elements[i].element_type.is_three_dimensional() {
                return false;
            }
            i += 1;
        }
        true
    }

    /// The largest DOFs-per-node figure among the model's elements.
    pub fn max_dofs_per_node(&self, model: &Model) -> (r: usize)
        ensures
            r == spec_max_dofs(model.elements@),
    {
        let mut max_dofs: usize = 0;
        let mut i: usize = 0;
        while i < model.elements.len()
            invariant
                i <= model.elements@.len(),
                max_dofs == spec_max_dofs_upto(model.elements@, i as int),
                max_dofs <= 6,
            decreases model.elements@.len() - i,
        {
            let dpn = model.elements[i].dofs_per_node();
            if dpn > max_dofs {
                max_dofs = dpn;
            }
            i += 1;
        }
        max_dofs
    }

    /// Whether the model's scheme is the compact one.
    pub fn uses_compact_numbering(&self, model: &Model) -> (r: bool)
        ensures
            r == spec_uses_compact(model.elements@),
    {
        self.is_2d_problem(model) && self.max_dofs_per_node(model) <= 3
    }

    /// Global index of a nodal DOF under the traditional six-per-node
    /// scheme.
    pub fn map_nodal_dof_traditional(&self, node_id: usize, dof: Dof) -> (r: usize)
        requires
            node_id <= MAX_NODE_ID,
        ensures
            r == spec_nodal_dof_traditional(node_id as int, dof),
    {
        node_id * 6 + dof.offset()
    }

    /// Global index of a nodal DOF under the model's scheme.
    pub fn map_nodal_dof(&self, model: &Model, node_id: usize, dof: Dof) -> (r: usize)
        requires
            node_id <= MAX_NODE_ID,
        ensures
            r == spec_map_nodal_dof(model.elements@, node_id as int, dof),
    {
        if self.uses_compact_numbering(model) {
            let w = self.max_dofs_per_node(model);
            let off = dof.offset();
            proof {
                assert((node_id as int) * (w as int) <= 0x0FFF_FFFF * 3) by (nonlinear_arith)
                    requires
                        node_id as int <= 0x0FFF_FFFF,
                        0 <= w as int,
                        w as int <= 3,
                ;
            }
            if off < w {
                node_id * w + off
            } else if w > 0 {
                node_id * w + (w - 1)
            } else {
                0
            }
        } else {
            self.map_nodal_dof_traditional(node_id, dof)
        }
    }

    /// Whether a DOF exists at all under the model's scheme.
    pub fn is_dof_active_for_model(&self, model: &Model, dof: Dof) -> (r: bool)
        ensures
            r == spec_dof_family_active(model.elements@, dof),
    {
        let is_2d = self.is_2d_problem(model);
        let max_dofs = self.max_dofs_per_node(model);
        if is_2d && max_dofs <= 2 {
            matches!(dof, Dof::Ux | Dof::Uy)
        } else if is_2d && max_dofs <= 3 {
            matches!(dof, Dof::Ux | Dof::Uy | Dof::Rz)
        } else {
            true
        }
    }

    /// The number of global DOF slots the model needs. This is the size
    /// of the assembled system: stiffness, mass, loads and constraints
    /// are all addressed inside it.
    pub fn calculate_active_dofs(&self, model: &Model) -> (r: usize)
        requires
            model.wf(),
        ensures
            r == spec_active_dof_count(*model),
    {
        if self.uses_compact_numbering(model) {
            let w = self.max_dofs_per_node(model);
            proof {
                lemma_unique_bounded_ids_len(model.nodes@);
                assert((model.nodes@.len() as int) * (w as int) <= 0x1000_0000 * 3) by (nonlinear_arith)
                    requires
                        model.nodes@.len() as int <= 0x1000_0000,
                        0 <= w as int,
                        w as int <= 3,
                ;
            }
            return model.nodes.len() * w;
        }

        let mut used_max: usize = 0;

        let mut i: usize = 0;
        while i < model.elements.len()
            invariant
                model.wf(),
                i <= model.elements@.len(),
                used_max == spec_elems_used_max_upto(model.elements@, i as int),
                used_max <= MAX_NODE_ID * 6 + 5,
            decreases model.elements@.len() - i,
        {
            let e = &model.elements[i];
            let dpn = e.element_type.dofs_per_node();
            let mut k: usize = 0;
            let mut node_max: usize = 0;
            while k < e.nodes.len()
                invariant
                    model.wf(),
                    0 <= i < model.elements@.len(),
                    *e == model.elements@[i as int],
                    dpn == spec_dofs_per_node(e.element_type),
                    k <= e.nodes@.len(),
                    node_max == spec_nodes_used_max_upto(e.nodes@, dpn as int, k as int),
                    node_max <= MAX_NODE_ID * 6 + 5,
                decreases e.nodes@.len() - k,
            {
                let node_id = e.nodes[k];
                proof {
                    assert(model.has_node(node_id));
                    let w = choose|w: int|
                        0 <= w < model.nodes@.len() && (#[trigger] model.nodes@[w]).id == node_id;
                    assert(model.nodes@[w].id <= MAX_NODE_ID);
                }
                let cand = node_id * 6 + (dpn - 1);
                if cand > node_max {
                    node_max = cand;
                }
                k += 1;
            }
            if node_max > used_max {
                used_max = node_max;
            }
            i += 1;
        }

        let mut i: usize = 0;
        while i < model.loads.len()
            invariant
                i <= model.loads@.len(),
                spec_loads_used_max_upto(model.loads@, i as int) <= used_max,
                used_max <= MAX_NODE_ID * 6 + 5,
                max(
                    spec_elems_used_max_upto(model.elements@, model.elements@.len() as int),
                    spec_loads_used_max_upto(model.loads@, i as int),
                ) == used_max,
            decreases model.loads@.len() - i,
        {
            match &model.loads[i].load_type {
                LoadType::NodalForce { node_id, dof, magnitude: _ } => {
                    if *node_id <= MAX_NODE_ID {
                        let cand = *node_id * 6 + dof.offset();
                        if cand > used_max {
                            used_max = cand;
                        }
                    }
                },
                _ => {},
            }
            i += 1;
        }

        let ghost used_after_loads = used_max;

        let mut i: usize = 0;
        while i < model.constraints.len()
            invariant
                i <= model.constraints@.len(),
                used_max <= MAX_NODE_ID * 6 + 5,
                max(
                    used_after_loads as int,
                    spec_constraints_used_max_upto(model.constraints@, i as int),
                ) == used_max,
                used_after_loads <= used_max,
                used_after_loads == max(
                    spec_elems_used_max_upto(model.elements@, model.elements@.len() as int),
                    spec_loads_used_max_upto(model.loads@, model.loads@.len() as int),
                ),
            decreases model.constraints@.len() - i,
        {
            match &model.constraints[i].constraint_type {
                ConstraintType::NodalConstraint { node_id, constraints } => {
                    if *node_id <= MAX_NODE_ID {
                        let mut k: usize = 0;
                        let ghost used_before_pairs = used_max;
                        while k < constraints.len()
                            invariant
                                k <= constraints@.len(),
                                *node_id <= MAX_NODE_ID,
                                used_max <= MAX_NODE_ID * 6 + 5,
                                max(
                                    used_before_pairs as int,
                                    spec_pairs_used_max_upto(*node_id, constraints@, k as int),
                                ) == used_max,
                                used_before_pairs <= used_max,
                            decreases constraints@.len() - k,
                        {
                            let cand = *node_id * 6 + constraints[k].0.offset();
                            if cand > used_max {
                                used_max = cand;
                            }
                            k += 1;
                        }
                    }
                },
                _ => {},
            }
            i += 1;
        }

        used_max + 1
    }
}

impl Default for StaticSolver {
    /// Same as [`StaticSolver::new`].
    fn default() -> (r: StaticSolver)
        ensures
            r.settings == AnalysisSettings::default_spec(),
    {
        StaticSolver::new()
    }
}

/// The global index of local DOF `idx` of element `i` under the model's
/// scheme: local DOF `idx` sits at node slot `idx / dpn` with offset
/// `idx % dpn`.
pub open spec fn spec_element_flat_dof(m: Model, i: int, idx: int) -> int {
    let dpn = spec_dofs_per_node(m.elements@[i].element_type);
    m.elements@[i].nodes@[idx / dpn] * spec_scheme_width(m.elements@) + idx % dpn
}

/// Whether `g` is a global index touched by one of the first `n`
/// elements of the model under the model's scheme.
pub open spec fn spec_is_element_dof_upto(m: Model, g: int, n: int) -> bool {
    exists|i: int, idx: int| {
        &&& 0 <= i < n
        &&& 0 <= idx
        &&& idx < m.elements@[i].nodes@.len() * spec_dofs_per_node(m.elements@[i].element_type)
        &&& g == #[trigger] spec_element_flat_dof(m, i, idx)
    }
}

/// Whether `g` is a global index touched by some element of the model.
pub open spec fn spec_is_element_dof(m: Model, g: int) -> bool {
    spec_is_element_dof_upto(m, g, m.elements@.len() as int)
}

/// Whether a (node, DOF, value) prescription is carried into the
/// assembled system: its DOF must exist under the model's scheme, its
/// node must be addressable, and its global index must be an element DOF
/// inside the system's bounds; anything else is deliberately skipped, as
/// touching an untouched row would corrupt the system.
pub open spec fn spec_pair_included(m: Model, total: int, node_id: usize, d: Dof) -> bool {
    &&& spec_dof_family_active(m.elements@, d)
    &&& node_id <= MAX_NODE_ID
    &&& spec_is_element_dof(m, spec_map_nodal_dof(m.elements@, node_id as int, d))
    &&& spec_map_nodal_dof(m.elements@, node_id as int, d) < total
}

/// The (global DOF, prescribed value) pairs the first `n` pairs of a
/// nodal constraint contribute.
pub open spec fn spec_pair_plan_upto(m: Model, total: int, node_id: usize, pairs: Seq<(Dof, Scalar)>, n: int) -> Seq<(usize, Scalar)>
    decreases n,
{
    if n <= 0 {
        Seq::empty()
    } else {
        let rest = spec_pair_plan_upto(m, total, node_id, pairs, n - 1);
        if spec_pair_included(m, total, node_id, pairs[n - 1].0) {
            rest.push((spec_map_nodal_dof(m.elements@, node_id as int, pairs[n - 1].0) as usize, pairs[n - 1].1))
        } else {
            rest
        }
    }
}

/// The (global DOF, prescribed value) pairs one constraint contributes:
/// only the direct nodal variant is enforced.
pub open spec fn spec_constraint_plan(m: Model, total: int, c: Constraint) -> Seq<(usize, Scalar)> {
    match c.constraint_type {
        ConstraintType::NodalConstraint { node_id, constraints } => {
            spec_pair_plan_upto(m, total, node_id, constraints@, constraints@.len() as int)
        },
        _ => Seq::empty(),
    }
}

/// The (global DOF, prescribed value) pairs the first `n` constraints
/// contribute, in order.
pub open spec fn spec_constraints_plan_upto(m: Model, total: int, n: int) -> Seq<(usize, Scalar)>
    decreases n,
{
    if n <= 0 {
        Seq::empty()
    } else {
        spec_constraints_plan_upto(m, total, n - 1) + spec_constraint_plan(m, total, m.constraints@[n - 1])
    }
}

/// The full constraint plan of the model.
pub open spec fn spec_constraints_plan(m: Model, total: int) -> Seq<(usize, Scalar)> {
    spec_constraints_plan_upto(m, total, m.constraints@.len() as int)
}

/// The (global DOF, magnitude, factor) triples the first `n` loads
/// contribute: nodal forces whose index falls inside the system, the
/// others being deliberate no-ops.
pub open spec fn spec_loads_plan_upto(m: Model, total: int, n: int) -> Seq<(usize, Scalar, Scalar)>
    decreases n,
{
    if n <= 0 {
        Seq::empty()
    } else {
        let rest = spec_loads_plan_upto(m, total, n - 1);
        match m.loads@[n - 1].load_type {
            LoadType::NodalForce { node_id, dof, magnitude } => {
                if m.has_node(node_id) && spec_dof_family_active(m.elements@, dof)
                    && spec_map_nodal_dof(m.elements@, node_id as int, dof) < total {
                    rest.push((
                        spec_map_nodal_dof(m.elements@, node_id as int, dof) as usize,
                        magnitude,
                        m.loads@[n - 1].factor,
                    ))
                } else {
                    rest
                }
            },
            _ => rest,
        }
    }
}

/// The full nodal load plan of the model.
pub open spec fn spec_loads_plan(m: Model, total: int) -> Seq<(usize, Scalar, Scalar)> {
    spec_loads_plan_upto(m, total, m.loads@.len() as int)
}

impl StaticSolver {
    /// The global DOF indices of one element's local DOFs, in element
    /// order: local DOF `idx` belongs to node slot `idx / dpn` and local
    /// offset `idx % dpn`, and maps to the node's block under the
    /// model's scheme.
    pub fn map_element_dofs_efficient(&self, model: &Model, element: &Element) -> (r: Vec<usize>)
        requires
            model.wf(),
            forall|k: int| 0 <= k < element.nodes@.len() ==> model.has_node(#[trigger] element.nodes@[k]),
        ensures
            r@.len() == element.nodes@.len() * spec_dofs_per_node(element.element_type),
            forall|idx: int| 0 <= idx < r@.len()
                ==> #[trigger] r@[idx] == element.nodes@[idx / spec_dofs_per_node(element.element_type)]
                    * spec_scheme_width(model.elements@)
                    + idx % spec_dofs_per_node(element.element_type),
    {
        let dpn = element.element_type.dofs_per_node();
        let compact = self.uses_compact_numbering(model);
        let w: usize = if compact { self.max_dofs_per_node(model) } else { 6 };
        let ghost sw = spec_scheme_width(model.elements@);
        proof {
            assert(w == sw);
        }
        let mut r: Vec<usize> = Vec::new();
        let mut k: usize = 0;
        while k < element.nodes.len()
            invariant
                model.wf(),
                forall|k2: int| 0 <= k2 < element.nodes@.len()
                    ==> model.has_node(#[trigger] element.nodes@[k2]),
                dpn == spec_dofs_per_node(element.element_type),
                w == spec_scheme_width(model.elements@),
                w <= 6,
                k <= element.nodes@.len(),
                r@.len() == k * dpn,
                forall|idx: int| 0 <= idx < r@.len()
                    ==> #[trigger] r@[idx] == element.nodes@[idx / dpn as int] * w + idx % dpn as int,
            decreases element.nodes@.len() - k,
        {
            let node_id = element.nodes[k];
            proof {
                assert(model.has_node(node_id));
                let wit = choose|wi: int|
                    0 <= wi < model.nodes@.len() && (#[trigger] model.nodes@[wi]).id == node_id;
                assert(model.nodes@[wit].id <= MAX_NODE_ID);
                assert((node_id as int) * (w as int) <= 0x0FFF_FFFF * 6) by (nonlinear_arith)
                    requires
                        node_id as int <= 0x0FFF_FFFF,
                        0 <= w as int,
                        w as int <= 6,
                ;
            }
            let node_base = node_id * w;
            let mut j: usize = 0;
            while j < dpn
                invariant
                    model.wf(),
                    dpn == spec_dofs_per_node(element.element_type),
                    w == spec_scheme_width(model.elements@),
                    w <= 6,
                    0 <= k < element.nodes@.len(),
                    node_id == element.nodes@[k as int],
                    node_base == node_id * w,
                    node_base <= 0x0FFF_FFFF * 6,
                    j <= dpn,
                    r@.len() == k * dpn + j,
                    forall|idx: int| 0 <= idx < r@.len()
                        ==> #[trigger] r@[idx] == element.nodes@[idx / dpn as int] * w + idx % dpn as int,
                decreases dpn - j,
            {
                proof {
                    let idx = (k * dpn + j) as int;
                    vstd::arithmetic::div_mod::lemma_fundamental_div_mod_converse_div(
                        idx, dpn as int, k as int, j as int);
                    vstd::arithmetic::div_mod::lemma_fundamental_div_mod_converse_mod(
                        idx, dpn as int, k as int, j as int);
                }
                r.push(node_base + j);
                j += 1;
            }
            k += 1;
        }
        r
    }

    /// The global DOF index lists of every element, in element order:
    /// one entry per element, as [`StaticSolver::map_element_dofs_efficient`]
    /// gives it. This is the scatter map of the assembly: the numeric
    /// layer adds the element's coefficient at the cross product of its
    /// list into the global matrix.
    pub fn plan_element_dofs(&self, model: &Model) -> (r: Vec<Vec<usize>>)
        requires
            model.wf(),
        ensures
            r@.len() == model.elements@.len(),
            forall|i: int| 0 <= i < r@.len() ==> {
                let e = model.elements@[i];
                let dpn = spec_dofs_per_node(e.element_type);
                &&& (#[trigger] r@[i])@.len() == e.nodes@.len() * dpn
                &&& forall|idx: int| 0 <= idx < r@[i]@.len()
                    ==> #[trigger] r@[i]@[idx] == e.nodes@[idx / dpn] * spec_scheme_width(model.elements@) + idx % dpn
            },
    {
        let mut r: Vec<Vec<usize>> = Vec::new();
        let mut i: usize = 0;
        while i < model.elements.len()
            invariant
                model.wf(),
                i <= model.elements@.len(),
                r@.len() == i,
                forall|i2: int| 0 <= i2 < r@.len() ==> {
                    let e = model.elements@[i2];
                    let dpn = spec_dofs_per_node(e.element_type);
                    &&& (#[trigger] r@[i2])@.len() == e.nodes@.len() * dpn
                    &&& forall|idx: int| 0 <= idx < r@[i2]@.len()
                        ==> #[trigger] r@[i2]@[idx] == e.nodes@[idx / dpn] * spec_scheme_width(model.elements@) + idx % dpn
                },
            decreases model.elements@.len() - i,
        {
            let row = self.map_element_dofs_efficient(model, &model.elements[i]);
            r.push(row);
            i += 1;
        }
        r
    }

    /// Mark every global index some element touches: `marks[g]` says
    /// whether `g` is an element DOF. Untouched indices are exactly the
    /// rows the constraint planner must skip.
    pub fn build_active_dof_marks(&self, model: &Model, total: usize) -> (r: Vec<bool>)
        requires
            model.wf(),
        ensures
            r@.len() == total,
            forall|g: int| 0 <= g < total ==> (#[trigger] r@[g] <==> spec_is_element_dof(*model, g)),
    {
        let mut marks: Vec<bool> = Vec::new();
        let mut g: usize = 0;
        while g < total
            invariant
                g <= total,
                marks@.len() == g,
                forall|g2: int| 0 <= g2 < g ==> !(#[trigger] marks@[g2]),
            decreases total - g,
        {
            marks.push(false);
            g += 1;
        }
        let mut i: usize = 0;
        while i < model.elements.len()
            invariant
                model.wf(),
                i <= model.elements@.len(),
                marks@.len() == total,
                forall|g2: int| 0 <= g2 < total
                    ==> (#[trigger] marks@[g2] <==> spec_is_element_dof_upto(*model, g2, i as int)),
            decreases model.elements@.len() - i,
        {
            let dofs = self.map_element_dofs_efficient(model, &model.elements[i]);
            let mut k: usize = 0;
            while k < dofs.len()
                invariant
                    model.wf(),
                    0 <= i < model.elements@.len(),
                    marks@.len() == total,
                    k <= dofs@.len(),
                    dofs@.len() == model.elements@[i as int].nodes@.len()
                        * spec_dofs_per_node(model.elements@[i as int].element_type),
                    forall|idx: int| 0 <= idx < dofs@.len()
                        ==> #[trigger] dofs@[idx] == model.elements@[i as int].nodes@[
                            idx / spec_dofs_per_node(model.elements@[i as int].element_type)]
                            * spec_scheme_width(model.elements@)
                            + idx % spec_dofs_per_node(model.elements@[i as int].element_type),
                    forall|g2: int| 0 <= g2 < total
                        ==> (#[trigger] marks@[g2] <==> (spec_is_element_dof_upto(*model, g2, i as int)
                            || exists|idx: int| 0 <= idx < k && g2 == #[trigger] dofs@[idx])),
                decreases dofs@.len() - k,
            {
                let d = dofs[k];
                if d < marks.len() {
                    marks.set(d, true);
                }
                proof {
                    assert forall|g2: int| 0 <= g2 < total
                        implies (#[trigger] marks@[g2] <==> (spec_is_element_dof_upto(*model, g2, i as int)
                            || exists|idx: int| 0 <= idx < k + 1 && g2 == #[trigger] dofs@[idx])) by {
                        if g2 == d as int {
                            assert(dofs@[k as int] == d);
                        }
                    }
                }
                k += 1;
            }
            proof {
                assert forall|g2: int| 0 <= g2 < total
                    implies (#[trigger] marks@[g2] <==> spec_is_element_dof_upto(*model, g2, i as int + 1)) by {
                    let dpn = spec_dofs_per_node(model.elements@[i as int].element_type);
                    if marks@[g2] {
                        if !spec_is_element_dof_upto(*model, g2, i as int) {
                            let idx = choose|idx: int| 0 <= idx < dofs@.len() && g2 == #[trigger] dofs@[idx];
                            assert(g2 == spec_element_flat_dof(*model, i as int, idx));
                        }
                    } else {
                        if spec_is_element_dof_upto(*model, g2, i as int + 1) {
                            let (i2, idx) = choose|i2: int, idx: int| {
                                &&& 0 <= i2 < i as int + 1
                                &&& 0 <= idx
                                &&& idx < model.elements@[i2].nodes@.len()
                                    * spec_dofs_per_node(model.elements@[i2].element_type)
                                &&& g2 == #[trigger] spec_element_flat_dof(*model, i2, idx)
                            };
                            if i2 < i as int {
                                assert(spec_is_element_dof_upto(*model, g2, i as int));
                            } else {
                                assert(g2 == dofs@[idx]);
                            }
                            assert(false);
                        }
                    }
                }
            }
            i += 1;
        }
        marks
    }

    /// The constraint plan: every (global DOF, prescribed value) pair the
    /// penalty enforcement will touch, in model order. A pair whose DOF
    /// the scheme does not carry, whose node is not addressable, or whose
    /// index no element touches is skipped, and the variants other than
    /// the direct nodal one are deliberate no-ops.
    pub fn plan_constraints(&self, model: &Model, total: usize) -> (r: Vec<(usize, Scalar)>)
        requires
            model.wf(),
        ensures
            r@ == spec_constraints_plan(*model, total as int),
    {
        let marks = self.build_active_dof_marks(model, total);
        let mut out: Vec<(usize, Scalar)> = Vec::new();
        let mut i: usize = 0;
        while i < model.constraints.len()
            invariant
                model.wf(),
                i <= model.constraints@.len(),
                marks@.len() == total,
                forall|g: int| 0 <= g < total
                    ==> (#[trigger] marks@[g] <==> spec_is_element_dof(*model, g)),
                out@ == spec_constraints_plan_upto(*model, total as int, i as int),
            decreases model.constraints@.len() - i,
        {
            match &model.constraints[i].constraint_type {
                ConstraintType::NodalConstraint { node_id, constraints } => {
                    let node_id = *node_id;
                    let mut k: usize = 0;
                    while k < constraints.len()
                        invariant
                            model.wf(),
                            0 <= i < model.constraints@.len(),
                            model.constraints@[i as int].constraint_type
                                matches ConstraintType::NodalConstraint { node_id: n2, constraints: cs2 }
                                && n2 == node_id && cs2@ == constraints@,
                            marks@.len() == total,
                            forall|g: int| 0 <= g < total
                                ==> (#[trigger] marks@[g] <==> spec_is_element_dof(*model, g)),
                            k <= constraints@.len(),
                            out@ == spec_constraints_plan_upto(*model, total as int, i as int)
                                + spec_pair_plan_upto(*model, total as int, node_id, constraints@, k as int),
                        decreases constraints@.len() - k,
                    {
                        let d = constraints[k].0;
                        let v = constraints[k].1;
                        if self.is_dof_active_for_model(model, d) && node_id <= MAX_NODE_ID {
                            let g = self.map_nodal_dof(model, node_id, d);
                            if g < total && marks[g] {
                                out.push((g, v));
                            }
                        }
                        k += 1;
                    }
                    proof {
                        assert(spec_constraint_plan(*model, total as int, model.constraints@[i as int])
                            == spec_pair_plan_upto(*model, total as int, node_id, constraints@, constraints@.len() as int));
                    }
                },
                _ => {
                    proof {
                        assert(spec_constraint_plan(*model, total as int, model.constraints@[i as int])
                            =~= Seq::<(usize, Scalar)>::empty());
                    }
                },
            }
            proof {
                assert(out@ =~= spec_constraints_plan_upto(*model, total as int, i as int + 1));
            }
            i += 1;
        }
        out
    }

    /// The nodal load plan: every (global DOF, magnitude, factor) triple
    /// the load assembly will add, in model order. A nodal force whose
    /// node does not exist is an error; one on a DOF the scheme does not
    /// carry, or whose index falls outside the system, is skipped, so a
    /// force never lands on another DOF's slot; the other load kinds are
    /// deliberate no-ops.
    pub fn plan_nodal_loads(&self, model: &Model, total: usize) -> (r: Result<Vec<(usize, Scalar, Scalar)>, GazelleError>)
        requires
            model.wf(),
        ensures
            r is Ok <==> (forall|i: int| 0 <= i < model.loads@.len()
                ==> ((#[trigger] model.loads@[i].load_type) matches LoadType::NodalForce { node_id, .. }
                    ==> model.has_node(node_id))),
            r matches Ok(v) ==> v@ == spec_loads_plan(*model, total as int),
            r matches Err(e) ==> exists|i: int| {
                &&& 0 <= i < model.loads@.len()
                &&& (#[trigger] model.loads@[i].load_type) matches LoadType::NodalForce { node_id, .. }
                    && !model.has_node(node_id) && e == GazelleError::InvalidNodeId(node_id)
            },
    {
        let mut out: Vec<(usize, Scalar, Scalar)> = Vec::new();
        let mut i: usize = 0;
        while i < model.loads.len()
            invariant
                model.wf(),
                i <= model.loads@.len(),
                forall|i2: int| 0 <= i2 < i
                    ==> ((#[trigger] model.loads@[i2].load_type) matches LoadType::NodalForce { node_id, .. }
                        ==> model.has_node(node_id)),
                out@ == spec_loads_plan_upto(*model, total as int, i as int),
            decreases model.loads@.len() - i,
        {
            match &model.loads[i].load_type {
                LoadType::NodalForce { node_id, dof, magnitude } => {
                    let node_id = *node_id;
                    if model.get_node(node_id).is_err() {
                        return Err(GazelleError::InvalidNodeId(node_id));
                    }
                    proof {
                        assert(model.has_node(node_id));
                        let wit = choose|wi: int|
                            0 <= wi < model.nodes@.len() && (#[trigger] model.nodes@[wi]).id == node_id;
                        assert(model.nodes@[wit].id <= MAX_NODE_ID);
                    }
                    if self.is_dof_active_for_model(model, *dof) {
                        let g = self.map_nodal_dof(model, node_id, *dof);
                        if g < total {
                            out.push((g, *magnitude, model.loads[i].factor));
                        }
                    }
                },
                _ => {},
            }
            i += 1;
        }
        Ok(out)
    }

    /// Whether the model is fit for a static solve: it must validate and
    /// carry at least one direct nodal prescription, since a structure
    /// without one cannot be in stable equilibrium.
    pub fn validate_model(&self, model: &Model) -> (r: Result<(), GazelleError>)
        ensures
            r is Ok <==> (model.valid() && exists|i: int| {
                &&& 0 <= i < model.constraints@.len()
                &&& (#[trigger] model.constraints@[i].constraint_type)
                    matches ConstraintType::NodalConstraint { constraints: cs, .. } && cs@.len() > 0
            }),
            r matches Err(e) ==> (e is ValidationError || e is InvalidMaterial),
    {
        match model.validate() {
            Ok(_) => {},
            Err(e) => {
                return Err(e);
            },
        }
        let mut i: usize = 0;
        while i < model.constraints.len()
            invariant
                i <= model.constraints@.len(),
                forall|i2: int| 0 <= i2 < i
                    ==> !((#[trigger] model.constraints@[i2].constraint_type)
                        matches ConstraintType::NodalConstraint { constraints: cs, .. } && cs@.len() > 0),
            decreases model.constraints@.len() - i,
        {
            match &model.constraints[i].constraint_type {
                ConstraintType::NodalConstraint { constraints, .. } => {
                    if constraints.len() > 0 {
                        return Ok(());
                    }
                },
                _ => {},
            }
            i += 1;
        }
        Err(GazelleError::ValidationError(
            "Model has no constraints - structure is unstable".to_string(),
        ))
    }
}

/// Modal analysis solver for the generalized eigenproblem.
pub struct ModalSolver {
    pub settings: AnalysisSettings,
    pub num_modes: usize,
}

impl ModalSolver {
    /// A modal solver for the given number of modes, with default
    /// settings.
    pub fn new(num_modes: usize) -> (r: ModalSolver)
        ensures
            r.settings == AnalysisSettings::default_spec(),
            r.num_modes == num_modes,
    {
        ModalSolver { settings: AnalysisSettings::default(), num_modes }
    }

    /// A modal solver with the given settings.
    pub fn with_settings(num_modes: usize, settings: AnalysisSettings) -> (r: ModalSolver)
        ensures
            r.settings == settings,
            r.num_modes == num_modes,
    {
        ModalSolver { settings, num_modes }
    }

    /// Whether the model is fit for a modal solve: every material must
    /// carry a density, else no mass matrix exists. A failure names the
    /// first material without one.
    pub fn validate_model(&self, model: &Model) -> (r: Result<(), GazelleError>)
        ensures
            r is Ok <==> (forall|i: int| 0 <= i < model.materials@.len()
                ==> (#[trigger] model.materials@[i]).properties.density is Some),
            r matches Err(e) ==> exists|i: int| {
                &&& 0 <= i < model.materials@.len()
                &&& (#[trigger] model.materials@[i]).properties.density is None
                &&& (forall|j: int| 0 <= j < i
                    ==> (#[trigger] model.materials@[j]).properties.density is Some)
                &&& e matches GazelleError::ValidationError(m)
                    && m@ == "Material "@ + spec_decimal_digits(model.materials@[i].id as nat)
                        + " missing density for modal analysis"@
            },
    {
        let mut i: usize = 0;
        while i < model.materials.len()
            invariant
                i <= model.materials@.len(),
                forall|k: int| 0 <= k < i
                    ==> (#[trigger] model.materials@[k]).properties.density is Some,
            decreases model.materials@.len() - i,
        {
            if model.materials[i].properties.density.is_none() {
                return Err(GazelleError::ValidationError(
                    message_with_id("Material ", model.materials[i].id, " missing density for modal analysis"),
                ));
            }
            i += 1;
        }
        Ok(())
    }
}

/// Time-history solver: validated, but the time integration itself is
/// deliberately unimplemented and the run fails fast.
pub struct TimeHistorySolver {
    pub settings: AnalysisSettings,
    pub time_step: Scalar,
    pub duration: Scalar,
    pub damping_ratio: Scalar,
}

impl TimeHistorySolver {
    /// A time-history solver with default settings and the default five
    /// percent damping.
    pub fn new(time_step: Scalar, duration: Scalar) -> (r: TimeHistorySolver)
        ensures
            r.settings == AnalysisSettings::default_spec(),
            r.time_step == time_step,
            r.duration == duration,
            r.damping_ratio.bits == BITS_DEFAULT_DAMPING,
    {
        TimeHistorySolver {
            settings: AnalysisSettings::default(),
            time_step,
            duration,
            damping_ratio: Scalar { bits: BITS_DEFAULT_DAMPING },
        }
    }

    /// The same solver with another damping ratio.
    pub fn with_damping(self, damping_ratio: Scalar) -> (r: TimeHistorySolver)
        ensures
            r == (TimeHistorySolver { damping_ratio, ..self }),
    {
        let mut s = self;
        s.damping_ratio = damping_ratio;
        s
    }

    /// Whether the model is fit for a dynamic solve: every material must
    /// carry a density. A failure names the first material without one.
    pub fn validate_model(&self, model: &Model) -> (r: Result<(), GazelleError>)
        ensures
            r is Ok <==> (forall|i: int| 0 <= i < model.materials@.len()
                ==> (#[trigger] model.materials@[i]).properties.density is Some),
            r matches Err(e) ==> exists|i: int| {
                &&& 0 <= i < model.materials@.len()
                &&& (#[trigger] model.materials@[i]).properties.density is None
                &&& (forall|j: int| 0 <= j < i
                    ==> (#[trigger] model.materials@[j]).properties.density is Some)
                &&& e matches GazelleError::ValidationError(m)
                    && m@ == "Material "@ + spec_decimal_digits(model.materials@[i].id as nat)
                        + " missing density for dynamic analysis"@
            },
    {
        let mut i: usize = 0;
        while i < model.materials.len()
            invariant
                i <= model.materials@.len(),
                forall|k: int| 0 <= k < i
                    ==> (#[trigger] model.materials@[k]).properties.density is Some,
            decreases model.materials@.len() - i,
        {
            if model.materials[i].properties.density.is_none() {
                return Err(GazelleError::ValidationError(
                    message_with_id("Material ", model.materials[i].id, " missing density for dynamic analysis"),
                ));
            }
            i += 1;
        }
        Ok(())
    }

    /// Whether the model carries any time-varying (seismic) load.
    pub fn has_dynamic_loads(&self, model: &Model) -> (r: bool)
        ensures
            r == exists|i: int| 0 <= i < model.loads@.len()
                && (#[trigger] model.loads@[i].load_type) is Seismic,
    {
        let mut i: usize = 0;
        while i < model.loads.len()
            invariant
                i <= model.loads@.len(),
                forall|k: int| 0 <= k < i ==> !((#[trigger] model.loads@[k].load_type) is Seismic),
            decreases model.loads@.len() - i,
        {
            match &model.loads[i].load_type {
                LoadType::Seismic { .. } => {
                    return true;
                },
                _ => {},
            }
            i += 1;
        }
        false
    }
}

/// What the orchestrator decided to run: the solver kind with its
/// resolved parameters.
#[derive(Debug, Clone, Copy, PartialEq, Eq, Structural)]
pub enum AnalysisDispatch {
    /// Run the static solver.
    Static,
    /// Run the modal solver for this many modes.
    Modal { num_modes: usize },
    /// Run the time-history solver with these stepping parameters.
    TimeHistory { time_step: Scalar, duration: Scalar },
}

/// Coordinates the different solver kinds.
pub struct AnalysisRunner;

impl AnalysisRunner {
    /// Decide which solver a requested analysis kind runs, resolving the
    /// defaults: ten modes, a time step of 0.01 and a duration of 1.0
    /// where the settings leave them open. The buckling and nonlinear
    /// static kinds are declared but unsupported and fail fast.
    pub fn plan_analysis(model: &Model, analysis_type: AnalysisType) -> (r: Result<AnalysisDispatch, GazelleError>)
        ensures
            analysis_type is Static ==> r == Ok::<AnalysisDispatch, GazelleError>(AnalysisDispatch::Static),
            analysis_type is Modal ==> r == Ok::<AnalysisDispatch, GazelleError>(AnalysisDispatch::Modal {
                num_modes: if model.analysis_settings.eigen_modes is Some {
                    model.analysis_settings.eigen_modes->0
                } else {
                    10usize
                },
            }),
            analysis_type is TimeHistory ==> r == Ok::<AnalysisDispatch, GazelleError>(AnalysisDispatch::TimeHistory {
                time_step: if model.analysis_settings.time_step is Some {
                    model.analysis_settings.time_step->0
                } else {
                    Scalar { bits: BITS_DEFAULT_TIME_STEP }
                },
                duration: if model.analysis_settings.duration is Some {
                    model.analysis_settings.duration->0
                } else {
                    Scalar { bits: BITS_DEFAULT_DURATION }
                },
            }),
            (analysis_type is Buckling || analysis_type is NonlinearStatic)
                ==> (r matches Err(e) && e is UnsupportedElement),
    {
        match analysis_type {
            AnalysisType::Static => Ok(AnalysisDispatch::Static),
            AnalysisType::Modal => {
                let num_modes = match model.analysis_settings.eigen_modes {
                    Some(n) => n,
                    None => 10,
                };
                Ok(AnalysisDispatch::Modal { num_modes })
            },
            AnalysisType::TimeHistory => {
                let time_step = match model.analysis_settings.time_step {
                    Some(t) => t,
                    None => Scalar { bits: BITS_DEFAULT_TIME_STEP },
                };
                let duration = match model.analysis_settings.duration {
                    Some(d) => d,
                    None => Scalar { bits: BITS_DEFAULT_DURATION },
                };
                Ok(AnalysisDispatch::TimeHistory { time_step, duration })
            },
            AnalysisType::Buckling => Err(GazelleError::UnsupportedElement {
                element_type: "Buckling analysis is not implemented".to_string(),
            }),
            AnalysisType::NonlinearStatic => Err(GazelleError::UnsupportedElement {
                element_type: "Nonlinear static analysis is not implemented".to_string(),
            }),
        }
    }
}


/// The running maximum of DOFs per node never decreases.
proof fn lemma_max_dofs_upto_monotonic(elements: Seq<Element>, k: int, n: int)
    requires
        0 <= k <= n,
    ensures
        spec_max_dofs_upto(elements, k) <= spec_max_dofs_upto(elements, n),
    decreases n,
{
    if n > k {
        lemma_max_dofs_upto_monotonic(elements, k, n - 1);
    }
}

/// The running maximum of DOFs per node is never negative.
proof fn lemma_max_dofs_upto_nonneg(elements: Seq<Element>, n: int)
    ensures
        0 <= spec_max_dofs_upto(elements, n),
    decreases n,
{
    if n > 0 {
        lemma_max_dofs_upto_nonneg(elements, n - 1);
    }
}

/// Each element's DOFs per node is at most the model-wide maximum.
proof fn lemma_max_dofs_entry(elements: Seq<Element>, i: int)
    requires
        0 <= i < elements.len(),
    ensures
        spec_dofs_per_node(elements[i].element_type) <= spec_max_dofs(elements),
{
    assert(spec_dofs_per_node(elements[i].element_type) <= spec_max_dofs_upto(elements, i + 1));
    lemma_max_dofs_upto_monotonic(elements, i + 1, elements.len() as int);
}

/// The running maximum of used indices over an element's node references
/// never decreases.
proof fn lemma_nodes_used_max_monotonic(nodes: Seq<usize>, dpn: int, k: int, n: int)
    requires
        0 <= k <= n,
    ensures
        spec_nodes_used_max_upto(nodes, dpn, k) <= spec_nodes_used_max_upto(nodes, dpn, n),
    decreases n,
{
    if n > k {
        lemma_nodes_used_max_monotonic(nodes, dpn, k, n - 1);
    }
}

/// The running maximum of used indices over the elements never
/// decreases.
proof fn lemma_elems_used_max_monotonic(elements: Seq<Element>, k: int, n: int)
    requires
        0 <= k <= n,
    ensures
        spec_elems_used_max_upto(elements, k) <= spec_elems_used_max_upto(elements, n),
    decreases n,
{
    if n > k {
        lemma_elems_used_max_monotonic(elements, k, n - 1);
    }
}

/// Every global index of the element scatter plan lies inside the
/// assembled system: under the full scheme always, and under the compact
/// scheme whenever the node ids run contiguously from zero. The load and
/// constraint plans use the same scheme, so the three assemblies address
/// one consistent numbering.
pub proof fn lemma_element_plan_in_bounds(m: Model, i: int, idx: int)
    requires
        m.wf(),
        0 <= i < m.elements@.len(),
        0 <= idx,
        idx < m.elements@[i].nodes@.len() * spec_dofs_per_node(m.elements@[i].element_type),
        spec_uses_compact(m.elements@)
            ==> (forall|k: int| 0 <= k < m.nodes@.len()
                ==> (#[trigger] m.nodes@[k]).id < m.nodes@.len()),
    ensures
        0 <= spec_element_flat_dof(m, i, idx),
        spec_element_flat_dof(m, i, idx) < spec_active_dof_count(m),
{
    let e = m.elements@[i];
    let dpn = spec_dofs_per_node(e.element_type);
    let q = idx / dpn;
    let r = idx % dpn;
    assert(dpn * (e.nodes@.len() as int) == (e.nodes@.len() as int) * dpn) by (nonlinear_arith);
    vstd::arithmetic::div_mod::lemma_multiply_divide_lt(idx, dpn, e.nodes@.len() as int);
    assert(0 <= q < e.nodes@.len());
    assert(0 <= r < dpn);
    let node_id = e.nodes@[q];
    assert(m.has_node(node_id));
    let wit = choose|w: int| 0 <= w < m.nodes@.len() && (#[trigger] m.nodes@[w]).id == node_id;
    if spec_uses_compact(m.elements@) {
        let w = spec_scheme_width(m.elements@);
        let len = m.nodes@.len() as int;
        lemma_max_dofs_entry(m.elements@, i);
        lemma_max_dofs_upto_nonneg(m.elements@, m.elements@.len() as int);
        assert(dpn <= w);
        assert(node_id < len);
        assert((node_id as int) * w + r < len * w) by (nonlinear_arith)
            requires
                0 <= node_id as int,
                node_id as int <= len - 1,
                0 <= r,
                r < w,
                0 <= w,
        ;
        assert((node_id as int) * w >= 0) by (nonlinear_arith)
            requires
                0 <= node_id as int,
                0 <= w,
        ;
    } else {
        assert(node_id * 6 + r <= node_id * 6 + dpn - 1);
        assert(node_id * 6 + dpn - 1 <= spec_nodes_used_max_upto(e.nodes@, dpn, q + 1));
        lemma_nodes_used_max_monotonic(e.nodes@, dpn, q + 1, e.nodes@.len() as int);
        assert(spec_nodes_used_max_upto(e.nodes@, dpn, e.nodes@.len() as int)
            <= spec_elems_used_max_upto(m.elements@, i + 1));
        lemma_elems_used_max_monotonic(m.elements@, i + 1, m.elements@.len() as int);
    }
}

/// Every pair the constraint plan carries addresses a DOF inside the
/// system.
proof fn lemma_pair_plan_in_bounds(m: Model, total: usize, node_id: usize, pairs: Seq<(Dof, Scalar)>, n: int)
    ensures
        forall|p: int| 0 <= p < spec_pair_plan_upto(m, total as int, node_id, pairs, n).len()
            ==> (#[trigger] spec_pair_plan_upto(m, total as int, node_id, pairs, n)[p]).0 < total,
    decreases n,
{
    if n > 0 {
        lemma_pair_plan_in_bounds(m, total, node_id, pairs, n - 1);
        let prev = spec_pair_plan_upto(m, total as int, node_id, pairs, n - 1);
        let cur = spec_pair_plan_upto(m, total as int, node_id, pairs, n);
        if spec_pair_included(m, total as int, node_id, pairs[n - 1].0) {
            let g = spec_map_nodal_dof(m.elements@, node_id as int, pairs[n - 1].0);
            assert(0 <= g) by {
                if spec_uses_compact(m.elements@) {
                    lemma_max_dofs_upto_nonneg(m.elements@, m.elements@.len() as int);
                    let w = spec_scheme_width(m.elements@);
                    assert((node_id as int) * w >= 0) by (nonlinear_arith)
                        requires
                            0 <= node_id as int,
                            0 <= w,
                    ;
                }
            }
            assert(cur == prev.push((g as usize, pairs[n - 1].1)));
            assert forall|p: int| 0 <= p < cur.len() implies (#[trigger] cur[p]).0 < total by {
                if p < prev.len() {
                    assert(cur[p] == prev[p]);
                } else {
                    assert(cur[p] == (g as usize, pairs[n - 1].1));
                }
            }
        } else {
            assert(cur == prev);
        }
    }
}

/// Every pair the constraint plan carries addresses a DOF inside the
/// system: the planner only accepts a prescription whose global index an
/// element touches below the system size, so the penalty never touches a
/// row outside the assembled matrix.
pub proof fn lemma_constraint_plan_in_bounds(m: Model, total: usize)
    ensures
        forall|p: int| 0 <= p < spec_constraints_plan(m, total as int).len()
            ==> (#[trigger] spec_constraints_plan(m, total as int)[p]).0 < total,
{
    lemma_constraints_plan_upto_in_bounds(m, total, m.constraints@.len() as int);
}

proof fn lemma_constraints_plan_upto_in_bounds(m: Model, total: usize, n: int)
    ensures
        forall|p: int| 0 <= p < spec_constraints_plan_upto(m, total as int, n).len()
            ==> (#[trigger] spec_constraints_plan_upto(m, total as int, n)[p]).0 < total,
    decreases n,
{
    if n > 0 {
        lemma_constraints_plan_upto_in_bounds(m, total, n - 1);
        let prev = spec_constraints_plan_upto(m, total as int, n - 1);
        let tail = spec_constraint_plan(m, total as int, m.constraints@[n - 1]);
        let cur = spec_constraints_plan_upto(m, total as int, n);
        assert(cur == prev + tail);
        match m.constraints@[n - 1].constraint_type {
            ConstraintType::NodalConstraint { node_id, constraints } => {
                lemma_pair_plan_in_bounds(m, total, node_id, constraints@, constraints@.len() as int);
            },
            _ => {},
        }
        assert forall|p: int| 0 <= p < cur.len() implies (#[trigger] cur[p]).0 < total by {
            if p < prev.len() {
                assert(cur[p] == prev[p]);
            } else {
                assert(cur[p] == tail[p - prev.len()]);
            }
        }
    }
}

/// Every triple the load plan carries addresses a DOF inside the system:
/// load assembly adds only below the system size, under the same scheme
/// as the stiffness assembly.
pub proof fn lemma_loads_plan_in_bounds(m: Model, total: usize)
    ensures
        forall|p: int| 0 <= p < spec_loads_plan(m, total as int).len()
            ==> (#[trigger] spec_loads_plan(m, total as int)[p]).0 < total,
{
    lemma_loads_plan_upto_in_bounds(m, total, m.loads@.len() as int);
}

proof fn lemma_loads_plan_upto_in_bounds(m: Model, total: usize, n: int)
    ensures
        forall|p: int| 0 <= p < spec_loads_plan_upto(m, total as int, n).len()
            ==> (#[trigger] spec_loads_plan_upto(m, total as int, n)[p]).0 < total,
    decreases n,
{
    if n > 0 {
        lemma_loads_plan_upto_in_bounds(m, total, n - 1);
        let prev = spec_loads_plan_upto(m, total as int, n - 1);
        let cur = spec_loads_plan_upto(m, total as int, n);
        match m.loads@[n - 1].load_type {
            LoadType::NodalForce { node_id, dof, magnitude } => {
                if m.has_node(node_id) && spec_dof_family_active(m.elements@, dof)
                    && spec_map_nodal_dof(m.elements@, node_id as int, dof) < total as int {
                    let g = spec_map_nodal_dof(m.elements@, node_id as int, dof);
                    assert(0 <= g) by {
                        if spec_uses_compact(m.elements@) {
                            lemma_max_dofs_upto_nonneg(m.elements@, m.elements@.len() as int);
                            let w = spec_scheme_width(m.elements@);
                            assert((node_id as int) * w >= 0) by (nonlinear_arith)
                                requires
                                    0 <= node_id as int,
                                    0 <= w,
                            ;
                        }
                    }
                    let entry = (g as usize, magnitude, m.loads@[n - 1].factor);
                    assert(cur == prev.push(entry));
                    assert forall|p: int| 0 <= p < cur.len()
                        implies (#[trigger] cur[p]).0 < total by {
                        if p < prev.len() {
                            assert(cur[p] == prev[p]);
                        } else {
                            assert(cur[p] == entry);
                        }
                    }
                } else {
                    assert(cur == prev);
                }
            },
            _ => {
                assert(cur == prev);
            },
        }
    }
}

} // verus!
