//! Core data structures: nodes, elements, the model container, analysis
//! settings and analysis results.

use vstd::prelude::*;
use vstd::seq_lib::*;
use vstd::set_lib::{set_int_range, lemma_int_range, lemma_len_subset};
use crate::error::{GazelleError, Validate, message_with_id, spec_decimal_digits};
use crate::scalar::{Scalar, spec_is_finite, spec_is_nan, spec_magnitude, MAG_MASK};
use crate::materials::Material;
use crate::loads::Load;
use crate::constraints::Constraint;

verus! {

/// Bit pattern of the double 1e-6, the default solver tolerance.
pub const BITS_DEFAULT_TOLERANCE: u64 = 0x3EB0_C6F7_A0B5_ED8D;

/// The largest node id the degree-of-freedom numbering accepts: with at
/// most six DOFs per node, every global index `id * 6 + 5` then fits a
/// 32-bit as well as a 64-bit `usize`.
pub const MAX_NODE_ID: usize = 0x0FFF_FFFF;

/// Degrees of freedom at a node: three translations and three rotations.
#[derive(Debug, Clone, Copy, PartialEq, Eq, Hash, Structural)]
pub enum Dof {
    /// Translation along X.
    Ux,
    /// Translation along Y.
    Uy,
    /// Translation along Z.
    Uz,
    /// Rotation about X.
    Rx,
    /// Rotation about Y.
    Ry,
    /// Rotation about Z.
    Rz,
}

/// The fixed offset of each DOF within a node's block of six.
pub open spec fn spec_dof_offset(d: Dof) -> int {
    match d {
        Dof::Ux => 0,
        Dof::Uy => 1,
        Dof::Uz => 2,
        Dof::Rx => 3,
        Dof::Ry => 4,
        Dof::Rz => 5,
    }
}

impl Dof {
    /// The offset of this DOF within a node's block of six.
    pub fn offset(&self) -> (r: usize)
        ensures
            r == spec_dof_offset(*self),
    {
        match self {
            Dof::Ux => 0,
            Dof::Uy => 1,
            Dof::Uz => 2,
            Dof::Rx => 3,
            Dof::Ry => 4,
            Dof::Rz => 5,
        }
    }

    /// The three translational DOFs, in order.
    pub fn all_translational() -> (r: Vec<Dof>)
        ensures
            r@ == seq![Dof::Ux, Dof::Uy, Dof::Uz],
    {
        let mut v: Vec<Dof> = Vec::new();
        v.push(Dof::Ux);
        v.push(Dof::Uy);
        v.push(Dof::Uz);
        proof {
            assert(v@ =~= seq![Dof::Ux, Dof::Uy, Dof::Uz]);
        }
        v
    }

    /// The three rotational DOFs, in order.
    pub fn all_rotational() -> (r: Vec<Dof>)
        ensures
            r@ == seq![Dof::Rx, Dof::Ry, Dof::Rz],
    {
        let mut v: Vec<Dof> = Vec::new();
        v.push(Dof::Rx);
        v.push(Dof::Ry);
        v.push(Dof::Rz);
        proof {
            assert(v@ =~= seq![Dof::Rx, Dof::Ry, Dof::Rz]);
        }
        v
    }

    /// All six DOFs, translations first.
    pub fn all() -> (r: Vec<Dof>)
        ensures
            r@ == seq![Dof::Ux, Dof::Uy, Dof::Uz, Dof::Rx, Dof::Ry, Dof::Rz],
    {
        let mut v: Vec<Dof> = Vec::new();
        v.push(Dof::Ux);
        v.push(Dof::Uy);
        v.push(Dof::Uz);
        v.push(Dof::Rx);
        v.push(Dof::Ry);
        v.push(Dof::Rz);
        proof {
            assert(v@ =~= seq![Dof::Ux, Dof::Uy, Dof::Uz, Dof::Rx, Dof::Ry, Dof::Rz]);
        }
        v
    }
}

/// A constraint attached directly to one DOF of a node.
#[derive(Debug, Clone, Copy, PartialEq, Eq, Structural)]
pub struct DofConstraint {
    pub dof: Dof,
    pub value: Scalar,
    pub is_prescribed: bool,
}

impl DofConstraint {
    /// A DOF fixed at zero.
    pub fn fixed(dof: Dof) -> (r: DofConstraint)
        ensures
            r.dof == dof,
            r.value.bits == 0u64,
            r.is_prescribed,
    {
        DofConstraint { dof, value: Scalar::zero(), is_prescribed: true }
    }

    /// A DOF prescribed to a given value.
    pub fn prescribed(dof: Dof, value: Scalar) -> (r: DofConstraint)
        ensures
            r.dof == dof,
            r.value == value,
            r.is_prescribed,
    {
        DofConstraint { dof, value, is_prescribed: true }
    }
}

/// A node: integer identity, position, and directly attached DOF
/// constraints.
#[derive(Debug, Clone, PartialEq)]
pub struct Node {
    pub id: usize,
    pub x: Scalar,
    pub y: Scalar,
    pub z: Scalar,
    pub constraints: Vec<DofConstraint>,
}

impl Node {
    pub fn new(id: usize, x: Scalar, y: Scalar, z: Scalar) -> (r: Node)
        ensures
            r.id == id,
            r.x == x,
            r.y == y,
            r.z == z,
            r.constraints@.len() == 0,
    {
        Node { id, x, y, z, constraints: Vec::new() }
    }

    /// The position as a three-component array.
    pub fn position(&self) -> (r: [Scalar; 3])
        ensures
            r@ == seq![self.x, self.y, self.z],
    {
        let r = [self.x, self.y, self.z];
        proof {
            assert(r@ =~= seq![self.x, self.y, self.z]);
        }
        r
    }

    pub fn add_constraint(&mut self, constraint: DofConstraint)
        ensures
            final(self).id == old(self).id,
            final(self).x == old(self).x,
            final(self).y == old(self).y,
            final(self).z == old(self).z,
            final(self).constraints@ == old(self).constraints@.push(constraint),
    {
        self.constraints.push(constraint);
    }
}

/// The message a failed node validation carries, naming the node id.
pub open spec fn spec_node_error_message(n: Node) -> Seq<char> {
    "Node "@ + spec_decimal_digits(n.id as nat) + " has invalid coordinates"@
}

impl Validate for Node {
    /// All three coordinates must be finite.
    open spec fn valid(&self) -> bool {
        spec_is_finite(self.x.bits) && spec_is_finite(self.y.bits) && spec_is_finite(self.z.bits)
    }

    /// A failed node validation is a validation error naming the node id.
    open spec fn invalid_error(&self, e: GazelleError) -> bool {
        e matches GazelleError::ValidationError(m) && m@ == spec_node_error_message(*self)
    }

    fn validate(&self) -> (r: Result<(), GazelleError>)
    {
        if self.x.is_finite() && self.y.is_finite() && self.z.is_finite() {
            Ok(())
        } else {
            Err(GazelleError::ValidationError(
                message_with_id("Node ", self.id, " has invalid coordinates"),
            ))
        }
    }
}

/// Families of structural elements. Plate, shell and solid are declared
/// but unsupported by the formulation library, which fails fast on them.
#[derive(Debug, Clone, Copy, PartialEq, Eq, Hash, Structural)]
pub enum ElementType {
    Truss2D,
    Truss3D,
    Beam2D,
    Beam3D,
    Frame2D,
    Frame3D,
    Plate,
    Shell,
    Solid,
}

/// Number of DOFs each node of an element of this family carries.
pub open spec fn spec_dofs_per_node(et: ElementType) -> int {
    match et {
        ElementType::Truss2D => 2,
        ElementType::Truss3D => 3,
        ElementType::Beam2D => 3,
        ElementType::Beam3D => 6,
        ElementType::Frame2D => 3,
        ElementType::Frame3D => 6,
        ElementType::Plate => 3,
        ElementType::Shell => 6,
        ElementType::Solid => 3,
    }
}

/// Number of nodes an element of this family must reference.
pub open spec fn spec_expected_node_count(et: ElementType) -> int {
    match et {
        ElementType::Truss2D => 2,
        ElementType::Truss3D => 2,
        ElementType::Beam2D => 2,
        ElementType::Beam3D => 2,
        ElementType::Frame2D => 2,
        ElementType::Frame3D => 2,
        ElementType::Plate => 3,
        ElementType::Shell => 3,
        ElementType::Solid => 4,
    }
}

/// Whether the family lives in three dimensions (and so forces the full
/// six-DOF-per-node numbering scheme).
pub open spec fn spec_is_three_dimensional(et: ElementType) -> bool {
    match et {
        ElementType::Truss3D | ElementType::Beam3D | ElementType::Frame3D
        | ElementType::Shell | ElementType::Solid => true,
        _ => false,
    }
}

impl ElementType {
    /// Number of DOFs each node of this family carries.
    pub fn dofs_per_node(&self) -> (r: usize)
        ensures
            r == spec_dofs_per_node(*self),
    {
        match self {
            ElementType::Truss2D => 2,
            ElementType::Truss3D => 3,
            ElementType::Beam2D => 3,
            ElementType::Beam3D => 6,
            ElementType::Frame2D => 3,
            ElementType::Frame3D => 6,
            ElementType::Plate => 3,
            ElementType::Shell => 6,
            ElementType::Solid => 3,
        }
    }

    /// Whether the family lives in three dimensions.
    pub fn is_three_dimensional(&self) -> (r: bool)
        ensures
            r == spec_is_three_dimensional(*self),
    {
        match self {
            ElementType::Truss3D | ElementType::Beam3D | ElementType::Frame3D
            | ElementType::Shell | ElementType::Solid => true,
            _ => false,
        }
    }
}

/// An element's property bag: every entry optional, the required subset
/// depending on the family.
#[derive(Debug, Clone, PartialEq, Eq, Structural, Copy)]
pub struct ElementProperties {
    pub area: Option<Scalar>,
    pub inertia_y: Option<Scalar>,
    pub inertia_z: Option<Scalar>,
    pub torsional_constant: Option<Scalar>,
    pub thickness: Option<Scalar>,
    pub width: Option<Scalar>,
    pub height: Option<Scalar>,
}

impl ElementProperties {
    /// Properties of a truss: a cross-sectional area only.
    pub fn truss(area: Scalar) -> (r: ElementProperties)
        ensures
            r.area == Some(area),
            r.inertia_y is None,
            r.inertia_z is None,
            r.torsional_constant is None,
            r.thickness is None,
            r.width is None,
            r.height is None,
    {
        ElementProperties {
            area: Some(area),
            inertia_y: None,
            inertia_z: None,
            torsional_constant: None,
            thickness: None,
            width: None,
            height: None,
        }
    }

    /// Properties of a beam or frame member: area, the two bending
    /// inertias and the torsional constant.
    pub fn beam(area: Scalar, inertia_y: Scalar, inertia_z: Scalar, torsional_constant: Scalar) -> (r: ElementProperties)
        ensures
            r.area == Some(area),
            r.inertia_y == Some(inertia_y),
            r.inertia_z == Some(inertia_z),
            r.torsional_constant == Some(torsional_constant),
            r.thickness is None,
            r.width is None,
            r.height is None,
    {
        ElementProperties {
            area: Some(area),
            inertia_y: Some(inertia_y),
            inertia_z: Some(inertia_z),
            torsional_constant: Some(torsional_constant),
            thickness: None,
            width: None,
            height: None,
        }
    }

    /// Properties of a plate: a thickness only.
    pub fn plate(thickness: Scalar) -> (r: ElementProperties)
        ensures
            r.area is None,
            r.inertia_y is None,
            r.inertia_z is None,
            r.torsional_constant is None,
            r.thickness == Some(thickness),
            r.width is None,
            r.height is None,
    {
        ElementProperties {
            area: None,
            inertia_y: None,
            inertia_z: None,
            torsional_constant: None,
            thickness: Some(thickness),
            width: None,
            height: None,
        }
    }
}

/// An element: integer identity, family tag, ordered node references,
/// material reference, and property bag.
#[derive(Debug, Clone, PartialEq)]
pub struct Element {
    pub id: usize,
    pub element_type: ElementType,
    pub nodes: Vec<usize>,
    pub material_id: usize,
    pub properties: ElementProperties,
}

impl Element {
    pub fn new(
        id: usize,
        element_type: ElementType,
        nodes: Vec<usize>,
        material_id: usize,
        properties: ElementProperties,
    ) -> (r: Element)
        ensures
            r.id == id,
            r.element_type == element_type,
            r.nodes == nodes,
            r.material_id == material_id,
            r.properties == properties,
    {
        Element { id, element_type, nodes, material_id, properties }
    }

    /// Number of DOFs each node of this element carries.
    pub fn dofs_per_node(&self) -> (r: usize)
        ensures
            r == spec_dofs_per_node(self.element_type),
    {
        self.element_type.dofs_per_node()
    }

    /// Total number of DOFs of the element: nodes times DOFs per node.
    pub fn total_dofs(&self) -> (r: usize)
        requires
            self.nodes@.len() * spec_dofs_per_node(self.element_type) <= usize::MAX,
        ensures
            r == self.nodes@.len() * spec_dofs_per_node(self.element_type),
    {
        self.nodes.len() * self.dofs_per_node()
    }
}

/// The message a failed element validation carries, naming the element
/// id: an empty node list first, a wrong node count otherwise.
pub open spec fn spec_element_error_message(e: Element) -> Seq<char> {
    let id = spec_decimal_digits(e.id as nat);
    if e.nodes@.len() == 0 {
        "Element "@ + id + " has no nodes"@
    } else {
        "Element "@ + id + " does not have the node count its element type expects"@
    }
}

impl Validate for Element {
    /// The node list must be exactly as long as the family expects.
    open spec fn valid(&self) -> bool {
        self.nodes@.len() == spec_expected_node_count(self.element_type)
    }

    /// A failed element validation is a validation error naming the
    /// element id and the failed check.
    open spec fn invalid_error(&self, e: GazelleError) -> bool {
        e matches GazelleError::ValidationError(m) && m@ == spec_element_error_message(*self)
    }

    fn validate(&self) -> (r: Result<(), GazelleError>)
    {
        if self.nodes.len() == 0 {
            return Err(GazelleError::ValidationError(
                message_with_id("Element ", self.id, " has no nodes"),
            ));
        }
        let expected: usize = match self.element_type {
            ElementType::Truss2D | ElementType::Truss3D => 2,
            ElementType::Beam2D | ElementType::Beam3D => 2,
            ElementType::Frame2D | ElementType::Frame3D => 2,
            ElementType::Plate => 3,
            ElementType::Shell => 3,
            ElementType::Solid => 4,
        };
        if self.nodes.len() != expected {
            return Err(GazelleError::ValidationError(
                message_with_id("Element ", self.id, " does not have the node count its element type expects"),
            ));
        }
        Ok(())
    }
}

/// Kinds of analysis the engine can be asked for. Only the static and
/// modal kinds are functional; time history is validated but stubbed;
/// buckling and nonlinear static are declared only.
#[derive(Debug, Clone, Copy, PartialEq, Eq, Hash, Structural)]
pub enum AnalysisType {
    Static,
    Modal,
    TimeHistory,
    Buckling,
    NonlinearStatic,
}

/// Families of linear solvers. Sparse deliberately falls back to direct.
#[derive(Debug, Clone, Copy, PartialEq, Eq, Hash, Structural)]
pub enum SolverType {
    Direct,
    Iterative,
    Sparse,
}

/// Convergence diagnostics of a solve.
#[derive(Debug, Clone, Copy, PartialEq, Eq, Structural)]
pub struct ConvergenceInfo {
    pub iterations: usize,
    pub residual_norm: Scalar,
    pub converged: bool,
    pub tolerance: Scalar,
}

impl Default for ConvergenceInfo {
    /// Zero iterations, zero residual, not converged, zero tolerance.
    fn default() -> (r: ConvergenceInfo)
        ensures
            r.iterations == 0,
            r.residual_norm.bits == 0u64,
            !r.converged,
            r.tolerance.bits == 0u64,
    {
        ConvergenceInfo {
            iterations: 0,
            residual_norm: Scalar::zero(),
            converged: false,
            tolerance: Scalar::zero(),
        }
    }
}

/// Internal forces recovered for one element.
#[derive(Debug, Clone, Copy, PartialEq, Eq, Structural)]
pub struct ElementForces {
    pub axial: Option<Scalar>,
    pub shear_y: Option<Scalar>,
    pub shear_z: Option<Scalar>,
    pub moment_x: Option<Scalar>,
    pub moment_y: Option<Scalar>,
    pub moment_z: Option<Scalar>,
}

impl ElementForces {
    /// The axial force of a truss member.
    pub fn truss(axial: Scalar) -> (r: ElementForces)
        ensures
            r.axial == Some(axial),
            r.shear_y is None,
            r.shear_z is None,
            r.moment_x is None,
            r.moment_y is None,
            r.moment_z is None,
    {
        ElementForces {
            axial: Some(axial),
            shear_y: None,
            shear_z: None,
            moment_x: None,
            moment_y: None,
            moment_z: None,
        }
    }

    /// Axial force, shear and bending moment of a planar beam.
    pub fn beam_2d(axial: Scalar, shear: Scalar, moment: Scalar) -> (r: ElementForces)
        ensures
            r.axial == Some(axial),
            r.shear_y == Some(shear),
            r.shear_z is None,
            r.moment_x is None,
            r.moment_y is None,
            r.moment_z == Some(moment),
    {
        ElementForces {
            axial: Some(axial),
            shear_y: Some(shear),
            shear_z: None,
            moment_x: None,
            moment_y: None,
            moment_z: Some(moment),
        }
    }
}

/// Results of an analysis: displacements and reactions by global DOF
/// index, per-element internal forces, strain energy, and convergence
/// diagnostics. For a modal analysis the displacement slot carries the
/// natural frequencies, by convention.
#[derive(Debug, Clone, PartialEq)]
pub struct AnalysisResults {
    pub displacements: Vec<Scalar>,
    pub reactions: Vec<Scalar>,
    pub element_forces: Vec<(usize, ElementForces)>,
    pub strain_energy: Scalar,
    pub analysis_type: AnalysisType,
    pub convergence_info: ConvergenceInfo,
}

impl AnalysisResults {
    pub fn new(displacements: Vec<Scalar>, reactions: Vec<Scalar>, analysis_type: AnalysisType) -> (r: AnalysisResults)
        ensures
            r.displacements == displacements,
            r.reactions == reactions,
            r.element_forces@.len() == 0,
            r.strain_energy.bits == 0u64,
            r.analysis_type == analysis_type,
            r.convergence_info.iterations == 0,
            !r.convergence_info.converged,
    {
        AnalysisResults {
            displacements,
            reactions,
            element_forces: Vec::new(),
            strain_energy: Scalar::zero(),
            analysis_type,
            convergence_info: ConvergenceInfo::default(),
        }
    }

    /// Record the internal forces of one element, replacing any earlier
    /// record for the same element id.
    pub fn add_element_forces(&mut self, element_id: usize, forces: ElementForces)
        ensures
            final(self).displacements == old(self).displacements,
            final(self).reactions == old(self).reactions,
            final(self).strain_energy == old(self).strain_energy,
            final(self).analysis_type == old(self).analysis_type,
            final(self).convergence_info == old(self).convergence_info,
            (exists|k: int| 0 <= k < old(self).element_forces@.len()
                && old(self).element_forces@[k].0 == element_id)
                ==> {
                    let k = choose|k: int| 0 <= k < old(self).element_forces@.len()
                        && old(self).element_forces@[k].0 == element_id
                        && (forall|j: int| 0 <= j < k ==> old(self).element_forces@[j].0 != element_id);
                    final(self).element_forces@ == old(self).element_forces@.update(k, (element_id, forces))
                },
            (forall|k: int| 0 <= k < old(self).element_forces@.len()
                ==> (#[trigger] old(self).element_forces@[k].0) != element_id)
                ==> final(self).element_forces@ == old(self).element_forces@.push((element_id, forces)),
    {
        let mut i: usize = 0;
        while i < self.element_forces.len()
            invariant
                i <= self.element_forces@.len(),
                *self == *old(self),
                forall|j: int| 0 <= j < i ==> (#[trigger] self.element_forces@[j].0) != element_id,
            decreases self.element_forces@.len() - i,
        {
            if self.element_forces[i].0 == element_id {
                self.element_forces.set(i, (element_id, forces));
                proof {
                    let k = choose|k: int| 0 <= k < old(self).element_forces@.len()
                        && old(self).element_forces@[k].0 == element_id
                        && (forall|j: int| 0 <= j < k ==> old(self).element_forces@[j].0 != element_id);
                    assert(k == i as int);
                }
                return;
            }
            i += 1;
        }
        self.element_forces.push((element_id, forces));
    }
}


/// The largest magnitude (absolute value, as IEEE bits) among the first
/// `n` entries, ignoring NaN entries the way the IEEE maximum does; zero
/// when there are none. For non-negative doubles the IEEE order
/// coincides with the unsigned order of the bit patterns, so the
/// magnitude bits compare directly.
pub open spec fn spec_max_magnitude_upto(s: Seq<Scalar>, n: int) -> u64
    decreases n,
{
    if n <= 0 {
        0
    } else {
        let prev = spec_max_magnitude_upto(s, n - 1);
        let m = spec_magnitude(s[n - 1].bits);
        if !spec_is_nan(s[n - 1].bits) && m > prev {
            m
        } else {
            prev
        }
    }
}

impl AnalysisResults {
    /// The largest displacement magnitude, as an absolute value.
    pub fn max_displacement(&self) -> (r: Scalar)
        ensures
            r.bits == spec_max_magnitude_upto(self.displacements@, self.displacements@.len() as int),
    {
        let mut best: u64 = 0;
        let mut i: usize = 0;
        while i < self.displacements.len()
            invariant
                i <= self.displacements@.len(),
                best == spec_max_magnitude_upto(self.displacements@, i as int),
            decreases self.displacements@.len() - i,
        {
            let d = self.displacements[i];
            let m = d.bits & MAG_MASK;
            if !d.is_nan() && m > best {
                best = m;
            }
            i += 1;
        }
        Scalar { bits: best }
    }

    /// The largest reaction magnitude, as an absolute value.
    pub fn max_reaction(&self) -> (r: Scalar)
        ensures
            r.bits == spec_max_magnitude_upto(self.reactions@, self.reactions@.len() as int),
    {
        let mut best: u64 = 0;
        let mut i: usize = 0;
        while i < self.reactions.len()
            invariant
                i <= self.reactions@.len(),
                best == spec_max_magnitude_upto(self.reactions@, i as int),
            decreases self.reactions@.len() - i,
        {
            let d = self.reactions[i];
            let m = d.bits & MAG_MASK;
            if !d.is_nan() && m > best {
                best = m;
            }
            i += 1;
        }
        Scalar { bits: best }
    }

    /// The displacement at a global DOF index, when it exists.
    pub fn displacement_at_dof(&self, dof: usize) -> (r: Option<Scalar>)
        ensures
            dof < self.displacements@.len() ==> r == Some(self.displacements@[dof as int]),
            dof >= self.displacements@.len() ==> r is None,
    {
        if dof < self.displacements.len() {
            Some(self.displacements[dof])
        } else {
            None
        }
    }

    /// The reaction at a global DOF index, when it exists.
    pub fn reaction_at_dof(&self, dof: usize) -> (r: Option<Scalar>)
        ensures
            dof < self.reactions@.len() ==> r == Some(self.reactions@[dof as int]),
            dof >= self.reactions@.len() ==> r is None,
    {
        if dof < self.reactions.len() {
            Some(self.reactions[dof])
        } else {
            None
        }
    }
}

/// Solver settings: tolerance, iteration budget, solver family, and the
/// optional modal and time-stepping parameters.
#[derive(Debug, Clone, Copy, PartialEq, Eq, Structural)]
pub struct AnalysisSettings {
    pub tolerance: Scalar,
    pub max_iterations: usize,
    pub solver_type: SolverType,
    pub eigen_modes: Option<usize>,
    pub time_step: Option<Scalar>,
    pub duration: Option<Scalar>,
}

impl AnalysisSettings {
    /// The default settings: tolerance 1e-6, one hundred iterations,
    /// direct solver, no modal or time-stepping parameters.
    pub open spec fn default_spec() -> AnalysisSettings {
        AnalysisSettings {
            tolerance: Scalar { bits: BITS_DEFAULT_TOLERANCE },
            max_iterations: 100,
            solver_type: SolverType::Direct,
            eigen_modes: None,
            time_step: None,
            duration: None,
        }
    }
}

impl Default for AnalysisSettings {
    /// Tolerance 1e-6, one hundred iterations, direct solver, no modal or
    /// time-stepping parameters.
    fn default() -> (r: AnalysisSettings)
        ensures
            r == AnalysisSettings::default_spec(),
    {
        AnalysisSettings {
            tolerance: Scalar { bits: BITS_DEFAULT_TOLERANCE },
            max_iterations: 100,
            solver_type: SolverType::Direct,
            eigen_modes: None,
            time_step: None,
            duration: None,
        }
    }
}

/// The model: sole owner of nodes, elements and materials (each with a
/// unique id), plus loads, constraints and analysis settings. Elements,
/// loads and constraints hold only integer references.
#[derive(Debug, Clone, PartialEq)]
pub struct Model {
    pub nodes: Vec<Node>,
    pub elements: Vec<Element>,
    pub materials: Vec<Material>,
    pub loads: Vec<Load>,
    pub constraints: Vec<Constraint>,
    pub analysis_settings: AnalysisSettings,
}

impl Model {
    /// Whether some node carries this id.
    pub open spec fn has_node(self, id: usize) -> bool {
        exists|i: int| 0 <= i < self.nodes@.len() && (#[trigger] self.nodes@[i]).id == id
    }

    /// Whether some element carries this id.
    pub open spec fn has_element(self, id: usize) -> bool {
        exists|i: int| 0 <= i < self.elements@.len() && (#[trigger] self.elements@[i]).id == id
    }

    /// Whether some material carries this id.
    pub open spec fn has_material(self, id: usize) -> bool {
        exists|i: int| 0 <= i < self.materials@.len() && (#[trigger] self.materials@[i]).id == id
    }

    /// The well-formedness invariant every model built through the add
    /// operations enjoys: ids are unique and small enough for DOF
    /// numbering, every stored node, element and material passed its
    /// validation, and every element reference resolves.
    pub open spec fn wf(self) -> bool {
        &&& (forall|i: int, j: int| 0 <= i < j < self.nodes@.len()
            ==> (#[trigger] self.nodes@[i]).id != (#[trigger] self.nodes@[j]).id)
        &&& (forall|i: int| 0 <= i < self.nodes@.len()
            ==> (#[trigger] self.nodes@[i]).id <= MAX_NODE_ID)
        &&& (forall|i: int| 0 <= i < self.nodes@.len() ==> (#[trigger] self.nodes@[i]).valid())
        &&& (forall|i: int, j: int| 0 <= i < j < self.elements@.len()
            ==> (#[trigger] self.elements@[i]).id != (#[trigger] self.elements@[j]).id)
        &&& (forall|i: int| 0 <= i < self.elements@.len() ==> (#[trigger] self.elements@[i]).valid())
        &&& (forall|i: int, k: int|
            0 <= i < self.elements@.len() && 0 <= k < (#[trigger] self.elements@[i]).nodes@.len()
            ==> self.has_node(#[trigger] self.elements@[i].nodes@[k]))
        &&& (forall|i: int| 0 <= i < self.elements@.len()
            ==> self.has_material((#[trigger] self.elements@[i]).material_id))
        &&& (forall|i: int, j: int| 0 <= i < j < self.materials@.len()
            ==> (#[trigger] self.materials@[i]).id != (#[trigger] self.materials@[j]).id)
        &&& (forall|i: int| 0 <= i < self.materials@.len() ==> (#[trigger] self.materials@[i]).valid())
    }

    /// An empty model with default settings.
    pub fn new() -> (r: Model)
        ensures
            r.nodes@.len() == 0,
            r.elements@.len() == 0,
            r.materials@.len() == 0,
            r.loads@.len() == 0,
            r.constraints@.len() == 0,
            r.analysis_settings.tolerance.bits == BITS_DEFAULT_TOLERANCE,
            r.analysis_settings.max_iterations == 100,
            r.analysis_settings.solver_type is Direct,
            r.analysis_settings.eigen_modes is None,
            r.analysis_settings.time_step is None,
            r.analysis_settings.duration is None,
            r.wf(),
    {
        Model {
            nodes: Vec::new(),
            elements: Vec::new(),
            materials: Vec::new(),
            loads: Vec::new(),
            constraints: Vec::new(),
            analysis_settings: AnalysisSettings::default(),
        }
    }

    /// Find the index of the node with this id.
    fn find_node(&self, id: usize) -> (r: Option<usize>)
        ensures
            match r {
                Some(i) => i < self.nodes@.len() && self.nodes@[i as int].id == id,
                None => !self.has_node(id),
            },
    {
        let mut i: usize = 0;
        while i < self.nodes.len()
            invariant
                i <= self.nodes@.len(),
                forall|k: int| 0 <= k < i ==> (#[trigger] self.nodes@[k]).id != id,
            decreases self.nodes@.len() - i,
        {
            if self.nodes[i].id == id {
                return Some(i);
            }
            i += 1;
        }
        None
    }

    /// Find the index of the element with this id.
    fn find_element(&self, id: usize) -> (r: Option<usize>)
        ensures
            match r {
                Some(i) => i < self.elements@.len() && self.elements@[i as int].id == id,
                None => !self.has_element(id),
            },
    {
        let mut i: usize = 0;
        while i < self.elements.len()
            invariant
                i <= self.elements@.len(),
                forall|k: int| 0 <= k < i ==> (#[trigger] self.elements@[k]).id != id,
            decreases self.elements@.len() - i,
        {
            if self.elements[i].id == id {
                return Some(i);
            }
            i += 1;
        }
        None
    }

    /// Find the index of the material with this id.
    fn find_material(&self, id: usize) -> (r: Option<usize>)
        ensures
            match r {
                Some(i) => i < self.materials@.len() && self.materials@[i as int].id == id,
                None => !self.has_material(id),
            },
    {
        let mut i: usize = 0;
        while i < self.materials.len()
            invariant
                i <= self.materials@.len(),
                forall|k: int| 0 <= k < i ==> (#[trigger] self.materials@[k]).id != id,
            decreases self.materials@.len() - i,
        {
            if self.materials[i].id == id {
                return Some(i);
            }
            i += 1;
        }
        None
    }

    /// Add a node: it must validate, its id must be addressable by the
    /// DOF numbering, and no node with the same id may exist yet.
    pub fn add_node(&mut self, node: Node) -> (r: Result<(), GazelleError>)
        requires
            old(self).wf(),
        ensures
            final(self).wf(),
            r is Ok <==> (node.valid() && node.id <= MAX_NODE_ID && !old(self).has_node(node.id)),
            r is Ok ==> {
                &&& final(self).nodes@ == old(self).nodes@.push(node)
                &&& final(self).elements == old(self).elements
                &&& final(self).materials == old(self).materials
                &&& final(self).loads == old(self).loads
                &&& final(self).constraints == old(self).constraints
                &&& final(self).analysis_settings == old(self).analysis_settings
            },
            r is Err ==> *final(self) == *old(self) && r->Err_0 is ValidationError,
    {
        match node.validate() {
            Ok(_) => {},
            Err(e) => {
                return Err(e);
            },
        }
        if node.id > MAX_NODE_ID {
            return Err(GazelleError::ValidationError(
                message_with_id("Node with ID ", node.id, " is too large for DOF numbering"),
            ));
        }
        if self.find_node(node.id).is_some() {
            return Err(GazelleError::ValidationError(
                message_with_id("Node with ID ", node.id, " already exists"),
            ));
        }
        self.nodes.push(node);
        proof {
            assert forall|i: int, k: int|
                0 <= i < self.elements@.len() && 0 <= k < (#[trigger] self.elements@[i]).nodes@.len()
                implies self.has_node(#[trigger] self.elements@[i].nodes@[k]) by {
                let id = self.elements@[i].nodes@[k];
                assert(old(self).has_node(id));
                let w = choose|w: int|
                    0 <= w < old(self).nodes@.len() && (#[trigger] old(self).nodes@[w]).id == id;
                assert(self.nodes@[w].id == id);
            }
        }
        Ok(())
    }

    /// Add an element: it must validate, every referenced node and the
    /// referenced material must exist, and no element with the same id
    /// may exist yet.
    pub fn add_element(&mut self, element: Element) -> (r: Result<(), GazelleError>)
        requires
            old(self).wf(),
        ensures
            final(self).wf(),
            r is Ok <==> {
                &&& element.valid()
                &&& (forall|k: int| 0 <= k < element.nodes@.len()
                    ==> old(self).has_node(#[trigger] element.nodes@[k]))
                &&& old(self).has_material(element.material_id)
                &&& !old(self).has_element(element.id)
            },
            r is Ok ==> {
                &&& final(self).elements@ == old(self).elements@.push(element)
                &&& final(self).nodes == old(self).nodes
                &&& final(self).materials == old(self).materials
                &&& final(self).loads == old(self).loads
                &&& final(self).constraints == old(self).constraints
                &&& final(self).analysis_settings == old(self).analysis_settings
            },
            r is Err ==> *final(self) == *old(self),
            r is Err ==> {
                ||| r->Err_0 is ValidationError
                ||| (r->Err_0 matches GazelleError::InvalidNodeId(n)
                    && element.nodes@.contains(n) && !old(self).has_node(n))
            },
    {
        match element.validate() {
            Ok(_) => {},
            Err(e) => {
                return Err(e);
            },
        }
        let mut k: usize = 0;
        while k < element.nodes.len()
            invariant
                k <= element.nodes@.len(),
                forall|j: int| 0 <= j < k ==> self.has_node(#[trigger] element.nodes@[j]),
                *self == *old(self),
            decreases element.nodes@.len() - k,
        {
            let node_id = element.nodes[k];
            if self.find_node(node_id).is_none() {
                return Err(GazelleError::InvalidNodeId(node_id));
            }
            k += 1;
        }
        if self.find_material(element.material_id).is_none() {
            return Err(GazelleError::ValidationError(
                message_with_id("Material with ID ", element.material_id, " does not exist"),
            ));
        }
        if self.find_element(element.id).is_some() {
            return Err(GazelleError::ValidationError(
                message_with_id("Element with ID ", element.id, " already exists"),
            ));
        }
        self.elements.push(element);
        proof {
            assert forall|i: int, k2: int|
                0 <= i < self.elements@.len() && 0 <= k2 < (#[trigger] self.elements@[i]).nodes@.len()
                implies self.has_node(#[trigger] self.elements@[i].nodes@[k2]) by {
                let id = self.elements@[i].nodes@[k2];
                if i < old(self).elements@.len() {
                    assert(old(self).has_node(id));
                } else {
                    assert(self.elements@[i] == element);
                    assert(old(self).has_node(id));
                }
                let w = choose|w: int|
                    0 <= w < old(self).nodes@.len() && (#[trigger] old(self).nodes@[w]).id == id;
                assert(self.nodes@[w].id == id);
            }
            assert forall|i: int| 0 <= i < self.elements@.len()
                implies self.has_material((#[trigger] self.elements@[i]).material_id) by {
                let id = self.elements@[i].material_id;
                if i < old(self).elements@.len() {
                    assert(old(self).has_material(id));
                } else {
                    assert(old(self).has_material(id));
                }
                let w = choose|w: int|
                    0 <= w < old(self).materials@.len() && (#[trigger] old(self).materials@[w]).id == id;
                assert(self.materials@[w].id == id);
            }
        }
        Ok(())
    }

    /// Add a material: it must validate and no material with the same id
    /// may exist yet.
    pub fn add_material(&mut self, material: Material) -> (r: Result<(), GazelleError>)
        requires
            old(self).wf(),
        ensures
            final(self).wf(),
            r is Ok <==> (material.valid() && !old(self).has_material(material.id)),
            r is Ok ==> {
                &&& final(self).materials@ == old(self).materials@.push(material)
                &&& final(self).nodes == old(self).nodes
                &&& final(self).elements == old(self).elements
                &&& final(self).loads == old(self).loads
                &&& final(self).constraints == old(self).constraints
                &&& final(self).analysis_settings == old(self).analysis_settings
            },
            r is Err ==> *final(self) == *old(self),
            r is Err ==> (r->Err_0 is ValidationError || r->Err_0 is InvalidMaterial),
    {
        match material.validate() {
            Ok(_) => {},
            Err(e) => {
                return Err(e);
            },
        }
        if self.find_material(material.id).is_some() {
            return Err(GazelleError::ValidationError(
                message_with_id("Material with ID ", material.id, " already exists"),
            ));
        }
        self.materials.push(material);
        proof {
            assert forall|i: int| 0 <= i < self.elements@.len()
                implies self.has_material((#[trigger] self.elements@[i]).material_id) by {
                let id = self.elements@[i].material_id;
                assert(old(self).has_material(id));
                let w = choose|w: int|
                    0 <= w < old(self).materials@.len() && (#[trigger] old(self).materials@[w]).id == id;
                assert(self.materials@[w].id == id);
            }
            assert forall|i: int, k: int|
                0 <= i < self.elements@.len() && 0 <= k < (#[trigger] self.elements@[i]).nodes@.len()
                implies self.has_node(#[trigger] self.elements@[i].nodes@[k]) by {
                let id = self.elements@[i].nodes@[k];
                assert(old(self).has_node(id));
                let w = choose|w: int|
                    0 <= w < old(self).nodes@.len() && (#[trigger] old(self).nodes@[w]).id == id;
                assert(self.nodes@[w].id == id);
            }
        }
        Ok(())
    }

    /// Append a load. Loads are validated by the solvers, not here.
    pub fn add_load(&mut self, load: Load)
        ensures
            final(self).loads@ == old(self).loads@.push(load),
            final(self).nodes == old(self).nodes,
            final(self).elements == old(self).elements,
            final(self).materials == old(self).materials,
            final(self).constraints == old(self).constraints,
            final(self).analysis_settings == old(self).analysis_settings,
            old(self).wf() ==> final(self).wf(),
    {
        self.loads.push(load);
    }

    /// Append a constraint. Constraints are validated by the solvers,
    /// not here.
    pub fn add_constraint(&mut self, constraint: Constraint)
        ensures
            final(self).constraints@ == old(self).constraints@.push(constraint),
            final(self).nodes == old(self).nodes,
            final(self).elements == old(self).elements,
            final(self).materials == old(self).materials,
            final(self).loads == old(self).loads,
            final(self).analysis_settings == old(self).analysis_settings,
            old(self).wf() ==> final(self).wf(),
    {
        self.constraints.push(constraint);
    }

    /// The DOF count of the traditional numbering: six slots per node.
    pub fn total_dofs(&self) -> (r: usize)
        requires
            self.wf(),
        ensures
            r == self.nodes@.len() * 6,
    {
        proof {
            lemma_unique_bounded_ids_len(self.nodes@);
        }
        self.nodes.len() * 6
    }

    /// Look a node up by id.
    pub fn get_node(&self, id: usize) -> (r: Result<&Node, GazelleError>)
        ensures
            r is Ok <==> self.has_node(id),
            r matches Ok(n) ==> n.id == id && self.nodes@.contains(*n),
            r matches Err(e) ==> e == GazelleError::InvalidNodeId(id),
    {
        match self.find_node(id) {
            Some(i) => Ok(&self.nodes[i]),
            None => Err(GazelleError::InvalidNodeId(id)),
        }
    }

    /// Look an element up by id.
    pub fn get_element(&self, id: usize) -> (r: Result<&Element, GazelleError>)
        ensures
            r is Ok <==> self.has_element(id),
            r matches Ok(e) ==> e.id == id && self.elements@.contains(*e),
            r matches Err(e) ==> e == GazelleError::InvalidElementId(id),
    {
        match self.find_element(id) {
            Some(i) => Ok(&self.elements[i]),
            None => Err(GazelleError::InvalidElementId(id)),
        }
    }
}

impl Default for Model {
    /// Same as [`Model::new`].
    fn default() -> (r: Model)
        ensures
            r.nodes@.len() == 0,
            r.elements@.len() == 0,
            r.materials@.len() == 0,
            r.loads@.len() == 0,
            r.constraints@.len() == 0,
            r.wf(),
    {
        Model::new()
    }
}

impl Validate for Model {
    /// Every node, element and material must validate, and the model must
    /// hold at least one node and one element.
    open spec fn valid(&self) -> bool {
        &&& (forall|i: int| 0 <= i < self.nodes@.len() ==> (#[trigger] self.nodes@[i]).valid())
        &&& (forall|i: int| 0 <= i < self.elements@.len() ==> (#[trigger] self.elements@[i]).valid())
        &&& (forall|i: int| 0 <= i < self.materials@.len() ==> (#[trigger] self.materials@[i]).valid())
        &&& self.nodes@.len() > 0
        &&& self.elements@.len() > 0
    }

    /// A failed model validation carries a validation error, or the
    /// invalid-material error of an offending material.
    open spec fn invalid_error(&self, e: GazelleError) -> bool {
        e is ValidationError || e is InvalidMaterial
    }

    fn validate(&self) -> (r: Result<(), GazelleError>)
    {
        let mut i: usize = 0;
        while i < self.nodes.len()
            invariant
                i <= self.nodes@.len(),
                forall|k: int| 0 <= k < i ==> (#[trigger] self.nodes@[k]).valid(),
            decreases self.nodes@.len() - i,
        {
            match self.nodes[i].validate() {
                Ok(_) => {},
                Err(e) => {
                    return Err(e);
                },
            }
            i += 1;
        }
        let mut i: usize = 0;
        while i < self.elements.len()
            invariant
                i <= self.elements@.len(),
                forall|k: int| 0 <= k < i ==> (#[trigger] self.elements@[k]).valid(),
            decreases self.elements@.len() - i,
        {
            match self.elements[i].validate() {
                Ok(_) => {},
                Err(e) => {
                    return Err(e);
                },
            }
            i += 1;
        }
        let mut i: usize = 0;
        while i < self.materials.len()
            invariant
                i <= self.materials@.len(),
                forall|k: int| 0 <= k < i ==> (#[trigger] self.materials@[k]).valid(),
            decreases self.materials@.len() - i,
        {
            match self.materials[i].validate() {
                Ok(_) => {},
                Err(e) => {
                    return Err(e);
                },
            }
            i += 1;
        }
        if self.nodes.len() == 0 {
            return Err(GazelleError::ValidationError(
                "Model must have at least one node".to_string(),
            ));
        }
        if self.elements.len() == 0 {
            return Err(GazelleError::ValidationError(
                "Model must have at least one element".to_string(),
            ));
        }
        Ok(())
    }
}

/// A sequence of nodes with pairwise distinct ids, each at most
/// [`MAX_NODE_ID`], cannot be longer than `MAX_NODE_ID + 1`.
pub proof fn lemma_unique_bounded_ids_len(nodes: Seq<Node>)
    requires
        forall|i: int, j: int| 0 <= i < j < nodes.len()
            ==> (#[trigger] nodes[i]).id != (#[trigger] nodes[j]).id,
        forall|i: int| 0 <= i < nodes.len() ==> (#[trigger] nodes[i]).id <= MAX_NODE_ID,
    ensures
        nodes.len() <= MAX_NODE_ID + 1,
{
    let ids = nodes.map_values(|n: Node| n.id as int);
    assert(ids.len() == nodes.len());
    assert forall|i: int, j: int|
        0 <= i < ids.len() && 0 <= j < ids.len() && i != j implies ids[i] != ids[j] by {
        if i < j {
            assert(nodes[i].id != nodes[j].id);
        } else {
            assert(nodes[j].id != nodes[i].id);
        }
    }
    assert(ids.no_duplicates());
    ids.unique_seq_to_set();
    let range = set_int_range(0, MAX_NODE_ID + 1);
    lemma_int_range(0, MAX_NODE_ID + 1);
    assert forall|x: int| ids.to_set().contains(x) implies range.contains(x) by {
        let w = choose|w: int| 0 <= w < ids.len() && ids[w] == x;
        assert(nodes[w].id <= MAX_NODE_ID);
    }
    assert(ids.to_set().subset_of(range));
    lemma_len_subset(ids.to_set(), range);
}

} // verus!
