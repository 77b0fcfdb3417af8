//! Constraint and boundary condition definitions.
//!
//! Only the direct nodal variant is enforced by the solvers; rigid links,
//! equal-displacement couplings and general linear equations are modeled
//! but deliberately not assembled, and planning treats them as explicit
//! no-ops.

use vstd::prelude::*;
use crate::error::{GazelleError, Validate, message_with_id, spec_decimal_digits};
use crate::scalar::{Scalar, spec_is_finite};
use crate::model::Dof;

verus! {

/// Kinds of constraints.
#[derive(Debug, Clone, PartialEq)]
pub enum ConstraintType {
    /// Direct prescriptions of nodal DOFs: (DOF, prescribed value) pairs.
    NodalConstraint { node_id: usize, constraints: Vec<(Dof, Scalar)> },
    /// Rigid link between a master node and slave nodes.
    RigidLink { master_node: usize, slave_nodes: Vec<usize>, linked_dofs: Vec<Dof> },
    /// Equal displacement of one DOF across several nodes.
    EqualDisplacement { nodes: Vec<usize>, dof: Dof },
    /// General linear equation: sum of coefficient times DOF equals rhs.
    Linear { terms: Vec<ConstraintTerm>, rhs: Scalar },
}

/// One term of a general linear constraint equation.
#[derive(Debug, Clone, PartialEq)]
pub struct ConstraintTerm {
    pub node_id: usize,
    pub dof: Dof,
    pub coefficient: Scalar,
}

impl ConstraintTerm {
    pub fn new(node_id: usize, dof: Dof, coefficient: Scalar) -> (r: ConstraintTerm)
        ensures
            r.node_id == node_id,
            r.dof == dof,
            r.coefficient == coefficient,
    {
        ConstraintTerm { node_id, dof, coefficient }
    }
}

/// A constraint applied to the structural model.
#[derive(Debug, Clone, PartialEq)]
pub struct Constraint {
    pub id: usize,
    pub constraint_type: ConstraintType,
}

/// The six (DOF, zero) pairs of a fully fixed support.
pub open spec fn spec_fixed_pairs() -> Seq<(Dof, Scalar)> {
    seq![
        (Dof::Ux, Scalar { bits: 0u64 }),
        (Dof::Uy, Scalar { bits: 0u64 }),
        (Dof::Uz, Scalar { bits: 0u64 }),
        (Dof::Rx, Scalar { bits: 0u64 }),
        (Dof::Ry, Scalar { bits: 0u64 }),
        (Dof::Rz, Scalar { bits: 0u64 }),
    ]
}

/// The three translational (DOF, zero) pairs of a pinned support.
pub open spec fn spec_pinned_pairs() -> Seq<(Dof, Scalar)> {
    seq![
        (Dof::Ux, Scalar { bits: 0u64 }),
        (Dof::Uy, Scalar { bits: 0u64 }),
        (Dof::Uz, Scalar { bits: 0u64 }),
    ]
}

impl Constraint {
    pub fn new(id: usize, constraint_type: ConstraintType) -> (r: Constraint)
        ensures
            r.id == id,
            r.constraint_type == constraint_type,
    {
        Constraint { id, constraint_type }
    }

    /// A fixed support: all six DOFs prescribed to zero.
    pub fn fixed_support(id: usize, node_id: usize) -> (r: Constraint)
        ensures
            r.id == id,
            r.constraint_type matches ConstraintType::NodalConstraint { node_id: n, constraints: cs }
                && n == node_id && cs@ == spec_fixed_pairs(),
    {
        let mut cs: Vec<(Dof, Scalar)> = Vec::new();
        cs.push((Dof::Ux, Scalar::zero()));
        cs.push((Dof::Uy, Scalar::zero()));
        cs.push((Dof::Uz, Scalar::zero()));
        cs.push((Dof::Rx, Scalar::zero()));
        cs.push((Dof::Ry, Scalar::zero()));
        cs.push((Dof::Rz, Scalar::zero()));
        proof {
            assert(cs@ =~= spec_fixed_pairs());
        }
        Constraint::new(id, ConstraintType::NodalConstraint { node_id, constraints: cs })
    }

    /// A pinned support: the three translations prescribed to zero.
    pub fn pinned_support(id: usize, node_id: usize) -> (r: Constraint)
        ensures
            r.id == id,
            r.constraint_type matches ConstraintType::NodalConstraint { node_id: n, constraints: cs }
                && n == node_id && cs@ == spec_pinned_pairs(),
    {
        let mut cs: Vec<(Dof, Scalar)> = Vec::new();
        cs.push((Dof::Ux, Scalar::zero()));
        cs.push((Dof::Uy, Scalar::zero()));
        cs.push((Dof::Uz, Scalar::zero()));
        proof {
            assert(cs@ =~= spec_pinned_pairs());
        }
        Constraint::new(id, ConstraintType::NodalConstraint { node_id, constraints: cs })
    }

    /// A roller support holding only the vertical (Y) translation.
    pub fn roller_support_y(id: usize, node_id: usize) -> (r: Constraint)
        ensures
            r.id == id,
            r.constraint_type matches ConstraintType::NodalConstraint { node_id: n, constraints: cs }
                && n == node_id && cs@ == seq![(Dof::Uy, Scalar { bits: 0u64 })],
    {
        let mut cs: Vec<(Dof, Scalar)> = Vec::new();
        cs.push((Dof::Uy, Scalar::zero()));
        proof {
            assert(cs@ =~= seq![(Dof::Uy, Scalar { bits: 0u64 })]);
        }
        Constraint::new(id, ConstraintType::NodalConstraint { node_id, constraints: cs })
    }

    /// A roller support holding only the horizontal (X) translation.
    pub fn roller_support_x(id: usize, node_id: usize) -> (r: Constraint)
        ensures
            r.id == id,
            r.constraint_type matches ConstraintType::NodalConstraint { node_id: n, constraints: cs }
                && n == node_id && cs@ == seq![(Dof::Ux, Scalar { bits: 0u64 })],
    {
        let mut cs: Vec<(Dof, Scalar)> = Vec::new();
        cs.push((Dof::Ux, Scalar::zero()));
        proof {
            assert(cs@ =~= seq![(Dof::Ux, Scalar { bits: 0u64 })]);
        }
        Constraint::new(id, ConstraintType::NodalConstraint { node_id, constraints: cs })
    }

    /// A roller support holding only the axial (Z) translation.
    pub fn roller_support_z(id: usize, node_id: usize) -> (r: Constraint)
        ensures
            r.id == id,
            r.constraint_type matches ConstraintType::NodalConstraint { node_id: n, constraints: cs }
                && n == node_id && cs@ == seq![(Dof::Uz, Scalar { bits: 0u64 })],
    {
        let mut cs: Vec<(Dof, Scalar)> = Vec::new();
        cs.push((Dof::Uz, Scalar::zero()));
        proof {
            assert(cs@ =~= seq![(Dof::Uz, Scalar { bits: 0u64 })]);
        }
        Constraint::new(id, ConstraintType::NodalConstraint { node_id, constraints: cs })
    }

    /// A single prescribed displacement at one nodal DOF.
    pub fn prescribed_displacement(id: usize, node_id: usize, dof: Dof, value: Scalar) -> (r: Constraint)
        ensures
            r.id == id,
            r.constraint_type matches ConstraintType::NodalConstraint { node_id: n, constraints: cs }
                && n == node_id && cs@ == seq![(dof, value)],
    {
        let mut cs: Vec<(Dof, Scalar)> = Vec::new();
        cs.push((dof, value));
        proof {
            assert(cs@ =~= seq![(dof, value)]);
        }
        Constraint::new(id, ConstraintType::NodalConstraint { node_id, constraints: cs })
    }

    /// Symmetry about the YZ plane: X translation and the two in-plane
    /// rotations held.
    pub fn symmetry_x(id: usize, node_id: usize) -> (r: Constraint)
        ensures
            r.id == id,
            r.constraint_type matches ConstraintType::NodalConstraint { node_id: n, constraints: cs }
                && n == node_id
                && cs@ == seq![
                    (Dof::Ux, Scalar { bits: 0u64 }),
                    (Dof::Ry, Scalar { bits: 0u64 }),
                    (Dof::Rz, Scalar { bits: 0u64 }),
                ],
    {
        let mut cs: Vec<(Dof, Scalar)> = Vec::new();
        cs.push((Dof::Ux, Scalar::zero()));
        cs.push((Dof::Ry, Scalar::zero()));
        cs.push((Dof::Rz, Scalar::zero()));
        proof {
            assert(cs@ =~= seq![
                (Dof::Ux, Scalar { bits: 0u64 }),
                (Dof::Ry, Scalar { bits: 0u64 }),
                (Dof::Rz, Scalar { bits: 0u64 }),
            ]);
        }
        Constraint::new(id, ConstraintType::NodalConstraint { node_id, constraints: cs })
    }

    /// Symmetry about the XZ plane.
    pub fn symmetry_y(id: usize, node_id: usize) -> (r: Constraint)
        ensures
            r.id == id,
            r.constraint_type matches ConstraintType::NodalConstraint { node_id: n, constraints: cs }
                && n == node_id
                && cs@ == seq![
                    (Dof::Uy, Scalar { bits: 0u64 }),
                    (Dof::Rx, Scalar { bits: 0u64 }),
                    (Dof::Rz, Scalar { bits: 0u64 }),
                ],
    {
        let mut cs: Vec<(Dof, Scalar)> = Vec::new();
        cs.push((Dof::Uy, Scalar::zero()));
        cs.push((Dof::Rx, Scalar::zero()));
        cs.push((Dof::Rz, Scalar::zero()));
        proof {
            assert(cs@ =~= seq![
                (Dof::Uy, Scalar { bits: 0u64 }),
                (Dof::Rx, Scalar { bits: 0u64 }),
                (Dof::Rz, Scalar { bits: 0u64 }),
            ]);
        }
        Constraint::new(id, ConstraintType::NodalConstraint { node_id, constraints: cs })
    }

    /// Symmetry about the XY plane.
    pub fn symmetry_z(id: usize, node_id: usize) -> (r: Constraint)
        ensures
            r.id == id,
            r.constraint_type matches ConstraintType::NodalConstraint { node_id: n, constraints: cs }
                && n == node_id
                && cs@ == seq![
                    (Dof::Uz, Scalar { bits: 0u64 }),
                    (Dof::Rx, Scalar { bits: 0u64 }),
                    (Dof::Ry, Scalar { bits: 0u64 }),
                ],
    {
        let mut cs: Vec<(Dof, Scalar)> = Vec::new();
        cs.push((Dof::Uz, Scalar::zero()));
        cs.push((Dof::Rx, Scalar::zero()));
        cs.push((Dof::Ry, Scalar::zero()));
        proof {
            assert(cs@ =~= seq![
                (Dof::Uz, Scalar { bits: 0u64 }),
                (Dof::Rx, Scalar { bits: 0u64 }),
                (Dof::Ry, Scalar { bits: 0u64 }),
            ]);
        }
        Constraint::new(id, ConstraintType::NodalConstraint { node_id, constraints: cs })
    }

    /// A rigid link between a master node and slave nodes (modeled, not
    /// enforced by the solvers).
    pub fn rigid_link(id: usize, master_node: usize, slave_nodes: Vec<usize>, linked_dofs: Vec<Dof>) -> (r: Constraint)
        ensures
            r.id == id,
            r.constraint_type == (ConstraintType::RigidLink { master_node, slave_nodes, linked_dofs }),
    {
        Constraint::new(id, ConstraintType::RigidLink { master_node, slave_nodes, linked_dofs })
    }

    /// An equal-displacement coupling (modeled, not enforced by the
    /// solvers).
    pub fn equal_displacement(id: usize, nodes: Vec<usize>, dof: Dof) -> (r: Constraint)
        ensures
            r.id == id,
            r.constraint_type == (ConstraintType::EqualDisplacement { nodes, dof }),
    {
        Constraint::new(id, ConstraintType::EqualDisplacement { nodes, dof })
    }

    /// A general linear multi-point constraint (modeled, not enforced by
    /// the solvers).
    pub fn linear_constraint(id: usize, terms: Vec<ConstraintTerm>, rhs: Scalar) -> (r: Constraint)
        ensures
            r.id == id,
            r.constraint_type == (ConstraintType::Linear { terms, rhs }),
    {
        Constraint::new(id, ConstraintType::Linear { terms, rhs })
    }
}

/// The message a failed constraint validation carries: it names the
/// constraint id and the first check its variant fails, in check order.
pub open spec fn spec_constraint_error_message(c: Constraint) -> Seq<char> {
    let id = spec_decimal_digits(c.id as nat);
    match c.constraint_type {
        ConstraintType::NodalConstraint { node_id, constraints } => {
            if constraints@.len() == 0 {
                "Constraint "@ + id + " has no DOF constraints"@
            } else {
                "Constraint "@ + id + " has invalid prescribed value"@
            }
        },
        ConstraintType::RigidLink { master_node, slave_nodes, linked_dofs } => {
            "Rigid link constraint "@ + id + " has no slave nodes"@
        },
        ConstraintType::EqualDisplacement { nodes, dof } => {
            "Equal displacement constraint "@ + id + " needs at least 2 nodes"@
        },
        ConstraintType::Linear { terms, rhs } => {
            if terms@.len() == 0 {
                "Linear constraint "@ + id + " has no terms"@
            } else if !spec_is_finite(rhs.bits) {
                "Linear constraint "@ + id + " has invalid RHS value"@
            } else {
                "Linear constraint "@ + id + " has invalid coefficient"@
            }
        },
    }
}

impl Validate for Constraint {
    /// A nodal constraint must hold at least one pair, each with a finite
    /// prescribed value; a rigid link must name a slave; an
    /// equal-displacement coupling must join at least two nodes; a linear
    /// equation must have a term, a finite right-hand side and finite
    /// coefficients.
    open spec fn valid(&self) -> bool {
        match self.constraint_type {
            ConstraintType::NodalConstraint { node_id, constraints } => {
                &&& constraints@.len() > 0
                &&& forall|i: int| 0 <= i < constraints@.len() ==> spec_is_finite(#[trigger] constraints@[i].1.bits)
            },
            ConstraintType::RigidLink { master_node, slave_nodes, linked_dofs } => slave_nodes@.len() > 0,
            ConstraintType::EqualDisplacement { nodes, dof } => nodes@.len() >= 2,
            ConstraintType::Linear { terms, rhs } => {
                &&& terms@.len() > 0
                &&& spec_is_finite(rhs.bits)
                &&& forall|i: int| 0 <= i < terms@.len() ==> spec_is_finite(#[trigger] terms@[i].coefficient.bits)
            },
        }
    }

    /// A failed constraint validation is a validation error whose
    /// message names the constraint id and the failed check.
    open spec fn invalid_error(&self, e: GazelleError) -> bool {
        e matches GazelleError::ValidationError(m) && m@ == spec_constraint_error_message(*self)
    }

    fn validate(&self) -> (r: Result<(), GazelleError>)
    {
        match &self.constraint_type {
            ConstraintType::NodalConstraint { node_id: _, constraints } => {
                if constraints.len() == 0 {
                    return Err(GazelleError::ValidationError(
                        message_with_id("Constraint ", self.id, " has no DOF constraints"),
                    ));
                }
                let mut i: usize = 0;
                while i < constraints.len()
                    invariant
                        i <= constraints@.len(),
                        forall|k: int| 0 <= k < i ==> spec_is_finite(#[trigger] constraints@[k].1.bits),
                    decreases constraints@.len() - i,
                {
                    if !constraints[i].1.is_finite() {
                        return Err(GazelleError::ValidationError(
                            message_with_id("Constraint ", self.id, " has invalid prescribed value"),
                        ));
                    }
                    i += 1;
                }
                Ok(())
            },
            ConstraintType::RigidLink { slave_nodes, .. } => {
                if slave_nodes.len() == 0 {
                    return Err(GazelleError::ValidationError(
                        message_with_id("Rigid link constraint ", self.id, " has no slave nodes"),
                    ));
                }
                Ok(())
            },
            ConstraintType::EqualDisplacement { nodes, .. } => {
                if nodes.len() < 2 {
                    return Err(GazelleError::ValidationError(
                        message_with_id("Equal displacement constraint ", self.id, " needs at least 2 nodes"),
                    ));
                }
                Ok(())
            },
            ConstraintType::Linear { terms, rhs } => {
                if terms.len() == 0 {
                    return Err(GazelleError::ValidationError(
                        message_with_id("Linear constraint ", self.id, " has no terms"),
                    ));
                }
                if !rhs.is_finite() {
                    return Err(GazelleError::ValidationError(
                        message_with_id("Linear constraint ", self.id, " has invalid RHS value"),
                    ));
                }
                let mut i: usize = 0;
                while i < terms.len()
                    invariant
                        i <= terms@.len(),
                        forall|k: int| 0 <= k < i ==> spec_is_finite(#[trigger] terms@[k].coefficient.bits),
                    decreases terms@.len() - i,
                {
                    if !terms[i].coefficient.is_finite() {
                        return Err(GazelleError::ValidationError(
                            message_with_id("Linear constraint ", self.id, " has invalid coefficient"),
                        ));
                    }
                    i += 1;
                }
                Ok(())
            },
        }
    }
}

/// Common support conditions.
#[derive(Debug, Clone, Copy, PartialEq, Eq, Hash, Structural)]
pub enum SupportType {
    Fixed,
    Pinned,
    RollerX,
    RollerY,
    RollerZ,
    Free,
    /// Can translate in one direction only.
    Guided,
}

impl SupportType {
    /// The list of DOFs this support type holds.
    pub fn constrained_dofs(&self) -> (r: Vec<Dof>)
        ensures
            r@ == spec_support_dofs(*self),
    {
        match self {
            SupportType::Fixed => Dof::all(),
            SupportType::Pinned => Dof::all_translational(),
            SupportType::RollerX => {
                let mut v: Vec<Dof> = Vec::new();
                v.push(Dof::Uy);
                v.push(Dof::Uz);
                proof {
                    assert(v@ =~= spec_support_dofs(SupportType::RollerX));
                }
                v
            },
            SupportType::RollerY => {
                let mut v: Vec<Dof> = Vec::new();
                v.push(Dof::Ux);
                v.push(Dof::Uz);
                proof {
                    assert(v@ =~= spec_support_dofs(SupportType::RollerY));
                }
                v
            },
            SupportType::RollerZ => {
                let mut v: Vec<Dof> = Vec::new();
                v.push(Dof::Ux);
                v.push(Dof::Uy);
                proof {
                    assert(v@ =~= spec_support_dofs(SupportType::RollerZ));
                }
                v
            },
            SupportType::Free => Vec::new(),
            SupportType::Guided => Vec::new(),
        }
    }

    /// Build the constraint this support type places at a node. A free
    /// support yields a nodal constraint with no pairs; a guided support
    /// defaults to a roller in the Y direction.
    pub fn create_constraint(&self, constraint_id: usize, node_id: usize) -> (r: Constraint)
        ensures
            r.id == constraint_id,
            *self is Fixed ==> (r.constraint_type matches ConstraintType::NodalConstraint { node_id: n, constraints: cs }
                && n == node_id && cs@ == spec_fixed_pairs()),
            *self is Pinned ==> (r.constraint_type matches ConstraintType::NodalConstraint { node_id: n, constraints: cs }
                && n == node_id && cs@ == spec_pinned_pairs()),
            *self is RollerX ==> (r.constraint_type matches ConstraintType::NodalConstraint { node_id: n, constraints: cs }
                && n == node_id && cs@ == seq![(Dof::Ux, Scalar { bits: 0u64 })]),
            (*self is RollerY || *self is Guided) ==> (r.constraint_type matches ConstraintType::NodalConstraint { node_id: n, constraints: cs }
                && n == node_id && cs@ == seq![(Dof::Uy, Scalar { bits: 0u64 })]),
            *self is RollerZ ==> (r.constraint_type matches ConstraintType::NodalConstraint { node_id: n, constraints: cs }
                && n == node_id && cs@ == seq![(Dof::Uz, Scalar { bits: 0u64 })]),
            *self is Free ==> (r.constraint_type matches ConstraintType::NodalConstraint { node_id: n, constraints: cs }
                && n == node_id && cs@.len() == 0),
    {
        match self {
            SupportType::Fixed => Constraint::fixed_support(constraint_id, node_id),
            SupportType::Pinned => Constraint::pinned_support(constraint_id, node_id),
            SupportType::RollerX => Constraint::roller_support_x(constraint_id, node_id),
            SupportType::RollerY => Constraint::roller_support_y(constraint_id, node_id),
            SupportType::RollerZ => Constraint::roller_support_z(constraint_id, node_id),
            SupportType::Free => {
                Constraint::new(
                    constraint_id,
                    ConstraintType::NodalConstraint { node_id, constraints: Vec::new() },
                )
            },
            SupportType::Guided => Constraint::roller_support_y(constraint_id, node_id),
        }
    }
}

/// The DOFs held by each support type.
pub open spec fn spec_support_dofs(s: SupportType) -> Seq<Dof> {
    match s {
        SupportType::Fixed => seq![Dof::Ux, Dof::Uy, Dof::Uz, Dof::Rx, Dof::Ry, Dof::Rz],
        SupportType::Pinned => seq![Dof::Ux, Dof::Uy, Dof::Uz],
        SupportType::RollerX => seq![Dof::Uy, Dof::Uz],
        SupportType::RollerY => seq![Dof::Ux, Dof::Uz],
        SupportType::RollerZ => seq![Dof::Ux, Dof::Uy],
        SupportType::Free => Seq::empty(),
        SupportType::Guided => Seq::empty(),
    }
}

/// A named set of boundary conditions.
#[derive(Debug, Clone, PartialEq)]
pub struct BoundaryConditionSet {
    pub name: String,
    pub description: String,
    pub constraints: Vec<Constraint>,
}

impl BoundaryConditionSet {
    pub fn new(name: String, description: String) -> (r: BoundaryConditionSet)
        ensures
            r.name == name,
            r.description == description,
            r.constraints@.len() == 0,
    {
        BoundaryConditionSet { name, description, constraints: Vec::new() }
    }

    pub fn add_constraint(&mut self, constraint: Constraint)
        ensures
            final(self).name == old(self).name,
            final(self).description == old(self).description,
            final(self).constraints@ == old(self).constraints@.push(constraint),
    {
        self.constraints.push(constraint);
    }

    /// Boundary conditions of a cantilever: one fixed support.
    pub fn cantilever_beam(node_id: usize) -> (r: BoundaryConditionSet)
        ensures
            r.name@ == "Cantilever Beam"@,
            r.constraints@.len() == 1,
            r.constraints@[0].id == 0,
            r.constraints@[0].constraint_type matches ConstraintType::NodalConstraint { node_id: n, constraints: cs }
                && n == node_id && cs@ == spec_fixed_pairs(),
    {
        let mut bc_set = BoundaryConditionSet::new(
            "Cantilever Beam".to_string(),
            "Fixed support at one end".to_string(),
        );
        bc_set.add_constraint(Constraint::fixed_support(0, node_id));
        bc_set
    }

    /// Boundary conditions of a simply supported beam: a pin and a roller.
    pub fn simply_supported_beam(left_node: usize, right_node: usize) -> (r: BoundaryConditionSet)
        ensures
            r.name@ == "Simply Supported Beam"@,
            r.constraints@.len() == 2,
            r.constraints@[0].id == 0,
            r.constraints@[0].constraint_type matches ConstraintType::NodalConstraint { node_id: n, constraints: cs }
                && n == left_node && cs@ == spec_pinned_pairs(),
            r.constraints@[1].id == 1,
            r.constraints@[1].constraint_type matches ConstraintType::NodalConstraint { node_id: n, constraints: cs }
                && n == right_node && cs@ == seq![(Dof::Uy, Scalar { bits: 0u64 })],
    {
        let mut bc_set = BoundaryConditionSet::new(
            "Simply Supported Beam".to_string(),
            "Pinned supports at both ends".to_string(),
        );
        bc_set.add_constraint(Constraint::pinned_support(0, left_node));
        bc_set.add_constraint(Constraint::roller_support_y(1, right_node));
        bc_set
    }

    /// Boundary conditions of a beam fixed at both ends.
    pub fn fixed_fixed_beam(left_node: usize, right_node: usize) -> (r: BoundaryConditionSet)
        ensures
            r.name@ == "Fixed-Fixed Beam"@,
            r.constraints@.len() == 2,
            r.constraints@[0].id == 0,
            r.constraints@[0].constraint_type matches ConstraintType::NodalConstraint { node_id: n, constraints: cs }
                && n == left_node && cs@ == spec_fixed_pairs(),
            r.constraints@[1].id == 1,
            r.constraints@[1].constraint_type matches ConstraintType::NodalConstraint { node_id: n, constraints: cs }
                && n == right_node && cs@ == spec_fixed_pairs(),
    {
        let mut bc_set = BoundaryConditionSet::new(
            "Fixed-Fixed Beam".to_string(),
            "Fixed supports at both ends".to_string(),
        );
        bc_set.add_constraint(Constraint::fixed_support(0, left_node));
        bc_set.add_constraint(Constraint::fixed_support(1, right_node));
        bc_set
    }

    /// Fixed supports at every named foundation node.
    pub fn building_base(node_ids: Vec<usize>) -> (r: BoundaryConditionSet)
        ensures
            r.name@ == "Building Base"@,
            r.constraints@.len() == node_ids@.len(),
            forall|i: int| 0 <= i < node_ids@.len() ==> {
                &&& (#[trigger] r.constraints@[i]).id == i
                &&& r.constraints@[i].constraint_type matches ConstraintType::NodalConstraint { node_id: n, constraints: cs }
                    && n == node_ids@[i] && cs@ == spec_fixed_pairs()
            },
    {
        let mut bc_set = BoundaryConditionSet::new(
            "Building Base".to_string(),
            "Fixed supports at foundation level".to_string(),
        );
        let mut i: usize = 0;
        while i < node_ids.len()
            invariant
                i <= node_ids@.len(),
                bc_set.name@ == "Building Base"@,
                bc_set.constraints@.len() == i,
                forall|k: int| 0 <= k < i ==> {
                    &&& (#[trigger] bc_set.constraints@[k]).id == k
                    &&& bc_set.constraints@[k].constraint_type matches ConstraintType::NodalConstraint { node_id: n, constraints: cs }
                        && n == node_ids@[k] && cs@ == spec_fixed_pairs()
                },
            decreases node_ids@.len() - i,
        {
            bc_set.add_constraint(Constraint::fixed_support(i, node_ids[i]));
            i += 1;
        }
        bc_set
    }

    /// Symmetry conditions about the YZ plane at every named node.
    pub fn symmetry_plane_x(node_ids: Vec<usize>) -> (r: BoundaryConditionSet)
        ensures
            r.name@ == "Symmetry Plane X"@,
            r.constraints@.len() == node_ids@.len(),
            forall|i: int| 0 <= i < node_ids@.len() ==> {
                &&& (#[trigger] r.constraints@[i]).id == i
                &&& r.constraints@[i].constraint_type matches ConstraintType::NodalConstraint { node_id: n, constraints: cs }
                    && n == node_ids@[i] && cs@ == seq![(Dof::Ux, Scalar { bits: 0u64 }), (Dof::Ry, Scalar { bits: 0u64 }), (Dof::Rz, Scalar { bits: 0u64 })]
            },
    {
        let mut bc_set = BoundaryConditionSet::new(
            "Symmetry Plane X".to_string(),
            "Symmetry boundary conditions for YZ plane".to_string(),
        );
        let mut i: usize = 0;
        while i < node_ids.len()
            invariant
                i <= node_ids@.len(),
                bc_set.name@ == "Symmetry Plane X"@,
                bc_set.constraints@.len() == i,
                forall|k: int| 0 <= k < i ==> {
                    &&& (#[trigger] bc_set.constraints@[k]).id == k
                    &&& bc_set.constraints@[k].constraint_type matches ConstraintType::NodalConstraint { node_id: n, constraints: cs }
                        && n == node_ids@[k] && cs@ == seq![(Dof::Ux, Scalar { bits: 0u64 }), (Dof::Ry, Scalar { bits: 0u64 }), (Dof::Rz, Scalar { bits: 0u64 })]
                },
            decreases node_ids@.len() - i,
        {
            bc_set.add_constraint(Constraint::symmetry_x(i, node_ids[i]));
            i += 1;
        }
        bc_set
    }

    /// Symmetry conditions about the XZ plane at every named node.
    pub fn symmetry_plane_y(node_ids: Vec<usize>) -> (r: BoundaryConditionSet)
        ensures
            r.name@ == "Symmetry Plane Y"@,
            r.constraints@.len() == node_ids@.len(),
            forall|i: int| 0 <= i < node_ids@.len() ==> {
                &&& (#[trigger] r.constraints@[i]).id == i
                &&& r.constraints@[i].constraint_type matches ConstraintType::NodalConstraint { node_id: n, constraints: cs }
                    && n == node_ids@[i] && cs@ == seq![(Dof::Uy, Scalar { bits: 0u64 }), (Dof::Rx, Scalar { bits: 0u64 }), (Dof::Rz, Scalar { bits: 0u64 })]
            },
    {
        let mut bc_set = BoundaryConditionSet::new(
            "Symmetry Plane Y".to_string(),
            "Symmetry boundary conditions for XZ plane".to_string(),
        );
        let mut i: usize = 0;
        while i < node_ids.len()
            invariant
                i <= node_ids@.len(),
                bc_set.name@ == "Symmetry Plane Y"@,
                bc_set.constraints@.len() == i,
                forall|k: int| 0 <= k < i ==> {
                    &&& (#[trigger] bc_set.constraints@[k]).id == k
                    &&& bc_set.constraints@[k].constraint_type matches ConstraintType::NodalConstraint { node_id: n, constraints: cs }
                        && n == node_ids@[k] && cs@ == seq![(Dof::Uy, Scalar { bits: 0u64 }), (Dof::Rx, Scalar { bits: 0u64 }), (Dof::Rz, Scalar { bits: 0u64 })]
                },
            decreases node_ids@.len() - i,
        {
            bc_set.add_constraint(Constraint::symmetry_y(i, node_ids[i]));
            i += 1;
        }
        bc_set
    }

    /// Symmetry conditions about the XY plane at every named node.
    pub fn symmetry_plane_z(node_ids: Vec<usize>) -> (r: BoundaryConditionSet)
        ensures
            r.name@ == "Symmetry Plane Z"@,
            r.constraints@.len() == node_ids@.len(),
            forall|i: int| 0 <= i < node_ids@.len() ==> {
                &&& (#[trigger] r.constraints@[i]).id == i
                &&& r.constraints@[i].constraint_type matches ConstraintType::NodalConstraint { node_id: n, constraints: cs }
                    && n == node_ids@[i] && cs@ == seq![(Dof::Uz, Scalar { bits: 0u64 }), (Dof::Rx, Scalar { bits: 0u64 }), (Dof::Ry, Scalar { bits: 0u64 })]
            },
    {
        let mut bc_set = BoundaryConditionSet::new(
            "Symmetry Plane Z".to_string(),
            "Symmetry boundary conditions for XY plane".to_string(),
        );
        let mut i: usize = 0;
        while i < node_ids.len()
            invariant
                i <= node_ids@.len(),
                bc_set.name@ == "Symmetry Plane Z"@,
                bc_set.constraints@.len() == i,
                forall|k: int| 0 <= k < i ==> {
                    &&& (#[trigger] bc_set.constraints@[k]).id == k
                    &&& bc_set.constraints@[k].constraint_type matches ConstraintType::NodalConstraint { node_id: n, constraints: cs }
                        && n == node_ids@[k] && cs@ == seq![(Dof::Uz, Scalar { bits: 0u64 }), (Dof::Rx, Scalar { bits: 0u64 }), (Dof::Ry, Scalar { bits: 0u64 })]
                },
            decreases node_ids@.len() - i,
        {
            bc_set.add_constraint(Constraint::symmetry_z(i, node_ids[i]));
            i += 1;
        }
        bc_set
    }
}

} // verus!
