//! A structural analysis engine core: model data, degree-of-freedom
//! numbering, assembly planning, boundary-condition planning, and solver
//! policy, each with a machine-checked contract.
//!
//! Physical quantities are carried as the 64 bits of their IEEE 754
//! double-precision representation (see [`scalar::Scalar`]); the numeric layer
//! that actually computes with them lives outside this crate and converts
//! at the boundary.

#![verifier::loop_isolation(false)]

pub mod scalar;
pub mod error;
pub mod model;
pub mod materials;
pub mod loads;
pub mod constraints;
pub mod elements;
pub mod matrix;
pub mod solvers;
pub mod analysis;
pub mod units;
pub mod concrete;
pub mod daemon;

pub use error::GazelleError;
pub use error::Validate;
pub use scalar::Scalar;
pub use crate::model::Node;
pub use crate::model::Dof;
pub use crate::model::DofConstraint;
pub use crate::model::Element;
pub use crate::model::ElementType;
pub use crate::model::ElementProperties;
pub use crate::model::AnalysisResults;
pub use crate::model::ElementForces;
pub use crate::model::AnalysisType;
pub use crate::model::ConvergenceInfo;
pub use crate::model::Model;
pub use crate::model::AnalysisSettings;
pub use crate::model::SolverType;
pub use crate::model::MAX_NODE_ID;
pub use materials::Material;
pub use materials::MaterialType;
pub use materials::MaterialProperties;
pub use materials::ConstitutiveType;
pub use loads::Load;
pub use loads::LoadType;
pub use loads::LoadCase;
pub use loads::LoadCombination;
pub use loads::Vector3;
pub use constraints::Constraint;
pub use constraints::ConstraintType;
pub use constraints::ConstraintTerm;
pub use constraints::BoundaryConditionSet;
pub use constraints::SupportType;
pub use solvers::StaticSolver;
pub use solvers::ModalSolver;
pub use solvers::TimeHistorySolver;
pub use solvers::AnalysisRunner;
pub use solvers::AnalysisDispatch;
pub use elements::Truss2D;
pub use elements::Truss3D;
pub use elements::Beam2D;
pub use elements::Frame3D;
pub use elements::ElementFactory;
pub use elements::PlateElement;
pub use elements::ShellElement;
pub use elements::SolidElement;
pub use elements::StiffnessFactor;
pub use elements::MassFactor;
pub use elements::StiffnessTerm;
pub use elements::MassTerm;
pub use matrix::MatrixOps;
pub use matrix::SolveMethod;
pub use analysis::Analysis;
pub use analysis::ModelSummary;
pub use units::Unit;
pub use units::Millimeter;
pub use units::Meter;
pub use units::Kilonewton;
pub use units::Newton;
pub use units::Megapascal;
pub use units::Days;
pub use units::Quantity;
pub use units::Length;
pub use units::Force;
pub use units::Moment;
pub use units::Age;
pub use units::Area;
pub use units::Stress;
pub use concrete::Concrete;
pub use concrete::ConcreteError;
pub use concrete::UkConcreteGrade;
pub use concrete::CylinderStrength;
pub use concrete::Aggregate;
pub use concrete::Cement;
pub use concrete::WeightClass;
