//! DOF numbering, assembly and constraint planning, solver policy, and
//! the analysis dispatcher.

use gazelle::{
    AnalysisDispatch, AnalysisRunner, AnalysisType, Constraint, Dof, Element, ElementProperties,
    ElementType, GazelleError, Load, Material, MatrixOps, ModalSolver, Model, ModelSummary, Node, Validate,
    Scalar, SolveMethod, StaticSolver, TimeHistorySolver,
};

fn s(x: f64) -> Scalar {
    Scalar::new(x.to_bits())
}

fn f(sc: Scalar) -> f64 {
    f64::from_bits(sc.bits)
}

fn two_node_truss() -> Model {
    let mut model = Model::new();
    model.add_node(Node::new(0, s(0.0), s(0.0), s(0.0))).unwrap();
    model.add_node(Node::new(1, s(1.0), s(0.0), s(0.0))).unwrap();
    model.add_material(Material::steel(0, "Steel".to_string())).unwrap();
    let props = ElementProperties::truss(s(0.01));
    model
        .add_element(Element::new(0, ElementType::Truss2D, vec![0, 1], 0, props))
        .unwrap();
    model
}

#[test]
fn test_dof_mapping_debug() {
    let mut model = two_node_truss();
    model.add_constraint(Constraint::prescribed_displacement(0, 0, Dof::Ux, s(0.0)));
    model.add_load(Load::nodal_force(0, 1, Dof::Ux, s(1.0), "Test".to_string()));

    // the traditional count is six slots per node
    assert_eq!(model.total_dofs(), 12);

    let element = model.get_element(0).unwrap();
    assert_eq!(element.dofs_per_node(), 2);
    assert_eq!(element.total_dofs(), 4);

    // a pure planar truss uses the compact scheme: two slots per node
    let solver = StaticSolver::new();
    assert!(solver.is_2d_problem(&model));
    assert_eq!(solver.max_dofs_per_node(&model), 2);
    assert_eq!(solver.calculate_active_dofs(&model), 4);
    assert_eq!(solver.map_nodal_dof(&model, 0, Dof::Ux), 0);
    assert_eq!(solver.map_nodal_dof(&model, 0, Dof::Uy), 1);
    assert_eq!(solver.map_nodal_dof(&model, 1, Dof::Ux), 2);
    assert_eq!(solver.map_nodal_dof(&model, 1, Dof::Uy), 3);
}

#[test]
fn test_traditional_mapping_for_space_frames() {
    let mut model = Model::new();
    model.add_node(Node::new(0, s(0.0), s(0.0), s(0.0))).unwrap();
    model.add_node(Node::new(1, s(1.0), s(1.0), s(1.0))).unwrap();
    model.add_material(Material::steel(0, "Steel".to_string())).unwrap();
    let props = ElementProperties::beam(s(0.01), s(1e-5), s(1e-5), s(1e-5));
    model
        .add_element(Element::new(0, ElementType::Frame3D, vec![0, 1], 0, props))
        .unwrap();

    let solver = StaticSolver::new();
    assert!(!solver.is_2d_problem(&model));
    assert_eq!(solver.max_dofs_per_node(&model), 6);
    assert_eq!(solver.map_nodal_dof(&model, 1, Dof::Rz), 11);
    assert_eq!(solver.map_nodal_dof_traditional(1, Dof::Rz), 11);
    // top used index is node 1's last DOF, 11, so twelve slots are active
    assert_eq!(solver.calculate_active_dofs(&model), 12);

    let plans = solver.plan_element_dofs(&model);
    assert_eq!(plans.len(), 1);
    assert_eq!(plans[0], (0..12).collect::<Vec<usize>>());
}

#[test]
fn test_element_dof_plan_compact() {
    let model = two_node_truss();
    let solver = StaticSolver::new();
    let plans = solver.plan_element_dofs(&model);
    assert_eq!(plans.len(), 1);
    assert_eq!(plans[0], vec![0, 1, 2, 3]);
}

#[test]
fn test_constraint_plan_skips_inactive_dofs() {
    let mut model = two_node_truss();
    // a fixed support prescribes all six DOFs; only the two the compact
    // planar scheme carries are planned
    model.add_constraint(Constraint::fixed_support(0, 0));
    let solver = StaticSolver::new();
    let total = solver.calculate_active_dofs(&model);
    let plan = solver.plan_constraints(&model, total);
    assert_eq!(plan.len(), 2);
    assert_eq!(plan[0].0, 0);
    assert_eq!(plan[1].0, 1);
    assert_eq!(f(plan[0].1), 0.0);
}

#[test]
fn test_constraint_plan_skips_untouched_rows() {
    let mut model = two_node_truss();
    // node 9 exists but no element touches it: a support there is
    // deliberately skipped rather than corrupting an untouched row
    model.add_node(Node::new(9, s(5.0), s(5.0), s(0.0))).unwrap();
    model.add_constraint(Constraint::fixed_support(0, 9));
    let solver = StaticSolver::new();
    let total = solver.calculate_active_dofs(&model);
    let plan = solver.plan_constraints(&model, total);
    assert_eq!(plan.len(), 0);
}

#[test]
fn test_load_plan() {
    let mut model = two_node_truss();
    model.add_load(Load::nodal_force(0, 1, Dof::Ux, s(10000.0), "Case".to_string()));
    let solver = StaticSolver::new();
    let total = solver.calculate_active_dofs(&model);
    let plan = solver.plan_nodal_loads(&model, total).unwrap();
    assert_eq!(plan.len(), 1);
    assert_eq!(plan[0].0, 2);
    assert_eq!(f(plan[0].1), 10000.0);
    assert_eq!(f(plan[0].2), 1.0);

    // a load on a missing node is the invalid-node error
    let mut bad = two_node_truss();
    bad.add_load(Load::nodal_force(0, 7, Dof::Ux, s(1.0), "Case".to_string()));
    let total = solver.calculate_active_dofs(&bad);
    assert!(matches!(
        solver.plan_nodal_loads(&bad, total),
        Err(GazelleError::InvalidNodeId(7))
    ));
}

#[test]
fn test_static_validate_model() {
    let solver = StaticSolver::new();

    let unconstrained = two_node_truss();
    assert!(solver.validate_model(&unconstrained).is_err());

    let mut constrained = two_node_truss();
    constrained.add_constraint(Constraint::fixed_support(0, 0));
    assert!(solver.validate_model(&constrained).is_ok());
}

#[test]
fn test_modal_validate_requires_density() {
    let mut model = Model::new();
    model.add_node(Node::new(0, s(0.0), s(0.0), s(0.0))).unwrap();
    let mut no_density = Material::steel(0, "Steel".to_string());
    no_density.properties.density = None;
    model.add_material(no_density).unwrap();

    let modal = ModalSolver::new(4);
    assert_eq!(modal.num_modes, 4);
    assert!(modal.validate_model(&model).is_err());

    let dynamic = TimeHistorySolver::new(s(0.01), s(1.0));
    assert!(dynamic.validate_model(&model).is_err());
    assert_eq!(f(dynamic.damping_ratio), 0.05);
    let damped = dynamic.with_damping(s(0.02));
    assert_eq!(f(damped.damping_ratio), 0.02);
}

#[test]
fn test_analysis_dispatch() {
    let model = two_node_truss();

    assert_eq!(
        AnalysisRunner::plan_analysis(&model, AnalysisType::Static).unwrap(),
        AnalysisDispatch::Static
    );

    match AnalysisRunner::plan_analysis(&model, AnalysisType::Modal).unwrap() {
        AnalysisDispatch::Modal { num_modes } => assert_eq!(num_modes, 10),
        other => panic!("unexpected dispatch {:?}", other),
    }

    let mut with_modes = two_node_truss();
    with_modes.analysis_settings.eigen_modes = Some(3);
    match AnalysisRunner::plan_analysis(&with_modes, AnalysisType::Modal).unwrap() {
        AnalysisDispatch::Modal { num_modes } => assert_eq!(num_modes, 3),
        other => panic!("unexpected dispatch {:?}", other),
    }

    match AnalysisRunner::plan_analysis(&model, AnalysisType::TimeHistory).unwrap() {
        AnalysisDispatch::TimeHistory { time_step, duration } => {
            assert_eq!(f(time_step), 0.01);
            assert_eq!(f(duration), 1.0);
        },
        other => panic!("unexpected dispatch {:?}", other),
    }

    assert!(matches!(
        AnalysisRunner::plan_analysis(&model, AnalysisType::Buckling),
        Err(GazelleError::UnsupportedElement { .. })
    ));
    assert!(matches!(
        AnalysisRunner::plan_analysis(&model, AnalysisType::NonlinearStatic),
        Err(GazelleError::UnsupportedElement { .. })
    ));
}

#[test]
fn test_solver_selection_policy() {
    assert!(matches!(
        MatrixOps::select_solve_method(3, 4, 3, true, true),
        Err(GazelleError::MatrixError(_))
    ));
    assert!(matches!(
        MatrixOps::select_solve_method(3, 3, 4, true, true),
        Err(GazelleError::MatrixError(_))
    ));
    assert_eq!(
        MatrixOps::select_solve_method(3, 3, 3, true, true).unwrap(),
        SolveMethod::Cholesky
    );
    assert_eq!(
        MatrixOps::select_solve_method(3, 3, 3, true, false).unwrap(),
        SolveMethod::LuDecomposition
    );
    assert_eq!(
        MatrixOps::select_solve_method(5000, 5000, 5000, false, false).unwrap(),
        SolveMethod::LuDecomposition
    );
    assert_eq!(
        MatrixOps::select_iterative_method(true, true),
        SolveMethod::ConjugateGradient
    );
    assert_eq!(
        MatrixOps::select_iterative_method(false, true),
        SolveMethod::LuDecomposition
    );
}

#[test]
fn test_constraint_application_check() {
    let dofs = vec![0usize, 2, 3];
    assert!(MatrixOps::check_constraint_application(4, &dofs, 3).is_ok());
    assert!(MatrixOps::check_constraint_application(4, &dofs, 2).is_err());
    assert!(MatrixOps::check_constraint_application(3, &dofs, 3).is_err());
}

#[test]
fn test_complete_workflow() {
    let mut model = Model::new();

    model.add_node(Node::new(0, s(0.0), s(0.0), s(0.0))).unwrap();
    model.add_node(Node::new(1, s(1.0), s(0.5), s(0.0))).unwrap();
    model.add_node(Node::new(2, s(2.0), s(0.0), s(0.0))).unwrap();

    model.add_material(Material::steel(0, "Steel".to_string())).unwrap();

    let props = ElementProperties::truss(s(0.005));
    model
        .add_element(Element::new(0, ElementType::Truss2D, vec![0, 1], 0, props.clone()))
        .unwrap();
    model
        .add_element(Element::new(1, ElementType::Truss2D, vec![1, 2], 0, props.clone()))
        .unwrap();
    model
        .add_element(Element::new(2, ElementType::Truss2D, vec![0, 2], 0, props))
        .unwrap();

    model.add_constraint(Constraint::pinned_support(0, 0));
    model.add_constraint(Constraint::roller_support_y(1, 2));

    model.add_load(Load::nodal_force(0, 1, Dof::Uy, s(-10000.0), "Point Load".to_string()));

    assert!(model.validate().is_ok(), "Model should be valid");

    let solver = StaticSolver::new();
    assert!(solver.validate_model(&model).is_ok());

    // the compact planar scheme: three nodes, two slots each
    let total = solver.calculate_active_dofs(&model);
    assert_eq!(total, 6);

    // every element scatter index is inside the system
    let plans = solver.plan_element_dofs(&model);
    assert_eq!(plans.len(), 3);
    for plan in &plans {
        assert_eq!(plan.len(), 4);
        for &g in plan {
            assert!(g < total);
        }
    }

    // the pin holds both DOFs of node 0, the roller the Y of node 2
    let cplan = solver.plan_constraints(&model, total);
    let dofs: Vec<usize> = cplan.iter().map(|p| p.0).collect();
    assert_eq!(dofs, vec![0, 1, 5]);

    // the apex load lands on node 1's Y slot
    let lplan = solver.plan_nodal_loads(&model, total).unwrap();
    assert_eq!(lplan.len(), 1);
    assert_eq!(lplan[0].0, 3);
}

#[test]
fn test_different_element_orientations() {
    let orientations = vec![
        ((0.0, 0.0), (1.0, 0.0)),
        ((0.0, 0.0), (0.0, 1.0)),
        ((0.0, 0.0), (1.0, 1.0)),
        ((0.0, 0.0), (0.5, 0.866)),
    ];

    for ((x1, y1), (x2, y2)) in orientations {
        let mut model = Model::new();

        model.add_node(Node::new(0, s(x1), s(y1), s(0.0))).unwrap();
        model.add_node(Node::new(1, s(x2), s(y2), s(0.0))).unwrap();

        model.add_material(Material::steel(0, "Steel".to_string())).unwrap();

        let props = ElementProperties::truss(s(0.01));
        model
            .add_element(Element::new(0, ElementType::Truss2D, vec![0, 1], 0, props))
            .unwrap();

        model.add_constraint(Constraint::fixed_support(0, 0));
        model.add_load(Load::nodal_force(0, 1, Dof::Ux, s(1000.0), "Load".to_string()));

        assert!(model.validate().is_ok());
        let solver = StaticSolver::new();
        assert!(solver.validate_model(&model).is_ok());
        assert_eq!(solver.calculate_active_dofs(&model), 4);
    }
}

#[test]
fn test_model_summary() {
    let mut model = two_node_truss();
    model.add_material(Material::aluminum(1, "Alu".to_string())).unwrap();
    let props = ElementProperties::truss(s(0.01));
    model
        .add_element(Element::new(1, ElementType::Truss2D, vec![0, 1], 1, props))
        .unwrap();

    let summary = ModelSummary::from_model(&model);
    assert_eq!(summary.num_nodes, 2);
    assert_eq!(summary.num_elements, 2);
    assert_eq!(summary.num_materials, 2);
    assert_eq!(summary.num_loads, 0);
    assert_eq!(summary.num_constraints, 0);
    assert_eq!(summary.total_dofs, 12);
    assert_eq!(summary.element_types, vec!["Truss2D".to_string()]);
    assert_eq!(summary.material_types, vec!["LinearElastic".to_string()]);
}

#[test]
fn test_load_plan_skips_inactive_dofs() {
    // a force on a DOF the compact planar scheme does not carry is
    // skipped, never aliased onto another DOF's slot
    let mut model = two_node_truss();
    model.add_load(Load::nodal_force(0, 1, Dof::Uz, s(5.0), "Case".to_string()));
    model.add_load(Load::nodal_force(1, 1, Dof::Rz, s(5.0), "Case".to_string()));
    let solver = StaticSolver::new();
    let total = solver.calculate_active_dofs(&model);
    let plan = solver.plan_nodal_loads(&model, total).unwrap();
    assert_eq!(plan.len(), 0);
}

#[test]
fn test_validation_errors_name_the_entity() {
    let bad_load = Load::nodal_force(7, 1, Dof::Ux, s(f64::NAN), "Case".to_string());
    match bad_load.validate() {
        Err(GazelleError::ValidationError(m)) => {
            assert_eq!(m, "Load 7 has invalid magnitude");
        }
        other => panic!("unexpected result {:?}", other),
    }

    let bad_constraint = Constraint::prescribed_displacement(12, 0, Dof::Ux, s(f64::INFINITY));
    match bad_constraint.validate() {
        Err(GazelleError::ValidationError(m)) => {
            assert_eq!(m, "Constraint 12 has invalid prescribed value");
        }
        other => panic!("unexpected result {:?}", other),
    }

    let mut model = Model::new();
    model.add_node(Node::new(0, s(0.0), s(0.0), s(0.0))).unwrap();
    let mut no_density = Material::steel(3, "Steel".to_string());
    no_density.properties.density = None;
    model.add_material(no_density).unwrap();
    let modal = ModalSolver::new(2);
    match modal.validate_model(&model) {
        Err(GazelleError::ValidationError(m)) => {
            assert_eq!(m, "Material 3 missing density for modal analysis");
        }
        other => panic!("unexpected result {:?}", other),
    }

    let mut nan_model = Model::new();
    match nan_model.add_node(Node::new(41, s(f64::NAN), s(0.0), s(0.0))) {
        Err(GazelleError::ValidationError(m)) => {
            assert_eq!(m, "Node 41 has invalid coordinates");
        }
        other => panic!("unexpected result {:?}", other),
    }
}

#[test]
fn test_subvector_and_solution_expansion() {
    let vector: Vec<Scalar> = vec![s(1.0), s(2.0), s(3.0), s(4.0)];
    let indices: Vec<usize> = vec![3, 1];
    let sub = MatrixOps::extract_subvector(&vector, &indices);
    assert_eq!(sub.iter().map(|&x| f(x)).collect::<Vec<f64>>(), vec![4.0, 2.0]);

    let matrix: Vec<Vec<Scalar>> = vec![
        vec![s(1.0), s(2.0), s(3.0)],
        vec![s(4.0), s(5.0), s(6.0)],
        vec![s(7.0), s(8.0), s(9.0)],
    ];
    let submatrix = MatrixOps::extract_submatrix(&matrix, &vec![2, 0], &vec![1, 2]);
    assert_eq!(f(submatrix[0][0]), 8.0);
    assert_eq!(f(submatrix[0][1]), 9.0);
    assert_eq!(f(submatrix[1][0]), 2.0);
    assert_eq!(f(submatrix[1][1]), 3.0);

    let reduced: Vec<Scalar> = vec![s(0.5), s(0.6)];
    let free: Vec<usize> = vec![1, 3];
    let constrained: Vec<usize> = vec![0, 2];
    let prescribed: Vec<Scalar> = vec![s(0.0), s(0.1)];
    let full = MatrixOps::expand_solution(&reduced, &free, &constrained, &prescribed, 5);
    assert_eq!(
        full.iter().map(|&x| f(x)).collect::<Vec<f64>>(),
        vec![0.0, 0.5, 0.1, 0.6, 0.0]
    );
}
