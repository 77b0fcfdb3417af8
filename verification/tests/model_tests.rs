//! Model construction, validation and data-type behavior.

use gazelle::{
    AnalysisResults, AnalysisType, Constraint, ConstraintType, Dof, Element, ElementForces,
    ElementProperties, ElementType, GazelleError, Load, LoadCase, LoadCombination, LoadType,
    Material, Model, Node, Scalar, Validate,
};

fn s(x: f64) -> Scalar {
    Scalar::new(x.to_bits())
}

fn f(sc: Scalar) -> f64 {
    f64::from_bits(sc.bits)
}

#[test]
fn test_simple_cantilever_truss() {
    let mut model = Model::new();

    model.add_node(Node::new(0, s(0.0), s(0.0), s(0.0))).unwrap();
    model.add_node(Node::new(1, s(1.0), s(0.0), s(0.0))).unwrap();

    let material = Material::linear_elastic(
        0,
        "Test Steel".to_string(),
        s(200e9),
        s(0.3),
        s(7850.0),
    );
    model.add_material(material).unwrap();

    let properties = ElementProperties::truss(s(0.01));
    let element = Element::new(0, ElementType::Truss2D, vec![0, 1], 0, properties);
    model.add_element(element).unwrap();

    model.add_constraint(Constraint::fixed_support(0, 0));
    model.add_load(Load::nodal_force(0, 1, Dof::Ux, s(10000.0), "Test Load".to_string()));

    assert!(model.validate().is_ok());

    assert_eq!(model.nodes.len(), 2);
    assert_eq!(model.elements.len(), 1);
    assert_eq!(model.materials.len(), 1);
    assert_eq!(model.loads.len(), 1);
    assert_eq!(model.constraints.len(), 1);
}

#[test]
fn test_two_element_truss() {
    let mut model = Model::new();

    model.add_node(Node::new(0, s(0.0), s(0.0), s(0.0))).unwrap();
    model.add_node(Node::new(1, s(1.0), s(0.0), s(0.0))).unwrap();
    model.add_node(Node::new(2, s(2.0), s(0.0), s(0.0))).unwrap();

    let steel = Material::steel(0, "Steel".to_string());
    model.add_material(steel).unwrap();

    let properties = ElementProperties::truss(s(0.01));
    model
        .add_element(Element::new(0, ElementType::Truss2D, vec![0, 1], 0, properties.clone()))
        .unwrap();
    model
        .add_element(Element::new(1, ElementType::Truss2D, vec![1, 2], 0, properties))
        .unwrap();

    model.add_constraint(Constraint::pinned_support(0, 0));
    model.add_constraint(Constraint::pinned_support(1, 2));

    model.add_load(Load::nodal_force(0, 1, Dof::Uy, s(-5000.0), "Test Load".to_string()));

    assert!(model.validate().is_ok());
    assert_eq!(model.elements.len(), 2);
}

#[test]
fn test_material_properties() {
    let steel = Material::steel(0, "A36 Steel".to_string());
    assert!(steel.validate().is_ok());
    assert_eq!(f(steel.properties.young_modulus.unwrap()), 200e9);

    let aluminum = Material::aluminum(1, "6061-T6".to_string());
    assert!(aluminum.validate().is_ok());
    assert_eq!(f(aluminum.properties.young_modulus.unwrap()), 70e9);

    // the elastic constants a shear or bulk modulus derivation needs are
    // both present on the preset materials
    assert!(steel.properties.young_modulus.is_some());
    assert!(steel.properties.poisson_ratio.is_some());
    assert_eq!(f(steel.properties.poisson_ratio.unwrap()), 0.3);
    assert_eq!(f(steel.properties.density.unwrap()), 7850.0);
    assert_eq!(f(steel.properties.yield_strength.unwrap()), 250e6);
    assert_eq!(f(steel.properties.ultimate_strength.unwrap()), 400e6);
}

#[test]
fn test_material_validation_rules() {
    let bad_e = Material::linear_elastic(0, "m".to_string(), s(-1.0), s(0.3), s(1.0));
    assert!(matches!(bad_e.validate(), Err(GazelleError::InvalidMaterial { .. })));

    let nan_e = Material::linear_elastic(0, "m".to_string(), s(f64::NAN), s(0.3), s(1.0));
    assert!(nan_e.validate().is_err());

    let bad_nu = Material::linear_elastic(0, "m".to_string(), s(1.0), s(0.5), s(1.0));
    assert!(bad_nu.validate().is_err());

    let bad_nu2 = Material::linear_elastic(0, "m".to_string(), s(1.0), s(-1.5), s(1.0));
    assert!(bad_nu2.validate().is_err());

    let ok = Material::linear_elastic(0, "m".to_string(), s(1.0), s(0.49), s(1.0));
    assert!(ok.validate().is_ok());

    let bad_rho = Material::linear_elastic(0, "m".to_string(), s(1.0), s(0.3), s(0.0));
    assert!(bad_rho.validate().is_err());
}

#[test]
fn test_constraint_types() {
    let fixed = Constraint::fixed_support(0, 0);
    if let ConstraintType::NodalConstraint { constraints, .. } = &fixed.constraint_type {
        assert_eq!(constraints.len(), 6);
    } else {
        panic!("expected a nodal constraint");
    }

    let pinned = Constraint::pinned_support(1, 1);
    if let ConstraintType::NodalConstraint { constraints, .. } = &pinned.constraint_type {
        assert_eq!(constraints.len(), 3);
    } else {
        panic!("expected a nodal constraint");
    }

    let roller_y = Constraint::roller_support_y(2, 2);
    if let ConstraintType::NodalConstraint { constraints, .. } = &roller_y.constraint_type {
        assert_eq!(constraints.len(), 1);
        assert_eq!(constraints[0].0, Dof::Uy);
    } else {
        panic!("expected a nodal constraint");
    }

    let prescribed = Constraint::prescribed_displacement(3, 3, Dof::Ux, s(0.005));
    if let ConstraintType::NodalConstraint { constraints, .. } = &prescribed.constraint_type {
        assert_eq!(constraints.len(), 1);
        assert_eq!(f(constraints[0].1), 0.005);
    } else {
        panic!("expected a nodal constraint");
    }
}

#[test]
fn test_load_combinations() {
    let lrfd = LoadCombination::lrfd_combinations();
    assert!(!lrfd.is_empty());
    assert!(lrfd.iter().any(|lc| lc.name == "1.4D"));
    assert!(lrfd.iter().any(|lc| lc.name == "1.2D+1.6L"));
    assert_eq!(f(lrfd[0].case_factors[0].1), 1.4);
    assert_eq!(f(lrfd[1].case_factors[1].1), 1.6);

    let asd = LoadCombination::asd_combinations();
    assert!(!asd.is_empty());
    assert!(asd.iter().any(|lc| lc.name == "D"));
    assert!(asd.iter().any(|lc| lc.name == "D+L"));

    let mut custom = LoadCombination::new("Custom".to_string(), "Test combination".to_string());
    custom.add_case("Dead".to_string(), s(1.2));
    custom.add_case("Live".to_string(), s(1.6));
    assert_eq!(custom.case_factors.len(), 2);

    // updating an existing case keeps one entry and changes its factor
    custom.add_case("Dead".to_string(), s(1.4));
    assert_eq!(custom.case_factors.len(), 2);
    assert_eq!(f(custom.case_factors[0].1), 1.4);

    custom.remove_case("Dead");
    assert_eq!(custom.case_factors.len(), 1);
    assert_eq!(custom.case_factors[0].0, "Live");
}

#[test]
fn test_load_case_management() {
    let mut case = LoadCase::new("Live".to_string(), "Live loads".to_string());
    assert!(case.is_active);
    case.add_load(3);
    case.add_load(5);
    case.add_load(3);
    assert_eq!(case.loads, vec![3, 5]);
    case.remove_load(3);
    assert_eq!(case.loads, vec![5]);
    case.deactivate();
    assert!(!case.is_active);
    case.activate();
    assert!(case.is_active);
}

#[test]
fn test_dof_enumeration() {
    let all_dofs = Dof::all();
    assert_eq!(all_dofs.len(), 6);

    let translational = Dof::all_translational();
    assert_eq!(translational.len(), 3);
    assert!(translational.contains(&Dof::Ux));
    assert!(translational.contains(&Dof::Uy));
    assert!(translational.contains(&Dof::Uz));

    let rotational = Dof::all_rotational();
    assert_eq!(rotational.len(), 3);
    assert!(rotational.contains(&Dof::Rx));
    assert!(rotational.contains(&Dof::Ry));
    assert!(rotational.contains(&Dof::Rz));
}

#[test]
fn test_error_handling() {
    let empty_model = Model::new();
    assert!(empty_model.validate().is_err(), "Empty model should be invalid");

    let mut bad_model = Model::new();
    bad_model.add_node(Node::new(0, s(0.0), s(0.0), s(0.0))).unwrap();
    bad_model.add_node(Node::new(1, s(1.0), s(0.0), s(0.0))).unwrap();

    let props = ElementProperties::truss(s(0.01));
    let result = bad_model.add_element(Element::new(0, ElementType::Truss2D, vec![0, 1], 999, props));
    assert!(result.is_err(), "Adding element with invalid material should fail");

    // a node with a NaN coordinate is rejected on entry
    let mut nan_model = Model::new();
    assert!(nan_model.add_node(Node::new(0, s(f64::NAN), s(0.0), s(0.0))).is_err());

    // a duplicate node id is rejected
    let mut dup_model = Model::new();
    dup_model.add_node(Node::new(0, s(0.0), s(0.0), s(0.0))).unwrap();
    assert!(dup_model.add_node(Node::new(0, s(1.0), s(0.0), s(0.0))).is_err());

    // an element that references a missing node names it
    let mut ref_model = Model::new();
    ref_model.add_node(Node::new(0, s(0.0), s(0.0), s(0.0))).unwrap();
    ref_model.add_material(Material::steel(0, "Steel".to_string())).unwrap();
    let props = ElementProperties::truss(s(0.01));
    let r = ref_model.add_element(Element::new(0, ElementType::Truss2D, vec![0, 7], 0, props));
    assert!(matches!(r, Err(GazelleError::InvalidNodeId(7))));
}

#[test]
fn test_model_lookup() {
    let mut model = Model::new();
    model.add_node(Node::new(4, s(1.0), s(2.0), s(3.0))).unwrap();
    let node = model.get_node(4).unwrap();
    assert_eq!(node.id, 4);
    assert_eq!(f(node.y), 2.0);
    assert!(matches!(model.get_node(5), Err(GazelleError::InvalidNodeId(5))));
    assert!(matches!(model.get_element(0), Err(GazelleError::InvalidElementId(0))));
}

#[test]
fn test_load_validation() {
    let ok = Load::nodal_force(0, 1, Dof::Ux, s(10.0), "Case".to_string());
    assert!(ok.validate().is_ok());
    assert_eq!(f(ok.factor), 1.0);

    let bad = Load::nodal_force(0, 1, Dof::Ux, s(f64::INFINITY), "Case".to_string());
    assert!(bad.validate().is_err());

    let scaled = Load::nodal_force(0, 1, Dof::Ux, s(10.0), "Case".to_string()).with_factor(s(1.5));
    assert_eq!(f(scaled.factor), 1.5);

    if let LoadType::NodalForce { node_id, dof, magnitude } = scaled.load_type {
        assert_eq!(node_id, 1);
        assert_eq!(dof, Dof::Ux);
        assert_eq!(f(magnitude), 10.0);
    } else {
        panic!("expected a nodal force");
    }
}

#[test]
fn test_element_validation() {
    let props = ElementProperties::truss(s(0.01));
    let too_many = Element::new(0, ElementType::Truss2D, vec![0, 1, 2], 0, props.clone());
    assert!(too_many.validate().is_err());
    let empty = Element::new(0, ElementType::Truss2D, vec![], 0, props.clone());
    assert!(empty.validate().is_err());
    let ok = Element::new(0, ElementType::Truss2D, vec![0, 1], 0, props);
    assert!(ok.validate().is_ok());
    assert_eq!(ok.dofs_per_node(), 2);
    assert_eq!(ok.total_dofs(), 4);
}

#[test]
fn test_result_postprocessing() {
    let displacements = vec![s(0.5), s(-2.0), s(f64::NAN), s(1.0)];
    let reactions = vec![s(-3.0), s(0.25)];
    let results = AnalysisResults::new(displacements, reactions, AnalysisType::Static);

    // NaN entries are ignored the way the IEEE maximum ignores them
    assert_eq!(f(results.max_displacement()), 2.0);
    assert_eq!(f(results.max_reaction()), 3.0);
    assert_eq!(results.displacement_at_dof(1).map(f), Some(-2.0));
    assert!(results.displacement_at_dof(9).is_none());
    assert_eq!(results.reaction_at_dof(0).map(f), Some(-3.0));

    let empty = AnalysisResults::new(vec![], vec![], AnalysisType::Static);
    assert_eq!(f(empty.max_displacement()), 0.0);
}

#[test]
fn test_element_forces_record() {
    let mut results = AnalysisResults::new(vec![], vec![], AnalysisType::Static);
    results.add_element_forces(3, ElementForces::truss(s(10.0)));
    results.add_element_forces(5, ElementForces::truss(s(20.0)));
    // a second record for the same element replaces the first
    results.add_element_forces(3, ElementForces::truss(s(30.0)));
    assert_eq!(results.element_forces.len(), 2);
    assert_eq!(results.element_forces[0].0, 3);
    assert_eq!(results.element_forces[0].1.axial.map(f), Some(30.0));
    assert_eq!(results.element_forces[1].0, 5);
}

#[test]
fn test_combination_tables_in_full() {
    let lrfd = LoadCombination::lrfd_combinations();
    let expected: Vec<(&str, Vec<(&str, f64)>)> = vec![
        ("1.4D", vec![("Dead", 1.4)]),
        ("1.2D+1.6L", vec![("Dead", 1.2), ("Live", 1.6)]),
        ("1.2D+1.0W+1.0L", vec![("Dead", 1.2), ("Live", 1.0), ("Wind", 1.0)]),
        ("1.2D+1.0E+1.0L", vec![("Dead", 1.2), ("Live", 1.0), ("Seismic", 1.0)]),
        ("0.9D+1.0W", vec![("Dead", 0.9), ("Wind", 1.0)]),
        ("0.9D+1.0E", vec![("Dead", 0.9), ("Seismic", 1.0)]),
    ];
    assert_eq!(lrfd.len(), expected.len());
    for (combo, (name, cases)) in lrfd.iter().zip(expected.iter()) {
        assert_eq!(combo.name, *name);
        assert_eq!(combo.case_factors.len(), cases.len());
        for (got, (case, factor)) in combo.case_factors.iter().zip(cases.iter()) {
            assert_eq!(got.0, *case);
            assert_eq!(f(got.1), *factor);
        }
    }

    let asd = LoadCombination::asd_combinations();
    let expected: Vec<(&str, Vec<(&str, f64)>)> = vec![
        ("D", vec![("Dead", 1.0)]),
        ("D+L", vec![("Dead", 1.0), ("Live", 1.0)]),
        ("D+0.75L+0.75W", vec![("Dead", 1.0), ("Live", 0.75), ("Wind", 0.75)]),
        ("D+0.75L+0.75E", vec![("Dead", 1.0), ("Live", 0.75), ("Seismic", 0.75)]),
        ("0.6D+W", vec![("Dead", 0.6), ("Wind", 1.0)]),
        ("0.6D+E", vec![("Dead", 0.6), ("Seismic", 1.0)]),
    ];
    assert_eq!(asd.len(), expected.len());
    for (combo, (name, cases)) in asd.iter().zip(expected.iter()) {
        assert_eq!(combo.name, *name);
        assert_eq!(combo.case_factors.len(), cases.len());
        for (got, (case, factor)) in combo.case_factors.iter().zip(cases.iter()) {
            assert_eq!(got.0, *case);
            assert_eq!(f(got.1), *factor);
        }
    }
}
