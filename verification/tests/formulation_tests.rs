//! Element formulation stencils, the factory dispatch, and the
//! fail-fast rules.

use gazelle::{
    Beam2D, ElementFactory, ElementProperties, ElementType, Frame3D, GazelleError,
    MassFactor, Material, MaterialProperties, Scalar, StiffnessFactor, Truss2D, Truss3D,
};

fn s(x: f64) -> Scalar {
    Scalar::new(x.to_bits())
}

#[test]
fn test_matrix_debug() {
    // the planar truss stiffness pattern: one axial group whose stencil
    // couples the X slots of the two nodes
    let pattern = Truss2D::local_stiffness_pattern();
    assert_eq!(pattern.len(), 1);
    assert_eq!(pattern[0].factor, StiffnessFactor::AxialPerLength);
    let k = &pattern[0].coef;
    assert_eq!(k.len(), 4);
    assert_eq!(k[0], vec![1, 0, -1, 0]);
    assert_eq!(k[1], vec![0, 0, 0, 0]);
    assert_eq!(k[2], vec![-1, 0, 1, 0]);
    assert_eq!(k[3], vec![0, 0, 0, 0]);

    // the factory hands out the same pattern for the truss family
    let via_factory = ElementFactory::local_stiffness_pattern(ElementType::Truss2D).unwrap();
    assert_eq!(via_factory.len(), 1);
    assert_eq!(via_factory[0].coef, *k);
}

#[test]
fn test_stencils_are_symmetric() {
    let mut patterns = Vec::new();
    patterns.push(Truss2D::local_stiffness_pattern());
    patterns.push(Truss3D::local_stiffness_pattern());
    patterns.push(Beam2D::local_stiffness_pattern());
    patterns.push(Frame3D::local_stiffness_pattern());
    for pattern in patterns {
        for term in pattern {
            let n = term.coef.len();
            for i in 0..n {
                assert_eq!(term.coef[i].len(), n);
                for j in 0..n {
                    assert_eq!(term.coef[i][j], term.coef[j][i]);
                }
            }
        }
    }
}

#[test]
fn test_stencils_annihilate_axial_translation() {
    // the free-free stiffness is singular: the rigid translation along
    // the axis is in every stencil's null space
    for (pattern, half) in [
        (Truss2D::local_stiffness_pattern(), 2usize),
        (Truss3D::local_stiffness_pattern(), 3usize),
        (Beam2D::local_stiffness_pattern(), 3usize),
        (Frame3D::local_stiffness_pattern(), 6usize),
    ] {
        for term in pattern {
            let n = term.coef.len();
            for i in 0..n {
                let dot: i64 = term.coef[i][0] + term.coef[i][half];
                assert_eq!(dot, 0);
            }
        }
    }
}

#[test]
fn test_beam_stiffness_coefficients() {
    let pattern = Beam2D::local_stiffness_pattern();
    assert_eq!(pattern.len(), 4);
    // the classic Euler-Bernoulli closed form: 12, 6, 4 and 2 scaled by
    // the matching powers of the length
    assert_eq!(pattern[1].factor, StiffnessFactor::BendingZCubic);
    assert_eq!(pattern[1].coef[1][1], 12);
    assert_eq!(pattern[1].coef[1][4], -12);
    assert_eq!(pattern[2].factor, StiffnessFactor::BendingZSquare);
    assert_eq!(pattern[2].coef[1][2], 6);
    assert_eq!(pattern[2].coef[2][4], -6);
    assert_eq!(pattern[3].factor, StiffnessFactor::BendingZLinear);
    assert_eq!(pattern[3].coef[2][2], 4);
    assert_eq!(pattern[3].coef[2][5], 2);
}

#[test]
fn test_frame_stiffness_structure() {
    let pattern = Frame3D::local_stiffness_pattern();
    assert_eq!(pattern.len(), 8);
    assert_eq!(pattern[0].factor, StiffnessFactor::AxialPerLength);
    assert_eq!(pattern[1].factor, StiffnessFactor::TorsionPerLength);
    assert_eq!(pattern[1].coef[3][3], 1);
    assert_eq!(pattern[1].coef[3][9], -1);
    assert_eq!(pattern[5].coef[1][1], 12);
    assert_eq!(pattern[6].coef[1][5], -6);
    assert_eq!(pattern[7].coef[5][5], 4);
}

#[test]
fn test_mass_patterns() {
    let truss_mass = Truss2D::mass_pattern();
    assert_eq!(truss_mass.len(), 1);
    assert_eq!(truss_mass[0].factor, MassFactor::TotalMassSixth);
    // the 1/3 - 1/6 distribution at the common denominator of six
    assert_eq!(truss_mass[0].coef[0], vec![2, 0, 1, 0]);

    let beam_mass = Beam2D::mass_pattern();
    assert_eq!(beam_mass.len(), 3);
    assert_eq!(beam_mass[0].factor, MassFactor::ConsistentBeamL0);
    assert_eq!(beam_mass[0].coef[1][1], 156);
    assert_eq!(beam_mass[1].coef[1][2], 22);
    assert_eq!(beam_mass[2].coef[2][2], 4);

    let frame_mass = Frame3D::mass_pattern();
    assert_eq!(frame_mass.len(), 2);
    assert_eq!(frame_mass[0].factor, MassFactor::TotalMassHalf);
    assert_eq!(frame_mass[0].coef[0][0], 1);
    assert_eq!(frame_mass[0].coef[3][3], 0);
    assert_eq!(frame_mass[1].factor, MassFactor::RotationalTwelfth);
    assert_eq!(frame_mass[1].coef[3][3], 1);
    assert_eq!(frame_mass[1].coef[0][0], 0);
}

#[test]
fn test_unsupported_families_fail_fast() {
    for et in [ElementType::Plate, ElementType::Shell, ElementType::Solid] {
        assert!(matches!(
            ElementFactory::local_stiffness_pattern(et),
            Err(GazelleError::UnsupportedElement { .. })
        ));
        assert!(matches!(
            ElementFactory::mass_pattern(et),
            Err(GazelleError::UnsupportedElement { .. })
        ));
    }
}

#[test]
fn test_required_property_checks() {
    let steel = Material::steel(0, "Steel".to_string());
    let no_props = ElementProperties::plate(s(0.1));
    let truss_props = ElementProperties::truss(s(0.01));
    let beam_props = ElementProperties::beam(s(0.01), s(1e-5), s(1e-5), s(1e-5));
    let bare = MaterialProperties::new();

    // a truss without an area fails, naming the property kind
    assert!(matches!(
        ElementFactory::check_stiffness_inputs(ElementType::Truss2D, &no_props, &steel.properties),
        Err(GazelleError::InvalidMaterial { .. })
    ));
    // a truss without a modulus fails
    assert!(matches!(
        ElementFactory::check_stiffness_inputs(ElementType::Truss2D, &truss_props, &bare),
        Err(GazelleError::InvalidMaterial { .. })
    ));
    assert!(ElementFactory::check_stiffness_inputs(
        ElementType::Truss2D,
        &truss_props,
        &steel.properties
    )
    .is_ok());

    // a planar beam additionally needs its bending inertia
    assert!(ElementFactory::check_stiffness_inputs(
        ElementType::Beam2D,
        &truss_props,
        &steel.properties
    )
    .is_err());
    assert!(ElementFactory::check_stiffness_inputs(
        ElementType::Beam2D,
        &beam_props,
        &steel.properties
    )
    .is_ok());

    // a space frame needs both inertias, the torsional constant and the
    // Poisson ratio for its shear modulus
    assert!(ElementFactory::check_stiffness_inputs(
        ElementType::Frame3D,
        &beam_props,
        &steel.properties
    )
    .is_ok());

    // mass needs the density
    let mut no_density = steel.properties.clone();
    no_density.density = None;
    assert!(matches!(
        ElementFactory::check_mass_inputs(ElementType::Truss2D, &truss_props, &no_density),
        Err(GazelleError::InvalidMaterial { .. })
    ));
    assert!(ElementFactory::check_mass_inputs(
        ElementType::Truss2D,
        &truss_props,
        &steel.properties
    )
    .is_ok());

    // an unsupported family fails fast before any property check
    assert!(matches!(
        ElementFactory::check_stiffness_inputs(ElementType::Shell, &beam_props, &steel.properties),
        Err(GazelleError::UnsupportedElement { .. })
    ));
}

#[test]
fn test_zero_length_element_is_rejected() {
    // two coincident nodes give a degenerate line element; the verdict
    // is always a validation error, never a silent division
    assert!(matches!(
        ElementFactory::check_element_length(true),
        Err(GazelleError::ValidationError(_))
    ));
    assert!(ElementFactory::check_element_length(false).is_ok());
}

#[test]
fn test_factory_dispatch_matches_families() {
    // the factory hands each family its own pattern, a planar frame the
    // planar beam pattern, and a space beam the space frame pattern
    let cases: Vec<(ElementType, Vec<gazelle::StiffnessTerm>)> = vec![
        (ElementType::Truss2D, Truss2D::local_stiffness_pattern()),
        (ElementType::Truss3D, Truss3D::local_stiffness_pattern()),
        (ElementType::Beam2D, Beam2D::local_stiffness_pattern()),
        (ElementType::Frame2D, Beam2D::local_stiffness_pattern()),
        (ElementType::Beam3D, Frame3D::local_stiffness_pattern()),
        (ElementType::Frame3D, Frame3D::local_stiffness_pattern()),
    ];
    for (et, expected) in cases {
        let got = ElementFactory::local_stiffness_pattern(et).unwrap();
        assert_eq!(got, expected);
    }

    let mass_cases: Vec<(ElementType, Vec<gazelle::MassTerm>)> = vec![
        (ElementType::Truss2D, Truss2D::mass_pattern()),
        (ElementType::Frame2D, Beam2D::mass_pattern()),
        (ElementType::Beam3D, Frame3D::mass_pattern()),
    ];
    for (et, expected) in mass_cases {
        let got = ElementFactory::mass_pattern(et).unwrap();
        assert_eq!(got, expected);
    }
}

#[test]
fn test_stencils_annihilate_transverse_translations() {
    // every rigid translation, across the axis as well as along it, is
    // in the free-free stiffness null space
    for (pattern, half, translations) in [
        (Truss2D::local_stiffness_pattern(), 2usize, 2usize),
        (Truss3D::local_stiffness_pattern(), 3, 3),
        (Beam2D::local_stiffness_pattern(), 3, 2),
        (Frame3D::local_stiffness_pattern(), 6, 3),
    ] {
        for term in pattern {
            let n = term.coef.len();
            for o in 0..translations {
                for i in 0..n {
                    let dot: i64 = term.coef[i][o] + term.coef[i][half + o];
                    assert_eq!(dot, 0);
                }
            }
        }
    }
}
