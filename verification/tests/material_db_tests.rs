//! Concrete grade tables, units of measure, scalar classification, and
//! the service-layer types.

use gazelle::{
    Aggregate, Area, Cement, Concrete, ConcreteError, CylinderStrength, Force, Length, Scalar,
    Stress, UkConcreteGrade, WeightClass,
};
use gazelle::daemon::DaemonConfig;

fn s(x: f64) -> Scalar {
    Scalar::new(x.to_bits())
}

fn f(sc: Scalar) -> f64 {
    f64::from_bits(sc.bits)
}

#[test]
fn test_concrete_creation() {
    let concrete = Concrete::try_create(
        CylinderStrength::Uk(UkConcreteGrade::Fck30),
        Aggregate::Limestone,
        Cement::ClassN,
        WeightClass::NormalWeight,
        s(28.0),
    )
    .unwrap();

    assert_eq!(f(concrete.fck().value()), 30.0);
    assert_eq!(f(concrete.fcm().value()), 38.0);
    assert_eq!(f(concrete.fctm().value()), 2.9);
    assert_eq!(f(concrete.density(true)), 2500.0);
    assert_eq!(f(concrete.density(false)), 2400.0);
}

#[test]
fn test_age_validation() {
    let result = Concrete::try_create(
        CylinderStrength::Uk(UkConcreteGrade::Fck30),
        Aggregate::Limestone,
        Cement::ClassN,
        WeightClass::NormalWeight,
        s(2.0),
    );
    assert!(result.is_err());

    let result = Concrete::try_create(
        CylinderStrength::Uk(UkConcreteGrade::Fck30),
        Aggregate::Limestone,
        Cement::ClassN,
        WeightClass::NormalWeight,
        s(-1.0),
    );
    assert!(matches!(result, Err(ConcreteError::InvalidAge(_))));

    let result = Concrete::try_create(
        CylinderStrength::Uk(UkConcreteGrade::Fck30),
        Aggregate::Limestone,
        Cement::ClassN,
        WeightClass::NormalWeight,
        s(3.5),
    );
    assert!(result.is_ok());
}

#[test]
fn test_grade_tables() {
    let grades = [
        (UkConcreteGrade::Fck12, 12.0, 20.0, 1.6),
        (UkConcreteGrade::Fck20, 20.0, 28.0, 2.2),
        (UkConcreteGrade::Fck50, 50.0, 58.0, 4.1),
        (UkConcreteGrade::Fck90, 90.0, 98.0, 5.0),
    ];
    for (grade, fck, fcm, fctm) in grades {
        let c = Concrete::try_create(
            CylinderStrength::Uk(grade),
            Aggregate::Quartzite,
            Cement::ClassR,
            WeightClass::NormalWeight,
            s(28.0),
        )
        .unwrap();
        assert_eq!(f(c.fck().value()), fck);
        assert_eq!(f(c.fcm().value()), fcm);
        assert_eq!(f(c.fctm().value()), fctm);
    }
}

#[test]
fn test_area_semantics() {
    let cross_section = Area::cross_sectional(s(2500.0));
    let surface = Area::surface(s(5000.0));

    assert_ne!(cross_section, surface);
    assert_eq!(f(cross_section.value()), 2500.0);
    assert_eq!(f(surface.value()), 5000.0);
}

#[test]
fn test_stress_units() {
    let stress = Stress::new(s(25.0));
    assert_eq!(f(stress.mpa()), 25.0);
    assert_eq!(f(stress.n_per_mm2()), 25.0);
}

#[test]
fn test_unit_symbols() {
    let length = Length::new(s(100.0));
    assert_eq!(f(length.value()), 100.0);
    assert_eq!(length.unit_symbol(), "mm");

    let force = Force::new(s(50.0));
    assert_eq!(force.unit_symbol(), "kN");
}

#[test]
fn test_scalar_classification() {
    assert!(s(f64::NAN).is_nan());
    assert!(!s(1.0).is_nan());
    assert!(s(f64::INFINITY).is_infinite());
    assert!(s(1.0).is_finite());
    assert!(!s(f64::NAN).is_finite());
    assert!(!s(f64::INFINITY).is_finite());
    assert!(s(-1.0).is_sign_negative());
    assert!(s(0.0).is_zero());
    assert!(s(-0.0).is_zero());
    assert!(s(1e-300).gt_zero());
    assert!(!s(0.0).gt_zero());
    assert!(!s(-1.0).gt_zero());
    assert!(!s(f64::NAN).gt_zero());
    assert!(s(f64::INFINITY).gt_zero());
    // the Poisson range is the open interval from -1 to 0.5
    assert!(s(0.3).in_poisson_range());
    assert!(s(-0.9).in_poisson_range());
    assert!(s(0.0).in_poisson_range());
    assert!(!s(0.5).in_poisson_range());
    assert!(!s(-1.0).in_poisson_range());
    assert!(!s(-1.5).in_poisson_range());
    assert!(!s(f64::NAN).in_poisson_range());
}

#[test]
fn test_daemon_config() {
    let config = DaemonConfig::default();
    assert_eq!(config.host, "localhost");
    assert_eq!(config.port, 3000);
    assert_eq!(config.max_sessions, 100);
    assert_eq!(config.session_timeout_minutes, 60);
    assert!(!config.at_capacity(99));
    assert!(config.at_capacity(100));
    assert!(config.at_capacity(101));
}
