//! Concrete material grades and their code-compliant property tables.
//!
//! The tables carry their values as IEEE 754 bit patterns (all of them
//! exact doubles); the time- and aggregate-dependent derivations that
//! need real arithmetic belong to the numeric layer.

use vstd::prelude::*;
use crate::scalar::{Scalar, spec_le_pos_const, BITS_THREE};
use crate::units::{Age, Quantity, Stress};

verus! {

/// Standard UK concrete strength grades, named by their characteristic
/// cylinder strength in MPa.
#[derive(Debug, Clone, Copy, PartialEq, Eq, Hash, Structural)]
pub enum UkConcreteGrade {
    Fck12,
    Fck16,
    Fck20,
    Fck25,
    Fck30,
    Fck35,
    Fck40,
    Fck45,
    Fck50,
    Fck55,
    Fck60,
    Fck70,
    Fck80,
    Fck90,
}

/// A cylinder strength designation.
#[derive(Debug, Clone, Copy, PartialEq, Eq, Structural)]
pub enum CylinderStrength {
    Uk(UkConcreteGrade),
}

/// Aggregate families, which adjust the elastic modulus.
#[derive(Debug, Clone, Copy, PartialEq, Eq, Structural)]
pub enum Aggregate {
    Basalt,
    Limestone,
    Sandstone,
    Quartzite,
}

/// Cement strength classes, which drive time-dependent properties.
#[derive(Debug, Clone, Copy, PartialEq, Eq, Structural)]
pub enum Cement {
    ClassR,
    ClassN,
    ClassS,
}

/// Concrete weight classes.
#[derive(Debug, Clone, Copy, PartialEq, Eq, Structural)]
pub enum WeightClass {
    NormalWeight,
}

/// Why a concrete specification was rejected.
#[derive(Debug, Clone)]
pub enum ConcreteError {
    /// The age is non-positive, or too young for tabulated properties.
    InvalidAge(String),
}

/// The bits of the characteristic compressive strength (fck, MPa) of a
/// grade.
pub open spec fn spec_fck_bits(g: UkConcreteGrade) -> u64 {
    match g {
        UkConcreteGrade::Fck12 => 0x4028_0000_0000_0000,
        UkConcreteGrade::Fck16 => 0x4030_0000_0000_0000,
        UkConcreteGrade::Fck20 => 0x4034_0000_0000_0000,
        UkConcreteGrade::Fck25 => 0x4039_0000_0000_0000,
        UkConcreteGrade::Fck30 => 0x403E_0000_0000_0000,
        UkConcreteGrade::Fck35 => 0x4041_8000_0000_0000,
        UkConcreteGrade::Fck40 => 0x4044_0000_0000_0000,
        UkConcreteGrade::Fck45 => 0x4046_8000_0000_0000,
        UkConcreteGrade::Fck50 => 0x4049_0000_0000_0000,
        UkConcreteGrade::Fck55 => 0x404B_8000_0000_0000,
        UkConcreteGrade::Fck60 => 0x404E_0000_0000_0000,
        UkConcreteGrade::Fck70 => 0x4051_8000_0000_0000,
        UkConcreteGrade::Fck80 => 0x4054_0000_0000_0000,
        UkConcreteGrade::Fck90 => 0x4056_8000_0000_0000,
    }
}

/// The bits of the mean compressive strength (fcm, MPa): fck plus 8 MPa.
pub open spec fn spec_fcm_bits(g: UkConcreteGrade) -> u64 {
    match g {
        UkConcreteGrade::Fck12 => 0x4034_0000_0000_0000,
        UkConcreteGrade::Fck16 => 0x4038_0000_0000_0000,
        UkConcreteGrade::Fck20 => 0x403C_0000_0000_0000,
        UkConcreteGrade::Fck25 => 0x4040_8000_0000_0000,
        UkConcreteGrade::Fck30 => 0x4043_0000_0000_0000,
        UkConcreteGrade::Fck35 => 0x4045_8000_0000_0000,
        UkConcreteGrade::Fck40 => 0x4048_0000_0000_0000,
        UkConcreteGrade::Fck45 => 0x404A_8000_0000_0000,
        UkConcreteGrade::Fck50 => 0x404D_0000_0000_0000,
        UkConcreteGrade::Fck55 => 0x404F_8000_0000_0000,
        UkConcreteGrade::Fck60 => 0x4051_0000_0000_0000,
        UkConcreteGrade::Fck70 => 0x4053_8000_0000_0000,
        UkConcreteGrade::Fck80 => 0x4056_0000_0000_0000,
        UkConcreteGrade::Fck90 => 0x4058_8000_0000_0000,
    }
}

/// The bits of the mean tensile strength (fctm, MPa).
pub open spec fn spec_fctm_bits(g: UkConcreteGrade) -> u64 {
    match g {
        UkConcreteGrade::Fck12 => 0x3FF9_9999_9999_999A,
        UkConcreteGrade::Fck16 => 0x3FFE_6666_6666_6666,
        UkConcreteGrade::Fck20 => 0x4001_9999_9999_999A,
        UkConcreteGrade::Fck25 => 0x4004_CCCC_CCCC_CCCD,
        UkConcreteGrade::Fck30 => 0x4007_3333_3333_3333,
        UkConcreteGrade::Fck35 => 0x4009_9999_9999_999A,
        UkConcreteGrade::Fck40 => 0x400C_0000_0000_0000,
        UkConcreteGrade::Fck45 => 0x400E_6666_6666_6666,
        UkConcreteGrade::Fck50 => 0x4010_6666_6666_6666,
        UkConcreteGrade::Fck55 => 0x4010_CCCC_CCCC_CCCD,
        UkConcreteGrade::Fck60 => 0x4011_9999_9999_999A,
        UkConcreteGrade::Fck70 => 0x4012_6666_6666_6666,
        UkConcreteGrade::Fck80 => 0x4013_3333_3333_3333,
        UkConcreteGrade::Fck90 => 0x4014_0000_0000_0000,
    }
}

/// Bits of the double 2500.0 (reinforced normal-weight density, kg/m3).
pub const BITS_DENSITY_REINFORCED: u64 = 0x40A3_8800_0000_0000;
/// Bits of the double 2400.0 (plain normal-weight density, kg/m3).
pub const BITS_DENSITY_PLAIN: u64 = 0x40A2_C000_0000_0000;

/// The age (in days, as IEEE bits) compares at or below three days.
pub open spec fn spec_age_le_three(b: u64) -> bool {
    spec_le_pos_const(b, BITS_THREE)
}

/// A concrete specification: grade, aggregate, cement class, weight
/// class, and age.
#[derive(Debug, Clone, Copy, PartialEq, Eq)]
pub struct Concrete {
    pub age: Age,
    pub aggregate: Aggregate,
    pub cement: Cement,
    pub grade: CylinderStrength,
    pub weight_class: WeightClass,
}

impl Concrete {
    /// Build a concrete specification, rejecting non-positive ages and
    /// ages of three days or less (which call for in-situ strength
    /// tests instead of the tables).
    pub fn try_create(
        grade: CylinderStrength,
        aggregate: Aggregate,
        cement: Cement,
        weight_class: WeightClass,
        age_days: Scalar,
    ) -> (r: Result<Concrete, ConcreteError>)
        ensures
            r is Ok <==> !spec_age_le_three(age_days.bits),
            r matches Ok(c) ==> c == (Concrete {
                age: Quantity { value: age_days, unit: core::marker::PhantomData },
                aggregate,
                cement,
                grade,
                weight_class,
            }),
            r matches Err(e) ==> e is InvalidAge,
    {
        let age = match Concrete::validate_age(age_days) {
            Ok(a) => a,
            Err(e) => {
                return Err(e);
            },
        };
        Ok(Concrete { age, aggregate, cement, grade, weight_class })
    }

    /// Decide whether an age is old enough for the tables.
    fn validate_age(age_days: Scalar) -> (r: Result<Age, ConcreteError>)
        ensures
            r is Ok <==> !spec_age_le_three(age_days.bits),
            r matches Ok(a) ==> a.value == age_days,
            r matches Err(e) ==> e is InvalidAge,
    {
        if !age_days.is_nan() && (age_days.is_sign_negative() || age_days.is_zero()) {
            proof {
                let b = age_days.bits;
                if !crate::scalar::spec_is_sign_negative(b) {
                    assert(b == 0) by (bit_vector)
                        requires
                            b & 0x7FFF_FFFF_FFFF_FFFFu64 == 0u64,
                            b & 0x8000_0000_0000_0000u64 != 0x8000_0000_0000_0000u64,
                    ;
                }
            }
            return Err(ConcreteError::InvalidAge("Concrete age <= 0 days".to_string()));
        }
        if age_days.le_pos_const(BITS_THREE) {
            return Err(ConcreteError::InvalidAge(
                "In-situ strength tests required for age <= 3 days".to_string(),
            ));
        }
        Ok(Quantity::new(age_days))
    }

    /// Characteristic compressive strength (fck).
    pub fn fck(&self) -> (r: Stress)
        ensures
            r.value.bits == (match self.grade {
                CylinderStrength::Uk(g) => spec_fck_bits(g),
            }),
    {
        match self.grade {
            CylinderStrength::Uk(grade) => {
                Stress::new(Scalar::new(match grade {
                    UkConcreteGrade::Fck12 => 0x4028_0000_0000_0000,
                    UkConcreteGrade::Fck16 => 0x4030_0000_0000_0000,
                    UkConcreteGrade::Fck20 => 0x4034_0000_0000_0000,
                    UkConcreteGrade::Fck25 => 0x4039_0000_0000_0000,
                    UkConcreteGrade::Fck30 => 0x403E_0000_0000_0000,
                    UkConcreteGrade::Fck35 => 0x4041_8000_0000_0000,
                    UkConcreteGrade::Fck40 => 0x4044_0000_0000_0000,
                    UkConcreteGrade::Fck45 => 0x4046_8000_0000_0000,
                    UkConcreteGrade::Fck50 => 0x4049_0000_0000_0000,
                    UkConcreteGrade::Fck55 => 0x404B_8000_0000_0000,
                    UkConcreteGrade::Fck60 => 0x404E_0000_0000_0000,
                    UkConcreteGrade::Fck70 => 0x4051_8000_0000_0000,
                    UkConcreteGrade::Fck80 => 0x4054_0000_0000_0000,
                    UkConcreteGrade::Fck90 => 0x4056_8000_0000_0000,
                }))
            },
        }
    }

    /// Mean compressive strength (fcm): fck plus 8 MPa.
    pub fn fcm(&self) -> (r: Stress)
        ensures
            r.value.bits == (match self.grade {
                CylinderStrength::Uk(g) => spec_fcm_bits(g),
            }),
    {
        match self.grade {
            CylinderStrength::Uk(grade) => {
                Stress::new(Scalar::new(match grade {
                    UkConcreteGrade::Fck12 => 0x4034_0000_0000_0000,
                    UkConcreteGrade::Fck16 => 0x4038_0000_0000_0000,
                    UkConcreteGrade::Fck20 => 0x403C_0000_0000_0000,
                    UkConcreteGrade::Fck25 => 0x4040_8000_0000_0000,
                    UkConcreteGrade::Fck30 => 0x4043_0000_0000_0000,
                    UkConcreteGrade::Fck35 => 0x4045_8000_0000_0000,
                    UkConcreteGrade::Fck40 => 0x4048_0000_0000_0000,
                    UkConcreteGrade::Fck45 => 0x404A_8000_0000_0000,
                    UkConcreteGrade::Fck50 => 0x404D_0000_0000_0000,
                    UkConcreteGrade::Fck55 => 0x404F_8000_0000_0000,
                    UkConcreteGrade::Fck60 => 0x4051_0000_0000_0000,
                    UkConcreteGrade::Fck70 => 0x4053_8000_0000_0000,
                    UkConcreteGrade::Fck80 => 0x4056_0000_0000_0000,
                    UkConcreteGrade::Fck90 => 0x4058_8000_0000_0000,
                }))
            },
        }
    }

    /// Mean tensile strength (fctm).
    pub fn fctm(&self) -> (r: Stress)
        ensures
            r.value.bits == (match self.grade {
                CylinderStrength::Uk(g) => spec_fctm_bits(g),
            }),
    {
        match self.grade {
            CylinderStrength::Uk(grade) => {
                Stress::new(Scalar::new(match grade {
                    UkConcreteGrade::Fck12 => 0x3FF9_9999_9999_999A,
                    UkConcreteGrade::Fck16 => 0x3FFE_6666_6666_6666,
                    UkConcreteGrade::Fck20 => 0x4001_9999_9999_999A,
                    UkConcreteGrade::Fck25 => 0x4004_CCCC_CCCC_CCCD,
                    UkConcreteGrade::Fck30 => 0x4007_3333_3333_3333,
                    UkConcreteGrade::Fck35 => 0x4009_9999_9999_999A,
                    UkConcreteGrade::Fck40 => 0x400C_0000_0000_0000,
                    UkConcreteGrade::Fck45 => 0x400E_6666_6666_6666,
                    UkConcreteGrade::Fck50 => 0x4010_6666_6666_6666,
                    UkConcreteGrade::Fck55 => 0x4010_CCCC_CCCC_CCCD,
                    UkConcreteGrade::Fck60 => 0x4011_9999_9999_999A,
                    UkConcreteGrade::Fck70 => 0x4012_6666_6666_6666,
                    UkConcreteGrade::Fck80 => 0x4013_3333_3333_3333,
                    UkConcreteGrade::Fck90 => 0x4014_0000_0000_0000,
                }))
            },
        }
    }

    /// Density by weight class: 2500 kg/m3 reinforced, 2400 plain.
    pub fn density(&self, reinforced: bool) -> (r: Scalar)
        ensures
            r.bits == (if reinforced { BITS_DENSITY_REINFORCED } else { BITS_DENSITY_PLAIN }),
    {
        match self.weight_class {
            WeightClass::NormalWeight => {
                if reinforced {
                    Scalar::new(BITS_DENSITY_REINFORCED)
                } else {
                    Scalar::new(BITS_DENSITY_PLAIN)
                }
            },
        }
    }
}

} // verus!
