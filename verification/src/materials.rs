//! Material definitions, their property bags, and their validation rules.

use vstd::prelude::*;
use crate::error::{GazelleError, Validate};
use crate::scalar::{Scalar, spec_gt_zero, spec_in_poisson_range};

verus! {

/// Bit pattern of the double 200e9 (steel Young's modulus, Pa).
pub const BITS_STEEL_E: u64 = 0x4247_4876_E800_0000;
/// Bit pattern of the double 0.3 (steel Poisson ratio).
pub const BITS_STEEL_NU: u64 = 0x3FD3_3333_3333_3333;
/// Bit pattern of the double 7850.0 (steel density, kg/m3).
pub const BITS_STEEL_RHO: u64 = 0x40BE_AA00_0000_0000;
/// Bit pattern of the double 250e6 (steel yield strength, Pa).
pub const BITS_STEEL_FY: u64 = 0x41AD_CD65_0000_0000;
/// Bit pattern of the double 400e6 (steel ultimate strength, Pa).
pub const BITS_STEEL_FU: u64 = 0x41B7_D784_0000_0000;
/// Bit pattern of the double 12e-6 (steel thermal expansion, 1/K).
pub const BITS_STEEL_ALPHA: u64 = 0x3EE9_2A73_7110_E454;
/// Bit pattern of the double 70e9 (aluminum Young's modulus, Pa).
pub const BITS_ALU_E: u64 = 0x4230_4C53_3C00_0000;
/// Bit pattern of the double 0.33 (aluminum Poisson ratio).
pub const BITS_ALU_NU: u64 = 0x3FD5_1EB8_51EB_851F;
/// Bit pattern of the double 2700.0 (aluminum density, kg/m3).
pub const BITS_ALU_RHO: u64 = 0x40A5_1800_0000_0000;
/// Bit pattern of the double 270e6 (aluminum yield strength, Pa).
pub const BITS_ALU_FY: u64 = 0x41B0_17DF_8000_0000;
/// Bit pattern of the double 310e6 (aluminum ultimate strength, Pa).
pub const BITS_ALU_FU: u64 = 0x41B2_7A39_8000_0000;
/// Bit pattern of the double 23e-6 (aluminum thermal expansion, 1/K).
pub const BITS_ALU_ALPHA: u64 = 0x3EF8_1E03_F705_857B;

/// Families of material models. Only the linear elastic isotropic family
/// is functionally supported by the solvers.
#[derive(Debug, Clone, Copy, PartialEq, Eq, Hash, Structural)]
pub enum MaterialType {
    LinearElastic,
    Plastic,
    Viscoelastic,
    Composite,
    NonlinearElastic,
}

/// Kinds of constitutive relation a material matrix can be built for.
#[derive(Debug, Clone, Copy, PartialEq, Eq, Hash, Structural)]
pub enum ConstitutiveType {
    PlaneStress,
    PlaneStrain,
    ThreeDimensional,
    Axisymmetric,
}

/// A material's property bag. Every entry is optional; which subset is
/// mandatory depends on the material family and on the computation asked
/// for.
#[derive(Debug, Clone, PartialEq)]
pub struct MaterialProperties {
    pub young_modulus: Option<Scalar>,
    pub poisson_ratio: Option<Scalar>,
    pub density: Option<Scalar>,
    pub yield_strength: Option<Scalar>,
    pub ultimate_strength: Option<Scalar>,
    pub thermal_expansion: Option<Scalar>,
    pub damping_ratio: Option<Scalar>,
}

impl MaterialProperties {
    /// An empty property bag.
    pub fn new() -> (r: MaterialProperties)
        ensures
            r.young_modulus is None,
            r.poisson_ratio is None,
            r.density is None,
            r.yield_strength is None,
            r.ultimate_strength is None,
            r.thermal_expansion is None,
            r.damping_ratio is None,
    {
        MaterialProperties {
            young_modulus: None,
            poisson_ratio: None,
            density: None,
            yield_strength: None,
            ultimate_strength: None,
            thermal_expansion: None,
            damping_ratio: None,
        }
    }
}

impl Default for MaterialProperties {
    /// Same as [`MaterialProperties::new`].
    fn default() -> (r: MaterialProperties)
        ensures
            r.young_modulus is None,
            r.poisson_ratio is None,
            r.density is None,
            r.yield_strength is None,
            r.ultimate_strength is None,
            r.thermal_expansion is None,
            r.damping_ratio is None,
    {
        MaterialProperties::new()
    }
}

/// A material: integer identity, name, family tag, and property bag.
#[derive(Debug, Clone, PartialEq)]
pub struct Material {
    pub id: usize,
    pub name: String,
    pub material_type: MaterialType,
    pub properties: MaterialProperties,
}

impl Material {
    pub fn new(id: usize, name: String, material_type: MaterialType, properties: MaterialProperties) -> (r: Material)
        ensures
            r.id == id,
            r.name == name,
            r.material_type == material_type,
            r.properties == properties,
    {
        Material { id, name, material_type, properties }
    }

    /// A linear elastic isotropic material with the two mandatory elastic
    /// constants and a density.
    pub fn linear_elastic(id: usize, name: String, young_modulus: Scalar, poisson_ratio: Scalar, density: Scalar) -> (r: Material)
        ensures
            r.id == id,
            r.name == name,
            r.material_type is LinearElastic,
            r.properties.young_modulus == Some(young_modulus),
            r.properties.poisson_ratio == Some(poisson_ratio),
            r.properties.density == Some(density),
            r.properties.yield_strength is None,
            r.properties.ultimate_strength is None,
            r.properties.thermal_expansion is None,
            r.properties.damping_ratio is None,
    {
        Material {
            id,
            name,
            material_type: MaterialType::LinearElastic,
            properties: MaterialProperties {
                young_modulus: Some(young_modulus),
                poisson_ratio: Some(poisson_ratio),
                density: Some(density),
                yield_strength: None,
                ultimate_strength: None,
                thermal_expansion: None,
                damping_ratio: None,
            },
        }
    }

    /// A steel with typical properties (E = 200 GPa, nu = 0.3,
    /// rho = 7850 kg/m3, fy = 250 MPa, fu = 400 MPa, alpha = 12e-6 / K).
    pub fn steel(id: usize, name: String) -> (r: Material)
        ensures
            r.id == id,
            r.name == name,
            r.material_type is LinearElastic,
            r.properties.young_modulus == Some(Scalar { bits: BITS_STEEL_E }),
            r.properties.poisson_ratio == Some(Scalar { bits: BITS_STEEL_NU }),
            r.properties.density == Some(Scalar { bits: BITS_STEEL_RHO }),
            r.properties.yield_strength == Some(Scalar { bits: BITS_STEEL_FY }),
            r.properties.ultimate_strength == Some(Scalar { bits: BITS_STEEL_FU }),
            r.properties.thermal_expansion == Some(Scalar { bits: BITS_STEEL_ALPHA }),
            r.properties.damping_ratio is None,
    {
        Material::linear_elastic(
            id,
            name,
            Scalar { bits: BITS_STEEL_E },
            Scalar { bits: BITS_STEEL_NU },
            Scalar { bits: BITS_STEEL_RHO },
        ).with_yield_strength(Scalar { bits: BITS_STEEL_FY })
            .with_ultimate_strength(Scalar { bits: BITS_STEEL_FU })
            .with_thermal_expansion(Scalar { bits: BITS_STEEL_ALPHA })
    }

    /// An aluminum with typical properties (E = 70 GPa, nu = 0.33,
    /// rho = 2700 kg/m3, fy = 270 MPa, fu = 310 MPa, alpha = 23e-6 / K).
    pub fn aluminum(id: usize, name: String) -> (r: Material)
        ensures
            r.id == id,
            r.name == name,
            r.material_type is LinearElastic,
            r.properties.young_modulus == Some(Scalar { bits: BITS_ALU_E }),
            r.properties.poisson_ratio == Some(Scalar { bits: BITS_ALU_NU }),
            r.properties.density == Some(Scalar { bits: BITS_ALU_RHO }),
            r.properties.yield_strength == Some(Scalar { bits: BITS_ALU_FY }),
            r.properties.ultimate_strength == Some(Scalar { bits: BITS_ALU_FU }),
            r.properties.thermal_expansion == Some(Scalar { bits: BITS_ALU_ALPHA }),
            r.properties.damping_ratio is None,
    {
        Material::linear_elastic(
            id,
            name,
            Scalar { bits: BITS_ALU_E },
            Scalar { bits: BITS_ALU_NU },
            Scalar { bits: BITS_ALU_RHO },
        ).with_yield_strength(Scalar { bits: BITS_ALU_FY })
            .with_ultimate_strength(Scalar { bits: BITS_ALU_FU })
            .with_thermal_expansion(Scalar { bits: BITS_ALU_ALPHA })
    }

    pub fn with_yield_strength(self, yield_strength: Scalar) -> (r: Material)
        ensures
            r == (Material {
                properties: MaterialProperties { yield_strength: Some(yield_strength), ..self.properties },
                ..self
            }),
    {
        let mut m = self;
        m.properties.yield_strength = Some(yield_strength);
        m
    }

    pub fn with_ultimate_strength(self, ultimate_strength: Scalar) -> (r: Material)
        ensures
            r == (Material {
                properties: MaterialProperties { ultimate_strength: Some(ultimate_strength), ..self.properties },
                ..self
            }),
    {
        let mut m = self;
        m.properties.ultimate_strength = Some(ultimate_strength);
        m
    }

    pub fn with_thermal_expansion(self, thermal_expansion: Scalar) -> (r: Material)
        ensures
            r == (Material {
                properties: MaterialProperties { thermal_expansion: Some(thermal_expansion), ..self.properties },
                ..self
            }),
    {
        let mut m = self;
        m.properties.thermal_expansion = Some(thermal_expansion);
        m
    }

    pub fn with_damping_ratio(self, damping_ratio: Scalar) -> (r: Material)
        ensures
            r == (Material {
                properties: MaterialProperties { damping_ratio: Some(damping_ratio), ..self.properties },
                ..self
            }),
    {
        let mut m = self;
        m.properties.damping_ratio = Some(damping_ratio);
        m
    }
}

/// The property named by a failed material validation: the first check
/// that fails, in check order.
pub open spec fn spec_material_error_property(m: Material) -> Seq<char> {
    if m.properties.young_modulus is None {
        "Young's modulus is required for linear elastic materials"@
    } else if m.properties.poisson_ratio is None {
        "Poisson's ratio is required for linear elastic materials"@
    } else if !spec_gt_zero(m.properties.young_modulus->0.bits) {
        "Young's modulus must be positive"@
    } else if !spec_in_poisson_range(m.properties.poisson_ratio->0.bits) {
        "Poisson's ratio must be between -1 and 0.5"@
    } else {
        "Density must be positive"@
    }
}

impl Validate for Material {
    /// A linear elastic material must carry both elastic constants, with
    /// the Young's modulus positive, the Poisson ratio inside (-1, 0.5),
    /// and the density, when given, positive. Other families carry no
    /// checks here.
    open spec fn valid(&self) -> bool {
        self.material_type is LinearElastic ==> {
            &&& self.properties.young_modulus is Some
            &&& self.properties.poisson_ratio is Some
            &&& spec_gt_zero(self.properties.young_modulus->0.bits)
            &&& spec_in_poisson_range(self.properties.poisson_ratio->0.bits)
            &&& (self.properties.density is Some ==> spec_gt_zero(self.properties.density->0.bits))
        }
    }

    /// A failed material validation names the offending property.
    open spec fn invalid_error(&self, e: GazelleError) -> bool {
        e matches GazelleError::InvalidMaterial { property }
            && property@ == spec_material_error_property(*self)
    }

    fn validate(&self) -> (r: Result<(), GazelleError>)
    {
        match self.material_type {
            MaterialType::LinearElastic => {
                let e = match self.properties.young_modulus {
                    Some(e) => e,
                    None => {
                        return Err(GazelleError::InvalidMaterial {
                            property: "Young's modulus is required for linear elastic materials".to_string(),
                        });
                    },
                };
                let nu = match self.properties.poisson_ratio {
                    Some(nu) => nu,
                    None => {
                        return Err(GazelleError::InvalidMaterial {
                            property: "Poisson's ratio is required for linear elastic materials".to_string(),
                        });
                    },
                };
                if !e.gt_zero() {
                    return Err(GazelleError::InvalidMaterial {
                        property: "Young's modulus must be positive".to_string(),
                    });
                }
                if !nu.in_poisson_range() {
                    return Err(GazelleError::InvalidMaterial {
                        property: "Poisson's ratio must be between -1 and 0.5".to_string(),
                    });
                }
                if let Some(density) = self.properties.density {
                    if !density.gt_zero() {
                        return Err(GazelleError::InvalidMaterial {
                            property: "Density must be positive".to_string(),
                        });
                    }
                }
                Ok(())
            },
            _ => Ok(()),
        }
    }
}

} // verus!
