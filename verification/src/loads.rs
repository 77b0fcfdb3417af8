//! Load definitions, load cases and factored load combinations.
//!
//! Only nodal-force loads are assembled by the solvers; the other
//! variants are modeled and validated but deliberately not applied, and
//! planning treats them as explicit no-ops.

use vstd::prelude::*;
use vstd::pervasive::VecAdditionalExecFns;
use crate::error::{GazelleError, Validate, message_with_id, spec_decimal_digits};
use crate::scalar::{Scalar, spec_is_finite, spec_gt_zero, spec_is_zero};
use crate::model::Dof;

verus! {

/// Bit pattern of the double 1.0 (the default load factor).
pub const BITS_FACTOR_ONE: u64 = 0x3FF0_0000_0000_0000;
/// Bit pattern of the double 1.4.
pub const BITS_1_4: u64 = 0x3FF6_6666_6666_6666;
/// Bit pattern of the double 1.2.
pub const BITS_1_2: u64 = 0x3FF3_3333_3333_3333;
/// Bit pattern of the double 1.6.
pub const BITS_1_6: u64 = 0x3FF9_9999_9999_999A;
/// Bit pattern of the double 0.9.
pub const BITS_0_9: u64 = 0x3FEC_CCCC_CCCC_CCCD;
/// Bit pattern of the double 0.75.
pub const BITS_0_75: u64 = 0x3FE8_0000_0000_0000;
/// Bit pattern of the double 0.6.
pub const BITS_0_6: u64 = 0x3FE3_3333_3333_3333;

/// A three-component vector of carried numeric values (a direction or an
/// acceleration).
#[derive(Debug, Clone, Copy, PartialEq, Eq, Structural)]
pub struct Vector3 {
    pub x: Scalar,
    pub y: Scalar,
    pub z: Scalar,
}

impl Vector3 {
    pub fn new(x: Scalar, y: Scalar, z: Scalar) -> (r: Vector3)
        ensures
            r.x == x && r.y == y && r.z == z,
    {
        Vector3 { x, y, z }
    }

    /// Whether every component is finite.
    pub fn is_finite(&self) -> (r: bool)
        ensures
            r == spec_vector3_finite(*self),
    {
        self.x.is_finite() && self.y.is_finite() && self.z.is_finite()
    }

    /// Whether every component is a zero (so the vector has no direction).
    pub fn is_zero(&self) -> (r: bool)
        ensures
            r == spec_vector3_zero(*self),
    {
        self.x.is_zero() && self.y.is_zero() && self.z.is_zero()
    }
}

/// Every component of the vector is finite.
pub open spec fn spec_vector3_finite(v: Vector3) -> bool {
    spec_is_finite(v.x.bits) && spec_is_finite(v.y.bits) && spec_is_finite(v.z.bits)
}

/// Every component of the vector is a zero.
pub open spec fn spec_vector3_zero(v: Vector3) -> bool {
    spec_is_zero(v.x.bits) && spec_is_zero(v.y.bits) && spec_is_zero(v.z.bits)
}

/// Kinds of loads.
#[derive(Debug, Clone, PartialEq)]
pub enum LoadType {
    /// Point force or moment at a nodal DOF.
    NodalForce { node_id: usize, dof: Dof, magnitude: Scalar },
    /// Distributed load along an element (force per unit length or area).
    Distributed { element_id: usize, direction: Vector3, magnitude: Scalar },
    /// Pressure on an element surface (force per unit area).
    Pressure { element_id: usize, magnitude: Scalar },
    /// Thermal load from a temperature change on an element.
    Thermal { element_id: usize, temperature_change: Scalar },
    /// Gravity body force.
    Gravity { acceleration: Vector3 },
    /// Seismic load: a time history of accelerations.
    Seismic { acceleration_history: Vec<Vector3>, time_step: Scalar },
}

/// A load applied to the structural model, with its named load case and a
/// multiplicative factor.
#[derive(Debug, Clone, PartialEq)]
pub struct Load {
    pub id: usize,
    pub load_type: LoadType,
    pub load_case: String,
    pub factor: Scalar,
}

impl Load {
    /// A load with the default factor of 1.0.
    pub fn new(id: usize, load_type: LoadType, load_case: String) -> (r: Load)
        ensures
            r.id == id,
            r.load_type == load_type,
            r.load_case == load_case,
            r.factor.bits == BITS_FACTOR_ONE,
    {
        Load { id, load_type, load_case, factor: Scalar { bits: BITS_FACTOR_ONE } }
    }

    pub fn with_factor(self, factor: Scalar) -> (r: Load)
        ensures
            r == (Load { factor, ..self }),
    {
        let mut l = self;
        l.factor = factor;
        l
    }

    /// A nodal force load.
    pub fn nodal_force(id: usize, node_id: usize, dof: Dof, magnitude: Scalar, load_case: String) -> (r: Load)
        ensures
            r.id == id,
            r.load_type == (LoadType::NodalForce { node_id, dof, magnitude }),
            r.load_case == load_case,
            r.factor.bits == BITS_FACTOR_ONE,
    {
        Load::new(id, LoadType::NodalForce { node_id, dof, magnitude }, load_case)
    }

    /// A distributed load on an element.
    pub fn distributed(id: usize, element_id: usize, direction: Vector3, magnitude: Scalar, load_case: String) -> (r: Load)
        ensures
            r.id == id,
            r.load_type == (LoadType::Distributed { element_id, direction, magnitude }),
            r.load_case == load_case,
            r.factor.bits == BITS_FACTOR_ONE,
    {
        Load::new(id, LoadType::Distributed { element_id, direction, magnitude }, load_case)
    }

    /// A pressure load on an element surface.
    pub fn pressure(id: usize, element_id: usize, magnitude: Scalar, load_case: String) -> (r: Load)
        ensures
            r.id == id,
            r.load_type == (LoadType::Pressure { element_id, magnitude }),
            r.load_case == load_case,
            r.factor.bits == BITS_FACTOR_ONE,
    {
        Load::new(id, LoadType::Pressure { element_id, magnitude }, load_case)
    }

    /// A thermal load on an element.
    pub fn thermal(id: usize, element_id: usize, temperature_change: Scalar, load_case: String) -> (r: Load)
        ensures
            r.id == id,
            r.load_type == (LoadType::Thermal { element_id, temperature_change }),
            r.load_case == load_case,
            r.factor.bits == BITS_FACTOR_ONE,
    {
        Load::new(id, LoadType::Thermal { element_id, temperature_change }, load_case)
    }

    /// A gravity load.
    pub fn gravity(id: usize, acceleration: Vector3, load_case: String) -> (r: Load)
        ensures
            r.id == id,
            r.load_type == (LoadType::Gravity { acceleration }),
            r.load_case == load_case,
            r.factor.bits == BITS_FACTOR_ONE,
    {
        Load::new(id, LoadType::Gravity { acceleration }, load_case)
    }

    /// A seismic load.
    pub fn seismic(id: usize, acceleration_history: Vec<Vector3>, time_step: Scalar, load_case: String) -> (r: Load)
        ensures
            r.id == id,
            r.load_type == (LoadType::Seismic { acceleration_history, time_step }),
            r.load_case == load_case,
            r.factor.bits == BITS_FACTOR_ONE,
    {
        Load::new(id, LoadType::Seismic { acceleration_history, time_step }, load_case)
    }
}

/// The message a failed load validation carries: it names the load id
/// and the first check its variant fails, in check order.
pub open spec fn spec_load_error_message(l: Load) -> Seq<char> {
    let id = spec_decimal_digits(l.id as nat);
    match l.load_type {
        LoadType::NodalForce { node_id, dof, magnitude } => {
            "Load "@ + id + " has invalid magnitude"@
        },
        LoadType::Distributed { element_id, direction, magnitude } => {
            if !spec_is_finite(magnitude.bits) {
                "Load "@ + id + " has invalid magnitude"@
            } else {
                "Load "@ + id + " has zero direction vector"@
            }
        },
        LoadType::Pressure { element_id, magnitude } => {
            "Load "@ + id + " has invalid pressure magnitude"@
        },
        LoadType::Thermal { element_id, temperature_change } => {
            "Load "@ + id + " has invalid temperature change"@
        },
        LoadType::Gravity { acceleration } => {
            "Load "@ + id + " has invalid gravity acceleration"@
        },
        LoadType::Seismic { acceleration_history, time_step } => {
            if !(spec_is_finite(time_step.bits) && spec_gt_zero(time_step.bits)) {
                "Load "@ + id + " has invalid time step"@
            } else if acceleration_history@.len() == 0 {
                "Load "@ + id + " has empty acceleration history"@
            } else {
                "Load "@ + id + " has an invalid acceleration sample"@
            }
        },
    }
}

impl Validate for Load {
    /// Magnitudes, temperature changes and accelerations must be finite; a
    /// distributed load needs a direction that is not the zero vector; a
    /// seismic history needs a positive finite time step and at least one
    /// finite sample.
    open spec fn valid(&self) -> bool {
        match self.load_type {
            LoadType::NodalForce { node_id, dof, magnitude } => spec_is_finite(magnitude.bits),
            LoadType::Distributed { element_id, direction, magnitude } => {
                &&& spec_is_finite(magnitude.bits)
                &&& !spec_vector3_zero(direction)
            },
            LoadType::Pressure { element_id, magnitude } => spec_is_finite(magnitude.bits),
            LoadType::Thermal { element_id, temperature_change } => spec_is_finite(temperature_change.bits),
            LoadType::Gravity { acceleration } => spec_vector3_finite(acceleration),
            LoadType::Seismic { acceleration_history, time_step } => {
                &&& spec_is_finite(time_step.bits)
                &&& spec_gt_zero(time_step.bits)
                &&& acceleration_history@.len() > 0
                &&& forall|i: int| 0 <= i < acceleration_history@.len()
                    ==> spec_vector3_finite(#[trigger] acceleration_history@[i])
            },
        }
    }

    /// A failed load validation is a validation error whose message
    /// names the load id and the failed check.
    open spec fn invalid_error(&self, e: GazelleError) -> bool {
        e matches GazelleError::ValidationError(m) && m@ == spec_load_error_message(*self)
    }

    fn validate(&self) -> (r: Result<(), GazelleError>)
    {
        match &self.load_type {
            LoadType::NodalForce { magnitude, .. } => {
                if !magnitude.is_finite() {
                    return Err(GazelleError::ValidationError(
                        message_with_id("Load ", self.id, " has invalid magnitude"),
                    ));
                }
                Ok(())
            },
            LoadType::Distributed { magnitude, direction, .. } => {
                if !magnitude.is_finite() {
                    return Err(GazelleError::ValidationError(
                        message_with_id("Load ", self.id, " has invalid magnitude"),
                    ));
                }
                if direction.is_zero() {
                    return Err(GazelleError::ValidationError(
                        message_with_id("Load ", self.id, " has zero direction vector"),
                    ));
                }
                Ok(())
            },
            LoadType::Pressure { magnitude, .. } => {
                if !magnitude.is_finite() {
                    return Err(GazelleError::ValidationError(
                        message_with_id("Load ", self.id, " has invalid pressure magnitude"),
                    ));
                }
                Ok(())
            },
            LoadType::Thermal { temperature_change, .. } => {
                if !temperature_change.is_finite() {
                    return Err(GazelleError::ValidationError(
                        message_with_id("Load ", self.id, " has invalid temperature change"),
                    ));
                }
                Ok(())
            },
            LoadType::Gravity { acceleration } => {
                if !acceleration.is_finite() {
                    return Err(GazelleError::ValidationError(
                        message_with_id("Load ", self.id, " has invalid gravity acceleration"),
                    ));
                }
                Ok(())
            },
            LoadType::Seismic { acceleration_history, time_step } => {
                if !time_step.is_finite() || !time_step.gt_zero() {
                    return Err(GazelleError::ValidationError(
                        message_with_id("Load ", self.id, " has invalid time step"),
                    ));
                }
                if acceleration_history.len() == 0 {
                    return Err(GazelleError::ValidationError(
                        message_with_id("Load ", self.id, " has empty acceleration history"),
                    ));
                }
                let mut i: usize = 0;
                while i < acceleration_history.len()
                    invariant
                        i <= acceleration_history@.len(),
                        forall|k: int| 0 <= k < i ==> spec_vector3_finite(#[trigger] acceleration_history@[k]),
                    decreases acceleration_history@.len() - i,
                {
                    if !acceleration_history[i].is_finite() {
                        return Err(GazelleError::ValidationError(
                            message_with_id("Load ", self.id, " has an invalid acceleration sample"),
                        ));
                    }
                    i += 1;
                }
                Ok(())
            },
        }
    }
}

/// The load ids of `s` with every occurrence of `id` removed, in order.
pub open spec fn spec_loads_without(s: Seq<usize>, id: usize) -> Seq<usize> {
    s.filter(|x: usize| x != id)
}

/// Removing `id` from a sequence extended by `x` keeps `x` exactly when
/// `x` is not `id`.
pub proof fn lemma_loads_without_push(s: Seq<usize>, id: usize, x: usize)
    ensures
        x != id ==> spec_loads_without(s.push(x), id) == spec_loads_without(s, id).push(x),
        x == id ==> spec_loads_without(s.push(x), id) == spec_loads_without(s, id),
{
    assert(s.push(x).drop_last() =~= s);
    assert(s.push(x).last() == x);
    reveal_with_fuel(Seq::<usize>::filter, 2);
}

/// The (case, factor) pairs of `s` whose case name does not read `name`,
/// in order.
pub open spec fn spec_cases_without(s: Seq<(String, Scalar)>, name: Seq<char>) -> Seq<(String, Scalar)> {
    s.filter(|p: (String, Scalar)| p.0@ != name)
}

/// Removing a case name from a sequence extended by `p` keeps `p` exactly
/// when its name differs.
pub proof fn lemma_cases_without_push(s: Seq<(String, Scalar)>, name: Seq<char>, p: (String, Scalar))
    ensures
        p.0@ != name ==> spec_cases_without(s.push(p), name) == spec_cases_without(s, name).push(p),
        p.0@ == name ==> spec_cases_without(s.push(p), name) == spec_cases_without(s, name),
{
    assert(s.push(p).drop_last() =~= s);
    assert(s.push(p).last() == p);
    reveal_with_fuel(Seq::<(String, Scalar)>::filter, 2);
}

/// A named group of loads, identified by their ids, that can be switched
/// on and off together.
#[derive(Debug, Clone, PartialEq)]
pub struct LoadCase {
    pub name: String,
    pub description: String,
    pub loads: Vec<usize>,
    pub is_active: bool,
}

impl LoadCase {
    /// An empty, active load case.
    pub fn new(name: String, description: String) -> (r: LoadCase)
        ensures
            r.name == name,
            r.description == description,
            r.loads@.len() == 0,
            r.is_active,
    {
        LoadCase { name, description, loads: Vec::new(), is_active: true }
    }

    /// Add a load id unless it is already present.
    pub fn add_load(&mut self, load_id: usize)
        ensures
            final(self).name == old(self).name,
            final(self).description == old(self).description,
            final(self).is_active == old(self).is_active,
            old(self).loads@.contains(load_id) ==> final(self).loads@ == old(self).loads@,
            !old(self).loads@.contains(load_id) ==> final(self).loads@ == old(self).loads@.push(load_id),
    {
        let mut found = false;
        let mut i: usize = 0;
        while i < self.loads.len()
            invariant
                i <= self.loads@.len(),
                found <==> exists|k: int| 0 <= k < i && self.loads@[k] == load_id,
            decreases self.loads@.len() - i,
        {
            if self.loads[i] == load_id {
                found = true;
            }
            i += 1;
        }
        if !found {
            self.loads.push(load_id);
        }
    }

    /// Remove every occurrence of a load id, keeping the order of the
    /// rest.
    pub fn remove_load(&mut self, load_id: usize)
        ensures
            final(self).name == old(self).name,
            final(self).description == old(self).description,
            final(self).is_active == old(self).is_active,
            final(self).loads@ == spec_loads_without(old(self).loads@, load_id),
    {
        let ghost all = self.loads@;
        let mut kept: Vec<usize> = Vec::new();
        let mut i: usize = 0;
        while i < self.loads.len()
            invariant
                i <= all.len(),
                self.loads@ == all,
                kept@ == spec_loads_without(all.subrange(0, i as int), load_id),
            decreases all.len() - i,
        {
            let v = self.loads[i];
            proof {
                assert(all.subrange(0, i as int + 1) =~= all.subrange(0, i as int).push(all[i as int]));
                lemma_loads_without_push(all.subrange(0, i as int), load_id, all[i as int]);
            }
            if v != load_id {
                kept.push(v);
            }
            i += 1;
        }
        proof {
            assert(all.subrange(0, all.len() as int) =~= all);
        }
        self.loads = kept;
    }

    /// Switch the case on.
    pub fn activate(&mut self)
        ensures
            *final(self) == (LoadCase { is_active: true, ..*old(self) }),
    {
        self.is_active = true;
    }

    /// Switch the case off.
    pub fn deactivate(&mut self)
        ensures
            *final(self) == (LoadCase { is_active: false, ..*old(self) }),
    {
        self.is_active = false;
    }
}

/// A factored combination of load cases: (case name, factor) pairs.
#[derive(Debug, Clone, PartialEq)]
pub struct LoadCombination {
    pub name: String,
    pub description: String,
    pub case_factors: Vec<(String, Scalar)>,
}

impl LoadCombination {
    pub fn new(name: String, description: String) -> (r: LoadCombination)
        ensures
            r.name == name,
            r.description == description,
            r.case_factors@.len() == 0,
    {
        LoadCombination { name, description, case_factors: Vec::new() }
    }

    /// Set the factor of a named case: update the first entry with that
    /// name, or append a new entry when none exists.
    pub fn add_case(&mut self, case_name: String, factor: Scalar)
        ensures
            final(self).name == old(self).name,
            final(self).description == old(self).description,
            (exists|k: int| 0 <= k < old(self).case_factors@.len()
                && (#[trigger] old(self).case_factors@[k].0@) == case_name@)
                ==> (exists|k: int| {
                    &&& 0 <= k < old(self).case_factors@.len()
                    &&& (#[trigger] old(self).case_factors@[k].0@) == case_name@
                    &&& (forall|j: int| 0 <= j < k ==> old(self).case_factors@[j].0@ != case_name@)
                    &&& final(self).case_factors@ == old(self).case_factors@.update(
                        k,
                        (old(self).case_factors@[k].0, factor),
                    )
                }),
            (forall|k: int| 0 <= k < old(self).case_factors@.len()
                ==> (#[trigger] old(self).case_factors@[k].0@) != case_name@)
                ==> final(self).case_factors@ == old(self).case_factors@.push((case_name, factor)),
    {
        let mut i: usize = 0;
        while i < self.case_factors.len()
            invariant
                i <= self.case_factors@.len(),
                *self == *old(self),
                forall|j: int| 0 <= j < i ==> (#[trigger] self.case_factors@[j].0@) != case_name@,
            decreases self.case_factors@.len() - i,
        {
            if self.case_factors[i].0 == case_name {
                let name_kept = self.case_factors[i].0.clone();
                self.case_factors.set(i, (name_kept, factor));
                proof {
                    assert((i as int) < old(self).case_factors@.len()
                        && old(self).case_factors@[i as int].0@ == case_name@
                        && (forall|j: int| 0 <= j < i as int
                            ==> old(self).case_factors@[j].0@ != case_name@)
                        && self.case_factors@ == old(self).case_factors@.update(
                            i as int,
                            (old(self).case_factors@[i as int].0, factor),
                        ));
                }
                return;
            }
            i += 1;
        }
        self.case_factors.push((case_name, factor));
    }

    /// Remove every entry with the given case name, keeping the order of
    /// the rest.
    pub fn remove_case(&mut self, case_name: &str)
        ensures
            final(self).name == old(self).name,
            final(self).description == old(self).description,
            final(self).case_factors@ == spec_cases_without(old(self).case_factors@, case_name@),
    {
        let target: String = case_name.to_owned();
        let ghost all = self.case_factors@;
        let mut kept: Vec<(String, Scalar)> = Vec::new();
        let mut i: usize = 0;
        while i < self.case_factors.len()
            invariant
                i <= all.len(),
                self.case_factors@ == all,
                target@ == case_name@,
                kept@ == spec_cases_without(all.subrange(0, i as int), case_name@),
            decreases all.len() - i,
        {
            proof {
                assert(all.subrange(0, i as int + 1) =~= all.subrange(0, i as int).push(all[i as int]));
                lemma_cases_without_push(all.subrange(0, i as int), case_name@, all[i as int]);
            }
            if !(self.case_factors[i].0 == target) {
                let kept_name = self.case_factors[i].0.clone();
                let kept_factor = self.case_factors[i].1;
                kept.push((kept_name, kept_factor));
                proof {
                    assert(all[i as int] == (all[i as int].0, all[i as int].1));
                }
            }
            i += 1;
        }
        proof {
            assert(all.subrange(0, all.len() as int) =~= all);
        }
        self.case_factors = kept;
    }

    /// The standard LRFD (strength design) combinations for buildings.
    pub fn lrfd_combinations() -> (r: Vec<LoadCombination>)
        ensures
            r@.len() == 6,
            r@[0].name@ == "1.4D"@,
            r@[0].case_factors@.len() == 1,
            r@[0].case_factors@[0].0@ == "Dead"@,
            r@[0].case_factors@[0].1.bits == BITS_1_4,
            r@[1].name@ == "1.2D+1.6L"@,
            r@[1].case_factors@.len() == 2,
            r@[1].case_factors@[0].0@ == "Dead"@,
            r@[1].case_factors@[0].1.bits == BITS_1_2,
            r@[1].case_factors@[1].0@ == "Live"@,
            r@[1].case_factors@[1].1.bits == BITS_1_6,
            r@[2].name@ == "1.2D+1.0W+1.0L"@,
            r@[2].case_factors@.len() == 3,
            r@[2].case_factors@[0].0@ == "Dead"@,
            r@[2].case_factors@[0].1.bits == BITS_1_2,
            r@[2].case_factors@[1].0@ == "Live"@,
            r@[2].case_factors@[1].1.bits == BITS_FACTOR_ONE,
            r@[2].case_factors@[2].0@ == "Wind"@,
            r@[2].case_factors@[2].1.bits == BITS_FACTOR_ONE,
            r@[3].name@ == "1.2D+1.0E+1.0L"@,
            r@[3].case_factors@.len() == 3,
            r@[3].case_factors@[0].0@ == "Dead"@,
            r@[3].case_factors@[0].1.bits == BITS_1_2,
            r@[3].case_factors@[1].0@ == "Live"@,
            r@[3].case_factors@[1].1.bits == BITS_FACTOR_ONE,
            r@[3].case_factors@[2].0@ == "Seismic"@,
            r@[3].case_factors@[2].1.bits == BITS_FACTOR_ONE,
            r@[4].name@ == "0.9D+1.0W"@,
            r@[4].case_factors@.len() == 2,
            r@[4].case_factors@[0].0@ == "Dead"@,
            r@[4].case_factors@[0].1.bits == BITS_0_9,
            r@[4].case_factors@[1].0@ == "Wind"@,
            r@[4].case_factors@[1].1.bits == BITS_FACTOR_ONE,
            r@[5].name@ == "0.9D+1.0E"@,
            r@[5].case_factors@.len() == 2,
            r@[5].case_factors@[0].0@ == "Dead"@,
            r@[5].case_factors@[0].1.bits == BITS_0_9,
            r@[5].case_factors@[1].0@ == "Seismic"@,
            r@[5].case_factors@[1].1.bits == BITS_FACTOR_ONE,
    {
        let mut out: Vec<LoadCombination> = Vec::new();

        let mut cf: Vec<(String, Scalar)> = Vec::new();
        cf.push(("Dead".to_string(), Scalar { bits: BITS_1_4 }));
        out.push(LoadCombination {
            name: "1.4D".to_string(),
            description: "Dead load only".to_string(),
            case_factors: cf,
        });

        let mut cf: Vec<(String, Scalar)> = Vec::new();
        cf.push(("Dead".to_string(), Scalar { bits: BITS_1_2 }));
        cf.push(("Live".to_string(), Scalar { bits: BITS_1_6 }));
        out.push(LoadCombination {
            name: "1.2D+1.6L".to_string(),
            description: "Dead and live loads".to_string(),
            case_factors: cf,
        });

        let mut cf: Vec<(String, Scalar)> = Vec::new();
        cf.push(("Dead".to_string(), Scalar { bits: BITS_1_2 }));
        cf.push(("Live".to_string(), Scalar { bits: BITS_FACTOR_ONE }));
        cf.push(("Wind".to_string(), Scalar { bits: BITS_FACTOR_ONE }));
        out.push(LoadCombination {
            name: "1.2D+1.0W+1.0L".to_string(),
            description: "Dead, live, and wind loads".to_string(),
            case_factors: cf,
        });

        let mut cf: Vec<(String, Scalar)> = Vec::new();
        cf.push(("Dead".to_string(), Scalar { bits: BITS_1_2 }));
        cf.push(("Live".to_string(), Scalar { bits: BITS_FACTOR_ONE }));
        cf.push(("Seismic".to_string(), Scalar { bits: BITS_FACTOR_ONE }));
        out.push(LoadCombination {
            name: "1.2D+1.0E+1.0L".to_string(),
            description: "Dead, live, and seismic loads".to_string(),
            case_factors: cf,
        });

        let mut cf: Vec<(String, Scalar)> = Vec::new();
        cf.push(("Dead".to_string(), Scalar { bits: BITS_0_9 }));
        cf.push(("Wind".to_string(), Scalar { bits: BITS_FACTOR_ONE }));
        out.push(LoadCombination {
            name: "0.9D+1.0W".to_string(),
            description: "Dead and wind loads (uplift check)".to_string(),
            case_factors: cf,
        });

        let mut cf: Vec<(String, Scalar)> = Vec::new();
        cf.push(("Dead".to_string(), Scalar { bits: BITS_0_9 }));
        cf.push(("Seismic".to_string(), Scalar { bits: BITS_FACTOR_ONE }));
        out.push(LoadCombination {
            name: "0.9D+1.0E".to_string(),
            description: "Dead and seismic loads (uplift check)".to_string(),
            case_factors: cf,
        });

        out
    }

    /// The standard ASD (allowable stress design) combinations for
    /// buildings.
    pub fn asd_combinations() -> (r: Vec<LoadCombination>)
        ensures
            r@.len() == 6,
            r@[0].name@ == "D"@,
            r@[0].case_factors@.len() == 1,
            r@[0].case_factors@[0].0@ == "Dead"@,
            r@[0].case_factors@[0].1.bits == BITS_FACTOR_ONE,
            r@[1].name@ == "D+L"@,
            r@[1].case_factors@.len() == 2,
            r@[1].case_factors@[0].0@ == "Dead"@,
            r@[1].case_factors@[0].1.bits == BITS_FACTOR_ONE,
            r@[1].case_factors@[1].0@ == "Live"@,
            r@[1].case_factors@[1].1.bits == BITS_FACTOR_ONE,
            r@[2].name@ == "D+0.75L+0.75W"@,
            r@[2].case_factors@.len() == 3,
            r@[2].case_factors@[0].0@ == "Dead"@,
            r@[2].case_factors@[0].1.bits == BITS_FACTOR_ONE,
            r@[2].case_factors@[1].0@ == "Live"@,
            r@[2].case_factors@[1].1.bits == BITS_0_75,
            r@[2].case_factors@[2].0@ == "Wind"@,
            r@[2].case_factors@[2].1.bits == BITS_0_75,
            r@[3].name@ == "D+0.75L+0.75E"@,
            r@[3].case_factors@.len() == 3,
            r@[3].case_factors@[0].0@ == "Dead"@,
            r@[3].case_factors@[0].1.bits == BITS_FACTOR_ONE,
            r@[3].case_factors@[1].0@ == "Live"@,
            r@[3].case_factors@[1].1.bits == BITS_0_75,
            r@[3].case_factors@[2].0@ == "Seismic"@,
            r@[3].case_factors@[2].1.bits == BITS_0_75,
            r@[4].name@ == "0.6D+W"@,
            r@[4].case_factors@.len() == 2,
            r@[4].case_factors@[0].0@ == "Dead"@,
            r@[4].case_factors@[0].1.bits == BITS_0_6,
            r@[4].case_factors@[1].0@ == "Wind"@,
            r@[4].case_factors@[1].1.bits == BITS_FACTOR_ONE,
            r@[5].name@ == "0.6D+E"@,
            r@[5].case_factors@.len() == 2,
            r@[5].case_factors@[0].0@ == "Dead"@,
            r@[5].case_factors@[0].1.bits == BITS_0_6,
            r@[5].case_factors@[1].0@ == "Seismic"@,
            r@[5].case_factors@[1].1.bits == BITS_FACTOR_ONE,
    {
        let mut out: Vec<LoadCombination> = Vec::new();

        let mut cf: Vec<(String, Scalar)> = Vec::new();
        cf.push(("Dead".to_string(), Scalar { bits: BITS_FACTOR_ONE }));
        out.push(LoadCombination {
            name: "D".to_string(),
            description: "Dead load only".to_string(),
            case_factors: cf,
        });

        let mut cf: Vec<(String, Scalar)> = Vec::new();
        cf.push(("Dead".to_string(), Scalar { bits: BITS_FACTOR_ONE }));
        cf.push(("Live".to_string(), Scalar { bits: BITS_FACTOR_ONE }));
        out.push(LoadCombination {
            name: "D+L".to_string(),
            description: "Dead and live loads".to_string(),
            case_factors: cf,
        });

        let mut cf: Vec<(String, Scalar)> = Vec::new();
        cf.push(("Dead".to_string(), Scalar { bits: BITS_FACTOR_ONE }));
        cf.push(("Live".to_string(), Scalar { bits: BITS_0_75 }));
        cf.push(("Wind".to_string(), Scalar { bits: BITS_0_75 }));
        out.push(LoadCombination {
            name: "D+0.75L+0.75W".to_string(),
            description: "Dead, live, and wind loads".to_string(),
            case_factors: cf,
        });

        let mut cf: Vec<(String, Scalar)> = Vec::new();
        cf.push(("Dead".to_string(), Scalar { bits: BITS_FACTOR_ONE }));
        cf.push(("Live".to_string(), Scalar { bits: BITS_0_75 }));
        cf.push(("Seismic".to_string(), Scalar { bits: BITS_0_75 }));
        out.push(LoadCombination {
            name: "D+0.75L+0.75E".to_string(),
            description: "Dead, live, and seismic loads".to_string(),
            case_factors: cf,
        });

        let mut cf: Vec<(String, Scalar)> = Vec::new();
        cf.push(("Dead".to_string(), Scalar { bits: BITS_0_6 }));
        cf.push(("Wind".to_string(), Scalar { bits: BITS_FACTOR_ONE }));
        out.push(LoadCombination {
            name: "0.6D+W".to_string(),
            description: "Dead and wind loads (uplift check)".to_string(),
            case_factors: cf,
        });

        let mut cf: Vec<(String, Scalar)> = Vec::new();
        cf.push(("Dead".to_string(), Scalar { bits: BITS_0_6 }));
        cf.push(("Seismic".to_string(), Scalar { bits: BITS_FACTOR_ONE }));
        out.push(LoadCombination {
            name: "0.6D+E".to_string(),
            description: "Dead and seismic loads (uplift check)".to_string(),
            case_factors: cf,
        });

        out
    }
}

} // verus!
