//! High-level analysis interface: the model wrapper and its summary.
//!
//! Running an analysis means numeric work, which the numeric layer does
//! by consuming the plans and validators of the solvers; what stands
//! here is the model bookkeeping around it.

use vstd::prelude::*;
use crate::error::{GazelleError, Validate};
use crate::model::{Model, ElementType};
use crate::materials::MaterialType;

verus! {

/// The name of an element family.
pub open spec fn spec_element_type_name(et: ElementType) -> Seq<char> {
    match et {
        ElementType::Truss2D => "Truss2D"@,
        ElementType::Truss3D => "Truss3D"@,
        ElementType::Beam2D => "Beam2D"@,
        ElementType::Beam3D => "Beam3D"@,
        ElementType::Frame2D => "Frame2D"@,
        ElementType::Frame3D => "Frame3D"@,
        ElementType::Plate => "Plate"@,
        ElementType::Shell => "Shell"@,
        ElementType::Solid => "Solid"@,
    }
}

/// The name of a material family.
pub open spec fn spec_material_type_name(mt: MaterialType) -> Seq<char> {
    match mt {
        MaterialType::LinearElastic => "LinearElastic"@,
        MaterialType::Plastic => "Plastic"@,
        MaterialType::Viscoelastic => "Viscoelastic"@,
        MaterialType::Composite => "Composite"@,
        MaterialType::NonlinearElastic => "NonlinearElastic"@,
    }
}

/// Whether some entry of the list reads exactly `s`.
pub open spec fn spec_contains_name(l: Seq<String>, s: Seq<char>) -> bool {
    exists|i: int| 0 <= i < l.len() && (#[trigger] l[i])@ == s
}

/// Whether some element of the model has a family of this name.
pub open spec fn spec_element_name_occurs(m: Model, s: Seq<char>) -> bool {
    exists|i: int| 0 <= i < m.elements@.len()
        && s == spec_element_type_name((#[trigger] m.elements@[i]).element_type)
}

/// Whether some material of the model has a family of this name.
pub open spec fn spec_material_name_occurs(m: Model, s: Seq<char>) -> bool {
    exists|i: int| 0 <= i < m.materials@.len()
        && s == spec_material_type_name((#[trigger] m.materials@[i]).material_type)
}

/// The name of an element family, as a string.
pub fn element_type_name(et: ElementType) -> (r: &'static str)
    ensures
        r@ == spec_element_type_name(et),
{
    match et {
        ElementType::Truss2D => "Truss2D",
        ElementType::Truss3D => "Truss3D",
        ElementType::Beam2D => "Beam2D",
        ElementType::Beam3D => "Beam3D",
        ElementType::Frame2D => "Frame2D",
        ElementType::Frame3D => "Frame3D",
        ElementType::Plate => "Plate",
        ElementType::Shell => "Shell",
        ElementType::Solid => "Solid",
    }
}

/// The name of a material family, as a string.
pub fn material_type_name(mt: MaterialType) -> (r: &'static str)
    ensures
        r@ == spec_material_type_name(mt),
{
    match mt {
        MaterialType::LinearElastic => "LinearElastic",
        MaterialType::Plastic => "Plastic",
        MaterialType::Viscoelastic => "Viscoelastic",
        MaterialType::Composite => "Composite",
        MaterialType::NonlinearElastic => "NonlinearElastic",
    }
}

/// The analysis interface: owns a model snapshot, read-only to the
/// solvers.
pub struct Analysis {
    pub model: Model,
}

impl Analysis {
    /// Wrap a model for analysis.
    pub fn new(model: Model) -> (r: Analysis)
        ensures
            r.model == model,
    {
        Analysis { model }
    }

    /// Validate the model before any analysis.
    pub fn validate(&self) -> (r: Result<(), GazelleError>)
        ensures
            r is Ok <==> self.model.valid(),
    {
        self.model.validate()
    }

    /// The model's summary.
    pub fn model_summary(&self) -> (r: ModelSummary)
        requires
            self.model.wf(),
        ensures
            spec_summary_of(r, self.model),
    {
        ModelSummary::from_model(&self.model)
    }
}

/// Counts and type inventories of a model.
#[derive(Debug, Clone, PartialEq)]
pub struct ModelSummary {
    pub num_nodes: usize,
    pub num_elements: usize,
    pub num_materials: usize,
    pub num_loads: usize,
    pub num_constraints: usize,
    pub total_dofs: usize,
    pub element_types: Vec<String>,
    pub material_types: Vec<String>,
}

/// What a summary states of a model: the exact entity counts, the DOF
/// count of the traditional numbering, and the two type inventories,
/// each holding exactly the names of the families that occur, once each.
pub open spec fn spec_summary_of(s: ModelSummary, m: Model) -> bool {
    &&& s.num_nodes == m.nodes@.len()
    &&& s.num_elements == m.elements@.len()
    &&& s.num_materials == m.materials@.len()
    &&& s.num_loads == m.loads@.len()
    &&& s.num_constraints == m.constraints@.len()
    &&& s.total_dofs == m.nodes@.len() * 6
    &&& (forall|i: int| 0 <= i < m.elements@.len()
        ==> spec_contains_name(s.element_types@, spec_element_type_name((#[trigger] m.elements@[i]).element_type)))
    &&& (forall|j: int| 0 <= j < s.element_types@.len()
        ==> spec_element_name_occurs(m, (#[trigger] s.element_types@[j])@))
    &&& (forall|j1: int, j2: int| 0 <= j1 < j2 < s.element_types@.len()
        ==> (#[trigger] s.element_types@[j1])@ != (#[trigger] s.element_types@[j2])@)
    &&& (forall|i: int| 0 <= i < m.materials@.len()
        ==> spec_contains_name(s.material_types@, spec_material_type_name((#[trigger] m.materials@[i]).material_type)))
    &&& (forall|j: int| 0 <= j < s.material_types@.len()
        ==> spec_material_name_occurs(m, (#[trigger] s.material_types@[j])@))
    &&& (forall|j1: int, j2: int| 0 <= j1 < j2 < s.material_types@.len()
        ==> (#[trigger] s.material_types@[j1])@ != (#[trigger] s.material_types@[j2])@)
}

/// Whether the list already holds this name.
fn contains_name(l: &Vec<String>, name: &str) -> (r: bool)
    ensures
        r == spec_contains_name(l@, name@),
{
    let mut i: usize = 0;
    while i < l.len()
        invariant
            i <= l@.len(),
            forall|k: int| 0 <= k < i ==> (#[trigger] l@[k])@ != name@,
        decreases l@.len() - i,
    {
        let owned: String = name.to_owned();
        if l[i] == owned {
            return true;
        }
        i += 1;
    }
    false
}

impl ModelSummary {
    /// Build the summary of a model.
    pub fn from_model(model: &Model) -> (r: ModelSummary)
        requires
            model.wf(),
        ensures
            spec_summary_of(r, *model),
    {
        let mut element_types: Vec<String> = Vec::new();
        let mut i: usize = 0;
        while i < model.elements.len()
            invariant
                i <= model.elements@.len(),
                forall|k: int| 0 <= k < i
                    ==> spec_contains_name(element_types@, spec_element_type_name((#[trigger] model.elements@[k]).element_type)),
                forall|j: int| 0 <= j < element_types@.len()
                    ==> spec_element_name_occurs(*model, (#[trigger] element_types@[j])@),
                forall|j1: int, j2: int| 0 <= j1 < j2 < element_types@.len()
                    ==> (#[trigger] element_types@[j1])@ != (#[trigger] element_types@[j2])@,
            decreases model.elements@.len() - i,
        {
            let name = element_type_name(model.elements[i].element_type);
            let present = contains_name(&element_types, name);
            let ghost prev = element_types@;
            if !present {
                element_types.push(name.to_owned());
            }
            proof {
                assert(spec_element_name_occurs(*model, name@));
                assert forall|k: int| 0 <= k <= i as int
                    implies spec_contains_name(
                        element_types@,
                        spec_element_type_name((#[trigger] model.elements@[k]).element_type),
                    ) by {
                    if k < i as int {
                        let target = spec_element_type_name(model.elements@[k].element_type);
                        let w = choose|w: int| 0 <= w < prev.len() && (#[trigger] prev[w])@ == target;
                        assert(element_types@[w]@ == target);
                    } else {
                        if present {
                            let w = choose|w: int| 0 <= w < prev.len() && (#[trigger] prev[w])@ == name@;
                            assert(element_types@[w]@ == name@);
                        } else {
                            assert(element_types@[prev.len() as int]@ == name@);
                        }
                    }
                }
            }
            i += 1;
        }

        let mut material_types: Vec<String> = Vec::new();
        let mut i: usize = 0;
        while i < model.materials.len()
            invariant
                i <= model.materials@.len(),
                forall|k: int| 0 <= k < i
                    ==> spec_contains_name(material_types@, spec_material_type_name((#[trigger] model.materials@[k]).material_type)),
                forall|j: int| 0 <= j < material_types@.len()
                    ==> spec_material_name_occurs(*model, (#[trigger] material_types@[j])@),
                forall|j1: int, j2: int| 0 <= j1 < j2 < material_types@.len()
                    ==> (#[trigger] material_types@[j1])@ != (#[trigger] material_types@[j2])@,
            decreases model.materials@.len() - i,
        {
            let name = material_type_name(model.materials[i].material_type);
            let present = contains_name(&material_types, name);
            let ghost prev = material_types@;
            if !present {
                material_types.push(name.to_owned());
            }
            proof {
                assert forall|k: int| 0 <= k <= i as int
                    implies spec_contains_name(
                        material_types@,
                        spec_material_type_name((#[trigger] model.materials@[k]).material_type),
                    ) by {
                    if k < i as int {
                        let target = spec_material_type_name(model.materials@[k].material_type);
                        let w = choose|w: int| 0 <= w < prev.len() && (#[trigger] prev[w])@ == target;
                        assert(material_types@[w]@ == target);
                    } else {
                        if present {
                            let w = choose|w: int| 0 <= w < prev.len() && (#[trigger] prev[w])@ == name@;
                            assert(material_types@[w]@ == name@);
                        } else {
                            assert(material_types@[prev.len() as int]@ == name@);
                        }
                    }
                }
            }
            i += 1;
        }

        let total_dofs = model.total_dofs();
        ModelSummary {
            num_nodes: model.nodes.len(),
            num_elements: model.elements.len(),
            num_materials: model.materials.len(),
            num_loads: model.loads.len(),
            num_constraints: model.constraints.len(),
            total_dofs,
            element_types,
            material_types,
        }
    }
}

} // verus!
