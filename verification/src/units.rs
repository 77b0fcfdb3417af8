//! Units of measure: marker types tagging a carried numeric value with
//! its unit, so quantities of different units cannot be mixed by
//! accident. Arithmetic on the values themselves belongs to the numeric
//! layer.

use vstd::prelude::*;
use core::marker::PhantomData;
use crate::scalar::Scalar;

verus! {

/// A unit of measure marker.
pub trait Unit: Copy + Clone + Sized {
    /// The unit's printed symbol.
    spec fn spec_symbol() -> Seq<char>;

    /// The unit's printed symbol.
    fn symbol() -> (r: &'static str)
        ensures
            r@ == Self::spec_symbol(),
    ;
}

/// Millimeters.
#[derive(Debug, Copy, Clone, PartialEq, Eq, Structural)]
pub struct Millimeter;

impl Unit for Millimeter {
    open spec fn spec_symbol() -> Seq<char> {
        "mm"@
    }

    fn symbol() -> (r: &'static str) {
        "mm"
    }
}

/// Meters.
#[derive(Debug, Copy, Clone, PartialEq, Eq, Structural)]
pub struct Meter;

impl Unit for Meter {
    open spec fn spec_symbol() -> Seq<char> {
        "m"@
    }

    fn symbol() -> (r: &'static str) {
        "m"
    }
}

/// Kilonewtons.
#[derive(Debug, Copy, Clone, PartialEq, Eq, Structural)]
pub struct Kilonewton;

impl Unit for Kilonewton {
    open spec fn spec_symbol() -> Seq<char> {
        "kN"@
    }

    fn symbol() -> (r: &'static str) {
        "kN"
    }
}

/// Newtons.
#[derive(Debug, Copy, Clone, PartialEq, Eq, Structural)]
pub struct Newton;

impl Unit for Newton {
    open spec fn spec_symbol() -> Seq<char> {
        "N"@
    }

    fn symbol() -> (r: &'static str) {
        "N"
    }
}

/// Megapascals.
#[derive(Debug, Copy, Clone, PartialEq, Eq, Structural)]
pub struct Megapascal;

impl Unit for Megapascal {
    open spec fn spec_symbol() -> Seq<char> {
        "MPa"@
    }

    fn symbol() -> (r: &'static str) {
        "MPa"
    }
}

/// Days.
#[derive(Debug, Copy, Clone, PartialEq, Eq, Structural)]
pub struct Days;

impl Unit for Days {
    open spec fn spec_symbol() -> Seq<char> {
        "days"@
    }

    fn symbol() -> (r: &'static str) {
        "days"
    }
}

/// A numeric value tagged with its unit.
#[derive(Debug, Copy, PartialEq, Eq)]
pub struct Quantity<U: Unit> {
    pub value: Scalar,
    pub unit: PhantomData<U>,
}

impl<U: Unit> Clone for Quantity<U> {
    /// An exact copy.
    fn clone(&self) -> (r: Self)
        ensures
            r == *self,
    {
        *self
    }
}

impl<U: Unit> Quantity<U> {
    pub fn new(value: Scalar) -> (r: Quantity<U>)
        ensures
            r.value == value,
    {
        Quantity { value, unit: PhantomData }
    }

    /// The carried value.
    pub fn value(&self) -> (r: Scalar)
        ensures
            r == self.value,
    {
        self.value
    }

    /// The unit's printed symbol.
    pub fn unit_symbol(&self) -> (r: &'static str)
        ensures
            r@ == U::spec_symbol(),
    {
        U::symbol()
    }
}

/// A length in millimeters.
pub type Length = Quantity<Millimeter>;

/// A force in kilonewtons.
pub type Force = Quantity<Kilonewton>;

/// A moment, carried in the kilonewton tag as an approximation of
/// kilonewton-meters.
pub type Moment = Quantity<Kilonewton>;

/// An age in days.
pub type Age = Quantity<Days>;

/// An area in square millimeters, tagged with what it measures.
#[derive(Debug, Clone, Copy, PartialEq, Eq, Structural)]
pub enum Area {
    /// A member's cross-sectional area.
    CrossSectional(Scalar),
    /// A surface area.
    Surface(Scalar),
}

impl Area {
    pub fn cross_sectional(value: Scalar) -> (r: Area)
        ensures
            r == Area::CrossSectional(value),
    {
        Area::CrossSectional(value)
    }

    pub fn surface(value: Scalar) -> (r: Area)
        ensures
            r == Area::Surface(value),
    {
        Area::Surface(value)
    }

    /// The carried value, whichever kind of area it measures.
    pub fn value(&self) -> (r: Scalar)
        ensures
            r == (match *self {
                Area::CrossSectional(v) => v,
                Area::Surface(v) => v,
            }),
    {
        match self {
            Area::CrossSectional(v) => *v,
            Area::Surface(v) => *v,
        }
    }
}

/// A stress in megapascals.
#[derive(Debug, Clone, Copy, PartialEq, Eq, Structural)]
pub struct Stress {
    pub value: Scalar,
}

impl Stress {
    pub fn new(value: Scalar) -> (r: Stress)
        ensures
            r.value == value,
    {
        Stress { value }
    }

    /// The carried value, in megapascals.
    pub fn value(&self) -> (r: Scalar)
        ensures
            r == self.value,
    {
        self.value
    }

    /// The value in megapascals.
    pub fn mpa(&self) -> (r: Scalar)
        ensures
            r == self.value,
    {
        self.value
    }

    /// The value in newtons per square millimeter, which equals the
    /// megapascal value.
    pub fn n_per_mm2(&self) -> (r: Scalar)
        ensures
            r == self.value,
    {
        self.value
    }
}

} // verus!
