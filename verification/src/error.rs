//! The engine's error taxonomy and the validation trait.

use vstd::prelude::*;

verus! {

/// Error raised by any engine operation. Each variant is one failure kind:
/// bad references, validation failures, missing material properties,
/// unsupported capabilities, singular matrices, iteration budgets
/// exhausted, and serialization trouble surfaced by outer layers.
#[derive(Debug, Clone)]
pub enum GazelleError {
    /// A matrix operation failed for the stated reason.
    MatrixError(String),
    /// No node carries this id.
    InvalidNodeId(usize),
    /// No element carries this id.
    InvalidElementId(usize),
    /// A direct solve found the matrix non-invertible.
    SingularMatrix,
    /// An iterative method exhausted its iteration budget.
    ConvergenceFailure { iterations: usize },
    /// A material property needed for the requested computation is absent
    /// or out of range; the message names the property.
    InvalidMaterial { property: String },
    /// The capability is declared but deliberately unimplemented.
    UnsupportedElement { element_type: String },
    /// A document could not be encoded or decoded (owned by outer layers).
    SerializationError(String),
    /// The input breaks a structural rule; the message states which.
    ValidationError(String),
    /// A named resource does not exist.
    NotFound(String),
}

/// The decimal digit character of a value below ten.
pub open spec fn spec_digit_char(d: nat) -> char {
    if d == 0 {
        '0'
    } else if d == 1 {
        '1'
    } else if d == 2 {
        '2'
    } else if d == 3 {
        '3'
    } else if d == 4 {
        '4'
    } else if d == 5 {
        '5'
    } else if d == 6 {
        '6'
    } else if d == 7 {
        '7'
    } else if d == 8 {
        '8'
    } else {
        '9'
    }
}

/// The decimal digits of `n`, most significant first.
pub open spec fn spec_decimal_digits(n: nat) -> Seq<char>
    decreases n,
{
    if n < 10 {
        seq![spec_digit_char(n)]
    } else {
        spec_decimal_digits(n / 10).push(spec_digit_char(n % 10))
    }
}

/// Relies on the standard library's `Display` formatting for `usize`,
/// which renders the value as its decimal digits: the result is the
/// prefix, the digits of `id`, and the suffix, in that order. This is
/// how an error message names the entity it concerns.
#[verifier::external_body]
pub(crate) fn message_with_id(prefix: &str, id: usize, suffix: &str) -> (r: String)
    ensures
        r@ == prefix@ + spec_decimal_digits(id as nat) + suffix@,
{
    format!("{}{}{}", prefix, id, suffix)
}

/// Validation for structural components: `valid` is the mathematical
/// statement of the component's invariant, and `validate` decides it.
pub trait Validate {
    /// The invariant this component must satisfy.
    spec fn valid(&self) -> bool;

    /// Which error kinds a failed validation of this component may carry.
    spec fn invalid_error(&self, e: GazelleError) -> bool;

    /// Decide the invariant, returning `Ok` exactly on valid values.
    fn validate(&self) -> (r: Result<(), GazelleError>)
        ensures
            r is Ok <==> self.valid(),
            r matches Err(e) ==> self.invalid_error(e),
    ;
}

} // verus!
