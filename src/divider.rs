//! The validated rate divider.
use range_check::{Check, OutOfRangeError};
use vstd::prelude::*;

verus! {

/// Smallest legal divider; 0 to 2 are reserved on this chip.
pub const MIN_DIVIDER: u8 = 3;

/// Largest legal divider: the rate field of register A has four bits.
pub const MAX_DIVIDER: u8 = 15;

#[verifier::external_type_specification]
#[verifier::external_body]
#[verifier::reject_recursive_types(T)]
pub struct ExOutOfRangeError<T>(OutOfRangeError<T>);

/// Whether `value` is a legal rate divider.
pub open spec fn is_legal_divider(value: u8) -> bool {
    MIN_DIVIDER <= value <= MAX_DIVIDER
}

/// Relies on range_check's `Check::check_range` on `lower..upper`: it hands
/// the value back exactly when the range contains it, and fails otherwise.
#[verifier::external_body]
fn check_half_open(value: u8, lower: u8, upper: u8) -> (r: Result<u8, OutOfRangeError<u8>>)
    ensures
        r is Ok <==> lower <= value < upper,
        r matches Ok(v) ==> v == value,
{
    value.check_range(lower..upper)
}

/// A rate divider for the periodic interrupt, always within 3..=15.
pub struct DividerValue(u8);

impl DividerValue {
    /// The invariant of the type: the wrapped rate is legal.
    #[verifier::type_invariant]
    pub closed spec fn wf(self) -> bool {
        is_legal_divider(self.0)
    }

    /// The wrapped rate.
    pub closed spec fn rate(self) -> u8 {
        self.0
    }

    /// Validates `divider_value`: succeeds exactly when it lies in 3..=15,
    /// and otherwise fails with an error that carries the value and the range.
    pub fn new(divider_value: u8) -> (r: Result<Self, OutOfRangeError<u8>>)
        ensures
            r is Ok <==> is_legal_divider(divider_value),
            r matches Ok(d) ==> d.rate() == divider_value,
    {
        match check_half_open(divider_value, MIN_DIVIDER, MAX_DIVIDER + 1) {
            Ok(checked) => Ok(DividerValue(checked)),
            Err(e) => Err(e),
        }
    }

    /// The wrapped rate, as written to the low four bits of register A.
    pub fn value(&self) -> (r: u8)
        ensures
            r == self.rate(),
            is_legal_divider(r),
    {
        proof {
            use_type_invariant(self);
        }
        self.0
    }
}

} // verus!
