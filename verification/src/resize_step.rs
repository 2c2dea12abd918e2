//! The positive window-resize increment.

use vstd::prelude::*;
use vstd::string::StringSliceAdditionalSpecFns;
use crate::decimal::parse_i32;
use crate::decimal::parse_i32_spec;

verus! {

/// A positive configured window-resize increment in physical pixels.
#[derive(Clone, Copy, Debug, PartialEq, Eq, Hash, PartialOrd, Ord, Structural)]
pub struct ResizeStep {
    value: i32,
}

/// The resize step used until configuration says otherwise.
pub const DEFAULT_RESIZE_STEP_PIXELS: i32 = 50;

#[derive(Clone, Copy, Debug, PartialEq, Eq, Structural)]
pub enum ResizeStepError {
    /// The text is not a base-10 signed 32-bit integer.
    InvalidInteger,
    /// The integer is zero or negative.
    NonPositive(i32),
}

impl ResizeStep {
    /// The step in pixels.
    pub closed spec fn pixels(self) -> int {
        self.value as int
    }

    #[verifier::type_invariant]
    closed spec fn positive(self) -> bool {
        self.value > 0
    }

    /// Accepts exactly the positive integers.
    pub fn new(value: i32) -> (r: Result<Self, ResizeStepError>)
        ensures
            value > 0 ==> (r matches Ok(step) && step.pixels() == value),
            value <= 0 ==> r == Err::<Self, ResizeStepError>(ResizeStepError::NonPositive(value)),
    {
        if value > 0 {
            Ok(ResizeStep { value })
        } else {
            Err(ResizeStepError::NonPositive(value))
        }
    }

    pub fn default_step() -> (step: Self)
        ensures
            step.pixels() == DEFAULT_RESIZE_STEP_PIXELS,
    {
        ResizeStep { value: DEFAULT_RESIZE_STEP_PIXELS }
    }

    pub fn get(self) -> (r: i32)
        ensures
            r == self.pixels(),
            r > 0,
    {
        proof {
            use_type_invariant(self);
        }
        self.value
    }

    pub fn negative(self) -> (r: i32)
        ensures
            r == -self.pixels(),
            r < 0,
    {
        proof {
            use_type_invariant(self);
        }
        -self.value
    }

    /// Reads a base-10 integer and accepts it when it is positive.
    pub fn parse(value: &str) -> (r: Result<Self, ResizeStepError>)
        ensures
            parse_i32_spec(value.spec_bytes()) is None ==> r == Err::<Self, ResizeStepError>(
                ResizeStepError::InvalidInteger,
            ),
            parse_i32_spec(value.spec_bytes()) matches Some(v) ==> (if v > 0 {
                r matches Ok(step) && step.pixels() == v
            } else {
                r == Err::<Self, ResizeStepError>(ResizeStepError::NonPositive(v as i32))
            }),
    {
        match parse_i32(value) {
            Some(v) => Self::new(v),
            None => Err(ResizeStepError::InvalidInteger),
        }
    }
}

impl core::str::FromStr for ResizeStep {
    type Err = ResizeStepError;

    fn from_str(value: &str) -> (r: Result<Self, Self::Err>)
        ensures
            parse_i32_spec(value.spec_bytes()) is None ==> r == Err::<Self, ResizeStepError>(
                ResizeStepError::InvalidInteger,
            ),
            parse_i32_spec(value.spec_bytes()) matches Some(v) ==> (if v > 0 {
                r matches Ok(step) && step.pixels() == v
            } else {
                r == Err::<Self, ResizeStepError>(ResizeStepError::NonPositive(v as i32))
            }),
    {
        Self::parse(value)
    }
}

} // verus!
