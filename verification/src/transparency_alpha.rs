//! The alpha applied to unfocused windows.

use vstd::prelude::*;
use vstd::string::StringSliceAdditionalSpecFns;
use crate::decimal::parse_u8;
use crate::decimal::parse_u8_spec;

verus! {

/// An unfocused-window alpha value, where zero is transparent and 255 is opaque.
#[derive(Clone, Copy, Debug, PartialEq, Eq, Hash, PartialOrd, Ord, Structural)]
pub struct TransparencyAlpha {
    pub value: u8,
}

/// The alpha used until configuration says otherwise.
pub const DEFAULT_TRANSPARENCY_ALPHA: u8 = 200;

/// The text is not a base-10 integer from 0 through 255.
#[derive(Clone, Copy, Debug, PartialEq, Eq, Structural)]
pub struct TransparencyAlphaError;

impl TransparencyAlpha {
    pub fn new(value: u8) -> (alpha: Self)
        ensures
            alpha.value == value,
    {
        TransparencyAlpha { value }
    }

    pub fn default_alpha() -> (alpha: Self)
        ensures
            alpha.value == DEFAULT_TRANSPARENCY_ALPHA,
    {
        TransparencyAlpha { value: DEFAULT_TRANSPARENCY_ALPHA }
    }

    pub fn get(self) -> (r: u8)
        ensures
            r == self.value,
    {
        self.value
    }

    /// Reads a base-10 integer in the byte range.
    pub fn parse(value: &str) -> (r: Result<Self, TransparencyAlphaError>)
        ensures
            match parse_u8_spec(value.spec_bytes()) {
                Some(v) => r == Ok::<Self, TransparencyAlphaError>(TransparencyAlpha { value: v as u8 }),
                None => r == Err::<Self, TransparencyAlphaError>(TransparencyAlphaError),
            },
    {
        match parse_u8(value) {
            Some(v) => Ok(TransparencyAlpha { value: v }),
            None => Err(TransparencyAlphaError),
        }
    }
}

impl From<u8> for TransparencyAlpha {
    fn from(value: u8) -> (alpha: Self) {
        TransparencyAlpha::new(value)
    }
}

impl vstd::std_specs::convert::FromSpecImpl<u8> for TransparencyAlpha {
    open spec fn obeys_from_spec() -> bool {
        true
    }

    open spec fn from_spec(v: u8) -> TransparencyAlpha {
        TransparencyAlpha { value: v }
    }
}

impl From<TransparencyAlpha> for u8 {
    fn from(alpha: TransparencyAlpha) -> (value: u8) {
        alpha.get()
    }
}

impl vstd::std_specs::convert::FromSpecImpl<TransparencyAlpha> for u8 {
    open spec fn obeys_from_spec() -> bool {
        true
    }

    open spec fn from_spec(v: TransparencyAlpha) -> u8 {
        v.value
    }
}

impl core::str::FromStr for TransparencyAlpha {
    type Err = TransparencyAlphaError;

    fn from_str(value: &str) -> (r: Result<Self, Self::Err>)
        ensures
            match parse_u8_spec(value.spec_bytes()) {
                Some(v) => r == Ok::<Self, TransparencyAlphaError>(TransparencyAlpha { value: v as u8 }),
                None => r == Err::<Self, TransparencyAlphaError>(TransparencyAlphaError),
            },
    {
        Self::parse(value)
    }
}

} // verus!
