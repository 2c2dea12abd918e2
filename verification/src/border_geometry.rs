//! Signed border width and offset in the renderer's pixel domain.

use vstd::prelude::*;
use vstd::string::StringSliceAdditionalSpecFns;
use crate::decimal::parse_i32;
use crate::decimal::parse_i32_spec;

verus! {

/// Width of a window border, any signed 32-bit value.
#[derive(Clone, Copy, Debug, PartialEq, Eq, Hash, PartialOrd, Ord, Structural)]
pub struct BorderWidth {
    pub value: i32,
}

/// The text is not a base-10 signed 32-bit integer.
#[derive(Clone, Copy, Debug, PartialEq, Eq, Structural)]
pub struct BorderWidthError;

/// Offset of a window border, any signed 32-bit value.
#[derive(Clone, Copy, Debug, PartialEq, Eq, Hash, PartialOrd, Ord, Structural)]
pub struct BorderOffset {
    pub value: i32,
}

/// The text is not a base-10 signed 32-bit integer.
#[derive(Clone, Copy, Debug, PartialEq, Eq, Structural)]
pub struct BorderOffsetError;

pub const DEFAULT_BORDER_WIDTH: i32 = 8;

pub const DEFAULT_BORDER_OFFSET: i32 = -1;

impl BorderWidth {
    pub fn new(value: i32) -> (w: Self)
        ensures
            w.value == value,
    {
        BorderWidth { value }
    }

    pub fn default_width() -> (w: Self)
        ensures
            w.value == DEFAULT_BORDER_WIDTH,
    {
        BorderWidth { value: DEFAULT_BORDER_WIDTH }
    }

    pub fn get(self) -> (r: i32)
        ensures
            r == self.value,
    {
        self.value
    }

    pub fn parse(value: &str) -> (r: Result<Self, BorderWidthError>)
        ensures
            match parse_i32_spec(value.spec_bytes()) {
                Some(v) => r == Ok::<Self, BorderWidthError>(BorderWidth { value: v as i32 }),
                None => r == Err::<Self, BorderWidthError>(BorderWidthError),
            },
    {
        match parse_i32(value) {
            Some(v) => Ok(BorderWidth { value: v }),
            None => Err(BorderWidthError),
        }
    }
}

impl core::str::FromStr for BorderWidth {
    type Err = BorderWidthError;

    fn from_str(value: &str) -> (r: Result<Self, Self::Err>)
        ensures
            match parse_i32_spec(value.spec_bytes()) {
                Some(v) => r == Ok::<Self, BorderWidthError>(BorderWidth { value: v as i32 }),
                None => r == Err::<Self, BorderWidthError>(BorderWidthError),
            },
    {
        Self::parse(value)
    }
}

impl BorderOffset {
    pub fn new(value: i32) -> (o: Self)
        ensures
            o.value == value,
    {
        BorderOffset { value }
    }

    pub fn default_offset() -> (o: Self)
        ensures
            o.value == DEFAULT_BORDER_OFFSET,
    {
        BorderOffset { value: DEFAULT_BORDER_OFFSET }
    }

    pub fn get(self) -> (r: i32)
        ensures
            r == self.value,
    {
        self.value
    }

    pub fn parse(value: &str) -> (r: Result<Self, BorderOffsetError>)
        ensures
            match parse_i32_spec(value.spec_bytes()) {
                Some(v) => r == Ok::<Self, BorderOffsetError>(BorderOffset { value: v as i32 }),
                None => r == Err::<Self, BorderOffsetError>(BorderOffsetError),
            },
    {
        match parse_i32(value) {
            Some(v) => Ok(BorderOffset { value: v }),
            None => Err(BorderOffsetError),
        }
    }
}

impl core::str::FromStr for BorderOffset {
    type Err = BorderOffsetError;

    fn from_str(value: &str) -> (r: Result<Self, Self::Err>)
        ensures
            match parse_i32_spec(value.spec_bytes()) {
                Some(v) => r == Ok::<Self, BorderOffsetError>(BorderOffset { value: v as i32 }),
                None => r == Err::<Self, BorderOffsetError>(BorderOffsetError),
            },
    {
        Self::parse(value)
    }
}

} // verus!
