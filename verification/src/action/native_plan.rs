//! The decisions the manager makes when it carries out a planned effect: how
//! a signed resize becomes a grow or shrink by a width, and what switching
//! borders on or off asks of each border implementation.

use vstd::prelude::*;
use crate::action::builtin_action::Pixels;
use crate::manager_types::Axis;
use crate::manager_types::BorderImplementation;
use crate::manager_types::Sizing;

verus! {

/// A resize as the window manager performs it: along an axis, growing or
/// shrinking, by a number of pixels.
#[derive(Clone, Copy, Debug, PartialEq, Eq, Structural)]
pub struct ResizeCall {
    pub axis: Axis,
    pub sizing: Sizing,
    pub pixels: i32,
}

/// The magnitude of a delta in the 32-bit pixel domain, where the magnitude
/// of the smallest delta wraps to itself.
pub open spec fn magnitude(amount: i32) -> i32 {
    if amount == i32::MIN {
        i32::MIN
    } else if amount < 0 {
        (-amount) as i32
    } else {
        amount
    }
}

/// A positive delta grows the window, any other shrinks it, by the delta's
/// magnitude.
pub fn resize_call(axis: Axis, delta: Pixels) -> (r: ResizeCall)
    ensures
        r.axis == axis,
        r.sizing == (if delta.amount() > 0 {
            Sizing::Increase
        } else {
            Sizing::Decrease
        }),
        r.pixels == magnitude(delta.amount()),
{
    let amount = delta.get();
    let sizing = if amount > 0 {
        Sizing::Increase
    } else {
        Sizing::Decrease
    };
    let pixels = if amount == i32::MIN {
        i32::MIN
    } else if amount < 0 {
        -amount
    } else {
        amount
    };
    ResizeCall { axis, sizing, pixels }
}

/// What switching borders on or off asks of the border implementation.
#[derive(Clone, Copy, Debug, PartialEq, Eq, Structural)]
pub enum BorderSwitch {
    /// Remove every border window the manager draws.
    DestroyAllBorders,
    /// Remove the accent colours the system draws.
    RemoveAllAccents,
    /// Ask the manager's borders to redraw.
    NotifyBorders,
    /// The system draws its own borders; nothing to do.
    Nothing,
}

pub fn border_switch(enabled: bool, implementation: BorderImplementation) -> (r: BorderSwitch)
    ensures
        r == (match (enabled, implementation) {
            (false, BorderImplementation::Komorebi) => BorderSwitch::DestroyAllBorders,
            (false, BorderImplementation::Windows) => BorderSwitch::RemoveAllAccents,
            (true, BorderImplementation::Komorebi) => BorderSwitch::NotifyBorders,
            (true, BorderImplementation::Windows) => BorderSwitch::Nothing,
        }),
{
    match (enabled, implementation) {
        (false, BorderImplementation::Komorebi) => BorderSwitch::DestroyAllBorders,
        (false, BorderImplementation::Windows) => BorderSwitch::RemoveAllAccents,
        (true, BorderImplementation::Komorebi) => BorderSwitch::NotifyBorders,
        (true, BorderImplementation::Windows) => BorderSwitch::Nothing,
    }
}

} // verus!
