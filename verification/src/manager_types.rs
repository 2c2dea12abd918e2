//! Closed vocabularies that the window manager speaks in: directions, axes,
//! layouts and the behaviour switches that actions carry.

use vstd::prelude::*;

verus! {

#[derive(Clone, Copy, Debug, PartialEq, Eq, Hash, Structural)]
pub enum OperationDirection {
    Left,
    Right,
    Up,
    Down,
}

#[derive(Clone, Copy, Debug, PartialEq, Eq, Hash, Structural)]
pub enum Axis {
    Horizontal,
    Vertical,
    HorizontalAndVertical,
}

#[derive(Clone, Copy, Debug, PartialEq, Eq, Hash, Structural)]
pub enum CycleDirection {
    Previous,
    Next,
}

#[derive(Clone, Copy, Debug, PartialEq, Eq, Hash, Structural)]
pub enum Sizing {
    Increase,
    Decrease,
}

#[derive(Clone, Copy, Debug, PartialEq, Eq, Hash, Structural)]
pub enum DefaultLayout {
    BSP,
    Columns,
    Rows,
    VerticalStack,
    HorizontalStack,
    UltrawideVerticalStack,
    Grid,
    RightMainVerticalStack,
    Scrolling,
}

#[derive(Clone, Copy, Debug, PartialEq, Eq, Hash, Structural)]
pub enum HidingBehaviour {
    Hide,
    Minimize,
    Cloak,
}

#[derive(Clone, Copy, Debug, PartialEq, Eq, Hash, Structural)]
pub enum MoveBehaviour {
    Swap,
    Insert,
    NoOp,
}

#[derive(Clone, Copy, Debug, PartialEq, Eq, Hash, Structural)]
pub enum MonocleFocusBehaviour {
    Cycle,
    NoOp,
}

#[derive(Clone, Copy, Debug, PartialEq, Eq, Hash, Structural)]
pub enum OperationBehaviour {
    Op,
    NoOp,
}

#[derive(Clone, Copy, Debug, PartialEq, Eq, Hash, Structural)]
pub enum FocusFollowsMouseImplementation {
    Komorebi,
    Windows,
}

#[derive(Clone, Copy, Debug, PartialEq, Eq, Hash, Structural)]
pub enum WindowKind {
    Single,
    Stack,
    Monocle,
    Unfocused,
    UnfocusedLocked,
    Floating,
}

#[derive(Clone, Copy, Debug, PartialEq, Eq, Hash, Structural)]
pub enum BorderStyle {
    System,
    Rounded,
    Square,
}

#[derive(Clone, Copy, Debug, PartialEq, Eq, Hash, Structural)]
pub enum BorderImplementation {
    Komorebi,
    Windows,
}

#[derive(Clone, Copy, Debug, PartialEq, Eq, Hash, Structural)]
pub enum ApplicationIdentifier {
    Exe,
    Class,
    Title,
    Path,
}

#[derive(Clone, Copy, Debug, PartialEq, Eq, Hash, Structural)]
pub enum StackbarMode {
    Always,
    Never,
    OnStack,
}

#[derive(Clone, Copy, Debug, PartialEq, Eq, Hash, Structural)]
pub enum StackbarLabel {
    Process,
    Title,
}

/// A red, green and blue colour triple.
#[derive(Clone, Copy, Debug, PartialEq, Eq, Hash, Structural)]
pub struct Rgb {
    pub r: u32,
    pub g: u32,
    pub b: u32,
}

/// The set of directions in which the focused window has a neighbour.
#[derive(Clone, Copy, Debug, PartialEq, Eq, Hash, Structural)]
pub struct DirectionSet {
    pub left: bool,
    pub right: bool,
    pub up: bool,
    pub down: bool,
}

pub open spec fn direction_rank(direction: OperationDirection) -> int {
    match direction {
        OperationDirection::Left => 0,
        OperationDirection::Right => 1,
        OperationDirection::Up => 2,
        OperationDirection::Down => 3,
    }
}

impl DirectionSet {
    pub open spec fn has(self, direction: OperationDirection) -> bool {
        match direction {
            OperationDirection::Left => self.left,
            OperationDirection::Right => self.right,
            OperationDirection::Up => self.up,
            OperationDirection::Down => self.down,
        }
    }

    /// No direction is a member.
    pub open spec fn is_empty_set(self) -> bool {
        !self.left && !self.right && !self.up && !self.down
    }

    /// The members of the set, in the order left, right, up, down.
    pub open spec fn members(self) -> Seq<OperationDirection> {
        let s0 = if self.left { seq![OperationDirection::Left] } else { Seq::empty() };
        let s1 = if self.right { s0.push(OperationDirection::Right) } else { s0 };
        let s2 = if self.up { s1.push(OperationDirection::Up) } else { s1 };
        if self.down { s2.push(OperationDirection::Down) } else { s2 }
    }

    pub fn empty() -> (set: Self)
        ensures
            forall|d: OperationDirection| !set.has(d),
    {
        DirectionSet { left: false, right: false, up: false, down: false }
    }

    pub fn single(direction: OperationDirection) -> (set: Self)
        ensures
            forall|d: OperationDirection| set.has(d) <==> d == direction,
    {
        let mut set = Self::empty();
        set.insert(direction);
        set
    }

    pub fn insert(&mut self, direction: OperationDirection)
        ensures
            forall|d: OperationDirection|
                final(self).has(d) <==> (old(self).has(d) || d == direction),
    {
        match direction {
            OperationDirection::Left => self.left = true,
            OperationDirection::Right => self.right = true,
            OperationDirection::Up => self.up = true,
            OperationDirection::Down => self.down = true,
        }
    }

    pub fn contains(&self, direction: OperationDirection) -> (r: bool)
        ensures
            r == self.has(direction),
    {
        match direction {
            OperationDirection::Left => self.left,
            OperationDirection::Right => self.right,
            OperationDirection::Up => self.up,
            OperationDirection::Down => self.down,
        }
    }

    pub fn is_empty(&self) -> (r: bool)
        ensures
            r == self.is_empty_set(),
            r == (forall|d: OperationDirection| !self.has(d)),
    {
        let r = !self.left && !self.right && !self.up && !self.down;
        proof {
            if !r {
                if self.left {
                    assert(self.has(OperationDirection::Left));
                } else if self.right {
                    assert(self.has(OperationDirection::Right));
                } else if self.up {
                    assert(self.has(OperationDirection::Up));
                } else {
                    assert(self.has(OperationDirection::Down));
                }
            }
        }
        r
    }

    /// The members in the order left, right, up, down.
    pub fn to_vec(&self) -> (v: Vec<OperationDirection>)
        ensures
            v@ == self.members(),
    {
        let mut v: Vec<OperationDirection> = Vec::new();
        if self.left {
            v.push(OperationDirection::Left);
        }
        if self.right {
            v.push(OperationDirection::Right);
        }
        if self.up {
            v.push(OperationDirection::Up);
        }
        if self.down {
            v.push(OperationDirection::Down);
        }
        v
    }
}

} // verus!
