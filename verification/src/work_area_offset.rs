//! Signed edge offsets applied to a monitor work area before tiling.

use vstd::prelude::*;

verus! {

/// A native rectangle given by its four edges.
#[derive(Clone, Copy, Debug, PartialEq, Eq, Hash, Structural)]
pub struct Rect {
    pub left: i32,
    pub top: i32,
    pub right: i32,
    pub bottom: i32,
}

#[derive(Clone, Copy, Debug, Default, PartialEq, Eq, Hash, Structural)]
pub struct WorkAreaOffset {
    pub left: i32,
    pub top: i32,
    pub right: i32,
    pub bottom: i32,
}

impl WorkAreaOffset {
    pub fn new(left: i32, top: i32, right: i32, bottom: i32) -> (o: Self)
        ensures
            o.left == left,
            o.top == top,
            o.right == right,
            o.bottom == bottom,
    {
        WorkAreaOffset { left, top, right, bottom }
    }

    pub fn left(self) -> (r: i32)
        ensures
            r == self.left,
    {
        self.left
    }

    pub fn top(self) -> (r: i32)
        ensures
            r == self.top,
    {
        self.top
    }

    pub fn right(self) -> (r: i32)
        ensures
            r == self.right,
    {
        self.right
    }

    pub fn bottom(self) -> (r: i32)
        ensures
            r == self.bottom,
    {
        self.bottom
    }
}

impl From<Rect> for WorkAreaOffset {
    fn from(value: Rect) -> (o: Self) {
        WorkAreaOffset::new(value.left, value.top, value.right, value.bottom)
    }
}

impl vstd::std_specs::convert::FromSpecImpl<Rect> for WorkAreaOffset {
    open spec fn obeys_from_spec() -> bool {
        true
    }

    open spec fn from_spec(v: Rect) -> WorkAreaOffset {
        WorkAreaOffset { left: v.left, top: v.top, right: v.right, bottom: v.bottom }
    }
}

impl From<WorkAreaOffset> for Rect {
    fn from(value: WorkAreaOffset) -> (r: Self) {
        Rect { left: value.left, top: value.top, right: value.right, bottom: value.bottom }
    }
}

impl vstd::std_specs::convert::FromSpecImpl<WorkAreaOffset> for Rect {
    open spec fn obeys_from_spec() -> bool {
        true
    }

    open spec fn from_spec(v: WorkAreaOffset) -> Rect {
        Rect { left: v.left, top: v.top, right: v.right, bottom: v.bottom }
    }
}

/// Converting an offset to a native rectangle and back gives the offset again.
pub proof fn lemma_offset_rect_round_trip(offset: WorkAreaOffset)
    ensures
        <WorkAreaOffset as vstd::std_specs::convert::FromSpec<Rect>>::from_spec(
            <Rect as vstd::std_specs::convert::FromSpec<WorkAreaOffset>>::from_spec(offset),
        ) == offset,
{
}

} // verus!
