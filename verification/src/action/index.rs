//! Semantic indices of monitors, workspaces, containers and stacked windows.

use vstd::prelude::*;

verus! {

/// The position of a monitor.
#[derive(Clone, Copy, Debug, PartialEq, Eq, Hash, PartialOrd, Ord, Structural)]
pub struct MonitorIndex {
    pub value: usize,
}

impl MonitorIndex {
    pub fn new(value: usize) -> (index: Self)
        ensures
            index.value == value,
    {
        MonitorIndex { value }
    }

    pub fn get(self) -> (r: usize)
        ensures
            r == self.value,
    {
        self.value
    }
}

/// The position of a workspace on a monitor.
#[derive(Clone, Copy, Debug, PartialEq, Eq, Hash, PartialOrd, Ord, Structural)]
pub struct WorkspaceIndex {
    pub value: usize,
}

impl WorkspaceIndex {
    pub fn new(value: usize) -> (index: Self)
        ensures
            index.value == value,
    {
        WorkspaceIndex { value }
    }

    pub fn get(self) -> (r: usize)
        ensures
            r == self.value,
    {
        self.value
    }
}

/// The position of a container on a workspace.
#[derive(Clone, Copy, Debug, PartialEq, Eq, Hash, PartialOrd, Ord, Structural)]
pub struct ContainerIndex {
    pub value: usize,
}

impl ContainerIndex {
    pub fn new(value: usize) -> (index: Self)
        ensures
            index.value == value,
    {
        ContainerIndex { value }
    }

    pub fn get(self) -> (r: usize)
        ensures
            r == self.value,
    {
        self.value
    }
}

/// The position of a window within a stacked container.
#[derive(Clone, Copy, Debug, PartialEq, Eq, Hash, PartialOrd, Ord, Structural)]
pub struct StackIndex {
    pub value: usize,
}

impl StackIndex {
    pub fn new(value: usize) -> (index: Self)
        ensures
            index.value == value,
    {
        StackIndex { value }
    }

    pub fn get(self) -> (r: usize)
        ensures
            r == self.value,
    {
        self.value
    }
}

/// A workspace addressed by its monitor and its position on that monitor.
#[derive(Clone, Copy, Debug, PartialEq, Eq, Hash, PartialOrd, Ord, Structural)]
pub struct WorkspaceLocation {
    pub monitor: MonitorIndex,
    pub workspace: WorkspaceIndex,
}

impl WorkspaceLocation {
    pub fn new(monitor: MonitorIndex, workspace: WorkspaceIndex) -> (location: Self)
        ensures
            location.monitor == monitor,
            location.workspace == workspace,
    {
        WorkspaceLocation { monitor, workspace }
    }

    pub fn monitor(self) -> (r: MonitorIndex)
        ensures
            r == self.monitor,
    {
        self.monitor
    }

    pub fn workspace(self) -> (r: WorkspaceIndex)
        ensures
            r == self.workspace,
    {
        self.workspace
    }
}

} // verus!
