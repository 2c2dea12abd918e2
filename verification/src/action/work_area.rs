//! Work-area offsets: the configured offsets of the whole desktop, of each
//! monitor and of each workspace, and the changes that set them, with the
//! check that their target exists, the change itself, its result and the
//! native effect it plans.

use vstd::prelude::*;
use crate::action::index::MonitorIndex;
use crate::action::index::WorkspaceIndex;
use crate::action::index::WorkspaceLocation;
use crate::action::offer::Unavailability;
use crate::work_area_offset::WorkAreaOffset;

verus! {

/// The work-area settings of one workspace.
#[derive(Clone, Copy, Debug, PartialEq, Eq, Structural)]
pub struct WorkspaceWorkArea {
    pub offset: Option<WorkAreaOffset>,
    /// Whether the offset applies only while the workspace holds one window.
    pub window_based: bool,
}

/// The work-area settings of one monitor and of its workspaces, by position.
#[derive(Clone, Debug)]
pub struct MonitorWorkArea {
    pub offset: Option<WorkAreaOffset>,
    pub workspaces: Vec<WorkspaceWorkArea>,
}

/// The work-area settings of the desktop, and of its monitors by position.
#[derive(Clone, Debug)]
pub struct WorkAreaConfiguration {
    pub global: Option<WorkAreaOffset>,
    pub monitors: Vec<MonitorWorkArea>,
}

/// A change of a work-area setting.
#[derive(Clone, Copy, Debug, PartialEq, Eq, Structural)]
pub enum WorkAreaChange {
    SetGlobalWorkAreaOffset { offset: WorkAreaOffset },
    SetMonitorWorkAreaOffset { monitor: MonitorIndex, offset: WorkAreaOffset },
    SetWorkspaceWorkAreaOffset {
        monitor: MonitorIndex,
        workspace: WorkspaceIndex,
        offset: WorkAreaOffset,
    },
    ToggleWindowBasedWorkAreaOffset,
}

/// What a work-area change did.
#[derive(Clone, Copy, Debug, PartialEq, Eq, Structural)]
pub enum WorkAreaResult {
    GlobalWorkAreaOffsetSet,
    MonitorWorkAreaOffsetSet,
    WorkspaceWorkAreaOffsetSet,
    WindowBasedWorkAreaOffsetToggled { enabled: bool },
}

/// The native effect that carries a work-area change out.
#[derive(Clone, Copy, Debug, PartialEq, Eq, Structural)]
pub enum WorkAreaEffect {
    SetGlobalWorkAreaOffset { offset: WorkAreaOffset },
    SetMonitorWorkAreaOffset { monitor: MonitorIndex, offset: WorkAreaOffset },
    SetWorkspaceWorkAreaOffset { location: WorkspaceLocation, offset: WorkAreaOffset },
    SetWindowBasedWorkAreaOffset { location: WorkspaceLocation, enabled: bool },
}

/// The work area of a configuration as values: the global offset, and for
/// each monitor its offset and the settings of its workspaces.
pub type WorkAreaView = (Option<WorkAreaOffset>, Seq<(Option<WorkAreaOffset>, Seq<WorkspaceWorkArea>)>);

impl View for WorkAreaConfiguration {
    type V = WorkAreaView;

    open spec fn view(&self) -> WorkAreaView {
        (self.global, self.monitors@.map_values(|m: MonitorWorkArea| (m.offset, m.workspaces@)))
    }
}

/// Whether a monitor is configured.
pub open spec fn has_monitor(view: WorkAreaView, monitor: MonitorIndex) -> bool {
    monitor.value < view.1.len()
}

/// The settings of a workspace, where it is configured.
pub open spec fn workspace_of(view: WorkAreaView, monitor: MonitorIndex, workspace: WorkspaceIndex) -> Option<
    WorkspaceWorkArea,
> {
    if has_monitor(view, monitor) && workspace.value < view.1[monitor.value as int].1.len() {
        Some(view.1[monitor.value as int].1[workspace.value as int])
    } else {
        None
    }
}

/// The focused workspace and whether its offset is window based, where the
/// focused workspace is configured.
pub open spec fn focused_spec(view: WorkAreaView, focused: Option<WorkspaceLocation>) -> Option<
    (WorkspaceLocation, bool),
> {
    match focused {
        Some(location) => match workspace_of(view, location.monitor, location.workspace) {
            Some(settings) => Some((location, settings.window_based)),
            None => None,
        },
        None => None,
    }
}

/// The focused workspace, where it is configured.
pub open spec fn focused_location(view: WorkAreaView, focused: Option<WorkspaceLocation>) -> WorkspaceLocation {
    match focused_spec(view, focused) {
        Some(pair) => pair.0,
        None => focused->0,
    }
}

/// Whether the focused workspace's offset is window based.
pub open spec fn focused_window_based(view: WorkAreaView, focused: Option<WorkspaceLocation>) -> bool {
    match focused_spec(view, focused) {
        Some(pair) => pair.1,
        None => false,
    }
}

/// Why a work-area change cannot run: its monitor or workspace is not
/// configured, or, for the window-based toggle, no configured workspace has
/// the focus.
pub open spec fn work_area_problem(
    view: WorkAreaView,
    focused: Option<WorkspaceLocation>,
    change: WorkAreaChange,
) -> Option<Unavailability> {
    match change {
        WorkAreaChange::SetGlobalWorkAreaOffset { .. } => None,
        WorkAreaChange::SetMonitorWorkAreaOffset { monitor, .. } => if has_monitor(view, monitor) {
            None
        } else {
            Some(Unavailability::UnknownMonitor)
        },
        WorkAreaChange::SetWorkspaceWorkAreaOffset { monitor, workspace, .. } => if workspace_of(
            view,
            monitor,
            workspace,
        ) is Some {
            None
        } else if !has_monitor(view, monitor) {
            Some(Unavailability::UnknownMonitor)
        } else {
            Some(Unavailability::UnknownWorkspace)
        },
        WorkAreaChange::ToggleWindowBasedWorkAreaOffset => if focused_spec(view, focused) is Some {
            None
        } else {
            Some(Unavailability::NoFocusedWorkspace)
        },
    }
}

/// The work area after a change whose target exists.
pub open spec fn changed(
    view: WorkAreaView,
    focused: Option<WorkspaceLocation>,
    change: WorkAreaChange,
) -> WorkAreaView {
    match change {
        WorkAreaChange::SetGlobalWorkAreaOffset { offset } => (Some(offset), view.1),
        WorkAreaChange::SetMonitorWorkAreaOffset { monitor, offset } => (
            view.0,
            view.1.update(monitor.value as int, (Some(offset), view.1[monitor.value as int].1)),
        ),
        WorkAreaChange::SetWorkspaceWorkAreaOffset { monitor, workspace, offset } => {
            let m = view.1[monitor.value as int];
            let w = m.1[workspace.value as int];
            (
                view.0,
                view.1.update(
                    monitor.value as int,
                    (m.0, m.1.update(workspace.value as int, WorkspaceWorkArea { offset: Some(offset), ..w })),
                ),
            )
        },
        WorkAreaChange::ToggleWindowBasedWorkAreaOffset => {
            let location = focused->0;
            let m = view.1[location.monitor.value as int];
            let w = m.1[location.workspace.value as int];
            (
                view.0,
                view.1.update(
                    location.monitor.value as int,
                    (
                        m.0,
                        m.1.update(
                            location.workspace.value as int,
                            WorkspaceWorkArea { window_based: !w.window_based, ..w },
                        ),
                    ),
                ),
            )
        },
    }
}

/// The result of a change, judged on the work area after it.
pub open spec fn result_of(
    after: WorkAreaView,
    focused: Option<WorkspaceLocation>,
    change: WorkAreaChange,
) -> WorkAreaResult {
    match change {
        WorkAreaChange::SetGlobalWorkAreaOffset { .. } => WorkAreaResult::GlobalWorkAreaOffsetSet,
        WorkAreaChange::SetMonitorWorkAreaOffset { .. } => WorkAreaResult::MonitorWorkAreaOffsetSet,
        WorkAreaChange::SetWorkspaceWorkAreaOffset { .. } => WorkAreaResult::WorkspaceWorkAreaOffsetSet,
        WorkAreaChange::ToggleWindowBasedWorkAreaOffset => WorkAreaResult::WindowBasedWorkAreaOffsetToggled {
            enabled: focused_window_based(after, focused),
        },
    }
}

/// The effect of a change, judged on the work area after it.
pub open spec fn effect_of(
    after: WorkAreaView,
    focused: Option<WorkspaceLocation>,
    change: WorkAreaChange,
) -> WorkAreaEffect {
    match change {
        WorkAreaChange::SetGlobalWorkAreaOffset { offset } => WorkAreaEffect::SetGlobalWorkAreaOffset {
            offset,
        },
        WorkAreaChange::SetMonitorWorkAreaOffset { monitor, offset } => WorkAreaEffect::SetMonitorWorkAreaOffset {
            monitor,
            offset,
        },
        WorkAreaChange::SetWorkspaceWorkAreaOffset { monitor, workspace, offset } => WorkAreaEffect::SetWorkspaceWorkAreaOffset {
            location: WorkspaceLocation { monitor, workspace },
            offset,
        },
        WorkAreaChange::ToggleWindowBasedWorkAreaOffset => WorkAreaEffect::SetWindowBasedWorkAreaOffset {
            location: focused_location(after, focused),
            enabled: focused_window_based(after, focused),
        },
    }
}

impl WorkAreaConfiguration {
    /// No offsets and no monitors.
    pub fn new() -> (c: Self)
        ensures
            c@.0 is None,
            c@.1.len() == 0,
    {
        let c = WorkAreaConfiguration { global: None, monitors: Vec::new() };
        proof {
            assert(c@.1 =~= Seq::<(Option<WorkAreaOffset>, Seq<WorkspaceWorkArea>)>::empty());
        }
        c
    }

    /// The settings of a monitor, where it is configured.
    pub fn monitor(&self, monitor: MonitorIndex) -> (r: Option<&MonitorWorkArea>)
        ensures
            r is Some <==> has_monitor(self@, monitor),
            r matches Some(m) ==> (m.offset, m.workspaces@) == self@.1[monitor.value as int],
    {
        if monitor.value < self.monitors.len() {
            Some(&self.monitors[monitor.value])
        } else {
            None
        }
    }

    /// The settings of a workspace, where it is configured.
    pub fn workspace(&self, monitor: MonitorIndex, workspace: WorkspaceIndex) -> (r: Option<WorkspaceWorkArea>)
        ensures
            r == workspace_of(self@, monitor, workspace),
    {
        match self.monitor(monitor) {
            Some(m) => if workspace.value < m.workspaces.len() {
                Some(m.workspaces[workspace.value])
            } else {
                None
            },
            None => None,
        }
    }

    /// The focused workspace and whether its offset is window based.
    pub fn focused(&self, focused: Option<WorkspaceLocation>) -> (r: Option<(WorkspaceLocation, bool)>)
        ensures
            r == focused_spec(self@, focused),
    {
        match focused {
            Some(location) => match self.workspace(location.monitor, location.workspace) {
                Some(settings) => Some((location, settings.window_based)),
                None => None,
            },
            None => None,
        }
    }

    /// Checks that the target of a change is configured.
    pub fn resolve(&self, focused: Option<WorkspaceLocation>, change: WorkAreaChange) -> (r: Result<
        WorkAreaChange,
        Unavailability,
    >)
        ensures
            match work_area_problem(self@, focused, change) {
                Some(reason) => r == Err::<WorkAreaChange, Unavailability>(reason),
                None => r == Ok::<WorkAreaChange, Unavailability>(change),
            },
    {
        match change {
            WorkAreaChange::SetGlobalWorkAreaOffset { .. } => Ok(change),
            WorkAreaChange::SetMonitorWorkAreaOffset { monitor, .. } => match self.monitor(monitor) {
                Some(_) => Ok(change),
                None => Err(Unavailability::UnknownMonitor),
            },
            WorkAreaChange::SetWorkspaceWorkAreaOffset { monitor, workspace, .. } => {
                if self.workspace(monitor, workspace).is_some() {
                    Ok(change)
                } else if self.monitor(monitor).is_none() {
                    Err(Unavailability::UnknownMonitor)
                } else {
                    Err(Unavailability::UnknownWorkspace)
                }
            },
            WorkAreaChange::ToggleWindowBasedWorkAreaOffset => match self.focused(focused) {
                Some(_) => Ok(change),
                None => Err(Unavailability::NoFocusedWorkspace),
            },
        }
    }

    /// Carries out a change whose target is configured.
    pub fn apply(&mut self, focused: Option<WorkspaceLocation>, change: WorkAreaChange)
        requires
            work_area_problem(old(self)@, focused, change) is None,
        ensures
            final(self)@ == changed(old(self)@, focused, change),
    {
        let ghost before = self@;
        match change {
            WorkAreaChange::SetGlobalWorkAreaOffset { offset } => {
                self.global = Some(offset);
                proof {
                    assert(self@.1 =~= before.1);
                }
            },
            WorkAreaChange::SetMonitorWorkAreaOffset { monitor, offset } => {
                let i = monitor.value;
                let mut m = self.monitors.remove(i);
                m.offset = Some(offset);
                self.monitors.insert(i, m);
                proof {
                    assert(self@.1 =~= before.1.update(i as int, (Some(offset), before.1[i as int].1)));
                }
            },
            WorkAreaChange::SetWorkspaceWorkAreaOffset { monitor, workspace, offset } => {
                let i = monitor.value;
                let j = workspace.value;
                let mut m = self.monitors.remove(i);
                let w = m.workspaces[j];
                m.workspaces.set(j, WorkspaceWorkArea { offset: Some(offset), ..w });
                self.monitors.insert(i, m);
                proof {
                    let bm = before.1[i as int];
                    assert(self@.1 =~= before.1.update(
                        i as int,
                        (bm.0, bm.1.update(j as int, WorkspaceWorkArea { offset: Some(offset), ..bm.1[j as int] })),
                    ));
                }
            },
            WorkAreaChange::ToggleWindowBasedWorkAreaOffset => {
                let location = match focused {
                    Some(location) => location,
                    None => {
                        proof {
                            assert(false);
                        }
                        return;
                    },
                };
                let i = location.monitor.value;
                let j = location.workspace.value;
                let mut m = self.monitors.remove(i);
                let w = m.workspaces[j];
                m.workspaces.set(j, WorkspaceWorkArea { window_based: !w.window_based, ..w });
                self.monitors.insert(i, m);
                proof {
                    let bm = before.1[i as int];
                    assert(self@.1 =~= before.1.update(
                        i as int,
                        (
                            bm.0,
                            bm.1.update(
                                j as int,
                                WorkspaceWorkArea { window_based: !bm.1[j as int].window_based, ..bm.1[j as int] },
                            ),
                        ),
                    ));
                }
            },
        }
    }

    /// The result of a change that was carried out, judged on the work area
    /// after it.
    pub fn logical_result(&self, focused: Option<WorkspaceLocation>, change: WorkAreaChange) -> (r:
        WorkAreaResult)
        requires
            change is ToggleWindowBasedWorkAreaOffset ==> focused_spec(self@, focused) is Some,
        ensures
            r == result_of(self@, focused, change),
    {
        match change {
            WorkAreaChange::SetGlobalWorkAreaOffset { .. } => WorkAreaResult::GlobalWorkAreaOffsetSet,
            WorkAreaChange::SetMonitorWorkAreaOffset { .. } => WorkAreaResult::MonitorWorkAreaOffsetSet,
            WorkAreaChange::SetWorkspaceWorkAreaOffset { .. } => WorkAreaResult::WorkspaceWorkAreaOffsetSet,
            WorkAreaChange::ToggleWindowBasedWorkAreaOffset => match self.focused(focused) {
                Some((_, enabled)) => WorkAreaResult::WindowBasedWorkAreaOffsetToggled { enabled },
                None => {
                    proof {
                        assert(false);
                    }
                    WorkAreaResult::WindowBasedWorkAreaOffsetToggled { enabled: false }
                },
            },
        }
    }

    /// The effect of a change that was carried out, judged on the work area
    /// after it.
    pub fn effect(&self, focused: Option<WorkspaceLocation>, change: WorkAreaChange) -> (r: WorkAreaEffect)
        requires
            change is ToggleWindowBasedWorkAreaOffset ==> focused_spec(self@, focused) is Some,
        ensures
            r == effect_of(self@, focused, change),
    {
        match change {
            WorkAreaChange::SetGlobalWorkAreaOffset { offset } => WorkAreaEffect::SetGlobalWorkAreaOffset {
                offset,
            },
            WorkAreaChange::SetMonitorWorkAreaOffset { monitor, offset } => WorkAreaEffect::SetMonitorWorkAreaOffset {
                monitor,
                offset,
            },
            WorkAreaChange::SetWorkspaceWorkAreaOffset { monitor, workspace, offset } => WorkAreaEffect::SetWorkspaceWorkAreaOffset {
                location: WorkspaceLocation::new(monitor, workspace),
                offset,
            },
            WorkAreaChange::ToggleWindowBasedWorkAreaOffset => match self.focused(focused) {
                Some((location, enabled)) => WorkAreaEffect::SetWindowBasedWorkAreaOffset {
                    location,
                    enabled,
                },
                None => {
                    proof {
                        assert(false);
                    }
                    WorkAreaEffect::SetGlobalWorkAreaOffset { offset: WorkAreaOffset::new(0, 0, 0, 0) }
                },
            },
        }
    }
}

/// A change keeps its target: once a change could run, its target is still
/// configured after it, so the result and effect can be read off the changed
/// work area; toggling the window-based offset twice restores it.
pub proof fn lemma_changes_keep_their_target(
    view: WorkAreaView,
    focused: Option<WorkspaceLocation>,
    change: WorkAreaChange,
)
    requires
        work_area_problem(view, focused, change) is None,
    ensures
        work_area_problem(changed(view, focused, change), focused, change) is None,
        change is ToggleWindowBasedWorkAreaOffset ==> changed(
            changed(view, focused, change),
            focused,
            change,
        ) == view,
        change is ToggleWindowBasedWorkAreaOffset ==> focused_window_based(changed(view, focused, change), focused)
            == !focused_window_based(view, focused),
{
    let after = changed(view, focused, change);
    match change {
        WorkAreaChange::ToggleWindowBasedWorkAreaOffset => {
            let location = focused->0;
            let i = location.monitor.value as int;
            let j = location.workspace.value as int;
            assert(after.1[i].1[j].window_based == !view.1[i].1[j].window_based);
            let twice = changed(after, focused, change);
            assert(twice.1[i].1 =~= view.1[i].1);
            assert(twice.1 =~= view.1);
        },
        _ => {},
    }
}

} // verus!
