//! What actions and native effects mean, told apart from how the catalog maps
//! one onto the other: where a container goes and whether focus follows it,
//! which workspace an operation addresses, and which fields an action carries.

use vstd::prelude::*;
use crate::action::builtin_action::BuiltinAction;
use crate::action::builtin_action::BuiltinActionKind;
use crate::action::index::ContainerIndex;
use crate::action::builtin_action::Pixels;
use crate::action::builtin_action::WindowSelector;
use crate::action::builtin_action::WorkspaceName;
use crate::action::builtin_action::WorkspaceSelector;
use crate::border_geometry::BorderOffset;
use crate::border_geometry::BorderWidth;
use crate::manager_types::Axis;
use crate::manager_types::BorderImplementation;
use crate::manager_types::BorderStyle;
use crate::manager_types::FocusFollowsMouseImplementation;
use crate::manager_types::HidingBehaviour;
use crate::manager_types::MonocleFocusBehaviour;
use crate::manager_types::MoveBehaviour;
use crate::manager_types::OperationBehaviour;
use crate::manager_types::OperationDirection;
use crate::manager_types::Rgb;
use crate::manager_types::Sizing;
use crate::manager_types::WindowKind;
use crate::resize_step::ResizeStep;
use crate::transparency_alpha::TransparencyAlpha;
use crate::action::index::MonitorIndex;
use crate::action::index::WorkspaceIndex;
use crate::action::outcome::ActionResult;
use crate::action::outcome::NativeEffect;
use crate::action::path::WindowsPath;
use crate::manager_types::CycleDirection;
use crate::manager_types::DefaultLayout;

verus! {

/// Where something is sent or focused.
#[derive(Clone, Copy, Debug, PartialEq, Eq, Structural)]
pub enum Destination {
    Workspace(WorkspaceIndex),
    Monitor(MonitorIndex),
    MonitorWorkspace(MonitorIndex, WorkspaceIndex),
    LastWorkspace,
    NextWorkspace(CycleDirection),
    NextMonitor(CycleDirection),
}

/// A transfer of the focused container: where it goes, and whether the focus
/// goes with it (a move) or stays behind (a send).
#[derive(Clone, Copy, Debug, PartialEq, Eq, Structural)]
pub struct Transfer {
    pub follows: bool,
    pub to: Destination,
}

/// The transfer an action asks for, if it moves or sends the focused
/// container.
pub open spec fn action_transfer(a: BuiltinAction) -> Option<Transfer> {
    match a {
        BuiltinAction::MoveContainerToWorkspace { index } => Some(
            Transfer { follows: true, to: Destination::Workspace(index) },
        ),
        BuiltinAction::SendContainerToWorkspace { index } => Some(
            Transfer { follows: false, to: Destination::Workspace(index) },
        ),
        BuiltinAction::MoveContainerToMonitor { index } => Some(
            Transfer { follows: true, to: Destination::Monitor(index) },
        ),
        BuiltinAction::SendContainerToMonitor { index } => Some(
            Transfer { follows: false, to: Destination::Monitor(index) },
        ),
        BuiltinAction::MoveContainerToMonitorWorkspace { monitor, workspace } => Some(
            Transfer { follows: true, to: Destination::MonitorWorkspace(monitor, workspace) },
        ),
        BuiltinAction::SendContainerToMonitorWorkspace { monitor, workspace } => Some(
            Transfer { follows: false, to: Destination::MonitorWorkspace(monitor, workspace) },
        ),
        BuiltinAction::MoveContainerToLastWorkspace => Some(
            Transfer { follows: true, to: Destination::LastWorkspace },
        ),
        BuiltinAction::SendContainerToLastWorkspace => Some(
            Transfer { follows: false, to: Destination::LastWorkspace },
        ),
        BuiltinAction::CycleMoveContainerToWorkspace { direction } => Some(
            Transfer { follows: true, to: Destination::NextWorkspace(direction) },
        ),
        BuiltinAction::CycleSendContainerToWorkspace { direction } => Some(
            Transfer { follows: false, to: Destination::NextWorkspace(direction) },
        ),
        BuiltinAction::CycleMoveContainerToMonitor { direction } => Some(
            Transfer { follows: true, to: Destination::NextMonitor(direction) },
        ),
        BuiltinAction::CycleSendContainerToMonitor { direction } => Some(
            Transfer { follows: false, to: Destination::NextMonitor(direction) },
        ),
        _ => None,
    }
}

/// The transfer a native effect carries out, if it moves or sends the
/// focused container.
pub open spec fn effect_transfer(e: NativeEffect) -> Option<Transfer> {
    match e {
        NativeEffect::MoveContainerToWorkspace { index } => Some(
            Transfer { follows: true, to: Destination::Workspace(index) },
        ),
        NativeEffect::SendContainerToWorkspace { index } => Some(
            Transfer { follows: false, to: Destination::Workspace(index) },
        ),
        NativeEffect::MoveContainerToMonitor { index } => Some(
            Transfer { follows: true, to: Destination::Monitor(index) },
        ),
        NativeEffect::SendContainerToMonitor { index } => Some(
            Transfer { follows: false, to: Destination::Monitor(index) },
        ),
        NativeEffect::MoveContainerToMonitorWorkspace { monitor, workspace } => Some(
            Transfer { follows: true, to: Destination::MonitorWorkspace(monitor, workspace) },
        ),
        NativeEffect::SendContainerToMonitorWorkspace { monitor, workspace } => Some(
            Transfer { follows: false, to: Destination::MonitorWorkspace(monitor, workspace) },
        ),
        NativeEffect::MoveContainerToLastWorkspace => Some(
            Transfer { follows: true, to: Destination::LastWorkspace },
        ),
        NativeEffect::SendContainerToLastWorkspace => Some(
            Transfer { follows: false, to: Destination::LastWorkspace },
        ),
        NativeEffect::CycleMoveContainerToWorkspace { direction } => Some(
            Transfer { follows: true, to: Destination::NextWorkspace(direction) },
        ),
        NativeEffect::CycleSendContainerToWorkspace { direction } => Some(
            Transfer { follows: false, to: Destination::NextWorkspace(direction) },
        ),
        NativeEffect::CycleMoveContainerToMonitor { direction } => Some(
            Transfer { follows: true, to: Destination::NextMonitor(direction) },
        ),
        NativeEffect::CycleSendContainerToMonitor { direction } => Some(
            Transfer { follows: false, to: Destination::NextMonitor(direction) },
        ),
        _ => None,
    }
}

/// Where an action moves the focus, if it only focuses a workspace or a
/// monitor.
pub open spec fn action_focus(a: BuiltinAction) -> Option<Destination> {
    match a {
        BuiltinAction::FocusWorkspace { index } => Some(Destination::Workspace(index)),
        BuiltinAction::FocusMonitor { index } => Some(Destination::Monitor(index)),
        BuiltinAction::FocusMonitorWorkspace { monitor, workspace } => Some(
            Destination::MonitorWorkspace(monitor, workspace),
        ),
        BuiltinAction::FocusLastWorkspace => Some(Destination::LastWorkspace),
        BuiltinAction::CycleFocusWorkspace { direction } => Some(Destination::NextWorkspace(direction)),
        BuiltinAction::CycleFocusMonitor { direction } => Some(Destination::NextMonitor(direction)),
        _ => None,
    }
}

/// Where a native effect moves the focus, if it only focuses a workspace or
/// a monitor.
pub open spec fn effect_focus(e: NativeEffect) -> Option<Destination> {
    match e {
        NativeEffect::FocusWorkspace { index } => Some(Destination::Workspace(index)),
        NativeEffect::FocusMonitor { index } => Some(Destination::Monitor(index)),
        NativeEffect::FocusMonitorWorkspace { monitor, workspace } => Some(
            Destination::MonitorWorkspace(monitor, workspace),
        ),
        NativeEffect::FocusLastWorkspace => Some(Destination::LastWorkspace),
        NativeEffect::CycleFocusWorkspace { direction } => Some(Destination::NextWorkspace(direction)),
        NativeEffect::CycleFocusMonitor { direction } => Some(Destination::NextMonitor(direction)),
        _ => None,
    }
}

/// What an action does to one workspace, whether it names the workspace or
/// addresses it by monitor and position.
#[derive(Clone, Copy, Debug, PartialEq, Eq, Structural)]
pub enum WorkspaceOperation {
    Focus,
    MoveContainer,
    SendContainer,
    ContainerPadding(i32),
    Padding(i32),
    Tiling(bool),
    Layout(DefaultLayout),
    CustomLayout,
    LayoutRule(usize, DefaultLayout),
    CustomLayoutRule(usize),
    ClearLayoutRules,
}

/// The operation of an action on one workspace, named or addressed.
pub open spec fn workspace_operation(a: BuiltinAction) -> Option<WorkspaceOperation> {
    match a {
        BuiltinAction::FocusNamedWorkspace { .. } | BuiltinAction::FocusMonitorWorkspace { .. } => Some(
            WorkspaceOperation::Focus,
        ),
        BuiltinAction::MoveContainerToNamedWorkspace { .. }
        | BuiltinAction::MoveContainerToMonitorWorkspace { .. } => Some(WorkspaceOperation::MoveContainer),
        BuiltinAction::SendContainerToNamedWorkspace { .. }
        | BuiltinAction::SendContainerToMonitorWorkspace { .. } => Some(WorkspaceOperation::SendContainer),
        BuiltinAction::SetNamedWorkspaceContainerPadding { size, .. }
        | BuiltinAction::SetContainerPadding { size, .. } => Some(WorkspaceOperation::ContainerPadding(size)),
        BuiltinAction::SetNamedWorkspacePadding { size, .. }
        | BuiltinAction::SetWorkspacePadding { size, .. } => Some(WorkspaceOperation::Padding(size)),
        BuiltinAction::SetNamedWorkspaceTiling { tile, .. }
        | BuiltinAction::SetWorkspaceTiling { tile, .. } => Some(WorkspaceOperation::Tiling(tile)),
        BuiltinAction::SetNamedWorkspaceLayout { layout, .. }
        | BuiltinAction::SetMonitorWorkspaceLayout { layout, .. } => Some(WorkspaceOperation::Layout(layout)),
        BuiltinAction::SetNamedWorkspaceCustomLayout { .. }
        | BuiltinAction::SetWorkspaceCustomLayout { .. } => Some(WorkspaceOperation::CustomLayout),
        BuiltinAction::AddNamedWorkspaceLayoutRule { at_container_count, layout, .. }
        | BuiltinAction::AddWorkspaceLayoutRule { at_container_count, layout, .. } => Some(
            WorkspaceOperation::LayoutRule(at_container_count, layout),
        ),
        BuiltinAction::AddNamedWorkspaceCustomLayoutRule { at_container_count, .. }
        | BuiltinAction::AddWorkspaceCustomLayoutRule { at_container_count, .. } => Some(
            WorkspaceOperation::CustomLayoutRule(at_container_count),
        ),
        BuiltinAction::ClearNamedWorkspaceLayoutRules { .. }
        | BuiltinAction::ClearWorkspaceLayoutRules { .. } => Some(WorkspaceOperation::ClearLayoutRules),
        _ => None,
    }
}

/// The name of the workspace an action addresses by name.
pub open spec fn named_workspace(a: BuiltinAction) -> Option<Seq<char>> {
    match a {
        BuiltinAction::FocusNamedWorkspace { name }
        | BuiltinAction::MoveContainerToNamedWorkspace { name }
        | BuiltinAction::SendContainerToNamedWorkspace { name }
        | BuiltinAction::SetNamedWorkspaceContainerPadding { name, .. }
        | BuiltinAction::SetNamedWorkspacePadding { name, .. }
        | BuiltinAction::SetNamedWorkspaceTiling { name, .. }
        | BuiltinAction::SetNamedWorkspaceLayout { name, .. }
        | BuiltinAction::SetNamedWorkspaceCustomLayout { name, .. }
        | BuiltinAction::AddNamedWorkspaceLayoutRule { name, .. }
        | BuiltinAction::AddNamedWorkspaceCustomLayoutRule { name, .. }
        | BuiltinAction::ClearNamedWorkspaceLayoutRules { name } => Some(name.text()),
        _ => None,
    }
}

/// The monitor field of an action, where it has one.
pub open spec fn monitor_field(a: BuiltinAction) -> Option<MonitorIndex> {
    match a {
        BuiltinAction::FocusMonitorWorkspace { monitor, .. }
        | BuiltinAction::MoveContainerToMonitorWorkspace { monitor, .. }
        | BuiltinAction::SendContainerToMonitorWorkspace { monitor, .. }
        | BuiltinAction::SetContainerPadding { monitor, .. }
        | BuiltinAction::SetWorkspacePadding { monitor, .. }
        | BuiltinAction::SetWorkspaceTiling { monitor, .. }
        | BuiltinAction::SetMonitorWorkspaceLayout { monitor, .. }
        | BuiltinAction::EnsureWorkspaces { monitor, .. }
        | BuiltinAction::ClearWorkspaceLayoutRules { monitor, .. }
        | BuiltinAction::LockContainer { monitor, .. }
        | BuiltinAction::UnlockContainer { monitor, .. }
        | BuiltinAction::AddWorkspaceLayoutRule { monitor, .. }
        | BuiltinAction::EnsureNamedWorkspaces { monitor, .. }
        | BuiltinAction::SetWorkspaceName { monitor, .. }
        | BuiltinAction::SetWorkspaceCustomLayout { monitor, .. }
        | BuiltinAction::AddWorkspaceCustomLayoutRule { monitor, .. } => Some(monitor),
        _ => None,
    }
}

/// The workspace field of an action that addresses a workspace on a monitor.
pub open spec fn workspace_field(a: BuiltinAction) -> Option<WorkspaceIndex> {
    match a {
        BuiltinAction::FocusMonitorWorkspace { workspace, .. }
        | BuiltinAction::MoveContainerToMonitorWorkspace { workspace, .. }
        | BuiltinAction::SendContainerToMonitorWorkspace { workspace, .. }
        | BuiltinAction::SetContainerPadding { workspace, .. }
        | BuiltinAction::SetWorkspacePadding { workspace, .. }
        | BuiltinAction::SetWorkspaceTiling { workspace, .. }
        | BuiltinAction::SetMonitorWorkspaceLayout { workspace, .. }
        | BuiltinAction::ClearWorkspaceLayoutRules { workspace, .. }
        | BuiltinAction::LockContainer { workspace, .. }
        | BuiltinAction::UnlockContainer { workspace, .. }
        | BuiltinAction::AddWorkspaceLayoutRule { workspace, .. }
        | BuiltinAction::SetWorkspaceName { workspace, .. }
        | BuiltinAction::SetWorkspaceCustomLayout { workspace, .. }
        | BuiltinAction::AddWorkspaceCustomLayoutRule { workspace, .. } => Some(workspace),
        _ => None,
    }
}

/// The monitor and workspace an action addresses, where it has both.
pub open spec fn workspace_address(a: BuiltinAction) -> Option<(MonitorIndex, WorkspaceIndex)> {
    match (monitor_field(a), workspace_field(a)) {
        (Some(m), Some(w)) => Some((m, w)),
        _ => None,
    }
}

/// The single position an action carries as `index`: of a workspace, a
/// monitor or a stacked window.
pub open spec fn index_field(a: BuiltinAction) -> Option<usize> {
    match a {
        BuiltinAction::FocusStackWindow { index } => Some(index.value),
        BuiltinAction::FocusWorkspace { index }
        | BuiltinAction::FocusWorkspaceOnAllMonitors { index }
        | BuiltinAction::MoveContainerToWorkspace { index }
        | BuiltinAction::SendContainerToWorkspace { index } => Some(index.value),
        BuiltinAction::FocusMonitor { index }
        | BuiltinAction::MoveContainerToMonitor { index }
        | BuiltinAction::SendContainerToMonitor { index }
        | BuiltinAction::MoveWorkspaceToMonitor { index }
        | BuiltinAction::SwapWorkspacesToMonitor { index } => Some(index.value),
        _ => None,
    }
}

/// The container position an action carries.
pub open spec fn container_field(a: BuiltinAction) -> Option<usize> {
    match a {
        BuiltinAction::LockContainer { container, .. }
        | BuiltinAction::UnlockContainer { container, .. } => Some(container.value),
        _ => None,
    }
}

/// The path an action carries.
pub open spec fn path_field(a: BuiltinAction) -> Option<WindowsPath> {
    match a {
        BuiltinAction::SetNamedWorkspaceCustomLayout { path, .. }
        | BuiltinAction::AddNamedWorkspaceCustomLayoutRule { path, .. }
        | BuiltinAction::SetCustomLayout { path }
        | BuiltinAction::SetWorkspaceCustomLayout { path, .. }
        | BuiltinAction::AddWorkspaceCustomLayoutRule { path, .. } => Some(path),
        _ => None,
    }
}

/// The padding adjustment an action carries.
pub open spec fn adjustment_field(a: BuiltinAction) -> Option<i32> {
    match a {
        BuiltinAction::AdjustContainerPadding { adjustment, .. }
        | BuiltinAction::AdjustWorkspacePadding { adjustment, .. } => Some(adjustment),
        _ => None,
    }
}

/// The transparency alpha an action carries.
pub open spec fn alpha_field(a: BuiltinAction) -> Option<TransparencyAlpha> {
    match a {
        BuiltinAction::SetTransparencyAlpha { alpha, .. } => Some(alpha),
        _ => None,
    }
}

/// The container count from which an action's layout rule applies.
pub open spec fn at_container_count_field(a: BuiltinAction) -> Option<usize> {
    match a {
        BuiltinAction::AddWorkspaceLayoutRule { at_container_count, .. }
        | BuiltinAction::AddNamedWorkspaceLayoutRule { at_container_count, .. }
        | BuiltinAction::AddNamedWorkspaceCustomLayoutRule { at_container_count, .. }
        | BuiltinAction::AddWorkspaceCustomLayoutRule { at_container_count, .. } => Some(at_container_count),
        _ => None,
    }
}

/// The axis an action carries.
pub open spec fn axis_field(a: BuiltinAction) -> Option<Axis> {
    match a {
        BuiltinAction::ResizeWindow { axis, .. }
        | BuiltinAction::ResizeWindowByStep { axis, .. }
        | BuiltinAction::FlipLayout { axis, .. } => Some(axis),
        _ => None,
    }
}

/// The window hiding behaviour an action carries.
pub open spec fn hiding_behaviour_field(a: BuiltinAction) -> Option<HidingBehaviour> {
    match a {
        BuiltinAction::SetWindowHidingBehaviour { behaviour, .. } => Some(behaviour),
        _ => None,
    }
}

/// The monocle focus behaviour an action carries.
pub open spec fn monocle_behaviour_field(a: BuiltinAction) -> Option<MonocleFocusBehaviour> {
    match a {
        BuiltinAction::SetMonocleFocusBehaviour { behaviour, .. } => Some(behaviour),
        _ => None,
    }
}

/// The cross-monitor move behaviour an action carries.
pub open spec fn move_behaviour_field(a: BuiltinAction) -> Option<MoveBehaviour> {
    match a {
        BuiltinAction::SetCrossMonitorMoveBehaviour { behaviour, .. } => Some(behaviour),
        _ => None,
    }
}

/// The unmanaged window operation behaviour an action carries.
pub open spec fn operation_behaviour_field(a: BuiltinAction) -> Option<OperationBehaviour> {
    match a {
        BuiltinAction::SetUnmanagedWindowOperationBehaviour { behaviour, .. } => Some(behaviour),
        _ => None,
    }
}

/// The colour an action carries.
pub open spec fn colour_field(a: BuiltinAction) -> Option<Rgb> {
    match a {
        BuiltinAction::SetBorderColour { colour, .. } => Some(colour),
        _ => None,
    }
}

/// The workspace count an action carries.
pub open spec fn count_field(a: BuiltinAction) -> Option<usize> {
    match a {
        BuiltinAction::EnsureWorkspaces { count, .. } => Some(count),
        _ => None,
    }
}

/// The pixel delta an action carries.
pub open spec fn delta_field(a: BuiltinAction) -> Option<Pixels> {
    match a {
        BuiltinAction::ResizeWindow { delta, .. }
        | BuiltinAction::ResizeWindowEdge { delta, .. } => Some(delta),
        _ => None,
    }
}

/// The cycle direction an action carries.
pub open spec fn cycle_field(a: BuiltinAction) -> Option<CycleDirection> {
    match a {
        BuiltinAction::CycleFocusWindow { direction, .. }
        | BuiltinAction::CycleMoveWindow { direction, .. }
        | BuiltinAction::CycleStack { direction, .. }
        | BuiltinAction::CycleStackIndex { direction, .. }
        | BuiltinAction::CycleFocusWorkspace { direction, .. }
        | BuiltinAction::CycleFocusEmptyWorkspace { direction, .. }
        | BuiltinAction::CycleFocusMonitor { direction, .. }
        | BuiltinAction::CycleLayout { direction, .. }
        | BuiltinAction::CycleMoveContainerToWorkspace { direction, .. }
        | BuiltinAction::CycleSendContainerToWorkspace { direction, .. }
        | BuiltinAction::CycleMoveContainerToMonitor { direction, .. }
        | BuiltinAction::CycleSendContainerToMonitor { direction, .. }
        | BuiltinAction::CycleMoveWorkspaceToMonitor { direction, .. } => Some(direction),
        _ => None,
    }
}

/// The operation direction an action carries.
pub open spec fn direction_field(a: BuiltinAction) -> Option<OperationDirection> {
    match a {
        BuiltinAction::FocusWindow { direction, .. }
        | BuiltinAction::MoveWindow { direction, .. }
        | BuiltinAction::StackWindow { direction, .. }
        | BuiltinAction::PromoteWindow { direction, .. }
        | BuiltinAction::PreselectDirection { direction, .. }
        | BuiltinAction::ResizeWindowEdge { direction, .. }
        | BuiltinAction::ResizeWindowEdgeByStep { direction, .. } => Some(direction),
        _ => None,
    }
}

/// The switch an action carries.
pub open spec fn enabled_field(a: BuiltinAction) -> Option<bool> {
    match a {
        BuiltinAction::SetMouseFollowsFocus { enabled, .. }
        | BuiltinAction::SetFocusFollowsMouse { enabled, .. }
        | BuiltinAction::SetTransparencyEnabled { enabled, .. }
        | BuiltinAction::SetBorderEnabled { enabled, .. } => Some(enabled),
        _ => None,
    }
}

/// The tiling switch an action carries.
pub open spec fn tile_field(a: BuiltinAction) -> Option<bool> {
    match a {
        BuiltinAction::SetWorkspaceTiling { tile, .. }
        | BuiltinAction::SetNamedWorkspaceTiling { tile, .. } => Some(tile),
        _ => None,
    }
}

/// The border implementation an action carries.
pub open spec fn border_implementation_field(a: BuiltinAction) -> Option<BorderImplementation> {
    match a {
        BuiltinAction::SetBorderImplementation { implementation, .. } => Some(implementation),
        _ => None,
    }
}

/// The focus-follows-mouse implementation an action carries.
pub open spec fn ffm_implementation_field(a: BuiltinAction) -> Option<FocusFollowsMouseImplementation> {
    match a {
        BuiltinAction::SetFocusFollowsMouse { implementation, .. }
        | BuiltinAction::ToggleFocusFollowsMouse { implementation, .. } => Some(implementation),
        _ => None,
    }
}

/// The layout an action carries.
pub open spec fn layout_field(a: BuiltinAction) -> Option<DefaultLayout> {
    match a {
        BuiltinAction::SetWorkspaceLayout { layout, .. }
        | BuiltinAction::SetMonitorWorkspaceLayout { layout, .. }
        | BuiltinAction::AddWorkspaceLayoutRule { layout, .. }
        | BuiltinAction::SetNamedWorkspaceLayout { layout, .. }
        | BuiltinAction::AddNamedWorkspaceLayoutRule { layout, .. } => Some(layout),
        _ => None,
    }
}

/// The border offset an action carries.
pub open spec fn offset_field(a: BuiltinAction) -> Option<BorderOffset> {
    match a {
        BuiltinAction::SetBorderOffset { offset, .. } => Some(offset),
        _ => None,
    }
}

/// The border width an action carries.
pub open spec fn width_field(a: BuiltinAction) -> Option<BorderWidth> {
    match a {
        BuiltinAction::SetBorderWidth { width, .. } => Some(width),
        _ => None,
    }
}

/// The border style an action carries.
pub open spec fn style_field(a: BuiltinAction) -> Option<BorderStyle> {
    match a {
        BuiltinAction::SetBorderStyle { style, .. } => Some(style),
        _ => None,
    }
}

/// The resize step an action carries.
pub open spec fn step_field(a: BuiltinAction) -> Option<ResizeStep> {
    match a {
        BuiltinAction::SetResizeStep { step, .. } => Some(step),
        _ => None,
    }
}

/// The padding size an action carries.
pub open spec fn size_field(a: BuiltinAction) -> Option<i32> {
    match a {
        BuiltinAction::SetFocusedContainerPadding { size, .. }
        | BuiltinAction::SetFocusedWorkspacePadding { size, .. }
        | BuiltinAction::SetContainerPadding { size, .. }
        | BuiltinAction::SetWorkspacePadding { size, .. }
        | BuiltinAction::SetNamedWorkspaceContainerPadding { size, .. }
        | BuiltinAction::SetNamedWorkspacePadding { size, .. } => Some(size),
        _ => None,
    }
}

/// The sizing an action carries.
pub open spec fn sizing_field(a: BuiltinAction) -> Option<Sizing> {
    match a {
        BuiltinAction::ResizeWindowByStep { sizing, .. }
        | BuiltinAction::AdjustContainerPadding { sizing, .. }
        | BuiltinAction::AdjustWorkspacePadding { sizing, .. }
        | BuiltinAction::ResizeWindowEdgeByStep { sizing, .. } => Some(sizing),
        _ => None,
    }
}

/// The window selector an action carries.
pub open spec fn window_field(a: BuiltinAction) -> Option<WindowSelector> {
    match a {
        BuiltinAction::ToggleWindowFloat { window, .. }
        | BuiltinAction::ToggleWindowMonocle { window, .. }
        | BuiltinAction::ToggleWindowMaximize { window, .. }
        | BuiltinAction::ToggleContainerLock { window, .. }
        | BuiltinAction::UnstackWindow { window, .. }
        | BuiltinAction::CloseWindow { window, .. }
        | BuiltinAction::MinimizeWindow { window, .. }
        | BuiltinAction::ForceFocus { window, .. } => Some(window),
        _ => None,
    }
}

/// The window kind an action carries.
pub open spec fn window_kind_field(a: BuiltinAction) -> Option<WindowKind> {
    match a {
        BuiltinAction::SetBorderColour { window_kind, .. } => Some(window_kind),
        _ => None,
    }
}

/// The workspace selector an action carries.
pub open spec fn workspace_selector_field(a: BuiltinAction) -> Option<WorkspaceSelector> {
    match a {
        BuiltinAction::SetWorkspaceLayout { workspace, .. } => Some(workspace),
        _ => None,
    }
}

/// The workspace name an action carries.
pub open spec fn name_field(a: BuiltinAction) -> Option<WorkspaceName> {
    match a {
        BuiltinAction::FocusNamedWorkspace { name, .. }
        | BuiltinAction::MoveContainerToNamedWorkspace { name, .. }
        | BuiltinAction::SendContainerToNamedWorkspace { name, .. }
        | BuiltinAction::SetNamedWorkspaceContainerPadding { name, .. }
        | BuiltinAction::SetNamedWorkspacePadding { name, .. }
        | BuiltinAction::SetNamedWorkspaceTiling { name, .. }
        | BuiltinAction::SetNamedWorkspaceLayout { name, .. }
        | BuiltinAction::SetNamedWorkspaceCustomLayout { name, .. }
        | BuiltinAction::AddNamedWorkspaceLayoutRule { name, .. }
        | BuiltinAction::AddNamedWorkspaceCustomLayoutRule { name, .. }
        | BuiltinAction::ClearNamedWorkspaceLayoutRules { name, .. }
        | BuiltinAction::SetWorkspaceName { name, .. } => Some(name),
        _ => None,
    }
}

/// The kind of action a native effect carries out; each effect carries out
/// one kind.
pub open spec fn effect_serves(e: NativeEffect) -> Option<BuiltinActionKind> {
    match e {
        NativeEffect::FocusNeighbor { .. } => Some(BuiltinActionKind::FocusWindow),
        NativeEffect::MoveNeighbor { .. } => Some(BuiltinActionKind::MoveWindow),
        NativeEffect::Resize { .. } => Some(BuiltinActionKind::ResizeWindow),
        NativeEffect::SetLayout { .. } => Some(BuiltinActionKind::SetWorkspaceLayout),
        NativeEffect::SetWindowFloating { .. } => Some(BuiltinActionKind::ToggleWindowFloat),
        NativeEffect::CycleFocus { .. } => Some(BuiltinActionKind::CycleFocusWindow),
        NativeEffect::CycleMove { .. } => Some(BuiltinActionKind::CycleMoveWindow),
        NativeEffect::ToggleMonocle => Some(BuiltinActionKind::ToggleWindowMonocle),
        NativeEffect::ToggleMaximize => Some(BuiltinActionKind::ToggleWindowMaximize),
        NativeEffect::ToggleLock => Some(BuiltinActionKind::ToggleContainerLock),
        NativeEffect::Stack { .. } => Some(BuiltinActionKind::StackWindow),
        NativeEffect::Unstack => Some(BuiltinActionKind::UnstackWindow),
        NativeEffect::StackAll => Some(BuiltinActionKind::StackAll),
        NativeEffect::UnstackAll => Some(BuiltinActionKind::UnstackAll),
        NativeEffect::CycleStack { .. } => Some(BuiltinActionKind::CycleStack),
        NativeEffect::CycleStackIndex { .. } => Some(BuiltinActionKind::CycleStackIndex),
        NativeEffect::FocusStack { .. } => Some(BuiltinActionKind::FocusStackWindow),
        NativeEffect::FocusWorkspace { .. } => Some(BuiltinActionKind::FocusWorkspace),
        NativeEffect::CycleFocusWorkspace { .. } => Some(BuiltinActionKind::CycleFocusWorkspace),
        NativeEffect::CycleFocusEmptyWorkspace { .. } => Some(BuiltinActionKind::CycleFocusEmptyWorkspace),
        NativeEffect::FocusLastWorkspace => Some(BuiltinActionKind::FocusLastWorkspace),
        NativeEffect::CloseWorkspace => Some(BuiltinActionKind::CloseWorkspace),
        NativeEffect::FocusMonitor { .. } => Some(BuiltinActionKind::FocusMonitor),
        NativeEffect::CycleFocusMonitor { .. } => Some(BuiltinActionKind::CycleFocusMonitor),
        NativeEffect::FocusMonitorAtCursor => Some(BuiltinActionKind::FocusMonitorAtCursor),
        NativeEffect::FocusWorkspaceOnAllMonitors { .. } => Some(BuiltinActionKind::FocusWorkspaceOnAllMonitors),
        NativeEffect::FocusMonitorWorkspace { .. } => Some(BuiltinActionKind::FocusMonitorWorkspace),
        NativeEffect::CloseWindow => Some(BuiltinActionKind::CloseWindow),
        NativeEffect::MinimizeWindow => Some(BuiltinActionKind::MinimizeWindow),
        NativeEffect::ForceFocus => Some(BuiltinActionKind::ForceFocus),
        NativeEffect::PromoteContainer => Some(BuiltinActionKind::PromoteContainer),
        NativeEffect::PromoteContainerSwap => Some(BuiltinActionKind::PromoteContainerSwap),
        NativeEffect::PromoteFocus => Some(BuiltinActionKind::PromoteFocus),
        NativeEffect::PromoteWindow { .. } => Some(BuiltinActionKind::PromoteWindow),
        NativeEffect::CreateWorkspace => Some(BuiltinActionKind::NewWorkspace),
        NativeEffect::ToggleTiling => Some(BuiltinActionKind::ToggleTiling),
        NativeEffect::CycleLayout { .. } => Some(BuiltinActionKind::CycleLayout),
        NativeEffect::FlipLayout { .. } => Some(BuiltinActionKind::FlipLayout),
        NativeEffect::ToggleWorkspaceLayer => Some(BuiltinActionKind::ToggleWorkspaceLayer),
        NativeEffect::MoveContainerToLastWorkspace => Some(BuiltinActionKind::MoveContainerToLastWorkspace),
        NativeEffect::SendContainerToLastWorkspace => Some(BuiltinActionKind::SendContainerToLastWorkspace),
        NativeEffect::MoveContainerToWorkspace { .. } => Some(BuiltinActionKind::MoveContainerToWorkspace),
        NativeEffect::CycleMoveContainerToWorkspace { .. } => Some(BuiltinActionKind::CycleMoveContainerToWorkspace),
        NativeEffect::SendContainerToWorkspace { .. } => Some(BuiltinActionKind::SendContainerToWorkspace),
        NativeEffect::CycleSendContainerToWorkspace { .. } => Some(BuiltinActionKind::CycleSendContainerToWorkspace),
        NativeEffect::MoveContainerToMonitor { .. } => Some(BuiltinActionKind::MoveContainerToMonitor),
        NativeEffect::CycleMoveContainerToMonitor { .. } => Some(BuiltinActionKind::CycleMoveContainerToMonitor),
        NativeEffect::SendContainerToMonitor { .. } => Some(BuiltinActionKind::SendContainerToMonitor),
        NativeEffect::CycleSendContainerToMonitor { .. } => Some(BuiltinActionKind::CycleSendContainerToMonitor),
        NativeEffect::MoveContainerToMonitorWorkspace { .. } => Some(BuiltinActionKind::MoveContainerToMonitorWorkspace),
        NativeEffect::SendContainerToMonitorWorkspace { .. } => Some(BuiltinActionKind::SendContainerToMonitorWorkspace),
        NativeEffect::MoveWorkspaceToMonitor { .. } => Some(BuiltinActionKind::MoveWorkspaceToMonitor),
        NativeEffect::CycleMoveWorkspaceToMonitor { .. } => Some(BuiltinActionKind::CycleMoveWorkspaceToMonitor),
        NativeEffect::SwapWorkspacesToMonitor { .. } => Some(BuiltinActionKind::SwapWorkspacesToMonitor),
        NativeEffect::PreselectDirection { .. } => Some(BuiltinActionKind::PreselectDirection),
        NativeEffect::CancelPreselect => Some(BuiltinActionKind::CancelPreselect),
        NativeEffect::Retile => Some(BuiltinActionKind::Retile),
        NativeEffect::RetileWithResizeDimensions => Some(BuiltinActionKind::RetileWithResizeDimensions),
        NativeEffect::ManageFocusedWindow => Some(BuiltinActionKind::ManageFocusedWindow),
        NativeEffect::UnmanageFocusedWindow => Some(BuiltinActionKind::UnmanageFocusedWindow),
        NativeEffect::AdjustContainerPadding { .. } => Some(BuiltinActionKind::AdjustContainerPadding),
        NativeEffect::AdjustWorkspacePadding { .. } => Some(BuiltinActionKind::AdjustWorkspacePadding),
        NativeEffect::ToggleMouseFollowsFocus => Some(BuiltinActionKind::ToggleMouseFollowsFocus),
        NativeEffect::SetMouseFollowsFocus { .. } => Some(BuiltinActionKind::SetMouseFollowsFocus),
        NativeEffect::ToggleWindowContainerBehaviour => Some(BuiltinActionKind::ToggleWindowContainerBehaviour),
        NativeEffect::ToggleFloatOverride => Some(BuiltinActionKind::ToggleFloatOverride),
        NativeEffect::ToggleWorkspaceWindowContainerBehaviour => Some(BuiltinActionKind::ToggleWorkspaceWindowContainerBehaviour),
        NativeEffect::ToggleWorkspaceFloatOverride => Some(BuiltinActionKind::ToggleWorkspaceFloatOverride),
        NativeEffect::ToggleCrossMonitorMoveBehaviour => Some(BuiltinActionKind::ToggleCrossMonitorMoveBehaviour),
        NativeEffect::ToggleMonocleFocusBehaviour => Some(BuiltinActionKind::ToggleMonocleFocusBehaviour),
        NativeEffect::TogglePause => Some(BuiltinActionKind::TogglePause),
        NativeEffect::SetFocusedContainerPadding { .. } => Some(BuiltinActionKind::SetFocusedContainerPadding),
        NativeEffect::SetFocusedWorkspacePadding { .. } => Some(BuiltinActionKind::SetFocusedWorkspacePadding),
        NativeEffect::SetContainerPadding { .. } => Some(BuiltinActionKind::SetContainerPadding),
        NativeEffect::SetWorkspacePadding { .. } => Some(BuiltinActionKind::SetWorkspacePadding),
        NativeEffect::SetWorkspaceTiling { .. } => Some(BuiltinActionKind::SetWorkspaceTiling),
        NativeEffect::SetMonitorWorkspaceLayout { .. } => Some(BuiltinActionKind::SetMonitorWorkspaceLayout),
        NativeEffect::EnsureWorkspaces { .. } => Some(BuiltinActionKind::EnsureWorkspaces),
        NativeEffect::ClearWorkspaceLayoutRules { .. } => Some(BuiltinActionKind::ClearWorkspaceLayoutRules),
        NativeEffect::SetScrollingColumns { .. } => Some(BuiltinActionKind::SetScrollingColumns),
        NativeEffect::LockContainer { .. } => Some(BuiltinActionKind::LockContainer),
        NativeEffect::UnlockContainer { .. } => Some(BuiltinActionKind::UnlockContainer),
        NativeEffect::ToggleTitleBars => Some(BuiltinActionKind::ToggleTitleBars),
        NativeEffect::EnforceWorkspaceRules => Some(BuiltinActionKind::EnforceWorkspaceRules),
        NativeEffect::AddSessionFloatRule => Some(BuiltinActionKind::AddSessionFloatRule),
        NativeEffect::ClearSessionFloatRules => Some(BuiltinActionKind::ClearSessionFloatRules),
        NativeEffect::ResizeEdge { .. } => Some(BuiltinActionKind::ResizeWindowEdge),
        NativeEffect::SetWindowHidingBehaviour { .. } => Some(BuiltinActionKind::SetWindowHidingBehaviour),
        NativeEffect::SetCrossMonitorMoveBehaviour { .. } => Some(BuiltinActionKind::SetCrossMonitorMoveBehaviour),
        NativeEffect::SetMonocleFocusBehaviour { .. } => Some(BuiltinActionKind::SetMonocleFocusBehaviour),
        NativeEffect::SetUnmanagedWindowOperationBehaviour { .. } => Some(BuiltinActionKind::SetUnmanagedWindowOperationBehaviour),
        NativeEffect::SetFocusFollowsMouse { .. } => Some(BuiltinActionKind::SetFocusFollowsMouse),
        NativeEffect::ToggleFocusFollowsMouse { .. } => Some(BuiltinActionKind::ToggleFocusFollowsMouse),
        NativeEffect::AddWorkspaceLayoutRule { .. } => Some(BuiltinActionKind::AddWorkspaceLayoutRule),
        NativeEffect::EnsureNamedWorkspaces { .. } => Some(BuiltinActionKind::EnsureNamedWorkspaces),
        NativeEffect::SetWorkspaceName { .. } => Some(BuiltinActionKind::SetWorkspaceName),
        NativeEffect::SetLayoutRatios { .. } => Some(BuiltinActionKind::SetLayoutRatios),
        NativeEffect::SetCustomLayout { .. } => Some(BuiltinActionKind::SetCustomLayout),
        NativeEffect::SetWorkspaceCustomLayout { .. } => Some(BuiltinActionKind::SetWorkspaceCustomLayout),
        NativeEffect::AddWorkspaceCustomLayoutRule { .. } => Some(BuiltinActionKind::AddWorkspaceCustomLayoutRule),
        NativeEffect::EagerFocus { .. } => Some(BuiltinActionKind::EagerFocus),
        NativeEffect::RemoveTitleBar { .. } => Some(BuiltinActionKind::RemoveTitleBar),
        NativeEffect::SetResizeStep { .. } => Some(BuiltinActionKind::SetResizeStep),
        NativeEffect::SetTransparencyEnabled { .. } => Some(BuiltinActionKind::SetTransparencyEnabled),
        NativeEffect::SetTransparencyAlpha { .. } => Some(BuiltinActionKind::SetTransparencyAlpha),
        NativeEffect::SetBorderEnabled { .. } => Some(BuiltinActionKind::SetBorderEnabled),
        NativeEffect::SetBorderColour { .. } => Some(BuiltinActionKind::SetBorderColour),
        NativeEffect::SetBorderWidth { .. } => Some(BuiltinActionKind::SetBorderWidth),
        NativeEffect::SetBorderOffset { .. } => Some(BuiltinActionKind::SetBorderOffset),
        NativeEffect::SetBorderStyle { .. } => Some(BuiltinActionKind::SetBorderStyle),
        NativeEffect::SetBorderImplementation { .. } => Some(BuiltinActionKind::SetBorderImplementation),
    }
}

/// The adjustment a native effect carries (i32).
pub open spec fn effect_adjustment_field(e: NativeEffect) -> Option<i32> {
    match e {
        NativeEffect::AdjustContainerPadding { adjustment, .. }
        | NativeEffect::AdjustWorkspacePadding { adjustment, .. } => Some(adjustment),
        _ => None,
    }
}

/// The alpha a native effect carries (TransparencyAlpha).
pub open spec fn effect_alpha_field(e: NativeEffect) -> Option<TransparencyAlpha> {
    match e {
        NativeEffect::SetTransparencyAlpha { alpha, .. } => Some(alpha),
        _ => None,
    }
}

/// The at container count a native effect carries (usize).
pub open spec fn effect_at_container_count_field(e: NativeEffect) -> Option<usize> {
    match e {
        NativeEffect::AddWorkspaceLayoutRule { at_container_count, .. }
        | NativeEffect::AddWorkspaceCustomLayoutRule { at_container_count, .. } => Some(at_container_count),
        _ => None,
    }
}

/// The axis a native effect carries (Axis).
pub open spec fn effect_axis_field(e: NativeEffect) -> Option<Axis> {
    match e {
        NativeEffect::Resize { axis, .. }
        | NativeEffect::FlipLayout { axis, .. } => Some(axis),
        _ => None,
    }
}

/// The behaviour a native effect carries (HidingBehaviour).
pub open spec fn effect_hiding_behaviour_field(e: NativeEffect) -> Option<HidingBehaviour> {
    match e {
        NativeEffect::SetWindowHidingBehaviour { behaviour, .. } => Some(behaviour),
        _ => None,
    }
}

/// The behaviour a native effect carries (MonocleFocusBehaviour).
pub open spec fn effect_monocle_behaviour_field(e: NativeEffect) -> Option<MonocleFocusBehaviour> {
    match e {
        NativeEffect::SetMonocleFocusBehaviour { behaviour, .. } => Some(behaviour),
        _ => None,
    }
}

/// The behaviour a native effect carries (MoveBehaviour).
pub open spec fn effect_move_behaviour_field(e: NativeEffect) -> Option<MoveBehaviour> {
    match e {
        NativeEffect::SetCrossMonitorMoveBehaviour { behaviour, .. } => Some(behaviour),
        _ => None,
    }
}

/// The behaviour a native effect carries (OperationBehaviour).
pub open spec fn effect_operation_behaviour_field(e: NativeEffect) -> Option<OperationBehaviour> {
    match e {
        NativeEffect::SetUnmanagedWindowOperationBehaviour { behaviour, .. } => Some(behaviour),
        _ => None,
    }
}

/// The colour a native effect carries (Rgb).
pub open spec fn effect_colour_field(e: NativeEffect) -> Option<Rgb> {
    match e {
        NativeEffect::SetBorderColour { colour, .. } => Some(colour),
        _ => None,
    }
}

/// The count a native effect carries (usize).
pub open spec fn effect_count_field(e: NativeEffect) -> Option<usize> {
    match e {
        NativeEffect::EnsureWorkspaces { count, .. } => Some(count),
        _ => None,
    }
}

/// The delta a native effect carries (Pixels).
pub open spec fn effect_delta_field(e: NativeEffect) -> Option<Pixels> {
    match e {
        NativeEffect::Resize { delta, .. }
        | NativeEffect::ResizeEdge { delta, .. } => Some(delta),
        _ => None,
    }
}

/// The direction a native effect carries (CycleDirection).
pub open spec fn effect_cycle_field(e: NativeEffect) -> Option<CycleDirection> {
    match e {
        NativeEffect::CycleFocus { direction, .. }
        | NativeEffect::CycleMove { direction, .. }
        | NativeEffect::CycleStack { direction, .. }
        | NativeEffect::CycleStackIndex { direction, .. }
        | NativeEffect::CycleFocusWorkspace { direction, .. }
        | NativeEffect::CycleFocusEmptyWorkspace { direction, .. }
        | NativeEffect::CycleFocusMonitor { direction, .. }
        | NativeEffect::CycleLayout { direction, .. }
        | NativeEffect::CycleMoveContainerToWorkspace { direction, .. }
        | NativeEffect::CycleSendContainerToWorkspace { direction, .. }
        | NativeEffect::CycleMoveContainerToMonitor { direction, .. }
        | NativeEffect::CycleSendContainerToMonitor { direction, .. }
        | NativeEffect::CycleMoveWorkspaceToMonitor { direction, .. } => Some(direction),
        _ => None,
    }
}

/// The direction a native effect carries (OperationDirection).
pub open spec fn effect_direction_field(e: NativeEffect) -> Option<OperationDirection> {
    match e {
        NativeEffect::FocusNeighbor { direction, .. }
        | NativeEffect::MoveNeighbor { direction, .. }
        | NativeEffect::Stack { direction, .. }
        | NativeEffect::PromoteWindow { direction, .. }
        | NativeEffect::PreselectDirection { direction, .. }
        | NativeEffect::ResizeEdge { direction, .. } => Some(direction),
        _ => None,
    }
}

/// The enabled a native effect carries (bool).
pub open spec fn effect_enabled_field(e: NativeEffect) -> Option<bool> {
    match e {
        NativeEffect::SetTransparencyEnabled { enabled, .. }
        | NativeEffect::SetBorderEnabled { enabled, .. }
        | NativeEffect::SetMouseFollowsFocus { enabled, .. }
        | NativeEffect::SetFocusFollowsMouse { enabled, .. } => Some(enabled),
        _ => None,
    }
}

/// The tile a native effect carries (bool).
pub open spec fn effect_tile_field(e: NativeEffect) -> Option<bool> {
    match e {
        NativeEffect::SetWorkspaceTiling { tile, .. } => Some(tile),
        _ => None,
    }
}

/// The implementation a native effect carries (BorderImplementation).
pub open spec fn effect_border_implementation_field(e: NativeEffect) -> Option<BorderImplementation> {
    match e {
        NativeEffect::SetBorderEnabled { implementation, .. }
        | NativeEffect::SetBorderImplementation { implementation, .. } => Some(implementation),
        _ => None,
    }
}

/// The implementation a native effect carries (FocusFollowsMouseImplementation).
pub open spec fn effect_ffm_implementation_field(e: NativeEffect) -> Option<FocusFollowsMouseImplementation> {
    match e {
        NativeEffect::SetFocusFollowsMouse { implementation, .. }
        | NativeEffect::ToggleFocusFollowsMouse { implementation, .. } => Some(implementation),
        _ => None,
    }
}

/// The layout a native effect carries (DefaultLayout).
pub open spec fn effect_layout_field(e: NativeEffect) -> Option<DefaultLayout> {
    match e {
        NativeEffect::SetLayout { layout, .. }
        | NativeEffect::SetMonitorWorkspaceLayout { layout, .. }
        | NativeEffect::AddWorkspaceLayoutRule { layout, .. } => Some(layout),
        _ => None,
    }
}

/// The offset a native effect carries (BorderOffset).
pub open spec fn effect_offset_field(e: NativeEffect) -> Option<BorderOffset> {
    match e {
        NativeEffect::SetBorderOffset { offset, .. } => Some(offset),
        _ => None,
    }
}

/// The width a native effect carries (BorderWidth).
pub open spec fn effect_width_field(e: NativeEffect) -> Option<BorderWidth> {
    match e {
        NativeEffect::SetBorderWidth { width, .. } => Some(width),
        _ => None,
    }
}

/// The style a native effect carries (BorderStyle).
pub open spec fn effect_style_field(e: NativeEffect) -> Option<BorderStyle> {
    match e {
        NativeEffect::SetBorderStyle { style, .. } => Some(style),
        _ => None,
    }
}

/// The step a native effect carries (ResizeStep).
pub open spec fn effect_step_field(e: NativeEffect) -> Option<ResizeStep> {
    match e {
        NativeEffect::SetResizeStep { step, .. } => Some(step),
        _ => None,
    }
}

/// The size a native effect carries (i32).
pub open spec fn effect_size_field(e: NativeEffect) -> Option<i32> {
    match e {
        NativeEffect::SetFocusedContainerPadding { size, .. }
        | NativeEffect::SetFocusedWorkspacePadding { size, .. }
        | NativeEffect::SetContainerPadding { size, .. }
        | NativeEffect::SetWorkspacePadding { size, .. } => Some(size),
        _ => None,
    }
}

/// The sizing a native effect carries (Sizing).
pub open spec fn effect_sizing_field(e: NativeEffect) -> Option<Sizing> {
    match e {
        NativeEffect::AdjustContainerPadding { sizing, .. }
        | NativeEffect::AdjustWorkspacePadding { sizing, .. } => Some(sizing),
        _ => None,
    }
}

/// The window kind a native effect carries (WindowKind).
pub open spec fn effect_window_kind_field(e: NativeEffect) -> Option<WindowKind> {
    match e {
        NativeEffect::SetBorderColour { window_kind, .. } => Some(window_kind),
        _ => None,
    }
}

/// The name a native effect carries (WorkspaceName).
pub open spec fn effect_name_field(e: NativeEffect) -> Option<WorkspaceName> {
    match e {
        NativeEffect::SetWorkspaceName { name, .. } => Some(name),
        _ => None,
    }
}

/// The monitor a native effect carries (MonitorIndex).
pub open spec fn effect_monitor_field(e: NativeEffect) -> Option<MonitorIndex> {
    match e {
        NativeEffect::FocusMonitorWorkspace { monitor, .. }
        | NativeEffect::MoveContainerToMonitorWorkspace { monitor, .. }
        | NativeEffect::SendContainerToMonitorWorkspace { monitor, .. }
        | NativeEffect::SetContainerPadding { monitor, .. }
        | NativeEffect::SetWorkspacePadding { monitor, .. }
        | NativeEffect::SetWorkspaceTiling { monitor, .. }
        | NativeEffect::SetMonitorWorkspaceLayout { monitor, .. }
        | NativeEffect::EnsureWorkspaces { monitor, .. }
        | NativeEffect::ClearWorkspaceLayoutRules { monitor, .. }
        | NativeEffect::LockContainer { monitor, .. }
        | NativeEffect::UnlockContainer { monitor, .. }
        | NativeEffect::AddWorkspaceLayoutRule { monitor, .. }
        | NativeEffect::SetWorkspaceCustomLayout { monitor, .. }
        | NativeEffect::AddWorkspaceCustomLayoutRule { monitor, .. }
        | NativeEffect::EnsureNamedWorkspaces { monitor, .. }
        | NativeEffect::SetWorkspaceName { monitor, .. } => Some(monitor),
        _ => None,
    }
}

/// The workspace a native effect carries (WorkspaceIndex).
pub open spec fn effect_workspace_field(e: NativeEffect) -> Option<WorkspaceIndex> {
    match e {
        NativeEffect::FocusMonitorWorkspace { workspace, .. }
        | NativeEffect::MoveContainerToMonitorWorkspace { workspace, .. }
        | NativeEffect::SendContainerToMonitorWorkspace { workspace, .. }
        | NativeEffect::SetContainerPadding { workspace, .. }
        | NativeEffect::SetWorkspacePadding { workspace, .. }
        | NativeEffect::SetWorkspaceTiling { workspace, .. }
        | NativeEffect::SetMonitorWorkspaceLayout { workspace, .. }
        | NativeEffect::ClearWorkspaceLayoutRules { workspace, .. }
        | NativeEffect::LockContainer { workspace, .. }
        | NativeEffect::UnlockContainer { workspace, .. }
        | NativeEffect::AddWorkspaceLayoutRule { workspace, .. }
        | NativeEffect::SetWorkspaceCustomLayout { workspace, .. }
        | NativeEffect::AddWorkspaceCustomLayoutRule { workspace, .. }
        | NativeEffect::SetWorkspaceName { workspace, .. } => Some(workspace),
        _ => None,
    }
}

/// The container a native effect carries (ContainerIndex).
pub open spec fn effect_container_field(e: NativeEffect) -> Option<ContainerIndex> {
    match e {
        NativeEffect::LockContainer { container, .. }
        | NativeEffect::UnlockContainer { container, .. } => Some(container),
        _ => None,
    }
}

/// The path a native effect carries (WindowsPath).
pub open spec fn effect_path_field(e: NativeEffect) -> Option<WindowsPath> {
    match e {
        NativeEffect::SetCustomLayout { path, .. }
        | NativeEffect::SetWorkspaceCustomLayout { path, .. }
        | NativeEffect::AddWorkspaceCustomLayoutRule { path, .. } => Some(path),
        _ => None,
    }
}

/// The columns a native effect carries (usize).
pub open spec fn effect_columns_field(e: NativeEffect) -> Option<usize> {
    match e {
        NativeEffect::SetScrollingColumns { columns, .. } => Some(columns),
        _ => None,
    }
}

/// The single position a native effect carries as `index`.
pub open spec fn effect_index_field(e: NativeEffect) -> Option<usize> {
    match e {
        NativeEffect::FocusStack { index, .. } => Some(index.value),
        NativeEffect::FocusWorkspace { index, .. } => Some(index.value),
        NativeEffect::FocusMonitor { index, .. } => Some(index.value),
        NativeEffect::FocusWorkspaceOnAllMonitors { index, .. } => Some(index.value),
        NativeEffect::MoveContainerToWorkspace { index, .. } => Some(index.value),
        NativeEffect::SendContainerToWorkspace { index, .. } => Some(index.value),
        NativeEffect::MoveContainerToMonitor { index, .. } => Some(index.value),
        NativeEffect::SendContainerToMonitor { index, .. } => Some(index.value),
        NativeEffect::MoveWorkspaceToMonitor { index, .. } => Some(index.value),
        NativeEffect::SwapWorkspacesToMonitor { index, .. } => Some(index.value),
        _ => None,
    }
}

/// Whether a native effect carries every value of the action it carries out:
/// the same direction, axis, delta, sizing, positions, layout, sizes,
/// switches, behaviours, settings, names and paths.
pub open spec fn effect_carries_action(a: BuiltinAction, e: NativeEffect) -> bool {
    &&& adjustment_field(a) matches Some(x) ==> effect_adjustment_field(e) == Some(x)
    &&& alpha_field(a) matches Some(x) ==> effect_alpha_field(e) == Some(x)
    &&& at_container_count_field(a) matches Some(x) ==> effect_at_container_count_field(e) == Some(x)
    &&& axis_field(a) matches Some(x) ==> effect_axis_field(e) == Some(x)
    &&& hiding_behaviour_field(a) matches Some(x) ==> effect_hiding_behaviour_field(e) == Some(x)
    &&& monocle_behaviour_field(a) matches Some(x) ==> effect_monocle_behaviour_field(e) == Some(x)
    &&& move_behaviour_field(a) matches Some(x) ==> effect_move_behaviour_field(e) == Some(x)
    &&& operation_behaviour_field(a) matches Some(x) ==> effect_operation_behaviour_field(e) == Some(x)
    &&& colour_field(a) matches Some(x) ==> effect_colour_field(e) == Some(x)
    &&& count_field(a) matches Some(x) ==> effect_count_field(e) == Some(x)
    &&& delta_field(a) matches Some(x) ==> effect_delta_field(e) == Some(x)
    &&& cycle_field(a) matches Some(x) ==> effect_cycle_field(e) == Some(x)
    &&& direction_field(a) matches Some(x) ==> effect_direction_field(e) == Some(x)
    &&& enabled_field(a) matches Some(x) ==> effect_enabled_field(e) == Some(x)
    &&& tile_field(a) matches Some(x) ==> effect_tile_field(e) == Some(x)
    &&& border_implementation_field(a) matches Some(x) ==> effect_border_implementation_field(e) == Some(x)
    &&& ffm_implementation_field(a) matches Some(x) ==> effect_ffm_implementation_field(e) == Some(x)
    &&& layout_field(a) matches Some(x) ==> effect_layout_field(e) == Some(x)
    &&& offset_field(a) matches Some(x) ==> effect_offset_field(e) == Some(x)
    &&& width_field(a) matches Some(x) ==> effect_width_field(e) == Some(x)
    &&& style_field(a) matches Some(x) ==> effect_style_field(e) == Some(x)
    &&& step_field(a) matches Some(x) ==> effect_step_field(e) == Some(x)
    &&& size_field(a) matches Some(x) ==> effect_size_field(e) == Some(x)
    &&& sizing_field(a) matches Some(x) ==> effect_sizing_field(e) == Some(x)
    &&& window_kind_field(a) matches Some(x) ==> effect_window_kind_field(e) == Some(x)
    &&& name_field(a) matches Some(x) ==> effect_name_field(e) == Some(x)
    &&& monitor_field(a) matches Some(x) ==> effect_monitor_field(e) == Some(x)
    &&& workspace_field(a) matches Some(x) ==> effect_workspace_field(e) == Some(x)
    &&& path_field(a) matches Some(x) ==> effect_path_field(e) == Some(x)
    &&& index_field(a) matches Some(x) ==> effect_index_field(e) == Some(x)
}

/// The kind of action a logical result reports on; each result reports on
/// one kind.
pub open spec fn result_reports(r: ActionResult) -> Option<BuiltinActionKind> {
    match r {
        ActionResult::Focused { .. } => Some(BuiltinActionKind::FocusWindow),
        ActionResult::Moved { .. } => Some(BuiltinActionKind::MoveWindow),
        ActionResult::Resized { .. } => Some(BuiltinActionKind::ResizeWindow),
        ActionResult::LayoutSet { .. } => Some(BuiltinActionKind::SetWorkspaceLayout),
        ActionResult::FloatToggled { .. } => Some(BuiltinActionKind::ToggleWindowFloat),
        ActionResult::CycleFocused { .. } => Some(BuiltinActionKind::CycleFocusWindow),
        ActionResult::CycleMoved { .. } => Some(BuiltinActionKind::CycleMoveWindow),
        ActionResult::MonocleToggled => Some(BuiltinActionKind::ToggleWindowMonocle),
        ActionResult::MaximizeToggled => Some(BuiltinActionKind::ToggleWindowMaximize),
        ActionResult::LockToggled => Some(BuiltinActionKind::ToggleContainerLock),
        ActionResult::Stacked { .. } => Some(BuiltinActionKind::StackWindow),
        ActionResult::Unstacked => Some(BuiltinActionKind::UnstackWindow),
        ActionResult::StackedAll => Some(BuiltinActionKind::StackAll),
        ActionResult::UnstackedAll => Some(BuiltinActionKind::UnstackAll),
        ActionResult::StackCycled { .. } => Some(BuiltinActionKind::CycleStack),
        ActionResult::StackIndexCycled { .. } => Some(BuiltinActionKind::CycleStackIndex),
        ActionResult::StackWindowFocused { .. } => Some(BuiltinActionKind::FocusStackWindow),
        ActionResult::WorkspaceFocused { .. } => Some(BuiltinActionKind::FocusWorkspace),
        ActionResult::WorkspaceCycled { .. } => Some(BuiltinActionKind::CycleFocusWorkspace),
        ActionResult::EmptyWorkspaceCycled { .. } => Some(BuiltinActionKind::CycleFocusEmptyWorkspace),
        ActionResult::LastWorkspaceFocused => Some(BuiltinActionKind::FocusLastWorkspace),
        ActionResult::WorkspaceClosed => Some(BuiltinActionKind::CloseWorkspace),
        ActionResult::MonitorFocused { .. } => Some(BuiltinActionKind::FocusMonitor),
        ActionResult::MonitorCycled { .. } => Some(BuiltinActionKind::CycleFocusMonitor),
        ActionResult::MonitorAtCursorFocused => Some(BuiltinActionKind::FocusMonitorAtCursor),
        ActionResult::WorkspaceFocusedOnAllMonitors { .. } => Some(BuiltinActionKind::FocusWorkspaceOnAllMonitors),
        ActionResult::MonitorWorkspaceFocused { .. } => Some(BuiltinActionKind::FocusMonitorWorkspace),
        ActionResult::WindowClosed => Some(BuiltinActionKind::CloseWindow),
        ActionResult::WindowMinimized => Some(BuiltinActionKind::MinimizeWindow),
        ActionResult::FocusForced => Some(BuiltinActionKind::ForceFocus),
        ActionResult::ContainerPromoted => Some(BuiltinActionKind::PromoteContainer),
        ActionResult::ContainerPromoteSwapped => Some(BuiltinActionKind::PromoteContainerSwap),
        ActionResult::FocusPromoted => Some(BuiltinActionKind::PromoteFocus),
        ActionResult::WindowPromoted { .. } => Some(BuiltinActionKind::PromoteWindow),
        ActionResult::WorkspaceCreated => Some(BuiltinActionKind::NewWorkspace),
        ActionResult::TilingToggled => Some(BuiltinActionKind::ToggleTiling),
        ActionResult::LayoutCycled { .. } => Some(BuiltinActionKind::CycleLayout),
        ActionResult::LayoutFlipped { .. } => Some(BuiltinActionKind::FlipLayout),
        ActionResult::WorkspaceLayerToggled => Some(BuiltinActionKind::ToggleWorkspaceLayer),
        ActionResult::ContainerMovedToLastWorkspace => Some(BuiltinActionKind::MoveContainerToLastWorkspace),
        ActionResult::ContainerSentToLastWorkspace => Some(BuiltinActionKind::SendContainerToLastWorkspace),
        ActionResult::ContainerMovedToWorkspace { .. } => Some(BuiltinActionKind::MoveContainerToWorkspace),
        ActionResult::ContainerCycledToWorkspace { .. } => Some(BuiltinActionKind::CycleMoveContainerToWorkspace),
        ActionResult::ContainerSentToWorkspace { .. } => Some(BuiltinActionKind::SendContainerToWorkspace),
        ActionResult::ContainerCycleSentToWorkspace { .. } => Some(BuiltinActionKind::CycleSendContainerToWorkspace),
        ActionResult::ContainerMovedToMonitor { .. } => Some(BuiltinActionKind::MoveContainerToMonitor),
        ActionResult::ContainerCycledToMonitor { .. } => Some(BuiltinActionKind::CycleMoveContainerToMonitor),
        ActionResult::ContainerSentToMonitor { .. } => Some(BuiltinActionKind::SendContainerToMonitor),
        ActionResult::ContainerCycleSentToMonitor { .. } => Some(BuiltinActionKind::CycleSendContainerToMonitor),
        ActionResult::ContainerMovedToMonitorWorkspace { .. } => Some(BuiltinActionKind::MoveContainerToMonitorWorkspace),
        ActionResult::ContainerSentToMonitorWorkspace { .. } => Some(BuiltinActionKind::SendContainerToMonitorWorkspace),
        ActionResult::WorkspaceMovedToMonitor { .. } => Some(BuiltinActionKind::MoveWorkspaceToMonitor),
        ActionResult::WorkspaceCycledToMonitor { .. } => Some(BuiltinActionKind::CycleMoveWorkspaceToMonitor),
        ActionResult::WorkspacesSwappedToMonitor { .. } => Some(BuiltinActionKind::SwapWorkspacesToMonitor),
        ActionResult::DirectionPreselected { .. } => Some(BuiltinActionKind::PreselectDirection),
        ActionResult::PreselectCancelled => Some(BuiltinActionKind::CancelPreselect),
        ActionResult::Retiled => Some(BuiltinActionKind::Retile),
        ActionResult::RetiledWithResizeDimensions => Some(BuiltinActionKind::RetileWithResizeDimensions),
        ActionResult::FocusedWindowManaged => Some(BuiltinActionKind::ManageFocusedWindow),
        ActionResult::FocusedWindowUnmanaged => Some(BuiltinActionKind::UnmanageFocusedWindow),
        ActionResult::ContainerPaddingAdjusted { .. } => Some(BuiltinActionKind::AdjustContainerPadding),
        ActionResult::WorkspacePaddingAdjusted { .. } => Some(BuiltinActionKind::AdjustWorkspacePadding),
        ActionResult::MouseFollowsFocusToggled => Some(BuiltinActionKind::ToggleMouseFollowsFocus),
        ActionResult::MouseFollowsFocusSet { .. } => Some(BuiltinActionKind::SetMouseFollowsFocus),
        ActionResult::WindowContainerBehaviourToggled => Some(BuiltinActionKind::ToggleWindowContainerBehaviour),
        ActionResult::FloatOverrideToggled => Some(BuiltinActionKind::ToggleFloatOverride),
        ActionResult::WorkspaceWindowContainerBehaviourToggled => Some(BuiltinActionKind::ToggleWorkspaceWindowContainerBehaviour),
        ActionResult::WorkspaceFloatOverrideToggled => Some(BuiltinActionKind::ToggleWorkspaceFloatOverride),
        ActionResult::CrossMonitorMoveBehaviourToggled => Some(BuiltinActionKind::ToggleCrossMonitorMoveBehaviour),
        ActionResult::MonocleFocusBehaviourToggled => Some(BuiltinActionKind::ToggleMonocleFocusBehaviour),
        ActionResult::PauseToggled { .. } => Some(BuiltinActionKind::TogglePause),
        ActionResult::FocusedContainerPaddingSet { .. } => Some(BuiltinActionKind::SetFocusedContainerPadding),
        ActionResult::FocusedWorkspacePaddingSet { .. } => Some(BuiltinActionKind::SetFocusedWorkspacePadding),
        ActionResult::ContainerPaddingSet { .. } => Some(BuiltinActionKind::SetContainerPadding),
        ActionResult::WorkspacePaddingSet { .. } => Some(BuiltinActionKind::SetWorkspacePadding),
        ActionResult::WorkspaceTilingSet { .. } => Some(BuiltinActionKind::SetWorkspaceTiling),
        ActionResult::MonitorWorkspaceLayoutSet { .. } => Some(BuiltinActionKind::SetMonitorWorkspaceLayout),
        ActionResult::WorkspacesEnsured { .. } => Some(BuiltinActionKind::EnsureWorkspaces),
        ActionResult::WorkspaceLayoutRulesCleared { .. } => Some(BuiltinActionKind::ClearWorkspaceLayoutRules),
        ActionResult::ScrollingColumnsSet { .. } => Some(BuiltinActionKind::SetScrollingColumns),
        ActionResult::ContainerLocked { .. } => Some(BuiltinActionKind::LockContainer),
        ActionResult::ContainerUnlocked { .. } => Some(BuiltinActionKind::UnlockContainer),
        ActionResult::TitleBarsToggled => Some(BuiltinActionKind::ToggleTitleBars),
        ActionResult::WorkspaceRulesEnforced => Some(BuiltinActionKind::EnforceWorkspaceRules),
        ActionResult::SessionFloatRuleAdded => Some(BuiltinActionKind::AddSessionFloatRule),
        ActionResult::SessionFloatRulesCleared => Some(BuiltinActionKind::ClearSessionFloatRules),
        ActionResult::WindowEdgeResized { .. } => Some(BuiltinActionKind::ResizeWindowEdge),
        ActionResult::WindowHidingBehaviourSet { .. } => Some(BuiltinActionKind::SetWindowHidingBehaviour),
        ActionResult::CrossMonitorMoveBehaviourSet { .. } => Some(BuiltinActionKind::SetCrossMonitorMoveBehaviour),
        ActionResult::MonocleFocusBehaviourSet { .. } => Some(BuiltinActionKind::SetMonocleFocusBehaviour),
        ActionResult::UnmanagedWindowOperationBehaviourSet { .. } => Some(BuiltinActionKind::SetUnmanagedWindowOperationBehaviour),
        ActionResult::FocusFollowsMouseSet { .. } => Some(BuiltinActionKind::SetFocusFollowsMouse),
        ActionResult::FocusFollowsMouseToggled { .. } => Some(BuiltinActionKind::ToggleFocusFollowsMouse),
        ActionResult::WorkspaceLayoutRuleAdded { .. } => Some(BuiltinActionKind::AddWorkspaceLayoutRule),
        ActionResult::NamedWorkspacesEnsured { .. } => Some(BuiltinActionKind::EnsureNamedWorkspaces),
        ActionResult::WorkspaceNamed { .. } => Some(BuiltinActionKind::SetWorkspaceName),
        ActionResult::LayoutRatiosSet => Some(BuiltinActionKind::SetLayoutRatios),
        ActionResult::CustomLayoutSet => Some(BuiltinActionKind::SetCustomLayout),
        ActionResult::WorkspaceCustomLayoutSet { .. } => Some(BuiltinActionKind::SetWorkspaceCustomLayout),
        ActionResult::WorkspaceCustomLayoutRuleAdded { .. } => Some(BuiltinActionKind::AddWorkspaceCustomLayoutRule),
        ActionResult::EagerFocused => Some(BuiltinActionKind::EagerFocus),
        ActionResult::TitleBarRemoved => Some(BuiltinActionKind::RemoveTitleBar),
        ActionResult::ResizeStepSet { .. } => Some(BuiltinActionKind::SetResizeStep),
        ActionResult::TransparencyEnabledSet { .. } => Some(BuiltinActionKind::SetTransparencyEnabled),
        ActionResult::TransparencyToggled { .. } => Some(BuiltinActionKind::ToggleTransparency),
        ActionResult::TransparencyAlphaSet { .. } => Some(BuiltinActionKind::SetTransparencyAlpha),
        ActionResult::BorderEnabledSet { .. } => Some(BuiltinActionKind::SetBorderEnabled),
        ActionResult::BorderColourSet { .. } => Some(BuiltinActionKind::SetBorderColour),
        ActionResult::BorderWidthSet { .. } => Some(BuiltinActionKind::SetBorderWidth),
        ActionResult::BorderOffsetSet { .. } => Some(BuiltinActionKind::SetBorderOffset),
        ActionResult::BorderStyleSet { .. } => Some(BuiltinActionKind::SetBorderStyle),
        ActionResult::BorderImplementationSet { .. } => Some(BuiltinActionKind::SetBorderImplementation),
    }
}

/// The single position a logical result reports as `index`.
pub open spec fn result_index_field(r: ActionResult) -> Option<usize> {
    match r {
        ActionResult::StackWindowFocused { index, .. } => Some(index.value),
        ActionResult::WorkspaceFocused { index, .. } => Some(index.value),
        ActionResult::MonitorFocused { index, .. } => Some(index.value),
        ActionResult::WorkspaceFocusedOnAllMonitors { index, .. } => Some(index.value),
        ActionResult::ContainerMovedToWorkspace { index, .. } => Some(index.value),
        ActionResult::ContainerSentToWorkspace { index, .. } => Some(index.value),
        ActionResult::ContainerMovedToMonitor { index, .. } => Some(index.value),
        ActionResult::ContainerSentToMonitor { index, .. } => Some(index.value),
        ActionResult::WorkspaceMovedToMonitor { index, .. } => Some(index.value),
        ActionResult::WorkspacesSwappedToMonitor { index, .. } => Some(index.value),
        _ => None,
    }
}

/// Whether a logical result reports every value of the action it reports on
/// that it has room for.
pub open spec fn result_reports_action(a: BuiltinAction, r: ActionResult) -> bool {
    &&& index_field(a) matches Some(x) ==> result_index_field(r) == Some(x)
}

} // verus!
