//! The transitions of the catalog: resolving an action's contextual inputs,
//! checking it against the snapshot, applying it to the logical state, and
//! the result and effects it yields.

use vstd::prelude::*;
use crate::action::builtin_action::BuiltinAction;
use crate::action::builtin_action::Pixels;
use crate::action::builtin_action::resize_step_delta;
use crate::action::configuration::BorderConfiguration;
use crate::action::configuration::ConfigurationSnapshot;
use crate::action::configuration::TransparencyConfiguration;
use crate::action::offer::ActionSnapshot;
use crate::action::offer::SnapshotView;
use crate::action::offer::Unavailability;
use crate::action::offer::neighbor_in;
use crate::action::offer::workspace_named;
use crate::action::outcome::ActionResult;
use crate::action::outcome::NativeEffect;
use crate::manager_types::Sizing;
use crate::action::meaning::action_focus;
use crate::action::meaning::result_reports;
use crate::action::meaning::result_reports_action;
use crate::action::meaning::effect_carries_action;
use crate::action::meaning::effect_serves;
use crate::action::meaning::action_transfer;
use crate::action::meaning::effect_focus;
use crate::action::meaning::effect_transfer;
use crate::action::meaning::named_workspace;
use crate::action::meaning::path_field;
use crate::action::meaning::workspace_address;
use crate::action::meaning::workspace_operation;

verus! {

/// The actions whose inputs depend on the snapshot: resizing by the
/// configured step, and addressing a workspace by its name. They resolve
/// into other actions before they are applied.
pub open spec fn is_contextual(action: BuiltinAction) -> bool {
    match action {
        BuiltinAction::ResizeWindowByStep { .. } |
        BuiltinAction::ResizeWindowEdgeByStep { .. } |
        BuiltinAction::FocusNamedWorkspace { .. } |
        BuiltinAction::MoveContainerToNamedWorkspace { .. } |
        BuiltinAction::SendContainerToNamedWorkspace { .. } |
        BuiltinAction::SetNamedWorkspaceContainerPadding { .. } |
        BuiltinAction::SetNamedWorkspacePadding { .. } |
        BuiltinAction::SetNamedWorkspaceTiling { .. } |
        BuiltinAction::SetNamedWorkspaceLayout { .. } |
        BuiltinAction::SetNamedWorkspaceCustomLayout { .. } |
        BuiltinAction::AddNamedWorkspaceLayoutRule { .. } |
        BuiltinAction::AddNamedWorkspaceCustomLayoutRule { .. } |
        BuiltinAction::ClearNamedWorkspaceLayoutRules { .. } => true,
        _ => false,
    }
}

/// The action that runs for `action` on `snapshot`: resize steps become pixel
/// deltas, names become the first workspace with that name (or the workspace
/// is unknown), and every other action runs as it is.
pub open spec fn resolved(snapshot: SnapshotView, action: BuiltinAction) -> Result<
    BuiltinAction,
    Unavailability,
> {
    match action {
        BuiltinAction::ResizeWindowByStep { axis, sizing } => Ok(
            BuiltinAction::ResizeWindow { axis, delta: resize_step_delta(snapshot.5.resize_step, sizing) },
        ),
        BuiltinAction::ResizeWindowEdgeByStep { direction, sizing } => Ok(
            BuiltinAction::ResizeWindowEdge {
                direction,
                delta: resize_step_delta(snapshot.5.resize_step, sizing),
            },
        ),
        BuiltinAction::FocusNamedWorkspace { name } => match workspace_named(snapshot.7, name.text()) {
            Some((monitor, workspace)) => Ok(BuiltinAction::FocusMonitorWorkspace { monitor, workspace }),
            None => Err(Unavailability::UnknownWorkspace),
        },
        BuiltinAction::MoveContainerToNamedWorkspace { name } => match workspace_named(snapshot.7, name.text()) {
            Some((monitor, workspace)) => Ok(BuiltinAction::MoveContainerToMonitorWorkspace { monitor, workspace }),
            None => Err(Unavailability::UnknownWorkspace),
        },
        BuiltinAction::SendContainerToNamedWorkspace { name } => match workspace_named(snapshot.7, name.text()) {
            Some((monitor, workspace)) => Ok(BuiltinAction::SendContainerToMonitorWorkspace { monitor, workspace }),
            None => Err(Unavailability::UnknownWorkspace),
        },
        BuiltinAction::SetNamedWorkspaceContainerPadding { name, size } => match workspace_named(snapshot.7, name.text()) {
            Some((monitor, workspace)) => Ok(BuiltinAction::SetContainerPadding { monitor, workspace, size }),
            None => Err(Unavailability::UnknownWorkspace),
        },
        BuiltinAction::SetNamedWorkspacePadding { name, size } => match workspace_named(snapshot.7, name.text()) {
            Some((monitor, workspace)) => Ok(BuiltinAction::SetWorkspacePadding { monitor, workspace, size }),
            None => Err(Unavailability::UnknownWorkspace),
        },
        BuiltinAction::SetNamedWorkspaceTiling { name, tile } => match workspace_named(snapshot.7, name.text()) {
            Some((monitor, workspace)) => Ok(BuiltinAction::SetWorkspaceTiling { monitor, workspace, tile }),
            None => Err(Unavailability::UnknownWorkspace),
        },
        BuiltinAction::SetNamedWorkspaceLayout { name, layout } => match workspace_named(snapshot.7, name.text()) {
            Some((monitor, workspace)) => Ok(BuiltinAction::SetMonitorWorkspaceLayout { monitor, workspace, layout }),
            None => Err(Unavailability::UnknownWorkspace),
        },
        BuiltinAction::SetNamedWorkspaceCustomLayout { name, path } => match workspace_named(snapshot.7, name.text()) {
            Some((monitor, workspace)) => Ok(BuiltinAction::SetWorkspaceCustomLayout { monitor, workspace, path }),
            None => Err(Unavailability::UnknownWorkspace),
        },
        BuiltinAction::AddNamedWorkspaceLayoutRule { name, at_container_count, layout } => match workspace_named(snapshot.7, name.text()) {
            Some((monitor, workspace)) => Ok(BuiltinAction::AddWorkspaceLayoutRule { monitor, workspace, at_container_count, layout }),
            None => Err(Unavailability::UnknownWorkspace),
        },
        BuiltinAction::AddNamedWorkspaceCustomLayoutRule { name, at_container_count, path } => match workspace_named(snapshot.7, name.text()) {
            Some((monitor, workspace)) => Ok(BuiltinAction::AddWorkspaceCustomLayoutRule { monitor, workspace, at_container_count, path }),
            None => Err(Unavailability::UnknownWorkspace),
        },
        BuiltinAction::ClearNamedWorkspaceLayoutRules { name } => match workspace_named(snapshot.7, name.text()) {
            Some((monitor, workspace)) => Ok(BuiltinAction::ClearWorkspaceLayoutRules { monitor, workspace }),
            None => Err(Unavailability::UnknownWorkspace),
        },
        _ => Ok(action),
    }
}

pub fn resolve_contextual_inputs(snapshot: &ActionSnapshot, action: BuiltinAction) -> (r: Result<
    BuiltinAction,
    Unavailability,
>)
    ensures
        r == resolved(snapshot@, action),
{
    match action {
        BuiltinAction::ResizeWindowByStep { axis, sizing } => Ok(
            BuiltinAction::ResizeWindow {
                axis,
                delta: Pixels::from_resize_step(snapshot.configuration.resize_step, sizing),
            },
        ),
        BuiltinAction::ResizeWindowEdgeByStep { direction, sizing } => Ok(
            BuiltinAction::ResizeWindowEdge {
                direction,
                delta: Pixels::from_resize_step(snapshot.configuration.resize_step, sizing),
            },
        ),
        BuiltinAction::FocusNamedWorkspace { name } => match snapshot.workspace_by_name(&name) {
            Some((monitor, workspace)) => Ok(BuiltinAction::FocusMonitorWorkspace { monitor, workspace }),
            None => Err(Unavailability::UnknownWorkspace),
        },
        BuiltinAction::MoveContainerToNamedWorkspace { name } => match snapshot.workspace_by_name(&name) {
            Some((monitor, workspace)) => Ok(BuiltinAction::MoveContainerToMonitorWorkspace { monitor, workspace }),
            None => Err(Unavailability::UnknownWorkspace),
        },
        BuiltinAction::SendContainerToNamedWorkspace { name } => match snapshot.workspace_by_name(&name) {
            Some((monitor, workspace)) => Ok(BuiltinAction::SendContainerToMonitorWorkspace { monitor, workspace }),
            None => Err(Unavailability::UnknownWorkspace),
        },
        BuiltinAction::SetNamedWorkspaceContainerPadding { name, size } => match snapshot.workspace_by_name(&name) {
            Some((monitor, workspace)) => Ok(BuiltinAction::SetContainerPadding { monitor, workspace, size }),
            None => Err(Unavailability::UnknownWorkspace),
        },
        BuiltinAction::SetNamedWorkspacePadding { name, size } => match snapshot.workspace_by_name(&name) {
            Some((monitor, workspace)) => Ok(BuiltinAction::SetWorkspacePadding { monitor, workspace, size }),
            None => Err(Unavailability::UnknownWorkspace),
        },
        BuiltinAction::SetNamedWorkspaceTiling { name, tile } => match snapshot.workspace_by_name(&name) {
            Some((monitor, workspace)) => Ok(BuiltinAction::SetWorkspaceTiling { monitor, workspace, tile }),
            None => Err(Unavailability::UnknownWorkspace),
        },
        BuiltinAction::SetNamedWorkspaceLayout { name, layout } => match snapshot.workspace_by_name(&name) {
            Some((monitor, workspace)) => Ok(BuiltinAction::SetMonitorWorkspaceLayout { monitor, workspace, layout }),
            None => Err(Unavailability::UnknownWorkspace),
        },
        BuiltinAction::SetNamedWorkspaceCustomLayout { name, path } => match snapshot.workspace_by_name(&name) {
            Some((monitor, workspace)) => Ok(BuiltinAction::SetWorkspaceCustomLayout { monitor, workspace, path }),
            None => Err(Unavailability::UnknownWorkspace),
        },
        BuiltinAction::AddNamedWorkspaceLayoutRule { name, at_container_count, layout } => match snapshot.workspace_by_name(&name) {
            Some((monitor, workspace)) => Ok(BuiltinAction::AddWorkspaceLayoutRule { monitor, workspace, at_container_count, layout }),
            None => Err(Unavailability::UnknownWorkspace),
        },
        BuiltinAction::AddNamedWorkspaceCustomLayoutRule { name, at_container_count, path } => match snapshot.workspace_by_name(&name) {
            Some((monitor, workspace)) => Ok(BuiltinAction::AddWorkspaceCustomLayoutRule { monitor, workspace, at_container_count, path }),
            None => Err(Unavailability::UnknownWorkspace),
        },
        BuiltinAction::ClearNamedWorkspaceLayoutRules { name } => match snapshot.workspace_by_name(&name) {
            Some((monitor, workspace)) => Ok(BuiltinAction::ClearWorkspaceLayoutRules { monitor, workspace }),
            None => Err(Unavailability::UnknownWorkspace),
        },
        other => Ok(other),
    }
}

/// The reason a directional action cannot run on the snapshot: there is no
/// window in its direction.
pub open spec fn directional_gap_of(snapshot: SnapshotView, action: BuiltinAction) -> Option<
    Unavailability,
> {
    match action {
        BuiltinAction::FocusWindow { direction }
        | BuiltinAction::MoveWindow { direction }
        | BuiltinAction::PromoteWindow { direction } => if snapshot.3.has(direction) {
            None
        } else {
            Some(Unavailability::NoWindowInDirection)
        },
        _ => None,
    }
}

pub fn directional_gap(snapshot: &ActionSnapshot, action: &BuiltinAction) -> (r: Option<
    Unavailability,
>)
    ensures
        r == directional_gap_of(snapshot@, *action),
{
    match action {
        BuiltinAction::FocusWindow { direction }
        | BuiltinAction::MoveWindow { direction }
        | BuiltinAction::PromoteWindow { direction } => if neighbor_in(snapshot, *direction) {
            None
        } else {
            Some(Unavailability::NoWindowInDirection)
        },
        _ => None,
    }
}

pub open spec fn with_configuration(s: SnapshotView, c: ConfigurationSnapshot) -> SnapshotView {
    (s.0, s.1, s.2, s.3, s.4, c, s.6, s.7, s.8)
}

/// The snapshot after an action, as far as the catalog tracks it: the layout,
/// the resize step, transparency and border settings, floating and pausing.
/// Every other action leaves the snapshot as it is.
pub open spec fn logically_applied(s: SnapshotView, action: BuiltinAction) -> SnapshotView {
    let c = s.5;
    match action {
        BuiltinAction::SetWorkspaceLayout { layout, .. } => (s.0, s.1, s.2, s.3, layout, s.5, s.6, s.7, s.8),
        BuiltinAction::SetResizeStep { step } => with_configuration(
            s,
            ConfigurationSnapshot { resize_step: step, ..c },
        ),
        BuiltinAction::SetTransparencyEnabled { enabled } => with_configuration(
            s,
            ConfigurationSnapshot { transparency: TransparencyConfiguration { enabled, ..c.transparency }, ..c },
        ),
        BuiltinAction::ToggleTransparency => with_configuration(
            s,
            ConfigurationSnapshot {
                transparency: TransparencyConfiguration {
                    enabled: !c.transparency.enabled,
                    ..c.transparency
                },
                ..c
            },
        ),
        BuiltinAction::SetTransparencyAlpha { alpha } => with_configuration(
            s,
            ConfigurationSnapshot { transparency: TransparencyConfiguration { alpha, ..c.transparency }, ..c },
        ),
        BuiltinAction::SetBorderEnabled { enabled } => with_configuration(
            s,
            ConfigurationSnapshot { border: BorderConfiguration { enabled, ..c.border }, ..c },
        ),
        BuiltinAction::SetBorderWidth { width } => with_configuration(
            s,
            ConfigurationSnapshot { border: BorderConfiguration { width, ..c.border }, ..c },
        ),
        BuiltinAction::SetBorderOffset { offset } => with_configuration(
            s,
            ConfigurationSnapshot { border: BorderConfiguration { offset, ..c.border }, ..c },
        ),
        BuiltinAction::SetBorderStyle { style } => with_configuration(
            s,
            ConfigurationSnapshot { border: BorderConfiguration { style, ..c.border }, ..c },
        ),
        BuiltinAction::SetBorderImplementation { implementation } => with_configuration(
            s,
            ConfigurationSnapshot { border: BorderConfiguration { implementation, ..c.border }, ..c },
        ),
        BuiltinAction::ToggleWindowFloat { .. } => (s.0, s.1, s.2, s.3, s.4, s.5, !s.6, s.7, s.8),
        BuiltinAction::TogglePause => (s.0, !s.1, s.2, s.3, s.4, s.5, s.6, s.7, s.8),
        _ => s,
    }
}

pub fn apply_logical(snapshot: &mut ActionSnapshot, action: &BuiltinAction)
    ensures
        final(snapshot)@ == logically_applied(old(snapshot)@, *action),
        *action matches BuiltinAction::SetWorkspaceLayout { layout, .. } ==> final(snapshot).current_layout
            == layout,
        *action matches BuiltinAction::SetResizeStep { step } ==> final(snapshot).configuration.resize_step == step,
        *action matches BuiltinAction::SetTransparencyEnabled { enabled } ==> final(snapshot).configuration.transparency.enabled == enabled,
        *action matches BuiltinAction::SetTransparencyAlpha { alpha } ==> final(snapshot).configuration.transparency.alpha == alpha,
        *action matches BuiltinAction::SetBorderEnabled { enabled } ==> final(snapshot).configuration.border.enabled == enabled,
        *action matches BuiltinAction::SetBorderWidth { width } ==> final(snapshot).configuration.border.width == width,
        *action matches BuiltinAction::SetBorderOffset { offset } ==> final(snapshot).configuration.border.offset == offset,
        *action matches BuiltinAction::SetBorderStyle { style } ==> final(snapshot).configuration.border.style == style,
        *action matches BuiltinAction::SetBorderImplementation { implementation } ==> final(snapshot).configuration.border.implementation == implementation,
{
    match action {
        BuiltinAction::SetWorkspaceLayout { layout, .. } => snapshot.current_layout = *layout,
        BuiltinAction::SetResizeStep { step } => snapshot.configuration.resize_step = *step,
        BuiltinAction::SetTransparencyEnabled { enabled } => {
            snapshot.configuration.transparency.enabled = *enabled;
        },
        BuiltinAction::ToggleTransparency => {
            snapshot.configuration.transparency.enabled = !snapshot.configuration.transparency.enabled;
        },
        BuiltinAction::SetTransparencyAlpha { alpha } => {
            snapshot.configuration.transparency.alpha = *alpha;
        },
        BuiltinAction::SetBorderEnabled { enabled } => {
            snapshot.configuration.border.enabled = *enabled;
        },
        BuiltinAction::SetBorderWidth { width } => {
            snapshot.configuration.border.width = *width;
        },
        BuiltinAction::SetBorderOffset { offset } => {
            snapshot.configuration.border.offset = *offset;
        },
        BuiltinAction::SetBorderStyle { style } => {
            snapshot.configuration.border.style = *style;
        },
        BuiltinAction::SetBorderImplementation { implementation } => {
            snapshot.configuration.border.implementation = *implementation;
        },
        BuiltinAction::ToggleWindowFloat { .. } => {
            snapshot.focused_window_floating = !snapshot.focused_window_floating;
        },
        BuiltinAction::TogglePause => {
            snapshot.paused = !snapshot.paused;
        },
        _ => {},
    }
}

/// The logical result of a resolved action on the snapshot it produced; a
/// contextual action has none until it is resolved.
pub open spec fn logical_result_of(action: BuiltinAction, snapshot: SnapshotView) -> Option<
    ActionResult,
> {
    match action {
        BuiltinAction::FocusWindow { direction } => Some(ActionResult::Focused { direction }),
        BuiltinAction::MoveWindow { direction } => Some(ActionResult::Moved { direction }),
        BuiltinAction::ResizeWindow { axis, delta } => Some(ActionResult::Resized { axis, delta }),
        BuiltinAction::SetWorkspaceLayout { layout, .. } => Some(ActionResult::LayoutSet { layout }),
        BuiltinAction::ToggleWindowFloat { .. } => Some(ActionResult::FloatToggled { floating: snapshot.6 }),
        BuiltinAction::CycleFocusWindow { direction } => Some(ActionResult::CycleFocused { direction }),
        BuiltinAction::CycleMoveWindow { direction } => Some(ActionResult::CycleMoved { direction }),
        BuiltinAction::ToggleWindowMonocle { .. } => Some(ActionResult::MonocleToggled),
        BuiltinAction::ToggleWindowMaximize { .. } => Some(ActionResult::MaximizeToggled),
        BuiltinAction::ToggleContainerLock { .. } => Some(ActionResult::LockToggled),
        BuiltinAction::StackWindow { direction } => Some(ActionResult::Stacked { direction }),
        BuiltinAction::UnstackWindow { .. } => Some(ActionResult::Unstacked),
        BuiltinAction::StackAll => Some(ActionResult::StackedAll),
        BuiltinAction::UnstackAll => Some(ActionResult::UnstackedAll),
        BuiltinAction::CycleStack { direction } => Some(ActionResult::StackCycled { direction }),
        BuiltinAction::CycleStackIndex { direction } => Some(ActionResult::StackIndexCycled { direction }),
        BuiltinAction::FocusStackWindow { index } => Some(ActionResult::StackWindowFocused { index }),
        BuiltinAction::FocusWorkspace { index } => Some(ActionResult::WorkspaceFocused { index }),
        BuiltinAction::CycleFocusWorkspace { direction } => Some(ActionResult::WorkspaceCycled { direction }),
        BuiltinAction::CycleFocusEmptyWorkspace { direction } => Some(ActionResult::EmptyWorkspaceCycled { direction }),
        BuiltinAction::FocusLastWorkspace => Some(ActionResult::LastWorkspaceFocused),
        BuiltinAction::CloseWorkspace => Some(ActionResult::WorkspaceClosed),
        BuiltinAction::FocusMonitor { index } => Some(ActionResult::MonitorFocused { index }),
        BuiltinAction::CycleFocusMonitor { direction } => Some(ActionResult::MonitorCycled { direction }),
        BuiltinAction::FocusMonitorAtCursor => Some(ActionResult::MonitorAtCursorFocused),
        BuiltinAction::FocusWorkspaceOnAllMonitors { index } => Some(ActionResult::WorkspaceFocusedOnAllMonitors { index }),
        BuiltinAction::FocusMonitorWorkspace { monitor, workspace } => Some(ActionResult::MonitorWorkspaceFocused { monitor, workspace }),
        BuiltinAction::CloseWindow { .. } => Some(ActionResult::WindowClosed),
        BuiltinAction::MinimizeWindow { .. } => Some(ActionResult::WindowMinimized),
        BuiltinAction::ForceFocus { .. } => Some(ActionResult::FocusForced),
        BuiltinAction::PromoteContainer => Some(ActionResult::ContainerPromoted),
        BuiltinAction::PromoteContainerSwap => Some(ActionResult::ContainerPromoteSwapped),
        BuiltinAction::PromoteFocus => Some(ActionResult::FocusPromoted),
        BuiltinAction::PromoteWindow { direction } => Some(ActionResult::WindowPromoted { direction }),
        BuiltinAction::NewWorkspace => Some(ActionResult::WorkspaceCreated),
        BuiltinAction::ToggleTiling => Some(ActionResult::TilingToggled),
        BuiltinAction::CycleLayout { direction } => Some(ActionResult::LayoutCycled { direction }),
        BuiltinAction::FlipLayout { axis } => Some(ActionResult::LayoutFlipped { axis }),
        BuiltinAction::ToggleWorkspaceLayer => Some(ActionResult::WorkspaceLayerToggled),
        BuiltinAction::MoveContainerToLastWorkspace => Some(ActionResult::ContainerMovedToLastWorkspace),
        BuiltinAction::SendContainerToLastWorkspace => Some(ActionResult::ContainerSentToLastWorkspace),
        BuiltinAction::MoveContainerToWorkspace { index } => Some(ActionResult::ContainerMovedToWorkspace { index }),
        BuiltinAction::CycleMoveContainerToWorkspace { direction } => Some(ActionResult::ContainerCycledToWorkspace { direction }),
        BuiltinAction::SendContainerToWorkspace { index } => Some(ActionResult::ContainerSentToWorkspace { index }),
        BuiltinAction::CycleSendContainerToWorkspace { direction } => Some(ActionResult::ContainerCycleSentToWorkspace { direction }),
        BuiltinAction::MoveContainerToMonitor { index } => Some(ActionResult::ContainerMovedToMonitor { index }),
        BuiltinAction::CycleMoveContainerToMonitor { direction } => Some(ActionResult::ContainerCycledToMonitor { direction }),
        BuiltinAction::SendContainerToMonitor { index } => Some(ActionResult::ContainerSentToMonitor { index }),
        BuiltinAction::CycleSendContainerToMonitor { direction } => Some(ActionResult::ContainerCycleSentToMonitor { direction }),
        BuiltinAction::MoveContainerToMonitorWorkspace { monitor, workspace } => Some(ActionResult::ContainerMovedToMonitorWorkspace { monitor, workspace }),
        BuiltinAction::SendContainerToMonitorWorkspace { monitor, workspace } => Some(ActionResult::ContainerSentToMonitorWorkspace { monitor, workspace }),
        BuiltinAction::MoveWorkspaceToMonitor { index } => Some(ActionResult::WorkspaceMovedToMonitor { index }),
        BuiltinAction::CycleMoveWorkspaceToMonitor { direction } => Some(ActionResult::WorkspaceCycledToMonitor { direction }),
        BuiltinAction::SwapWorkspacesToMonitor { index } => Some(ActionResult::WorkspacesSwappedToMonitor { index }),
        BuiltinAction::PreselectDirection { direction } => Some(ActionResult::DirectionPreselected { direction }),
        BuiltinAction::CancelPreselect => Some(ActionResult::PreselectCancelled),
        BuiltinAction::Retile => Some(ActionResult::Retiled),
        BuiltinAction::RetileWithResizeDimensions => Some(ActionResult::RetiledWithResizeDimensions),
        BuiltinAction::ManageFocusedWindow => Some(ActionResult::FocusedWindowManaged),
        BuiltinAction::UnmanageFocusedWindow => Some(ActionResult::FocusedWindowUnmanaged),
        BuiltinAction::AdjustContainerPadding { sizing, adjustment } => Some(ActionResult::ContainerPaddingAdjusted { sizing, adjustment }),
        BuiltinAction::AdjustWorkspacePadding { sizing, adjustment } => Some(ActionResult::WorkspacePaddingAdjusted { sizing, adjustment }),
        BuiltinAction::ToggleMouseFollowsFocus => Some(ActionResult::MouseFollowsFocusToggled),
        BuiltinAction::SetMouseFollowsFocus { enabled } => Some(ActionResult::MouseFollowsFocusSet { enabled }),
        BuiltinAction::ToggleWindowContainerBehaviour => Some(ActionResult::WindowContainerBehaviourToggled),
        BuiltinAction::ToggleFloatOverride => Some(ActionResult::FloatOverrideToggled),
        BuiltinAction::ToggleWorkspaceWindowContainerBehaviour => Some(ActionResult::WorkspaceWindowContainerBehaviourToggled),
        BuiltinAction::ToggleWorkspaceFloatOverride => Some(ActionResult::WorkspaceFloatOverrideToggled),
        BuiltinAction::ToggleCrossMonitorMoveBehaviour => Some(ActionResult::CrossMonitorMoveBehaviourToggled),
        BuiltinAction::ToggleMonocleFocusBehaviour => Some(ActionResult::MonocleFocusBehaviourToggled),
        BuiltinAction::TogglePause => Some(ActionResult::PauseToggled { paused: snapshot.1 }),
        BuiltinAction::SetFocusedContainerPadding { size } => Some(ActionResult::FocusedContainerPaddingSet { size }),
        BuiltinAction::SetFocusedWorkspacePadding { size } => Some(ActionResult::FocusedWorkspacePaddingSet { size }),
        BuiltinAction::SetContainerPadding { monitor, workspace, size } => Some(ActionResult::ContainerPaddingSet { monitor, workspace, size }),
        BuiltinAction::SetWorkspacePadding { monitor, workspace, size } => Some(ActionResult::WorkspacePaddingSet { monitor, workspace, size }),
        BuiltinAction::SetWorkspaceTiling { monitor, workspace, tile } => Some(ActionResult::WorkspaceTilingSet { monitor, workspace, tile }),
        BuiltinAction::SetMonitorWorkspaceLayout { monitor, workspace, layout } => Some(ActionResult::MonitorWorkspaceLayoutSet { monitor, workspace, layout }),
        BuiltinAction::EnsureWorkspaces { monitor, count } => Some(ActionResult::WorkspacesEnsured { monitor, count }),
        BuiltinAction::ClearWorkspaceLayoutRules { monitor, workspace } => Some(ActionResult::WorkspaceLayoutRulesCleared { monitor, workspace }),
        BuiltinAction::SetScrollingColumns { columns } => Some(ActionResult::ScrollingColumnsSet { columns }),
        BuiltinAction::LockContainer { monitor, workspace, container } => Some(ActionResult::ContainerLocked { monitor, workspace, container }),
        BuiltinAction::UnlockContainer { monitor, workspace, container } => Some(ActionResult::ContainerUnlocked { monitor, workspace, container }),
        BuiltinAction::ToggleTitleBars => Some(ActionResult::TitleBarsToggled),
        BuiltinAction::EnforceWorkspaceRules => Some(ActionResult::WorkspaceRulesEnforced),
        BuiltinAction::AddSessionFloatRule => Some(ActionResult::SessionFloatRuleAdded),
        BuiltinAction::ClearSessionFloatRules => Some(ActionResult::SessionFloatRulesCleared),
        BuiltinAction::ResizeWindowEdge { direction, delta } => Some(ActionResult::WindowEdgeResized { direction, delta }),
        BuiltinAction::SetWindowHidingBehaviour { behaviour } => Some(ActionResult::WindowHidingBehaviourSet { behaviour }),
        BuiltinAction::SetCrossMonitorMoveBehaviour { behaviour } => Some(ActionResult::CrossMonitorMoveBehaviourSet { behaviour }),
        BuiltinAction::SetMonocleFocusBehaviour { behaviour } => Some(ActionResult::MonocleFocusBehaviourSet { behaviour }),
        BuiltinAction::SetUnmanagedWindowOperationBehaviour { behaviour } => Some(ActionResult::UnmanagedWindowOperationBehaviourSet { behaviour }),
        BuiltinAction::SetFocusFollowsMouse { implementation, enabled } => Some(ActionResult::FocusFollowsMouseSet { implementation, enabled }),
        BuiltinAction::ToggleFocusFollowsMouse { implementation } => Some(ActionResult::FocusFollowsMouseToggled { implementation }),
        BuiltinAction::AddWorkspaceLayoutRule { monitor, workspace, at_container_count, layout } => Some(ActionResult::WorkspaceLayoutRuleAdded { monitor, workspace, at_container_count, layout }),
        BuiltinAction::EnsureNamedWorkspaces { monitor, .. } => Some(ActionResult::NamedWorkspacesEnsured { monitor }),
        BuiltinAction::SetWorkspaceName { monitor, workspace, .. } => Some(ActionResult::WorkspaceNamed { monitor, workspace }),
        BuiltinAction::SetLayoutRatios { .. } => Some(ActionResult::LayoutRatiosSet),
        BuiltinAction::SetCustomLayout { .. } => Some(ActionResult::CustomLayoutSet),
        BuiltinAction::SetWorkspaceCustomLayout { monitor, workspace, .. } => Some(ActionResult::WorkspaceCustomLayoutSet { monitor, workspace }),
        BuiltinAction::AddWorkspaceCustomLayoutRule { monitor, workspace, at_container_count, .. } => Some(ActionResult::WorkspaceCustomLayoutRuleAdded { monitor, workspace, at_container_count }),
        BuiltinAction::EagerFocus { .. } => Some(ActionResult::EagerFocused),
        BuiltinAction::RemoveTitleBar { .. } => Some(ActionResult::TitleBarRemoved),
        BuiltinAction::SetResizeStep { step } => Some(ActionResult::ResizeStepSet { step }),
        BuiltinAction::SetTransparencyEnabled { enabled } => Some(ActionResult::TransparencyEnabledSet { enabled }),
        BuiltinAction::ToggleTransparency => Some(ActionResult::TransparencyToggled { enabled: snapshot.5.transparency.enabled }),
        BuiltinAction::SetTransparencyAlpha { alpha } => Some(ActionResult::TransparencyAlphaSet { alpha }),
        BuiltinAction::SetBorderEnabled { enabled } => Some(ActionResult::BorderEnabledSet { enabled }),
        BuiltinAction::SetBorderColour { window_kind, colour } => Some(ActionResult::BorderColourSet { window_kind, colour }),
        BuiltinAction::SetBorderWidth { width } => Some(ActionResult::BorderWidthSet { width }),
        BuiltinAction::SetBorderOffset { offset } => Some(ActionResult::BorderOffsetSet { offset }),
        BuiltinAction::SetBorderStyle { style } => Some(ActionResult::BorderStyleSet { style }),
        BuiltinAction::SetBorderImplementation { implementation } => Some(ActionResult::BorderImplementationSet { implementation }),
        _ => None,
    }
}

pub fn logical_result(action: &BuiltinAction, snapshot: &ActionSnapshot) -> (r: ActionResult)
    requires
        !is_contextual(*action),
    ensures
        logical_result_of(*action, snapshot@) == Some(r),
{
    match action {
        BuiltinAction::FocusWindow { direction } => ActionResult::Focused { direction: *direction },
        BuiltinAction::MoveWindow { direction } => ActionResult::Moved { direction: *direction },
        BuiltinAction::ResizeWindow { axis, delta } => ActionResult::Resized { axis: *axis, delta: *delta },
        BuiltinAction::SetWorkspaceLayout { layout, .. } => ActionResult::LayoutSet { layout: *layout },
        BuiltinAction::ToggleWindowFloat { .. } => ActionResult::FloatToggled { floating: snapshot.focused_window_floating },
        BuiltinAction::CycleFocusWindow { direction } => ActionResult::CycleFocused { direction: *direction },
        BuiltinAction::CycleMoveWindow { direction } => ActionResult::CycleMoved { direction: *direction },
        BuiltinAction::ToggleWindowMonocle { .. } => ActionResult::MonocleToggled,
        BuiltinAction::ToggleWindowMaximize { .. } => ActionResult::MaximizeToggled,
        BuiltinAction::ToggleContainerLock { .. } => ActionResult::LockToggled,
        BuiltinAction::StackWindow { direction } => ActionResult::Stacked { direction: *direction },
        BuiltinAction::UnstackWindow { .. } => ActionResult::Unstacked,
        BuiltinAction::StackAll => ActionResult::StackedAll,
        BuiltinAction::UnstackAll => ActionResult::UnstackedAll,
        BuiltinAction::CycleStack { direction } => ActionResult::StackCycled { direction: *direction },
        BuiltinAction::CycleStackIndex { direction } => ActionResult::StackIndexCycled { direction: *direction },
        BuiltinAction::FocusStackWindow { index } => ActionResult::StackWindowFocused { index: *index },
        BuiltinAction::FocusWorkspace { index } => ActionResult::WorkspaceFocused { index: *index },
        BuiltinAction::CycleFocusWorkspace { direction } => ActionResult::WorkspaceCycled { direction: *direction },
        BuiltinAction::CycleFocusEmptyWorkspace { direction } => ActionResult::EmptyWorkspaceCycled { direction: *direction },
        BuiltinAction::FocusLastWorkspace => ActionResult::LastWorkspaceFocused,
        BuiltinAction::CloseWorkspace => ActionResult::WorkspaceClosed,
        BuiltinAction::FocusMonitor { index } => ActionResult::MonitorFocused { index: *index },
        BuiltinAction::CycleFocusMonitor { direction } => ActionResult::MonitorCycled { direction: *direction },
        BuiltinAction::FocusMonitorAtCursor => ActionResult::MonitorAtCursorFocused,
        BuiltinAction::FocusWorkspaceOnAllMonitors { index } => ActionResult::WorkspaceFocusedOnAllMonitors { index: *index },
        BuiltinAction::FocusMonitorWorkspace { monitor, workspace } => ActionResult::MonitorWorkspaceFocused { monitor: *monitor, workspace: *workspace },
        BuiltinAction::CloseWindow { .. } => ActionResult::WindowClosed,
        BuiltinAction::MinimizeWindow { .. } => ActionResult::WindowMinimized,
        BuiltinAction::ForceFocus { .. } => ActionResult::FocusForced,
        BuiltinAction::PromoteContainer => ActionResult::ContainerPromoted,
        BuiltinAction::PromoteContainerSwap => ActionResult::ContainerPromoteSwapped,
        BuiltinAction::PromoteFocus => ActionResult::FocusPromoted,
        BuiltinAction::PromoteWindow { direction } => ActionResult::WindowPromoted { direction: *direction },
        BuiltinAction::NewWorkspace => ActionResult::WorkspaceCreated,
        BuiltinAction::ToggleTiling => ActionResult::TilingToggled,
        BuiltinAction::CycleLayout { direction } => ActionResult::LayoutCycled { direction: *direction },
        BuiltinAction::FlipLayout { axis } => ActionResult::LayoutFlipped { axis: *axis },
        BuiltinAction::ToggleWorkspaceLayer => ActionResult::WorkspaceLayerToggled,
        BuiltinAction::MoveContainerToLastWorkspace => ActionResult::ContainerMovedToLastWorkspace,
        BuiltinAction::SendContainerToLastWorkspace => ActionResult::ContainerSentToLastWorkspace,
        BuiltinAction::MoveContainerToWorkspace { index } => ActionResult::ContainerMovedToWorkspace { index: *index },
        BuiltinAction::CycleMoveContainerToWorkspace { direction } => ActionResult::ContainerCycledToWorkspace { direction: *direction },
        BuiltinAction::SendContainerToWorkspace { index } => ActionResult::ContainerSentToWorkspace { index: *index },
        BuiltinAction::CycleSendContainerToWorkspace { direction } => ActionResult::ContainerCycleSentToWorkspace { direction: *direction },
        BuiltinAction::MoveContainerToMonitor { index } => ActionResult::ContainerMovedToMonitor { index: *index },
        BuiltinAction::CycleMoveContainerToMonitor { direction } => ActionResult::ContainerCycledToMonitor { direction: *direction },
        BuiltinAction::SendContainerToMonitor { index } => ActionResult::ContainerSentToMonitor { index: *index },
        BuiltinAction::CycleSendContainerToMonitor { direction } => ActionResult::ContainerCycleSentToMonitor { direction: *direction },
        BuiltinAction::MoveContainerToMonitorWorkspace { monitor, workspace } => ActionResult::ContainerMovedToMonitorWorkspace { monitor: *monitor, workspace: *workspace },
        BuiltinAction::SendContainerToMonitorWorkspace { monitor, workspace } => ActionResult::ContainerSentToMonitorWorkspace { monitor: *monitor, workspace: *workspace },
        BuiltinAction::MoveWorkspaceToMonitor { index } => ActionResult::WorkspaceMovedToMonitor { index: *index },
        BuiltinAction::CycleMoveWorkspaceToMonitor { direction } => ActionResult::WorkspaceCycledToMonitor { direction: *direction },
        BuiltinAction::SwapWorkspacesToMonitor { index } => ActionResult::WorkspacesSwappedToMonitor { index: *index },
        BuiltinAction::PreselectDirection { direction } => ActionResult::DirectionPreselected { direction: *direction },
        BuiltinAction::CancelPreselect => ActionResult::PreselectCancelled,
        BuiltinAction::Retile => ActionResult::Retiled,
        BuiltinAction::RetileWithResizeDimensions => ActionResult::RetiledWithResizeDimensions,
        BuiltinAction::ManageFocusedWindow => ActionResult::FocusedWindowManaged,
        BuiltinAction::UnmanageFocusedWindow => ActionResult::FocusedWindowUnmanaged,
        BuiltinAction::AdjustContainerPadding { sizing, adjustment } => ActionResult::ContainerPaddingAdjusted { sizing: *sizing, adjustment: *adjustment },
        BuiltinAction::AdjustWorkspacePadding { sizing, adjustment } => ActionResult::WorkspacePaddingAdjusted { sizing: *sizing, adjustment: *adjustment },
        BuiltinAction::ToggleMouseFollowsFocus => ActionResult::MouseFollowsFocusToggled,
        BuiltinAction::SetMouseFollowsFocus { enabled } => ActionResult::MouseFollowsFocusSet { enabled: *enabled },
        BuiltinAction::ToggleWindowContainerBehaviour => ActionResult::WindowContainerBehaviourToggled,
        BuiltinAction::ToggleFloatOverride => ActionResult::FloatOverrideToggled,
        BuiltinAction::ToggleWorkspaceWindowContainerBehaviour => ActionResult::WorkspaceWindowContainerBehaviourToggled,
        BuiltinAction::ToggleWorkspaceFloatOverride => ActionResult::WorkspaceFloatOverrideToggled,
        BuiltinAction::ToggleCrossMonitorMoveBehaviour => ActionResult::CrossMonitorMoveBehaviourToggled,
        BuiltinAction::ToggleMonocleFocusBehaviour => ActionResult::MonocleFocusBehaviourToggled,
        BuiltinAction::TogglePause => ActionResult::PauseToggled { paused: snapshot.paused },
        BuiltinAction::SetFocusedContainerPadding { size } => ActionResult::FocusedContainerPaddingSet { size: *size },
        BuiltinAction::SetFocusedWorkspacePadding { size } => ActionResult::FocusedWorkspacePaddingSet { size: *size },
        BuiltinAction::SetContainerPadding { monitor, workspace, size } => ActionResult::ContainerPaddingSet { monitor: *monitor, workspace: *workspace, size: *size },
        BuiltinAction::SetWorkspacePadding { monitor, workspace, size } => ActionResult::WorkspacePaddingSet { monitor: *monitor, workspace: *workspace, size: *size },
        BuiltinAction::SetWorkspaceTiling { monitor, workspace, tile } => ActionResult::WorkspaceTilingSet { monitor: *monitor, workspace: *workspace, tile: *tile },
        BuiltinAction::SetMonitorWorkspaceLayout { monitor, workspace, layout } => ActionResult::MonitorWorkspaceLayoutSet { monitor: *monitor, workspace: *workspace, layout: *layout },
        BuiltinAction::EnsureWorkspaces { monitor, count } => ActionResult::WorkspacesEnsured { monitor: *monitor, count: *count },
        BuiltinAction::ClearWorkspaceLayoutRules { monitor, workspace } => ActionResult::WorkspaceLayoutRulesCleared { monitor: *monitor, workspace: *workspace },
        BuiltinAction::SetScrollingColumns { columns } => ActionResult::ScrollingColumnsSet { columns: *columns },
        BuiltinAction::LockContainer { monitor, workspace, container } => ActionResult::ContainerLocked { monitor: *monitor, workspace: *workspace, container: *container },
        BuiltinAction::UnlockContainer { monitor, workspace, container } => ActionResult::ContainerUnlocked { monitor: *monitor, workspace: *workspace, container: *container },
        BuiltinAction::ToggleTitleBars => ActionResult::TitleBarsToggled,
        BuiltinAction::EnforceWorkspaceRules => ActionResult::WorkspaceRulesEnforced,
        BuiltinAction::AddSessionFloatRule => ActionResult::SessionFloatRuleAdded,
        BuiltinAction::ClearSessionFloatRules => ActionResult::SessionFloatRulesCleared,
        BuiltinAction::ResizeWindowEdge { direction, delta } => ActionResult::WindowEdgeResized { direction: *direction, delta: *delta },
        BuiltinAction::SetWindowHidingBehaviour { behaviour } => ActionResult::WindowHidingBehaviourSet { behaviour: *behaviour },
        BuiltinAction::SetCrossMonitorMoveBehaviour { behaviour } => ActionResult::CrossMonitorMoveBehaviourSet { behaviour: *behaviour },
        BuiltinAction::SetMonocleFocusBehaviour { behaviour } => ActionResult::MonocleFocusBehaviourSet { behaviour: *behaviour },
        BuiltinAction::SetUnmanagedWindowOperationBehaviour { behaviour } => ActionResult::UnmanagedWindowOperationBehaviourSet { behaviour: *behaviour },
        BuiltinAction::SetFocusFollowsMouse { implementation, enabled } => ActionResult::FocusFollowsMouseSet { implementation: *implementation, enabled: *enabled },
        BuiltinAction::ToggleFocusFollowsMouse { implementation } => ActionResult::FocusFollowsMouseToggled { implementation: *implementation },
        BuiltinAction::AddWorkspaceLayoutRule { monitor, workspace, at_container_count, layout } => ActionResult::WorkspaceLayoutRuleAdded { monitor: *monitor, workspace: *workspace, at_container_count: *at_container_count, layout: *layout },
        BuiltinAction::EnsureNamedWorkspaces { monitor, .. } => ActionResult::NamedWorkspacesEnsured { monitor: *monitor },
        BuiltinAction::SetWorkspaceName { monitor, workspace, .. } => ActionResult::WorkspaceNamed { monitor: *monitor, workspace: *workspace },
        BuiltinAction::SetLayoutRatios { .. } => ActionResult::LayoutRatiosSet,
        BuiltinAction::SetCustomLayout { .. } => ActionResult::CustomLayoutSet,
        BuiltinAction::SetWorkspaceCustomLayout { monitor, workspace, .. } => ActionResult::WorkspaceCustomLayoutSet { monitor: *monitor, workspace: *workspace },
        BuiltinAction::AddWorkspaceCustomLayoutRule { monitor, workspace, at_container_count, .. } => ActionResult::WorkspaceCustomLayoutRuleAdded { monitor: *monitor, workspace: *workspace, at_container_count: *at_container_count },
        BuiltinAction::EagerFocus { .. } => ActionResult::EagerFocused,
        BuiltinAction::RemoveTitleBar { .. } => ActionResult::TitleBarRemoved,
        BuiltinAction::SetResizeStep { step } => ActionResult::ResizeStepSet { step: *step },
        BuiltinAction::SetTransparencyEnabled { enabled } => ActionResult::TransparencyEnabledSet { enabled: *enabled },
        BuiltinAction::ToggleTransparency => ActionResult::TransparencyToggled { enabled: snapshot.configuration.transparency.enabled },
        BuiltinAction::SetTransparencyAlpha { alpha } => ActionResult::TransparencyAlphaSet { alpha: *alpha },
        BuiltinAction::SetBorderEnabled { enabled } => ActionResult::BorderEnabledSet { enabled: *enabled },
        BuiltinAction::SetBorderColour { window_kind, colour } => ActionResult::BorderColourSet { window_kind: *window_kind, colour: *colour },
        BuiltinAction::SetBorderWidth { width } => ActionResult::BorderWidthSet { width: *width },
        BuiltinAction::SetBorderOffset { offset } => ActionResult::BorderOffsetSet { offset: *offset },
        BuiltinAction::SetBorderStyle { style } => ActionResult::BorderStyleSet { style: *style },
        BuiltinAction::SetBorderImplementation { implementation } => ActionResult::BorderImplementationSet { implementation: *implementation },
        _ => vstd::pervasive::unreached(),
    }
}

/// The native effect of a resolved action on the snapshot it produced; a
/// contextual action has none until it is resolved.
pub open spec fn effect_of(action: BuiltinAction, snapshot: SnapshotView) -> Option<NativeEffect> {
    match action {
        BuiltinAction::FocusWindow { direction } => Some(NativeEffect::FocusNeighbor { direction }),
        BuiltinAction::MoveWindow { direction } => Some(NativeEffect::MoveNeighbor { direction }),
        BuiltinAction::ResizeWindow { axis, delta } => Some(NativeEffect::Resize { axis, delta }),
        BuiltinAction::SetWorkspaceLayout { layout, .. } => Some(NativeEffect::SetLayout { layout }),
        BuiltinAction::ToggleWindowFloat { .. } => Some(NativeEffect::SetWindowFloating { floating: snapshot.6 }),
        BuiltinAction::CycleFocusWindow { direction } => Some(NativeEffect::CycleFocus { direction }),
        BuiltinAction::CycleMoveWindow { direction } => Some(NativeEffect::CycleMove { direction }),
        BuiltinAction::ToggleWindowMonocle { .. } => Some(NativeEffect::ToggleMonocle),
        BuiltinAction::ToggleWindowMaximize { .. } => Some(NativeEffect::ToggleMaximize),
        BuiltinAction::ToggleContainerLock { .. } => Some(NativeEffect::ToggleLock),
        BuiltinAction::StackWindow { direction } => Some(NativeEffect::Stack { direction }),
        BuiltinAction::UnstackWindow { .. } => Some(NativeEffect::Unstack),
        BuiltinAction::StackAll => Some(NativeEffect::StackAll),
        BuiltinAction::UnstackAll => Some(NativeEffect::UnstackAll),
        BuiltinAction::CycleStack { direction } => Some(NativeEffect::CycleStack { direction }),
        BuiltinAction::CycleStackIndex { direction } => Some(NativeEffect::CycleStackIndex { direction }),
        BuiltinAction::FocusStackWindow { index } => Some(NativeEffect::FocusStack { index }),
        BuiltinAction::FocusWorkspace { index } => Some(NativeEffect::FocusWorkspace { index }),
        BuiltinAction::CycleFocusWorkspace { direction } => Some(NativeEffect::CycleFocusWorkspace { direction }),
        BuiltinAction::CycleFocusEmptyWorkspace { direction } => Some(NativeEffect::CycleFocusEmptyWorkspace { direction }),
        BuiltinAction::FocusLastWorkspace => Some(NativeEffect::FocusLastWorkspace),
        BuiltinAction::CloseWorkspace => Some(NativeEffect::CloseWorkspace),
        BuiltinAction::FocusMonitor { index } => Some(NativeEffect::FocusMonitor { index }),
        BuiltinAction::CycleFocusMonitor { direction } => Some(NativeEffect::CycleFocusMonitor { direction }),
        BuiltinAction::FocusMonitorAtCursor => Some(NativeEffect::FocusMonitorAtCursor),
        BuiltinAction::FocusWorkspaceOnAllMonitors { index } => Some(NativeEffect::FocusWorkspaceOnAllMonitors { index }),
        BuiltinAction::FocusMonitorWorkspace { monitor, workspace } => Some(NativeEffect::FocusMonitorWorkspace { monitor, workspace }),
        BuiltinAction::CloseWindow { .. } => Some(NativeEffect::CloseWindow),
        BuiltinAction::MinimizeWindow { .. } => Some(NativeEffect::MinimizeWindow),
        BuiltinAction::ForceFocus { .. } => Some(NativeEffect::ForceFocus),
        BuiltinAction::PromoteContainer => Some(NativeEffect::PromoteContainer),
        BuiltinAction::PromoteContainerSwap => Some(NativeEffect::PromoteContainerSwap),
        BuiltinAction::PromoteFocus => Some(NativeEffect::PromoteFocus),
        BuiltinAction::PromoteWindow { direction } => Some(NativeEffect::PromoteWindow { direction }),
        BuiltinAction::NewWorkspace => Some(NativeEffect::CreateWorkspace),
        BuiltinAction::ToggleTiling => Some(NativeEffect::ToggleTiling),
        BuiltinAction::CycleLayout { direction } => Some(NativeEffect::CycleLayout { direction }),
        BuiltinAction::FlipLayout { axis } => Some(NativeEffect::FlipLayout { axis }),
        BuiltinAction::ToggleWorkspaceLayer => Some(NativeEffect::ToggleWorkspaceLayer),
        BuiltinAction::MoveContainerToLastWorkspace => Some(NativeEffect::MoveContainerToLastWorkspace),
        BuiltinAction::SendContainerToLastWorkspace => Some(NativeEffect::SendContainerToLastWorkspace),
        BuiltinAction::MoveContainerToWorkspace { index } => Some(NativeEffect::MoveContainerToWorkspace { index }),
        BuiltinAction::CycleMoveContainerToWorkspace { direction } => Some(NativeEffect::CycleMoveContainerToWorkspace { direction }),
        BuiltinAction::SendContainerToWorkspace { index } => Some(NativeEffect::SendContainerToWorkspace { index }),
        BuiltinAction::CycleSendContainerToWorkspace { direction } => Some(NativeEffect::CycleSendContainerToWorkspace { direction }),
        BuiltinAction::MoveContainerToMonitor { index } => Some(NativeEffect::MoveContainerToMonitor { index }),
        BuiltinAction::CycleMoveContainerToMonitor { direction } => Some(NativeEffect::CycleMoveContainerToMonitor { direction }),
        BuiltinAction::SendContainerToMonitor { index } => Some(NativeEffect::SendContainerToMonitor { index }),
        BuiltinAction::CycleSendContainerToMonitor { direction } => Some(NativeEffect::CycleSendContainerToMonitor { direction }),
        BuiltinAction::MoveContainerToMonitorWorkspace { monitor, workspace } => Some(NativeEffect::MoveContainerToMonitorWorkspace { monitor, workspace }),
        BuiltinAction::SendContainerToMonitorWorkspace { monitor, workspace } => Some(NativeEffect::SendContainerToMonitorWorkspace { monitor, workspace }),
        BuiltinAction::MoveWorkspaceToMonitor { index } => Some(NativeEffect::MoveWorkspaceToMonitor { index }),
        BuiltinAction::CycleMoveWorkspaceToMonitor { direction } => Some(NativeEffect::CycleMoveWorkspaceToMonitor { direction }),
        BuiltinAction::SwapWorkspacesToMonitor { index } => Some(NativeEffect::SwapWorkspacesToMonitor { index }),
        BuiltinAction::PreselectDirection { direction } => Some(NativeEffect::PreselectDirection { direction }),
        BuiltinAction::CancelPreselect => Some(NativeEffect::CancelPreselect),
        BuiltinAction::Retile => Some(NativeEffect::Retile),
        BuiltinAction::RetileWithResizeDimensions => Some(NativeEffect::RetileWithResizeDimensions),
        BuiltinAction::ManageFocusedWindow => Some(NativeEffect::ManageFocusedWindow),
        BuiltinAction::UnmanageFocusedWindow => Some(NativeEffect::UnmanageFocusedWindow),
        BuiltinAction::AdjustContainerPadding { sizing, adjustment } => Some(NativeEffect::AdjustContainerPadding { sizing, adjustment }),
        BuiltinAction::AdjustWorkspacePadding { sizing, adjustment } => Some(NativeEffect::AdjustWorkspacePadding { sizing, adjustment }),
        BuiltinAction::ToggleMouseFollowsFocus => Some(NativeEffect::ToggleMouseFollowsFocus),
        BuiltinAction::SetMouseFollowsFocus { enabled } => Some(NativeEffect::SetMouseFollowsFocus { enabled }),
        BuiltinAction::ToggleWindowContainerBehaviour => Some(NativeEffect::ToggleWindowContainerBehaviour),
        BuiltinAction::ToggleFloatOverride => Some(NativeEffect::ToggleFloatOverride),
        BuiltinAction::ToggleWorkspaceWindowContainerBehaviour => Some(NativeEffect::ToggleWorkspaceWindowContainerBehaviour),
        BuiltinAction::ToggleWorkspaceFloatOverride => Some(NativeEffect::ToggleWorkspaceFloatOverride),
        BuiltinAction::ToggleCrossMonitorMoveBehaviour => Some(NativeEffect::ToggleCrossMonitorMoveBehaviour),
        BuiltinAction::ToggleMonocleFocusBehaviour => Some(NativeEffect::ToggleMonocleFocusBehaviour),
        BuiltinAction::TogglePause => Some(NativeEffect::TogglePause),
        BuiltinAction::SetFocusedContainerPadding { size } => Some(NativeEffect::SetFocusedContainerPadding { size }),
        BuiltinAction::SetFocusedWorkspacePadding { size } => Some(NativeEffect::SetFocusedWorkspacePadding { size }),
        BuiltinAction::SetContainerPadding { monitor, workspace, size } => Some(NativeEffect::SetContainerPadding { monitor, workspace, size }),
        BuiltinAction::SetWorkspacePadding { monitor, workspace, size } => Some(NativeEffect::SetWorkspacePadding { monitor, workspace, size }),
        BuiltinAction::SetWorkspaceTiling { monitor, workspace, tile } => Some(NativeEffect::SetWorkspaceTiling { monitor, workspace, tile }),
        BuiltinAction::SetMonitorWorkspaceLayout { monitor, workspace, layout } => Some(NativeEffect::SetMonitorWorkspaceLayout { monitor, workspace, layout }),
        BuiltinAction::EnsureWorkspaces { monitor, count } => Some(NativeEffect::EnsureWorkspaces { monitor, count }),
        BuiltinAction::ClearWorkspaceLayoutRules { monitor, workspace } => Some(NativeEffect::ClearWorkspaceLayoutRules { monitor, workspace }),
        BuiltinAction::SetScrollingColumns { columns } => Some(NativeEffect::SetScrollingColumns { columns }),
        BuiltinAction::LockContainer { monitor, workspace, container } => Some(NativeEffect::LockContainer { monitor, workspace, container }),
        BuiltinAction::UnlockContainer { monitor, workspace, container } => Some(NativeEffect::UnlockContainer { monitor, workspace, container }),
        BuiltinAction::ToggleTitleBars => Some(NativeEffect::ToggleTitleBars),
        BuiltinAction::EnforceWorkspaceRules => Some(NativeEffect::EnforceWorkspaceRules),
        BuiltinAction::AddSessionFloatRule => Some(NativeEffect::AddSessionFloatRule),
        BuiltinAction::ClearSessionFloatRules => Some(NativeEffect::ClearSessionFloatRules),
        BuiltinAction::ResizeWindowEdge { direction, delta } => Some(NativeEffect::ResizeEdge { direction, delta }),
        BuiltinAction::SetWindowHidingBehaviour { behaviour } => Some(NativeEffect::SetWindowHidingBehaviour { behaviour }),
        BuiltinAction::SetCrossMonitorMoveBehaviour { behaviour } => Some(NativeEffect::SetCrossMonitorMoveBehaviour { behaviour }),
        BuiltinAction::SetMonocleFocusBehaviour { behaviour } => Some(NativeEffect::SetMonocleFocusBehaviour { behaviour }),
        BuiltinAction::SetUnmanagedWindowOperationBehaviour { behaviour } => Some(NativeEffect::SetUnmanagedWindowOperationBehaviour { behaviour }),
        BuiltinAction::SetFocusFollowsMouse { implementation, enabled } => Some(NativeEffect::SetFocusFollowsMouse { implementation, enabled }),
        BuiltinAction::ToggleFocusFollowsMouse { implementation } => Some(NativeEffect::ToggleFocusFollowsMouse { implementation }),
        BuiltinAction::AddWorkspaceLayoutRule { monitor, workspace, at_container_count, layout } => Some(NativeEffect::AddWorkspaceLayoutRule { monitor, workspace, at_container_count, layout }),
        BuiltinAction::EnsureNamedWorkspaces { monitor, names } => Some(NativeEffect::EnsureNamedWorkspaces { monitor, names }),
        BuiltinAction::SetWorkspaceName { monitor, workspace, name } => Some(NativeEffect::SetWorkspaceName { monitor, workspace, name }),
        BuiltinAction::SetLayoutRatios { columns, rows } => Some(NativeEffect::SetLayoutRatios { columns, rows }),
        BuiltinAction::SetCustomLayout { path } => Some(NativeEffect::SetCustomLayout { path }),
        BuiltinAction::SetWorkspaceCustomLayout { monitor, workspace, path } => Some(NativeEffect::SetWorkspaceCustomLayout { monitor, workspace, path }),
        BuiltinAction::AddWorkspaceCustomLayoutRule { monitor, workspace, at_container_count, path } => Some(NativeEffect::AddWorkspaceCustomLayoutRule { monitor, workspace, at_container_count, path }),
        BuiltinAction::EagerFocus { exe } => Some(NativeEffect::EagerFocus { exe }),
        BuiltinAction::RemoveTitleBar { identifier, id } => Some(NativeEffect::RemoveTitleBar { identifier, id }),
        BuiltinAction::SetResizeStep { step } => Some(NativeEffect::SetResizeStep { step }),
        BuiltinAction::SetTransparencyEnabled { enabled } => Some(NativeEffect::SetTransparencyEnabled { enabled }),
        BuiltinAction::ToggleTransparency => Some(NativeEffect::SetTransparencyEnabled { enabled: snapshot.5.transparency.enabled }),
        BuiltinAction::SetTransparencyAlpha { alpha } => Some(NativeEffect::SetTransparencyAlpha { alpha }),
        BuiltinAction::SetBorderEnabled { enabled } => Some(NativeEffect::SetBorderEnabled { enabled, implementation: snapshot.5.border.implementation }),
        BuiltinAction::SetBorderColour { window_kind, colour } => Some(NativeEffect::SetBorderColour { window_kind, colour }),
        BuiltinAction::SetBorderWidth { width } => Some(NativeEffect::SetBorderWidth { width }),
        BuiltinAction::SetBorderOffset { offset } => Some(NativeEffect::SetBorderOffset { offset }),
        BuiltinAction::SetBorderStyle { style } => Some(NativeEffect::SetBorderStyle { style }),
        BuiltinAction::SetBorderImplementation { implementation } => Some(NativeEffect::SetBorderImplementation { implementation }),
        _ => None,
    }
}

/// The effects of a resolved action: exactly one.
pub fn effects(action: BuiltinAction, snapshot: &ActionSnapshot) -> (r: Vec<NativeEffect>)
    requires
        !is_contextual(action),
    ensures
        r@.len() == 1,
        effect_of(action, snapshot@) == Some(r@[0]),
{
    match action {
        BuiltinAction::FocusWindow { direction } => vec![NativeEffect::FocusNeighbor { direction }],
        BuiltinAction::MoveWindow { direction } => vec![NativeEffect::MoveNeighbor { direction }],
        BuiltinAction::ResizeWindow { axis, delta } => vec![NativeEffect::Resize { axis, delta }],
        BuiltinAction::SetWorkspaceLayout { layout, .. } => vec![NativeEffect::SetLayout { layout }],
        BuiltinAction::ToggleWindowFloat { .. } => vec![NativeEffect::SetWindowFloating { floating: snapshot.focused_window_floating }],
        BuiltinAction::CycleFocusWindow { direction } => vec![NativeEffect::CycleFocus { direction }],
        BuiltinAction::CycleMoveWindow { direction } => vec![NativeEffect::CycleMove { direction }],
        BuiltinAction::ToggleWindowMonocle { .. } => vec![NativeEffect::ToggleMonocle],
        BuiltinAction::ToggleWindowMaximize { .. } => vec![NativeEffect::ToggleMaximize],
        BuiltinAction::ToggleContainerLock { .. } => vec![NativeEffect::ToggleLock],
        BuiltinAction::StackWindow { direction } => vec![NativeEffect::Stack { direction }],
        BuiltinAction::UnstackWindow { .. } => vec![NativeEffect::Unstack],
        BuiltinAction::StackAll => vec![NativeEffect::StackAll],
        BuiltinAction::UnstackAll => vec![NativeEffect::UnstackAll],
        BuiltinAction::CycleStack { direction } => vec![NativeEffect::CycleStack { direction }],
        BuiltinAction::CycleStackIndex { direction } => vec![NativeEffect::CycleStackIndex { direction }],
        BuiltinAction::FocusStackWindow { index } => vec![NativeEffect::FocusStack { index }],
        BuiltinAction::FocusWorkspace { index } => vec![NativeEffect::FocusWorkspace { index }],
        BuiltinAction::CycleFocusWorkspace { direction } => vec![NativeEffect::CycleFocusWorkspace { direction }],
        BuiltinAction::CycleFocusEmptyWorkspace { direction } => vec![NativeEffect::CycleFocusEmptyWorkspace { direction }],
        BuiltinAction::FocusLastWorkspace => vec![NativeEffect::FocusLastWorkspace],
        BuiltinAction::CloseWorkspace => vec![NativeEffect::CloseWorkspace],
        BuiltinAction::FocusMonitor { index } => vec![NativeEffect::FocusMonitor { index }],
        BuiltinAction::CycleFocusMonitor { direction } => vec![NativeEffect::CycleFocusMonitor { direction }],
        BuiltinAction::FocusMonitorAtCursor => vec![NativeEffect::FocusMonitorAtCursor],
        BuiltinAction::FocusWorkspaceOnAllMonitors { index } => vec![NativeEffect::FocusWorkspaceOnAllMonitors { index }],
        BuiltinAction::FocusMonitorWorkspace { monitor, workspace } => vec![NativeEffect::FocusMonitorWorkspace { monitor, workspace }],
        BuiltinAction::CloseWindow { .. } => vec![NativeEffect::CloseWindow],
        BuiltinAction::MinimizeWindow { .. } => vec![NativeEffect::MinimizeWindow],
        BuiltinAction::ForceFocus { .. } => vec![NativeEffect::ForceFocus],
        BuiltinAction::PromoteContainer => vec![NativeEffect::PromoteContainer],
        BuiltinAction::PromoteContainerSwap => vec![NativeEffect::PromoteContainerSwap],
        BuiltinAction::PromoteFocus => vec![NativeEffect::PromoteFocus],
        BuiltinAction::PromoteWindow { direction } => vec![NativeEffect::PromoteWindow { direction }],
        BuiltinAction::NewWorkspace => vec![NativeEffect::CreateWorkspace],
        BuiltinAction::ToggleTiling => vec![NativeEffect::ToggleTiling],
        BuiltinAction::CycleLayout { direction } => vec![NativeEffect::CycleLayout { direction }],
        BuiltinAction::FlipLayout { axis } => vec![NativeEffect::FlipLayout { axis }],
        BuiltinAction::ToggleWorkspaceLayer => vec![NativeEffect::ToggleWorkspaceLayer],
        BuiltinAction::MoveContainerToLastWorkspace => vec![NativeEffect::MoveContainerToLastWorkspace],
        BuiltinAction::SendContainerToLastWorkspace => vec![NativeEffect::SendContainerToLastWorkspace],
        BuiltinAction::MoveContainerToWorkspace { index } => vec![NativeEffect::MoveContainerToWorkspace { index }],
        BuiltinAction::CycleMoveContainerToWorkspace { direction } => vec![NativeEffect::CycleMoveContainerToWorkspace { direction }],
        BuiltinAction::SendContainerToWorkspace { index } => vec![NativeEffect::SendContainerToWorkspace { index }],
        BuiltinAction::CycleSendContainerToWorkspace { direction } => vec![NativeEffect::CycleSendContainerToWorkspace { direction }],
        BuiltinAction::MoveContainerToMonitor { index } => vec![NativeEffect::MoveContainerToMonitor { index }],
        BuiltinAction::CycleMoveContainerToMonitor { direction } => vec![NativeEffect::CycleMoveContainerToMonitor { direction }],
        BuiltinAction::SendContainerToMonitor { index } => vec![NativeEffect::SendContainerToMonitor { index }],
        BuiltinAction::CycleSendContainerToMonitor { direction } => vec![NativeEffect::CycleSendContainerToMonitor { direction }],
        BuiltinAction::MoveContainerToMonitorWorkspace { monitor, workspace } => vec![NativeEffect::MoveContainerToMonitorWorkspace { monitor, workspace }],
        BuiltinAction::SendContainerToMonitorWorkspace { monitor, workspace } => vec![NativeEffect::SendContainerToMonitorWorkspace { monitor, workspace }],
        BuiltinAction::MoveWorkspaceToMonitor { index } => vec![NativeEffect::MoveWorkspaceToMonitor { index }],
        BuiltinAction::CycleMoveWorkspaceToMonitor { direction } => vec![NativeEffect::CycleMoveWorkspaceToMonitor { direction }],
        BuiltinAction::SwapWorkspacesToMonitor { index } => vec![NativeEffect::SwapWorkspacesToMonitor { index }],
        BuiltinAction::PreselectDirection { direction } => vec![NativeEffect::PreselectDirection { direction }],
        BuiltinAction::CancelPreselect => vec![NativeEffect::CancelPreselect],
        BuiltinAction::Retile => vec![NativeEffect::Retile],
        BuiltinAction::RetileWithResizeDimensions => vec![NativeEffect::RetileWithResizeDimensions],
        BuiltinAction::ManageFocusedWindow => vec![NativeEffect::ManageFocusedWindow],
        BuiltinAction::UnmanageFocusedWindow => vec![NativeEffect::UnmanageFocusedWindow],
        BuiltinAction::AdjustContainerPadding { sizing, adjustment } => vec![NativeEffect::AdjustContainerPadding { sizing, adjustment }],
        BuiltinAction::AdjustWorkspacePadding { sizing, adjustment } => vec![NativeEffect::AdjustWorkspacePadding { sizing, adjustment }],
        BuiltinAction::ToggleMouseFollowsFocus => vec![NativeEffect::ToggleMouseFollowsFocus],
        BuiltinAction::SetMouseFollowsFocus { enabled } => vec![NativeEffect::SetMouseFollowsFocus { enabled }],
        BuiltinAction::ToggleWindowContainerBehaviour => vec![NativeEffect::ToggleWindowContainerBehaviour],
        BuiltinAction::ToggleFloatOverride => vec![NativeEffect::ToggleFloatOverride],
        BuiltinAction::ToggleWorkspaceWindowContainerBehaviour => vec![NativeEffect::ToggleWorkspaceWindowContainerBehaviour],
        BuiltinAction::ToggleWorkspaceFloatOverride => vec![NativeEffect::ToggleWorkspaceFloatOverride],
        BuiltinAction::ToggleCrossMonitorMoveBehaviour => vec![NativeEffect::ToggleCrossMonitorMoveBehaviour],
        BuiltinAction::ToggleMonocleFocusBehaviour => vec![NativeEffect::ToggleMonocleFocusBehaviour],
        BuiltinAction::TogglePause => vec![NativeEffect::TogglePause],
        BuiltinAction::SetFocusedContainerPadding { size } => vec![NativeEffect::SetFocusedContainerPadding { size }],
        BuiltinAction::SetFocusedWorkspacePadding { size } => vec![NativeEffect::SetFocusedWorkspacePadding { size }],
        BuiltinAction::SetContainerPadding { monitor, workspace, size } => vec![NativeEffect::SetContainerPadding { monitor, workspace, size }],
        BuiltinAction::SetWorkspacePadding { monitor, workspace, size } => vec![NativeEffect::SetWorkspacePadding { monitor, workspace, size }],
        BuiltinAction::SetWorkspaceTiling { monitor, workspace, tile } => vec![NativeEffect::SetWorkspaceTiling { monitor, workspace, tile }],
        BuiltinAction::SetMonitorWorkspaceLayout { monitor, workspace, layout } => vec![NativeEffect::SetMonitorWorkspaceLayout { monitor, workspace, layout }],
        BuiltinAction::EnsureWorkspaces { monitor, count } => vec![NativeEffect::EnsureWorkspaces { monitor, count }],
        BuiltinAction::ClearWorkspaceLayoutRules { monitor, workspace } => vec![NativeEffect::ClearWorkspaceLayoutRules { monitor, workspace }],
        BuiltinAction::SetScrollingColumns { columns } => vec![NativeEffect::SetScrollingColumns { columns }],
        BuiltinAction::LockContainer { monitor, workspace, container } => vec![NativeEffect::LockContainer { monitor, workspace, container }],
        BuiltinAction::UnlockContainer { monitor, workspace, container } => vec![NativeEffect::UnlockContainer { monitor, workspace, container }],
        BuiltinAction::ToggleTitleBars => vec![NativeEffect::ToggleTitleBars],
        BuiltinAction::EnforceWorkspaceRules => vec![NativeEffect::EnforceWorkspaceRules],
        BuiltinAction::AddSessionFloatRule => vec![NativeEffect::AddSessionFloatRule],
        BuiltinAction::ClearSessionFloatRules => vec![NativeEffect::ClearSessionFloatRules],
        BuiltinAction::ResizeWindowEdge { direction, delta } => vec![NativeEffect::ResizeEdge { direction, delta }],
        BuiltinAction::SetWindowHidingBehaviour { behaviour } => vec![NativeEffect::SetWindowHidingBehaviour { behaviour }],
        BuiltinAction::SetCrossMonitorMoveBehaviour { behaviour } => vec![NativeEffect::SetCrossMonitorMoveBehaviour { behaviour }],
        BuiltinAction::SetMonocleFocusBehaviour { behaviour } => vec![NativeEffect::SetMonocleFocusBehaviour { behaviour }],
        BuiltinAction::SetUnmanagedWindowOperationBehaviour { behaviour } => vec![NativeEffect::SetUnmanagedWindowOperationBehaviour { behaviour }],
        BuiltinAction::SetFocusFollowsMouse { implementation, enabled } => vec![NativeEffect::SetFocusFollowsMouse { implementation, enabled }],
        BuiltinAction::ToggleFocusFollowsMouse { implementation } => vec![NativeEffect::ToggleFocusFollowsMouse { implementation }],
        BuiltinAction::AddWorkspaceLayoutRule { monitor, workspace, at_container_count, layout } => vec![NativeEffect::AddWorkspaceLayoutRule { monitor, workspace, at_container_count, layout }],
        BuiltinAction::EnsureNamedWorkspaces { monitor, names } => vec![NativeEffect::EnsureNamedWorkspaces { monitor, names }],
        BuiltinAction::SetWorkspaceName { monitor, workspace, name } => vec![NativeEffect::SetWorkspaceName { monitor, workspace, name }],
        BuiltinAction::SetLayoutRatios { columns, rows } => vec![NativeEffect::SetLayoutRatios { columns, rows }],
        BuiltinAction::SetCustomLayout { path } => vec![NativeEffect::SetCustomLayout { path }],
        BuiltinAction::SetWorkspaceCustomLayout { monitor, workspace, path } => vec![NativeEffect::SetWorkspaceCustomLayout { monitor, workspace, path }],
        BuiltinAction::AddWorkspaceCustomLayoutRule { monitor, workspace, at_container_count, path } => vec![NativeEffect::AddWorkspaceCustomLayoutRule { monitor, workspace, at_container_count, path }],
        BuiltinAction::EagerFocus { exe } => vec![NativeEffect::EagerFocus { exe }],
        BuiltinAction::RemoveTitleBar { identifier, id } => vec![NativeEffect::RemoveTitleBar { identifier, id }],
        BuiltinAction::SetResizeStep { step } => vec![NativeEffect::SetResizeStep { step }],
        BuiltinAction::SetTransparencyEnabled { enabled } => vec![NativeEffect::SetTransparencyEnabled { enabled }],
        BuiltinAction::ToggleTransparency => vec![NativeEffect::SetTransparencyEnabled { enabled: snapshot.configuration.transparency.enabled }],
        BuiltinAction::SetTransparencyAlpha { alpha } => vec![NativeEffect::SetTransparencyAlpha { alpha }],
        BuiltinAction::SetBorderEnabled { enabled } => vec![NativeEffect::SetBorderEnabled { enabled, implementation: snapshot.configuration.border.implementation }],
        BuiltinAction::SetBorderColour { window_kind, colour } => vec![NativeEffect::SetBorderColour { window_kind, colour }],
        BuiltinAction::SetBorderWidth { width } => vec![NativeEffect::SetBorderWidth { width }],
        BuiltinAction::SetBorderOffset { offset } => vec![NativeEffect::SetBorderOffset { offset }],
        BuiltinAction::SetBorderStyle { style } => vec![NativeEffect::SetBorderStyle { style }],
        BuiltinAction::SetBorderImplementation { implementation } => vec![NativeEffect::SetBorderImplementation { implementation }],
        _ => vstd::pervasive::unreached(),
    }
}

/// Resolution leaves no contextual input behind, leaves every other action
/// as it is, and fails only for a name that no workspace has.
pub proof fn lemma_resolution_removes_context(snapshot: SnapshotView, action: BuiltinAction)
    ensures
        resolved(snapshot, action) matches Ok(r) ==> !is_contextual(r),
        !is_contextual(action) ==> resolved(snapshot, action) == Ok::<
            BuiltinAction,
            Unavailability,
        >(action),
        resolved(snapshot, action) is Err ==> is_contextual(action) && resolved(snapshot, action)
            == Err::<BuiltinAction, Unavailability>(Unavailability::UnknownWorkspace),
{
}

/// Every action without contextual inputs has a logical result and an
/// effect.
pub proof fn lemma_resolved_actions_have_outcomes(snapshot: SnapshotView, action: BuiltinAction)
    ensures
        !is_contextual(action) ==> logical_result_of(action, snapshot) is Some,
        !is_contextual(action) ==> effect_of(action, snapshot) is Some,
        is_contextual(action) ==> logical_result_of(action, snapshot) is None && effect_of(
            action,
            snapshot,
        ) is None,
{
}

/// Applying an action changes neither the state stamp, the focus, the
/// neighbours, the named workspaces nor the bindings.
pub proof fn lemma_apply_keeps_the_observed_world(snapshot: SnapshotView, action: BuiltinAction)
    ensures
        logically_applied(snapshot, action).0 == snapshot.0,
        logically_applied(snapshot, action).2 == snapshot.2,
        logically_applied(snapshot, action).3 == snapshot.3,
        logically_applied(snapshot, action).7 == snapshot.7,
        logically_applied(snapshot, action).8 == snapshot.8,
{
}

/// Toggling transparency, floating or pausing twice restores the snapshot.
pub proof fn lemma_toggles_are_involutions(snapshot: SnapshotView, action: BuiltinAction)
    requires
        action is ToggleTransparency || action is ToggleWindowFloat || action is TogglePause,
    ensures
        logically_applied(logically_applied(snapshot, action), action) == snapshot,
{
}


/// An action that sets a value the catalog tracks leaves exactly that value in
/// the snapshot: the layout, the resize step, and each transparency and
/// border setting.
pub proof fn lemma_setters_take_effect(snapshot: SnapshotView, action: BuiltinAction)
    ensures
        action matches BuiltinAction::SetWorkspaceLayout { layout, .. } ==> logically_applied(
            snapshot,
            action,
        ).4 == layout,
        action matches BuiltinAction::SetResizeStep { step } ==> logically_applied(
            snapshot,
            action,
        ).5.resize_step == step,
        action matches BuiltinAction::SetTransparencyEnabled { enabled } ==> logically_applied(
            snapshot,
            action,
        ).5.transparency.enabled == enabled,
        action matches BuiltinAction::SetTransparencyAlpha { alpha } ==> logically_applied(
            snapshot,
            action,
        ).5.transparency.alpha == alpha,
        action matches BuiltinAction::SetBorderEnabled { enabled } ==> logically_applied(
            snapshot,
            action,
        ).5.border.enabled == enabled,
        action matches BuiltinAction::SetBorderWidth { width } ==> logically_applied(
            snapshot,
            action,
        ).5.border.width == width,
        action matches BuiltinAction::SetBorderOffset { offset } ==> logically_applied(
            snapshot,
            action,
        ).5.border.offset == offset,
        action matches BuiltinAction::SetBorderStyle { style } ==> logically_applied(
            snapshot,
            action,
        ).5.border.style == style,
        action matches BuiltinAction::SetBorderImplementation { implementation } ==> logically_applied(
            snapshot,
            action,
        ).5.border.implementation == implementation,
        action matches BuiltinAction::SetBorderEnabled { enabled } ==> logically_applied(
            snapshot,
            action,
        ).5.border == (BorderConfiguration { enabled, ..snapshot.5.border }),
        action matches BuiltinAction::SetBorderWidth { width } ==> logically_applied(
            snapshot,
            action,
        ).5.border == (BorderConfiguration { width, ..snapshot.5.border }),
        action matches BuiltinAction::SetBorderOffset { offset } ==> logically_applied(
            snapshot,
            action,
        ).5.border == (BorderConfiguration { offset, ..snapshot.5.border }),
        action matches BuiltinAction::SetBorderStyle { style } ==> logically_applied(
            snapshot,
            action,
        ).5.border == (BorderConfiguration { style, ..snapshot.5.border }),
        action matches BuiltinAction::SetBorderImplementation { implementation } ==> logically_applied(
            snapshot,
            action,
        ).5.border == (BorderConfiguration { implementation, ..snapshot.5.border }),
{
}

/// Resizing by the configured step resizes along the same axis (or edge) by
/// exactly the step in the 32-bit pixel domain: outwards when growing,
/// inwards when shrinking.
pub proof fn lemma_steps_resolve_to_the_configured_step(snapshot: SnapshotView, action: BuiltinAction)
    ensures
        action matches BuiltinAction::ResizeWindowByStep { axis, sizing } ==> (resolved(
            snapshot,
            action,
        ) matches Ok(BuiltinAction::ResizeWindow { axis: a, delta }) && a == axis
            && delta.amount() == (if sizing == Sizing::Increase {
            snapshot.5.resize_step.pixels() as i32
        } else {
            (-snapshot.5.resize_step.pixels()) as i32
        })),
        action matches BuiltinAction::ResizeWindowEdgeByStep { direction, sizing } ==> (resolved(
            snapshot,
            action,
        ) matches Ok(BuiltinAction::ResizeWindowEdge { direction: d, delta }) && d == direction
            && delta.amount() == (if sizing == Sizing::Increase {
            snapshot.5.resize_step.pixels() as i32
        } else {
            (-snapshot.5.resize_step.pixels()) as i32
        })),
{
    let p = snapshot.5.resize_step.pixels();
    Pixels::lemma_amount_of(p as i32);
    Pixels::lemma_amount_of((-p) as i32);
}

/// The planned effect of an action that moves or sends the focused container
/// takes it to the same place, and the focus follows it exactly when the
/// action is a move; no other action plans such an effect. Likewise an action
/// that focuses a workspace or monitor plans a focus of the same place, and
/// no other does.
pub proof fn lemma_effects_keep_the_destination(action: BuiltinAction, snapshot: SnapshotView)
    ensures
        action_transfer(action) matches Some(t) ==> (effect_of(action, snapshot) matches Some(e)
            && effect_transfer(e) == Some(t)),
        effect_of(action, snapshot) matches Some(e) ==> (effect_transfer(e) is Some
            ==> action_transfer(action) == effect_transfer(e)),
        action_focus(action) matches Some(d) ==> (effect_of(action, snapshot) matches Some(e)
            && effect_focus(e) == Some(d)),
        effect_of(action, snapshot) matches Some(e) ==> (effect_focus(e) is Some ==> action_focus(
            action,
        ) == effect_focus(e)),
{
}

/// Resolving an action that names a workspace keeps what it does: it becomes
/// the same operation, with the same path, on the first workspace of that
/// name, addressed by monitor and position; a name no workspace has leaves
/// it unavailable.
pub proof fn lemma_resolution_keeps_the_operation(snapshot: SnapshotView, action: BuiltinAction)
    ensures
        named_workspace(action) matches Some(name) ==> match workspace_named(snapshot.7, name) {
            Some(address) => resolved(snapshot, action) matches Ok(r) && named_workspace(r) is None
                && workspace_operation(r) == workspace_operation(action) && workspace_address(r)
                == Some(address) && path_field(r) == path_field(action),
            None => resolved(snapshot, action) == Err::<BuiltinAction, Unavailability>(
                Unavailability::UnknownWorkspace,
            ),
        },
{
}


/// Whether the planned effect of an action carries out the kind of action
/// that planned it (the transparency toggle plans the setting it leads to)
/// and carries every value of that action over unchanged.
pub open spec fn effect_carried_out(action: BuiltinAction, snapshot: SnapshotView) -> bool {
    effect_of(action, snapshot) matches Some(e) ==> ((effect_serves(e) == Some(action.kind_spec())
        || (action is ToggleTransparency && e is SetTransparencyEnabled)) && effect_carries_action(
        action,
        e,
    ))
}

spec fn in_effect_group_1(action: BuiltinAction) -> bool {
    matches!(action, BuiltinAction::FocusWindow { .. } | BuiltinAction::MoveWindow { .. } | BuiltinAction::ResizeWindow { .. } | BuiltinAction::ResizeWindowByStep { .. } | BuiltinAction::SetWorkspaceLayout { .. } | BuiltinAction::ToggleWindowFloat { .. } | BuiltinAction::CycleFocusWindow { .. } | BuiltinAction::CycleMoveWindow { .. } | BuiltinAction::ToggleWindowMonocle { .. } | BuiltinAction::ToggleWindowMaximize { .. } | BuiltinAction::ToggleContainerLock { .. } | BuiltinAction::StackWindow { .. } | BuiltinAction::UnstackWindow { .. } | BuiltinAction::StackAll | BuiltinAction::UnstackAll | BuiltinAction::CycleStack { .. })
}

#[verifier::rlimit(100)]
#[verifier::spinoff_prover]
proof fn lemma_group_1_carries_out_the_action(action: BuiltinAction, snapshot: SnapshotView)
    requires
        in_effect_group_1(action),
    ensures
        effect_carried_out(action, snapshot),
{
}

spec fn in_effect_group_2(action: BuiltinAction) -> bool {
    matches!(action, BuiltinAction::CycleStackIndex { .. } | BuiltinAction::FocusStackWindow { .. } | BuiltinAction::FocusWorkspace { .. } | BuiltinAction::CycleFocusWorkspace { .. } | BuiltinAction::CycleFocusEmptyWorkspace { .. } | BuiltinAction::FocusLastWorkspace | BuiltinAction::CloseWorkspace | BuiltinAction::FocusMonitor { .. } | BuiltinAction::CycleFocusMonitor { .. } | BuiltinAction::FocusMonitorAtCursor | BuiltinAction::FocusWorkspaceOnAllMonitors { .. } | BuiltinAction::FocusMonitorWorkspace { .. } | BuiltinAction::CloseWindow { .. } | BuiltinAction::MinimizeWindow { .. } | BuiltinAction::ForceFocus { .. } | BuiltinAction::PromoteContainer)
}

#[verifier::rlimit(100)]
#[verifier::spinoff_prover]
proof fn lemma_group_2_carries_out_the_action(action: BuiltinAction, snapshot: SnapshotView)
    requires
        in_effect_group_2(action),
    ensures
        effect_carried_out(action, snapshot),
{
}

spec fn in_effect_group_3(action: BuiltinAction) -> bool {
    matches!(action, BuiltinAction::PromoteContainerSwap | BuiltinAction::PromoteFocus | BuiltinAction::PromoteWindow { .. } | BuiltinAction::NewWorkspace | BuiltinAction::ToggleTiling | BuiltinAction::CycleLayout { .. } | BuiltinAction::FlipLayout { .. } | BuiltinAction::ToggleWorkspaceLayer | BuiltinAction::MoveContainerToLastWorkspace | BuiltinAction::SendContainerToLastWorkspace | BuiltinAction::MoveContainerToWorkspace { .. } | BuiltinAction::CycleMoveContainerToWorkspace { .. } | BuiltinAction::SendContainerToWorkspace { .. } | BuiltinAction::CycleSendContainerToWorkspace { .. } | BuiltinAction::MoveContainerToMonitor { .. } | BuiltinAction::CycleMoveContainerToMonitor { .. })
}

#[verifier::rlimit(100)]
#[verifier::spinoff_prover]
proof fn lemma_group_3_carries_out_the_action(action: BuiltinAction, snapshot: SnapshotView)
    requires
        in_effect_group_3(action),
    ensures
        effect_carried_out(action, snapshot),
{
}

spec fn in_effect_group_4(action: BuiltinAction) -> bool {
    matches!(action, BuiltinAction::SendContainerToMonitor { .. } | BuiltinAction::CycleSendContainerToMonitor { .. } | BuiltinAction::MoveContainerToMonitorWorkspace { .. } | BuiltinAction::SendContainerToMonitorWorkspace { .. } | BuiltinAction::MoveWorkspaceToMonitor { .. } | BuiltinAction::CycleMoveWorkspaceToMonitor { .. } | BuiltinAction::SwapWorkspacesToMonitor { .. } | BuiltinAction::PreselectDirection { .. } | BuiltinAction::CancelPreselect | BuiltinAction::Retile | BuiltinAction::RetileWithResizeDimensions | BuiltinAction::ManageFocusedWindow | BuiltinAction::UnmanageFocusedWindow | BuiltinAction::AdjustContainerPadding { .. } | BuiltinAction::AdjustWorkspacePadding { .. } | BuiltinAction::ToggleMouseFollowsFocus)
}

#[verifier::rlimit(100)]
#[verifier::spinoff_prover]
proof fn lemma_group_4_carries_out_the_action(action: BuiltinAction, snapshot: SnapshotView)
    requires
        in_effect_group_4(action),
    ensures
        effect_carried_out(action, snapshot),
{
}

spec fn in_effect_group_5(action: BuiltinAction) -> bool {
    matches!(action, BuiltinAction::SetMouseFollowsFocus { .. } | BuiltinAction::ToggleWindowContainerBehaviour | BuiltinAction::ToggleFloatOverride | BuiltinAction::ToggleWorkspaceWindowContainerBehaviour | BuiltinAction::ToggleWorkspaceFloatOverride | BuiltinAction::ToggleCrossMonitorMoveBehaviour | BuiltinAction::ToggleMonocleFocusBehaviour | BuiltinAction::TogglePause | BuiltinAction::SetFocusedContainerPadding { .. } | BuiltinAction::SetFocusedWorkspacePadding { .. } | BuiltinAction::SetContainerPadding { .. } | BuiltinAction::SetWorkspacePadding { .. } | BuiltinAction::SetWorkspaceTiling { .. } | BuiltinAction::SetMonitorWorkspaceLayout { .. } | BuiltinAction::EnsureWorkspaces { .. } | BuiltinAction::ClearWorkspaceLayoutRules { .. })
}

#[verifier::rlimit(100)]
#[verifier::spinoff_prover]
proof fn lemma_group_5_carries_out_the_action(action: BuiltinAction, snapshot: SnapshotView)
    requires
        in_effect_group_5(action),
    ensures
        effect_carried_out(action, snapshot),
{
}

spec fn in_effect_group_6(action: BuiltinAction) -> bool {
    matches!(action, BuiltinAction::SetScrollingColumns { .. } | BuiltinAction::LockContainer { .. } | BuiltinAction::UnlockContainer { .. } | BuiltinAction::ToggleTitleBars | BuiltinAction::EnforceWorkspaceRules | BuiltinAction::AddSessionFloatRule | BuiltinAction::ClearSessionFloatRules | BuiltinAction::ResizeWindowEdge { .. } | BuiltinAction::ResizeWindowEdgeByStep { .. } | BuiltinAction::SetWindowHidingBehaviour { .. } | BuiltinAction::SetCrossMonitorMoveBehaviour { .. } | BuiltinAction::SetMonocleFocusBehaviour { .. } | BuiltinAction::SetUnmanagedWindowOperationBehaviour { .. } | BuiltinAction::SetFocusFollowsMouse { .. } | BuiltinAction::ToggleFocusFollowsMouse { .. } | BuiltinAction::AddWorkspaceLayoutRule { .. })
}

#[verifier::rlimit(100)]
#[verifier::spinoff_prover]
proof fn lemma_group_6_carries_out_the_action(action: BuiltinAction, snapshot: SnapshotView)
    requires
        in_effect_group_6(action),
    ensures
        effect_carried_out(action, snapshot),
{
}

spec fn in_effect_group_7(action: BuiltinAction) -> bool {
    matches!(action, BuiltinAction::FocusNamedWorkspace { .. } | BuiltinAction::MoveContainerToNamedWorkspace { .. } | BuiltinAction::SendContainerToNamedWorkspace { .. } | BuiltinAction::SetNamedWorkspaceContainerPadding { .. } | BuiltinAction::SetNamedWorkspacePadding { .. } | BuiltinAction::SetNamedWorkspaceTiling { .. } | BuiltinAction::SetNamedWorkspaceLayout { .. } | BuiltinAction::SetNamedWorkspaceCustomLayout { .. } | BuiltinAction::AddNamedWorkspaceLayoutRule { .. } | BuiltinAction::AddNamedWorkspaceCustomLayoutRule { .. } | BuiltinAction::ClearNamedWorkspaceLayoutRules { .. } | BuiltinAction::EnsureNamedWorkspaces { .. } | BuiltinAction::SetWorkspaceName { .. } | BuiltinAction::SetLayoutRatios { .. } | BuiltinAction::SetCustomLayout { .. } | BuiltinAction::SetWorkspaceCustomLayout { .. })
}

#[verifier::rlimit(100)]
#[verifier::spinoff_prover]
proof fn lemma_group_7_carries_out_the_action(action: BuiltinAction, snapshot: SnapshotView)
    requires
        in_effect_group_7(action),
    ensures
        effect_carried_out(action, snapshot),
{
}

spec fn in_effect_group_8(action: BuiltinAction) -> bool {
    matches!(action, BuiltinAction::AddWorkspaceCustomLayoutRule { .. } | BuiltinAction::EagerFocus { .. } | BuiltinAction::RemoveTitleBar { .. } | BuiltinAction::SetResizeStep { .. } | BuiltinAction::SetTransparencyEnabled { .. } | BuiltinAction::ToggleTransparency | BuiltinAction::SetTransparencyAlpha { .. } | BuiltinAction::SetBorderEnabled { .. } | BuiltinAction::SetBorderColour { .. } | BuiltinAction::SetBorderWidth { .. } | BuiltinAction::SetBorderOffset { .. } | BuiltinAction::SetBorderStyle { .. } | BuiltinAction::SetBorderImplementation { .. })
}

#[verifier::rlimit(100)]
#[verifier::spinoff_prover]
proof fn lemma_group_8_carries_out_the_action(action: BuiltinAction, snapshot: SnapshotView)
    requires
        in_effect_group_8(action),
    ensures
        effect_carried_out(action, snapshot),
{
}

/// Each planned effect carries out the kind of action that planned it (the
/// transparency toggle plans the setting it leads to) and carries every value
/// of that action over unchanged.
pub proof fn lemma_effects_carry_out_the_action(action: BuiltinAction, snapshot: SnapshotView)
    ensures
        effect_carried_out(action, snapshot),
{
    if in_effect_group_1(action) {
        lemma_group_1_carries_out_the_action(action, snapshot);
    } else if in_effect_group_2(action) {
        lemma_group_2_carries_out_the_action(action, snapshot);
    } else if in_effect_group_3(action) {
        lemma_group_3_carries_out_the_action(action, snapshot);
    } else if in_effect_group_4(action) {
        lemma_group_4_carries_out_the_action(action, snapshot);
    } else if in_effect_group_5(action) {
        lemma_group_5_carries_out_the_action(action, snapshot);
    } else if in_effect_group_6(action) {
        lemma_group_6_carries_out_the_action(action, snapshot);
    } else if in_effect_group_7(action) {
        lemma_group_7_carries_out_the_action(action, snapshot);
    } else {
        lemma_group_8_carries_out_the_action(action, snapshot);
    }
}


/// Whether the logical result of an action reports on the kind of action it
/// is a result of, with the values of that action.
pub open spec fn result_reported(action: BuiltinAction, snapshot: SnapshotView) -> bool {
    logical_result_of(action, snapshot) matches Some(r) ==> (result_reports(r) == Some(
        action.kind_spec(),
    ) && result_reports_action(action, r))
}

#[verifier::rlimit(100)]
#[verifier::spinoff_prover]
proof fn lemma_group_1_reports_the_action(action: BuiltinAction, snapshot: SnapshotView)
    requires
        in_effect_group_1(action),
    ensures
        result_reported(action, snapshot),
{
}

#[verifier::rlimit(100)]
#[verifier::spinoff_prover]
proof fn lemma_group_2_reports_the_action(action: BuiltinAction, snapshot: SnapshotView)
    requires
        in_effect_group_2(action),
    ensures
        result_reported(action, snapshot),
{
}

#[verifier::rlimit(100)]
#[verifier::spinoff_prover]
proof fn lemma_group_3_reports_the_action(action: BuiltinAction, snapshot: SnapshotView)
    requires
        in_effect_group_3(action),
    ensures
        result_reported(action, snapshot),
{
}

#[verifier::rlimit(100)]
#[verifier::spinoff_prover]
proof fn lemma_group_4_reports_the_action(action: BuiltinAction, snapshot: SnapshotView)
    requires
        in_effect_group_4(action),
    ensures
        result_reported(action, snapshot),
{
}

#[verifier::rlimit(100)]
#[verifier::spinoff_prover]
proof fn lemma_group_5_reports_the_action(action: BuiltinAction, snapshot: SnapshotView)
    requires
        in_effect_group_5(action),
    ensures
        result_reported(action, snapshot),
{
}

#[verifier::rlimit(100)]
#[verifier::spinoff_prover]
proof fn lemma_group_6_reports_the_action(action: BuiltinAction, snapshot: SnapshotView)
    requires
        in_effect_group_6(action),
    ensures
        result_reported(action, snapshot),
{
}

#[verifier::rlimit(100)]
#[verifier::spinoff_prover]
proof fn lemma_group_7_reports_the_action(action: BuiltinAction, snapshot: SnapshotView)
    requires
        in_effect_group_7(action),
    ensures
        result_reported(action, snapshot),
{
}

#[verifier::rlimit(100)]
#[verifier::spinoff_prover]
proof fn lemma_group_8_reports_the_action(action: BuiltinAction, snapshot: SnapshotView)
    requires
        in_effect_group_8(action),
    ensures
        result_reported(action, snapshot),
{
}

/// The logical result of an action reports on that kind of action, with the
/// values the action carried.
pub proof fn lemma_results_report_the_action(action: BuiltinAction, snapshot: SnapshotView)
    ensures
        result_reported(action, snapshot),
{
    if in_effect_group_1(action) {
        lemma_group_1_reports_the_action(action, snapshot);
    } else if in_effect_group_2(action) {
        lemma_group_2_reports_the_action(action, snapshot);
    } else if in_effect_group_3(action) {
        lemma_group_3_reports_the_action(action, snapshot);
    } else if in_effect_group_4(action) {
        lemma_group_4_reports_the_action(action, snapshot);
    } else if in_effect_group_5(action) {
        lemma_group_5_reports_the_action(action, snapshot);
    } else if in_effect_group_6(action) {
        lemma_group_6_reports_the_action(action, snapshot);
    } else if in_effect_group_7(action) {
        lemma_group_7_reports_the_action(action, snapshot);
    } else {
        lemma_group_8_reports_the_action(action, snapshot);
    }
}


/// Toggles flip the value they toggle: pausing, floating the focused window,
/// and transparency.
pub proof fn lemma_toggles_flip(snapshot: SnapshotView, action: BuiltinAction)
    ensures
        action is TogglePause ==> logically_applied(snapshot, action).1 == !snapshot.1,
        action is ToggleWindowFloat ==> logically_applied(snapshot, action).6 == !snapshot.6,
        action is ToggleTransparency ==> logically_applied(snapshot, action).5.transparency.enabled
            == !snapshot.5.transparency.enabled,
{
}

/// An action changes only what it is about: the layout only by setting it,
/// the resize step only by setting it, the transparency and border settings
/// only by setting or toggling them, floating and pausing only by toggling
/// them; everything else in the configuration stays as it was.
pub proof fn lemma_actions_change_only_their_setting(snapshot: SnapshotView, action: BuiltinAction)
    ensures
        !(action is SetWorkspaceLayout) ==> logically_applied(snapshot, action).4 == snapshot.4,
        !(action is SetResizeStep) ==> logically_applied(snapshot, action).5.resize_step
            == snapshot.5.resize_step,
        !(action is SetTransparencyEnabled || action is ToggleTransparency
            || action is SetTransparencyAlpha) ==> logically_applied(snapshot, action).5.transparency
            == snapshot.5.transparency,
        !(action is SetBorderEnabled || action is SetBorderWidth || action is SetBorderOffset
            || action is SetBorderStyle || action is SetBorderImplementation) ==> logically_applied(
            snapshot,
            action,
        ).5.border == snapshot.5.border,
        logically_applied(snapshot, action).5.stackbar == snapshot.5.stackbar,
        logically_applied(snapshot, action).5.animation == snapshot.5.animation,
        !(action is ToggleWindowFloat) ==> logically_applied(snapshot, action).6 == snapshot.6,
        !(action is TogglePause) ==> logically_applied(snapshot, action).1 == snapshot.1,
        action is SetTransparencyEnabled ==> logically_applied(snapshot, action).5.transparency.alpha
            == snapshot.5.transparency.alpha,
        action is SetTransparencyAlpha ==> logically_applied(snapshot, action).5.transparency.enabled
            == snapshot.5.transparency.enabled,
{
}

} // verus!
