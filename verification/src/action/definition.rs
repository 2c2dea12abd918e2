//! What each built-in action is: its identity, category, wording and the
//! parameters it takes.

use vstd::prelude::*;
use crate::action::builtin_action::BuiltinActionKind;
use crate::action::id::ActionId;
use crate::action::id::ActionSchemaVersion;
use crate::action::id::ParameterId;
use crate::manager_types::DefaultLayout;

verus! {

#[derive(Clone, Copy, Debug, PartialEq, Eq, Hash, Structural)]
pub enum ActionCategory {
    Window,
    Workspace,
    Configuration,
}

#[derive(Clone, Copy, Debug, PartialEq, Eq, Hash, Structural)]
pub enum PermittedUse {
    Interactive,
    Automation,
}

#[derive(Clone, Copy, Debug, PartialEq, Eq, Hash, Structural)]
pub enum ConfirmationPolicy {
    NotRequired,
}

#[derive(Clone, Copy, Debug, PartialEq, Eq, Hash, Structural)]
pub enum UndoPolicy {
    NotSupported,
    PriorManagerIntent,
    ExactCapturedState,
}

/// The kind of value a parameter accepts.
#[derive(Clone, Copy, Debug, PartialEq, Eq, Hash, Structural)]
pub enum ParameterDomain {
    Direction,
    Axis,
    Pixels,
    WorkspaceSelector,
    WindowSelector,
    Layout,
    Cycle,
    Index,
    Sizing,
    Adjustment,
    Flag,
    Size,
    Count,
    Columns,
    Name,
    Path,
    Behaviour,
    Implementation,
    Exe,
    Identifier,
    Ratios,
    AtCount,
    ResizeStep,
    Alpha,
    WindowKind,
    ColourChannel,
    BorderWidth,
    BorderOffset,
    BorderStyle,
    BorderImplementation,
    StackbarMode,
    StackbarLabel,
    StackbarHeight,
    StackbarTabWidth,
    StackbarFontSize,
    StackbarFontFamily,
    AnimationPrefix,
    AnimationDuration,
    AnimationFps,
    AnimationStyle,
    WorkAreaOffset,
    CursorWarpPolicy,
    WorkspaceTarget,
}

/// How many values an argument carries, and whether it may be left out.
#[derive(Clone, Copy, Debug, PartialEq, Eq, Hash, Structural)]
pub enum ArgumentCardinality {
    RequiredScalar,
    RequiredList,
    OptionalScalar,
    OptionalList,
}

#[derive(Clone, Copy, Debug, PartialEq, Eq, Hash, Structural)]
pub struct ParameterDefinition {
    pub id: ParameterId,
    pub domain: ParameterDomain,
    pub cardinality: ArgumentCardinality,
}

impl ParameterDefinition {
    pub fn cardinality(self) -> (r: ArgumentCardinality)
        ensures
            r == self.cardinality,
    {
        self.cardinality
    }
}

/// The published description of one built-in action.
#[derive(Clone, Debug)]
pub struct ActionDefinition {
    pub id: ActionId,
    pub schema_version: ActionSchemaVersion,
    pub kind: BuiltinActionKind,
    pub category: ActionCategory,
    pub title: &'static str,
    pub description: &'static str,
    pub keywords: Vec<&'static str>,
    pub parameters: Vec<ParameterDefinition>,
    pub permitted_uses: Vec<PermittedUse>,
    pub confirmation: ConfirmationPolicy,
    pub undo: UndoPolicy,
}

/// Every built-in action may be used both interactively and by automation.
pub open spec fn both_uses() -> Seq<PermittedUse> {
    seq![PermittedUse::Interactive, PermittedUse::Automation]
}

pub open spec fn keyword_texts(keywords: Seq<&'static str>) -> Seq<Seq<char>> {
    keywords.map_values(|k: &'static str| k@)
}

/// The category each action is listed under.
pub open spec fn category_of(kind: BuiltinActionKind) -> ActionCategory {
    match kind {
        BuiltinActionKind::FocusWindow => ActionCategory::Window,
        BuiltinActionKind::MoveWindow => ActionCategory::Window,
        BuiltinActionKind::ResizeWindow => ActionCategory::Window,
        BuiltinActionKind::ResizeWindowByStep => ActionCategory::Window,
        BuiltinActionKind::SetWorkspaceLayout => ActionCategory::Workspace,
        BuiltinActionKind::ToggleWindowFloat => ActionCategory::Window,
        BuiltinActionKind::CycleFocusWindow => ActionCategory::Window,
        BuiltinActionKind::CycleMoveWindow => ActionCategory::Window,
        BuiltinActionKind::ToggleWindowMonocle => ActionCategory::Window,
        BuiltinActionKind::ToggleWindowMaximize => ActionCategory::Window,
        BuiltinActionKind::ToggleContainerLock => ActionCategory::Window,
        BuiltinActionKind::StackWindow => ActionCategory::Window,
        BuiltinActionKind::UnstackWindow => ActionCategory::Window,
        BuiltinActionKind::StackAll => ActionCategory::Window,
        BuiltinActionKind::UnstackAll => ActionCategory::Window,
        BuiltinActionKind::CycleStack => ActionCategory::Window,
        BuiltinActionKind::CycleStackIndex => ActionCategory::Window,
        BuiltinActionKind::FocusStackWindow => ActionCategory::Window,
        BuiltinActionKind::FocusWorkspace => ActionCategory::Workspace,
        BuiltinActionKind::CycleFocusWorkspace => ActionCategory::Workspace,
        BuiltinActionKind::CycleFocusEmptyWorkspace => ActionCategory::Workspace,
        BuiltinActionKind::FocusLastWorkspace => ActionCategory::Workspace,
        BuiltinActionKind::CloseWorkspace => ActionCategory::Workspace,
        BuiltinActionKind::FocusMonitor => ActionCategory::Workspace,
        BuiltinActionKind::CycleFocusMonitor => ActionCategory::Workspace,
        BuiltinActionKind::FocusMonitorAtCursor => ActionCategory::Workspace,
        BuiltinActionKind::FocusWorkspaceOnAllMonitors => ActionCategory::Workspace,
        BuiltinActionKind::FocusMonitorWorkspace => ActionCategory::Workspace,
        BuiltinActionKind::CloseWindow => ActionCategory::Window,
        BuiltinActionKind::MinimizeWindow => ActionCategory::Window,
        BuiltinActionKind::ForceFocus => ActionCategory::Window,
        BuiltinActionKind::PromoteContainer => ActionCategory::Window,
        BuiltinActionKind::PromoteContainerSwap => ActionCategory::Window,
        BuiltinActionKind::PromoteFocus => ActionCategory::Window,
        BuiltinActionKind::PromoteWindow => ActionCategory::Window,
        BuiltinActionKind::NewWorkspace => ActionCategory::Workspace,
        BuiltinActionKind::ToggleTiling => ActionCategory::Workspace,
        BuiltinActionKind::CycleLayout => ActionCategory::Workspace,
        BuiltinActionKind::FlipLayout => ActionCategory::Workspace,
        BuiltinActionKind::ToggleWorkspaceLayer => ActionCategory::Workspace,
        BuiltinActionKind::MoveContainerToLastWorkspace => ActionCategory::Workspace,
        BuiltinActionKind::SendContainerToLastWorkspace => ActionCategory::Workspace,
        BuiltinActionKind::MoveContainerToWorkspace => ActionCategory::Workspace,
        BuiltinActionKind::CycleMoveContainerToWorkspace => ActionCategory::Workspace,
        BuiltinActionKind::SendContainerToWorkspace => ActionCategory::Workspace,
        BuiltinActionKind::CycleSendContainerToWorkspace => ActionCategory::Workspace,
        BuiltinActionKind::MoveContainerToMonitor => ActionCategory::Workspace,
        BuiltinActionKind::CycleMoveContainerToMonitor => ActionCategory::Workspace,
        BuiltinActionKind::SendContainerToMonitor => ActionCategory::Workspace,
        BuiltinActionKind::CycleSendContainerToMonitor => ActionCategory::Workspace,
        BuiltinActionKind::MoveContainerToMonitorWorkspace => ActionCategory::Workspace,
        BuiltinActionKind::SendContainerToMonitorWorkspace => ActionCategory::Workspace,
        BuiltinActionKind::MoveWorkspaceToMonitor => ActionCategory::Workspace,
        BuiltinActionKind::CycleMoveWorkspaceToMonitor => ActionCategory::Workspace,
        BuiltinActionKind::SwapWorkspacesToMonitor => ActionCategory::Workspace,
        BuiltinActionKind::PreselectDirection => ActionCategory::Window,
        BuiltinActionKind::CancelPreselect => ActionCategory::Window,
        BuiltinActionKind::Retile => ActionCategory::Workspace,
        BuiltinActionKind::RetileWithResizeDimensions => ActionCategory::Workspace,
        BuiltinActionKind::ManageFocusedWindow => ActionCategory::Window,
        BuiltinActionKind::UnmanageFocusedWindow => ActionCategory::Window,
        BuiltinActionKind::AdjustContainerPadding => ActionCategory::Workspace,
        BuiltinActionKind::AdjustWorkspacePadding => ActionCategory::Workspace,
        BuiltinActionKind::ToggleMouseFollowsFocus => ActionCategory::Workspace,
        BuiltinActionKind::SetMouseFollowsFocus => ActionCategory::Workspace,
        BuiltinActionKind::ToggleWindowContainerBehaviour => ActionCategory::Window,
        BuiltinActionKind::ToggleFloatOverride => ActionCategory::Window,
        BuiltinActionKind::ToggleWorkspaceWindowContainerBehaviour => ActionCategory::Workspace,
        BuiltinActionKind::ToggleWorkspaceFloatOverride => ActionCategory::Workspace,
        BuiltinActionKind::ToggleCrossMonitorMoveBehaviour => ActionCategory::Workspace,
        BuiltinActionKind::ToggleMonocleFocusBehaviour => ActionCategory::Window,
        BuiltinActionKind::TogglePause => ActionCategory::Workspace,
        BuiltinActionKind::SetFocusedContainerPadding => ActionCategory::Workspace,
        BuiltinActionKind::SetFocusedWorkspacePadding => ActionCategory::Workspace,
        BuiltinActionKind::SetContainerPadding => ActionCategory::Workspace,
        BuiltinActionKind::SetWorkspacePadding => ActionCategory::Workspace,
        BuiltinActionKind::SetWorkspaceTiling => ActionCategory::Workspace,
        BuiltinActionKind::SetMonitorWorkspaceLayout => ActionCategory::Workspace,
        BuiltinActionKind::EnsureWorkspaces => ActionCategory::Workspace,
        BuiltinActionKind::ClearWorkspaceLayoutRules => ActionCategory::Workspace,
        BuiltinActionKind::SetScrollingColumns => ActionCategory::Workspace,
        BuiltinActionKind::LockContainer => ActionCategory::Window,
        BuiltinActionKind::UnlockContainer => ActionCategory::Window,
        BuiltinActionKind::ToggleTitleBars => ActionCategory::Window,
        BuiltinActionKind::EnforceWorkspaceRules => ActionCategory::Workspace,
        BuiltinActionKind::AddSessionFloatRule => ActionCategory::Window,
        BuiltinActionKind::ClearSessionFloatRules => ActionCategory::Window,
        BuiltinActionKind::ResizeWindowEdge => ActionCategory::Window,
        BuiltinActionKind::ResizeWindowEdgeByStep => ActionCategory::Window,
        BuiltinActionKind::SetWindowHidingBehaviour => ActionCategory::Window,
        BuiltinActionKind::SetCrossMonitorMoveBehaviour => ActionCategory::Window,
        BuiltinActionKind::SetMonocleFocusBehaviour => ActionCategory::Window,
        BuiltinActionKind::SetUnmanagedWindowOperationBehaviour => ActionCategory::Window,
        BuiltinActionKind::SetFocusFollowsMouse => ActionCategory::Window,
        BuiltinActionKind::ToggleFocusFollowsMouse => ActionCategory::Window,
        BuiltinActionKind::AddWorkspaceLayoutRule => ActionCategory::Workspace,
        BuiltinActionKind::FocusNamedWorkspace => ActionCategory::Workspace,
        BuiltinActionKind::MoveContainerToNamedWorkspace => ActionCategory::Workspace,
        BuiltinActionKind::SendContainerToNamedWorkspace => ActionCategory::Workspace,
        BuiltinActionKind::SetNamedWorkspaceContainerPadding => ActionCategory::Workspace,
        BuiltinActionKind::SetNamedWorkspacePadding => ActionCategory::Workspace,
        BuiltinActionKind::SetNamedWorkspaceTiling => ActionCategory::Workspace,
        BuiltinActionKind::SetNamedWorkspaceLayout => ActionCategory::Workspace,
        BuiltinActionKind::SetNamedWorkspaceCustomLayout => ActionCategory::Workspace,
        BuiltinActionKind::AddNamedWorkspaceLayoutRule => ActionCategory::Workspace,
        BuiltinActionKind::AddNamedWorkspaceCustomLayoutRule => ActionCategory::Workspace,
        BuiltinActionKind::ClearNamedWorkspaceLayoutRules => ActionCategory::Workspace,
        BuiltinActionKind::EnsureNamedWorkspaces => ActionCategory::Workspace,
        BuiltinActionKind::SetWorkspaceName => ActionCategory::Workspace,
        BuiltinActionKind::SetLayoutRatios => ActionCategory::Workspace,
        BuiltinActionKind::SetCustomLayout => ActionCategory::Workspace,
        BuiltinActionKind::SetWorkspaceCustomLayout => ActionCategory::Workspace,
        BuiltinActionKind::AddWorkspaceCustomLayoutRule => ActionCategory::Workspace,
        BuiltinActionKind::EagerFocus => ActionCategory::Window,
        BuiltinActionKind::RemoveTitleBar => ActionCategory::Window,
        BuiltinActionKind::SetResizeStep => ActionCategory::Configuration,
        BuiltinActionKind::SetTransparencyEnabled => ActionCategory::Configuration,
        BuiltinActionKind::ToggleTransparency => ActionCategory::Configuration,
        BuiltinActionKind::SetTransparencyAlpha => ActionCategory::Configuration,
        BuiltinActionKind::SetBorderEnabled => ActionCategory::Configuration,
        BuiltinActionKind::SetBorderColour => ActionCategory::Configuration,
        BuiltinActionKind::SetBorderWidth => ActionCategory::Configuration,
        BuiltinActionKind::SetBorderOffset => ActionCategory::Configuration,
        BuiltinActionKind::SetBorderStyle => ActionCategory::Configuration,
        BuiltinActionKind::SetBorderImplementation => ActionCategory::Configuration,
    }
}

/// The title each action is presented with.
pub open spec fn title_of(kind: BuiltinActionKind) -> Seq<char> {
    match kind {
        BuiltinActionKind::FocusWindow => "Focus window"@,
        BuiltinActionKind::MoveWindow => "Move window"@,
        BuiltinActionKind::ResizeWindow => "Resize window"@,
        BuiltinActionKind::ResizeWindowByStep => "Resize window by configured step"@,
        BuiltinActionKind::SetWorkspaceLayout => "Set workspace layout"@,
        BuiltinActionKind::ToggleWindowFloat => "Toggle window float"@,
        BuiltinActionKind::CycleFocusWindow => "Cycle focus window"@,
        BuiltinActionKind::CycleMoveWindow => "Cycle move window"@,
        BuiltinActionKind::ToggleWindowMonocle => "Toggle window monocle"@,
        BuiltinActionKind::ToggleWindowMaximize => "Toggle window maximize"@,
        BuiltinActionKind::ToggleContainerLock => "Toggle container lock"@,
        BuiltinActionKind::StackWindow => "Stack window"@,
        BuiltinActionKind::UnstackWindow => "Unstack window"@,
        BuiltinActionKind::StackAll => "Stack all"@,
        BuiltinActionKind::UnstackAll => "Unstack all"@,
        BuiltinActionKind::CycleStack => "Cycle stack"@,
        BuiltinActionKind::CycleStackIndex => "Cycle stack index"@,
        BuiltinActionKind::FocusStackWindow => "Focus stack window"@,
        BuiltinActionKind::FocusWorkspace => "Focus workspace"@,
        BuiltinActionKind::CycleFocusWorkspace => "Cycle focus workspace"@,
        BuiltinActionKind::CycleFocusEmptyWorkspace => "Cycle focus empty workspace"@,
        BuiltinActionKind::FocusLastWorkspace => "Focus last workspace"@,
        BuiltinActionKind::CloseWorkspace => "Close workspace"@,
        BuiltinActionKind::FocusMonitor => "Focus monitor"@,
        BuiltinActionKind::CycleFocusMonitor => "Cycle focus monitor"@,
        BuiltinActionKind::FocusMonitorAtCursor => "Focus monitor at cursor"@,
        BuiltinActionKind::FocusWorkspaceOnAllMonitors => "Focus workspace on all monitors"@,
        BuiltinActionKind::FocusMonitorWorkspace => "Focus monitor workspace"@,
        BuiltinActionKind::CloseWindow => "Close window"@,
        BuiltinActionKind::MinimizeWindow => "Minimize window"@,
        BuiltinActionKind::ForceFocus => "Force focus"@,
        BuiltinActionKind::PromoteContainer => "Promote container"@,
        BuiltinActionKind::PromoteContainerSwap => "Promote container swap"@,
        BuiltinActionKind::PromoteFocus => "Promote focus"@,
        BuiltinActionKind::PromoteWindow => "Promote window"@,
        BuiltinActionKind::NewWorkspace => "New workspace"@,
        BuiltinActionKind::ToggleTiling => "Toggle tiling"@,
        BuiltinActionKind::CycleLayout => "Cycle layout"@,
        BuiltinActionKind::FlipLayout => "Flip layout"@,
        BuiltinActionKind::ToggleWorkspaceLayer => "Toggle workspace layer"@,
        BuiltinActionKind::MoveContainerToLastWorkspace => "Move container to last workspace"@,
        BuiltinActionKind::SendContainerToLastWorkspace => "Send container to last workspace"@,
        BuiltinActionKind::MoveContainerToWorkspace => "Move container to workspace"@,
        BuiltinActionKind::CycleMoveContainerToWorkspace => "Cycle move container to workspace"@,
        BuiltinActionKind::SendContainerToWorkspace => "Send container to workspace"@,
        BuiltinActionKind::CycleSendContainerToWorkspace => "Cycle send container to workspace"@,
        BuiltinActionKind::MoveContainerToMonitor => "Move container to monitor"@,
        BuiltinActionKind::CycleMoveContainerToMonitor => "Cycle move container to monitor"@,
        BuiltinActionKind::SendContainerToMonitor => "Send container to monitor"@,
        BuiltinActionKind::CycleSendContainerToMonitor => "Cycle send container to monitor"@,
        BuiltinActionKind::MoveContainerToMonitorWorkspace => "Move container to monitor workspace"@,
        BuiltinActionKind::SendContainerToMonitorWorkspace => "Send container to monitor workspace"@,
        BuiltinActionKind::MoveWorkspaceToMonitor => "Move workspace to monitor"@,
        BuiltinActionKind::CycleMoveWorkspaceToMonitor => "Cycle move workspace to monitor"@,
        BuiltinActionKind::SwapWorkspacesToMonitor => "Swap workspaces to monitor"@,
        BuiltinActionKind::PreselectDirection => "Preselect direction"@,
        BuiltinActionKind::CancelPreselect => "Cancel preselect"@,
        BuiltinActionKind::Retile => "Retile"@,
        BuiltinActionKind::RetileWithResizeDimensions => "Retile with resize dimensions"@,
        BuiltinActionKind::ManageFocusedWindow => "Manage focused window"@,
        BuiltinActionKind::UnmanageFocusedWindow => "Unmanage focused window"@,
        BuiltinActionKind::AdjustContainerPadding => "Adjust container padding"@,
        BuiltinActionKind::AdjustWorkspacePadding => "Adjust workspace padding"@,
        BuiltinActionKind::ToggleMouseFollowsFocus => "Toggle mouse follows focus"@,
        BuiltinActionKind::SetMouseFollowsFocus => "Set mouse follows focus"@,
        BuiltinActionKind::ToggleWindowContainerBehaviour => "Toggle window container behaviour"@,
        BuiltinActionKind::ToggleFloatOverride => "Toggle float override"@,
        BuiltinActionKind::ToggleWorkspaceWindowContainerBehaviour => "Toggle workspace window container behaviour"@,
        BuiltinActionKind::ToggleWorkspaceFloatOverride => "Toggle workspace float override"@,
        BuiltinActionKind::ToggleCrossMonitorMoveBehaviour => "Toggle cross monitor move behaviour"@,
        BuiltinActionKind::ToggleMonocleFocusBehaviour => "Toggle monocle focus behaviour"@,
        BuiltinActionKind::TogglePause => "Toggle pause"@,
        BuiltinActionKind::SetFocusedContainerPadding => "Set focused container padding"@,
        BuiltinActionKind::SetFocusedWorkspacePadding => "Set focused workspace padding"@,
        BuiltinActionKind::SetContainerPadding => "Set container padding"@,
        BuiltinActionKind::SetWorkspacePadding => "Set workspace padding"@,
        BuiltinActionKind::SetWorkspaceTiling => "Set workspace tiling"@,
        BuiltinActionKind::SetMonitorWorkspaceLayout => "Set monitor workspace layout"@,
        BuiltinActionKind::EnsureWorkspaces => "Ensure workspaces"@,
        BuiltinActionKind::ClearWorkspaceLayoutRules => "Clear workspace layout rules"@,
        BuiltinActionKind::SetScrollingColumns => "Set scrolling columns"@,
        BuiltinActionKind::LockContainer => "Lock container"@,
        BuiltinActionKind::UnlockContainer => "Unlock container"@,
        BuiltinActionKind::ToggleTitleBars => "Toggle title bars"@,
        BuiltinActionKind::EnforceWorkspaceRules => "Enforce workspace rules"@,
        BuiltinActionKind::AddSessionFloatRule => "Add session float rule"@,
        BuiltinActionKind::ClearSessionFloatRules => "Clear session float rules"@,
        BuiltinActionKind::ResizeWindowEdge => "Resize window edge"@,
        BuiltinActionKind::ResizeWindowEdgeByStep => "Resize window edge by configured step"@,
        BuiltinActionKind::SetWindowHidingBehaviour => "Set window hiding behaviour"@,
        BuiltinActionKind::SetCrossMonitorMoveBehaviour => "Set cross-monitor move behaviour"@,
        BuiltinActionKind::SetMonocleFocusBehaviour => "Set monocle focus behaviour"@,
        BuiltinActionKind::SetUnmanagedWindowOperationBehaviour => "Set unmanaged window operation behaviour"@,
        BuiltinActionKind::SetFocusFollowsMouse => "Set focus follows mouse"@,
        BuiltinActionKind::ToggleFocusFollowsMouse => "Toggle focus follows mouse"@,
        BuiltinActionKind::AddWorkspaceLayoutRule => "Add workspace layout rule"@,
        BuiltinActionKind::FocusNamedWorkspace => "Focus named workspace"@,
        BuiltinActionKind::MoveContainerToNamedWorkspace => "Move container to named workspace"@,
        BuiltinActionKind::SendContainerToNamedWorkspace => "Send container to named workspace"@,
        BuiltinActionKind::SetNamedWorkspaceContainerPadding => "Set named workspace container padding"@,
        BuiltinActionKind::SetNamedWorkspacePadding => "Set named workspace padding"@,
        BuiltinActionKind::SetNamedWorkspaceTiling => "Set named workspace tiling"@,
        BuiltinActionKind::SetNamedWorkspaceLayout => "Set named workspace layout"@,
        BuiltinActionKind::SetNamedWorkspaceCustomLayout => "Set named workspace custom layout"@,
        BuiltinActionKind::AddNamedWorkspaceLayoutRule => "Add named workspace layout rule"@,
        BuiltinActionKind::AddNamedWorkspaceCustomLayoutRule => "Add named workspace custom layout rule"@,
        BuiltinActionKind::ClearNamedWorkspaceLayoutRules => "Clear named workspace layout rules"@,
        BuiltinActionKind::EnsureNamedWorkspaces => "Ensure named workspaces"@,
        BuiltinActionKind::SetWorkspaceName => "Set workspace name"@,
        BuiltinActionKind::SetLayoutRatios => "Set layout ratios"@,
        BuiltinActionKind::SetCustomLayout => "Set custom layout"@,
        BuiltinActionKind::SetWorkspaceCustomLayout => "Set workspace custom layout"@,
        BuiltinActionKind::AddWorkspaceCustomLayoutRule => "Add workspace custom layout rule"@,
        BuiltinActionKind::EagerFocus => "Eager focus"@,
        BuiltinActionKind::RemoveTitleBar => "Remove title bar"@,
        BuiltinActionKind::SetResizeStep => "Set resize step"@,
        BuiltinActionKind::SetTransparencyEnabled => "Set transparency enabled"@,
        BuiltinActionKind::ToggleTransparency => "Toggle transparency"@,
        BuiltinActionKind::SetTransparencyAlpha => "Set transparency alpha"@,
        BuiltinActionKind::SetBorderEnabled => "Set borders enabled"@,
        BuiltinActionKind::SetBorderColour => "Set border colour"@,
        BuiltinActionKind::SetBorderWidth => "Set border width"@,
        BuiltinActionKind::SetBorderOffset => "Set border offset"@,
        BuiltinActionKind::SetBorderStyle => "Set border style"@,
        BuiltinActionKind::SetBorderImplementation => "Set border implementation"@,
    }
}

/// The one-line description of each action.
pub open spec fn description_of(kind: BuiltinActionKind) -> Seq<char> {
    match kind {
        BuiltinActionKind::FocusWindow => "Focus the neighboring window in one direction"@,
        BuiltinActionKind::MoveWindow => "Move the focused window in one direction"@,
        BuiltinActionKind::ResizeWindow => "Resize the focused window along one axis"@,
        BuiltinActionKind::ResizeWindowByStep => "Resize the focused window along one axis by the configured step"@,
        BuiltinActionKind::SetWorkspaceLayout => "Set the focused workspace to a built-in layout"@,
        BuiltinActionKind::ToggleWindowFloat => "Toggle whether the focused window floats"@,
        BuiltinActionKind::CycleFocusWindow => "Focus the next or previous window in the focused workspace"@,
        BuiltinActionKind::CycleMoveWindow => "Move the focused window to the next or previous container"@,
        BuiltinActionKind::ToggleWindowMonocle => "Toggle monocle for the focused window"@,
        BuiltinActionKind::ToggleWindowMaximize => "Toggle maximize for the focused window"@,
        BuiltinActionKind::ToggleContainerLock => "Toggle whether the focused container is locked"@,
        BuiltinActionKind::StackWindow => "Stack the focused window onto the neighbor in one direction"@,
        BuiltinActionKind::UnstackWindow => "Remove the focused window from its stack"@,
        BuiltinActionKind::StackAll => "Stack every window on the focused workspace"@,
        BuiltinActionKind::UnstackAll => "Unstack every window on the focused workspace"@,
        BuiltinActionKind::CycleStack => "Cycle the focused stack window"@,
        BuiltinActionKind::CycleStackIndex => "Cycle the focused stack index"@,
        BuiltinActionKind::FocusStackWindow => "Focus a window in the focused stack by index"@,
        BuiltinActionKind::FocusWorkspace => "Focus a workspace by index on the target monitor"@,
        BuiltinActionKind::CycleFocusWorkspace => "Focus the next or previous workspace on the target monitor"@,
        BuiltinActionKind::CycleFocusEmptyWorkspace => "Focus the next or previous empty workspace on the target monitor"@,
        BuiltinActionKind::FocusLastWorkspace => "Focus the previously focused workspace on the target monitor"@,
        BuiltinActionKind::CloseWorkspace => "Close the focused empty unnamed workspace"@,
        BuiltinActionKind::FocusMonitor => "Focus a monitor by index"@,
        BuiltinActionKind::CycleFocusMonitor => "Focus the next or previous monitor"@,
        BuiltinActionKind::FocusMonitorAtCursor => "Focus the monitor under the cursor"@,
        BuiltinActionKind::FocusWorkspaceOnAllMonitors => "Focus the same workspace index on every monitor"@,
        BuiltinActionKind::FocusMonitorWorkspace => "Focus a workspace on a specific monitor"@,
        BuiltinActionKind::CloseWindow => "Close the foreground window"@,
        BuiltinActionKind::MinimizeWindow => "Minimize the foreground window"@,
        BuiltinActionKind::ForceFocus => "Force focus the focused window with a click"@,
        BuiltinActionKind::PromoteContainer => "Promote the focused container to the front of the layout"@,
        BuiltinActionKind::PromoteContainerSwap => "Swap the focused container with the front of the layout"@,
        BuiltinActionKind::PromoteFocus => "Move focus to the front container"@,
        BuiltinActionKind::PromoteWindow => "Focus a neighbor and promote it to the front"@,
        BuiltinActionKind::NewWorkspace => "Create and focus a new workspace on the focused monitor"@,
        BuiltinActionKind::ToggleTiling => "Toggle tiling on the focused workspace"@,
        BuiltinActionKind::CycleLayout => "Cycle the focused workspace layout"@,
        BuiltinActionKind::FlipLayout => "Flip the focused workspace layout on an axis"@,
        BuiltinActionKind::ToggleWorkspaceLayer => "Toggle between tiling and floating layers"@,
        BuiltinActionKind::MoveContainerToLastWorkspace => "Move the focused container to the last workspace and follow it"@,
        BuiltinActionKind::SendContainerToLastWorkspace => "Send the focused container to the last workspace without following"@,
        BuiltinActionKind::MoveContainerToWorkspace => "Move the focused container to a workspace and follow it"@,
        BuiltinActionKind::CycleMoveContainerToWorkspace => "Move the focused container to the next or previous workspace and follow it"@,
        BuiltinActionKind::SendContainerToWorkspace => "Send the focused container to a workspace without following"@,
        BuiltinActionKind::CycleSendContainerToWorkspace => "Send the focused container to the next or previous workspace without following"@,
        BuiltinActionKind::MoveContainerToMonitor => "Move the focused container to a monitor and follow it"@,
        BuiltinActionKind::CycleMoveContainerToMonitor => "Move the focused container to the next or previous monitor and follow it"@,
        BuiltinActionKind::SendContainerToMonitor => "Send the focused container to a monitor without following"@,
        BuiltinActionKind::CycleSendContainerToMonitor => "Send the focused container to the next or previous monitor without following"@,
        BuiltinActionKind::MoveContainerToMonitorWorkspace => "Move the focused container to a workspace on a monitor and follow it"@,
        BuiltinActionKind::SendContainerToMonitorWorkspace => "Send the focused container to a workspace on a monitor without following"@,
        BuiltinActionKind::MoveWorkspaceToMonitor => "Move the focused workspace to a monitor"@,
        BuiltinActionKind::CycleMoveWorkspaceToMonitor => "Move the focused workspace to the next or previous monitor"@,
        BuiltinActionKind::SwapWorkspacesToMonitor => "Swap the focused monitor's workspaces with another monitor"@,
        BuiltinActionKind::PreselectDirection => "Preselect a direction for the next container insertion"@,
        BuiltinActionKind::CancelPreselect => "Clear the workspace direction preselect"@,
        BuiltinActionKind::Retile => "Retile every workspace"@,
        BuiltinActionKind::RetileWithResizeDimensions => "Retile every workspace while preserving resize dimensions"@,
        BuiltinActionKind::ManageFocusedWindow => "Start managing the focused window"@,
        BuiltinActionKind::UnmanageFocusedWindow => "Stop managing the focused window"@,
        BuiltinActionKind::AdjustContainerPadding => "Increase or decrease container padding on the focused workspace"@,
        BuiltinActionKind::AdjustWorkspacePadding => "Increase or decrease workspace padding on the focused workspace"@,
        BuiltinActionKind::ToggleMouseFollowsFocus => "Toggle whether the mouse follows focus changes"@,
        BuiltinActionKind::SetMouseFollowsFocus => "Enable or disable mouse follows focus"@,
        BuiltinActionKind::ToggleWindowContainerBehaviour => "Toggle between creating and appending window containers"@,
        BuiltinActionKind::ToggleFloatOverride => "Toggle the global float override"@,
        BuiltinActionKind::ToggleWorkspaceWindowContainerBehaviour => "Toggle container behaviour on the focused workspace"@,
        BuiltinActionKind::ToggleWorkspaceFloatOverride => "Toggle float override on the focused workspace"@,
        BuiltinActionKind::ToggleCrossMonitorMoveBehaviour => "Toggle between swap and insert when moving across monitors"@,
        BuiltinActionKind::ToggleMonocleFocusBehaviour => "Toggle whether directional focus cycles through a monocle"@,
        BuiltinActionKind::TogglePause => "Pause or resume window management"@,
        BuiltinActionKind::SetFocusedContainerPadding => "Set container padding on the focused workspace"@,
        BuiltinActionKind::SetFocusedWorkspacePadding => "Set workspace padding on the focused workspace"@,
        BuiltinActionKind::SetContainerPadding => "Set container padding on a workspace"@,
        BuiltinActionKind::SetWorkspacePadding => "Set workspace padding on a workspace"@,
        BuiltinActionKind::SetWorkspaceTiling => "Enable or disable tiling on a workspace"@,
        BuiltinActionKind::SetMonitorWorkspaceLayout => "Set the default layout on a workspace"@,
        BuiltinActionKind::EnsureWorkspaces => "Ensure a monitor has at least a given number of workspaces"@,
        BuiltinActionKind::ClearWorkspaceLayoutRules => "Clear layout rules on a workspace"@,
        BuiltinActionKind::SetScrollingColumns => "Set the scrolling layout column count"@,
        BuiltinActionKind::LockContainer => "Lock a container on a workspace"@,
        BuiltinActionKind::UnlockContainer => "Unlock a container on a workspace"@,
        BuiltinActionKind::ToggleTitleBars => "Toggle removal of title bars on managed windows"@,
        BuiltinActionKind::EnforceWorkspaceRules => "Apply workspace matching rules now"@,
        BuiltinActionKind::AddSessionFloatRule => "Float the foreground window for this session"@,
        BuiltinActionKind::ClearSessionFloatRules => "Clear float rules created this session"@,
        BuiltinActionKind::ResizeWindowEdge => "Resize the focused window from one edge"@,
        BuiltinActionKind::ResizeWindowEdgeByStep => "Resize the focused window from one edge by the configured step"@,
        BuiltinActionKind::SetWindowHidingBehaviour => "Set how windows are hidden when leaving a workspace"@,
        BuiltinActionKind::SetCrossMonitorMoveBehaviour => "Set how window moves behave across monitors"@,
        BuiltinActionKind::SetMonocleFocusBehaviour => "Set how directional focus behaves while monocle is active"@,
        BuiltinActionKind::SetUnmanagedWindowOperationBehaviour => "Set whether commands apply to unmanaged and floating windows"@,
        BuiltinActionKind::SetFocusFollowsMouse => "Enable or disable a focus-follows-mouse implementation"@,
        BuiltinActionKind::ToggleFocusFollowsMouse => "Toggle a focus-follows-mouse implementation"@,
        BuiltinActionKind::AddWorkspaceLayoutRule => "Apply a built-in layout when a workspace reaches a container count"@,
        BuiltinActionKind::FocusNamedWorkspace => "Focus the workspace with this name"@,
        BuiltinActionKind::MoveContainerToNamedWorkspace => "Move the focused container to the named workspace and follow it"@,
        BuiltinActionKind::SendContainerToNamedWorkspace => "Send the focused container to the named workspace"@,
        BuiltinActionKind::SetNamedWorkspaceContainerPadding => "Set container padding on the named workspace"@,
        BuiltinActionKind::SetNamedWorkspacePadding => "Set workspace padding on the named workspace"@,
        BuiltinActionKind::SetNamedWorkspaceTiling => "Enable or disable tiling on the named workspace"@,
        BuiltinActionKind::SetNamedWorkspaceLayout => "Set a built-in layout on the named workspace"@,
        BuiltinActionKind::SetNamedWorkspaceCustomLayout => "Set a custom layout file on the named workspace"@,
        BuiltinActionKind::AddNamedWorkspaceLayoutRule => "Add a built-in layout rule to the named workspace"@,
        BuiltinActionKind::AddNamedWorkspaceCustomLayoutRule => "Add a custom layout rule to the named workspace"@,
        BuiltinActionKind::ClearNamedWorkspaceLayoutRules => "Clear layout rules on the named workspace"@,
        BuiltinActionKind::EnsureNamedWorkspaces => "Ensure a monitor has workspaces with these names"@,
        BuiltinActionKind::SetWorkspaceName => "Name a workspace on a monitor"@,
        BuiltinActionKind::SetLayoutRatios => "Set column and row ratios on the focused workspace"@,
        BuiltinActionKind::SetCustomLayout => "Set a custom layout file on the focused workspace"@,
        BuiltinActionKind::SetWorkspaceCustomLayout => "Set a custom layout file on a monitor workspace"@,
        BuiltinActionKind::AddWorkspaceCustomLayoutRule => "Add a custom layout rule to a monitor workspace"@,
        BuiltinActionKind::EagerFocus => "Focus a managed window by executable name"@,
        BuiltinActionKind::RemoveTitleBar => "Remove the title bar from matching windows"@,
        BuiltinActionKind::SetResizeStep => "Set the positive pixel step used by configured-step resize actions"@,
        BuiltinActionKind::SetTransparencyEnabled => "Enable or disable transparency for unfocused windows"@,
        BuiltinActionKind::ToggleTransparency => "Toggle transparency for unfocused windows"@,
        BuiltinActionKind::SetTransparencyAlpha => "Set the alpha value used for unfocused-window transparency"@,
        BuiltinActionKind::SetBorderEnabled => "Enable or disable window borders"@,
        BuiltinActionKind::SetBorderColour => "Set the border colour for one window kind"@,
        BuiltinActionKind::SetBorderWidth => "Set the signed width used by komorebi borders"@,
        BuiltinActionKind::SetBorderOffset => "Set the signed offset used by komorebi borders"@,
        BuiltinActionKind::SetBorderStyle => "Set the corner style used by komorebi borders"@,
        BuiltinActionKind::SetBorderImplementation => "Select komorebi borders or native Windows accent borders"@,
    }
}

/// The search keywords of each action, in order.
pub open spec fn keywords_of(kind: BuiltinActionKind) -> Seq<Seq<char>> {
    match kind {
        BuiltinActionKind::FocusWindow => seq!["focus"@, "window"@, "direction"@],
        BuiltinActionKind::MoveWindow => seq!["move"@, "window"@, "direction"@],
        BuiltinActionKind::ResizeWindow => seq!["resize"@, "window"@, "axis"@],
        BuiltinActionKind::ResizeWindowByStep => seq!["resize"@, "window"@, "axis"@, "step"@],
        BuiltinActionKind::SetWorkspaceLayout => seq!["layout"@, "workspace"@, "bsp"@, "columns"@],
        BuiltinActionKind::ToggleWindowFloat => seq!["float"@, "window"@, "toggle"@],
        BuiltinActionKind::CycleFocusWindow => seq!["focus"@, "window"@, "cycle"@],
        BuiltinActionKind::CycleMoveWindow => seq!["move"@, "window"@, "cycle"@],
        BuiltinActionKind::ToggleWindowMonocle => seq!["monocle"@, "window"@, "toggle"@],
        BuiltinActionKind::ToggleWindowMaximize => seq!["maximize"@, "window"@, "toggle"@],
        BuiltinActionKind::ToggleContainerLock => seq!["lock"@, "container"@, "toggle"@],
        BuiltinActionKind::StackWindow => seq!["stack"@, "window"@],
        BuiltinActionKind::UnstackWindow => seq!["unstack"@, "window"@],
        BuiltinActionKind::StackAll => seq!["stack"@, "all"@],
        BuiltinActionKind::UnstackAll => seq!["unstack"@, "all"@],
        BuiltinActionKind::CycleStack => seq!["stack"@, "cycle"@],
        BuiltinActionKind::CycleStackIndex => seq!["stack"@, "index"@, "cycle"@],
        BuiltinActionKind::FocusStackWindow => seq!["stack"@, "focus"@, "index"@],
        BuiltinActionKind::FocusWorkspace => seq!["workspace"@, "focus"@, "index"@],
        BuiltinActionKind::CycleFocusWorkspace => seq!["workspace"@, "focus"@, "cycle"@],
        BuiltinActionKind::CycleFocusEmptyWorkspace => seq!["workspace"@, "empty"@, "cycle"@],
        BuiltinActionKind::FocusLastWorkspace => seq!["workspace"@, "last"@, "focus"@],
        BuiltinActionKind::CloseWorkspace => seq!["workspace"@, "close"@],
        BuiltinActionKind::FocusMonitor => seq!["monitor"@, "focus"@],
        BuiltinActionKind::CycleFocusMonitor => seq!["monitor"@, "focus"@, "cycle"@],
        BuiltinActionKind::FocusMonitorAtCursor => seq!["monitor"@, "cursor"@, "focus"@],
        BuiltinActionKind::FocusWorkspaceOnAllMonitors => seq!["workspace"@, "monitors"@, "focus"@],
        BuiltinActionKind::FocusMonitorWorkspace => seq!["monitor"@, "workspace"@, "focus"@],
        BuiltinActionKind::CloseWindow => seq!["close"@, "window"@],
        BuiltinActionKind::MinimizeWindow => seq!["minimize"@, "window"@],
        BuiltinActionKind::ForceFocus => seq!["focus"@, "force"@],
        BuiltinActionKind::PromoteContainer => seq!["promote"@, "container"@],
        BuiltinActionKind::PromoteContainerSwap => seq!["promote"@, "swap"@],
        BuiltinActionKind::PromoteFocus => seq!["promote"@, "focus"@],
        BuiltinActionKind::PromoteWindow => seq!["promote"@, "window"@, "direction"@],
        BuiltinActionKind::NewWorkspace => seq!["workspace"@, "new"@],
        BuiltinActionKind::ToggleTiling => seq!["tiling"@, "toggle"@],
        BuiltinActionKind::CycleLayout => seq!["layout"@, "cycle"@],
        BuiltinActionKind::FlipLayout => seq!["layout"@, "flip"@],
        BuiltinActionKind::ToggleWorkspaceLayer => seq!["layer"@, "tiling"@, "floating"@],
        BuiltinActionKind::MoveContainerToLastWorkspace => seq!["container"@, "move"@, "workspace"@],
        BuiltinActionKind::SendContainerToLastWorkspace => seq!["container"@, "send"@, "workspace"@],
        BuiltinActionKind::MoveContainerToWorkspace => seq!["container"@, "move"@, "workspace"@],
        BuiltinActionKind::CycleMoveContainerToWorkspace => seq!["container"@, "move"@, "cycle"@],
        BuiltinActionKind::SendContainerToWorkspace => seq!["container"@, "send"@, "workspace"@],
        BuiltinActionKind::CycleSendContainerToWorkspace => seq!["container"@, "send"@, "cycle"@],
        BuiltinActionKind::MoveContainerToMonitor => seq!["container"@, "move"@, "monitor"@],
        BuiltinActionKind::CycleMoveContainerToMonitor => seq!["container"@, "move"@, "monitor"@, "cycle"@],
        BuiltinActionKind::SendContainerToMonitor => seq!["container"@, "send"@, "monitor"@],
        BuiltinActionKind::CycleSendContainerToMonitor => seq!["container"@, "send"@, "monitor"@, "cycle"@],
        BuiltinActionKind::MoveContainerToMonitorWorkspace => seq!["container"@, "move"@, "monitor"@, "workspace"@],
        BuiltinActionKind::SendContainerToMonitorWorkspace => seq!["container"@, "send"@, "monitor"@, "workspace"@],
        BuiltinActionKind::MoveWorkspaceToMonitor => seq!["workspace"@, "move"@, "monitor"@],
        BuiltinActionKind::CycleMoveWorkspaceToMonitor => seq!["workspace"@, "move"@, "monitor"@, "cycle"@],
        BuiltinActionKind::SwapWorkspacesToMonitor => seq!["workspace"@, "swap"@, "monitor"@],
        BuiltinActionKind::PreselectDirection => seq!["preselect"@, "direction"@],
        BuiltinActionKind::CancelPreselect => seq!["preselect"@, "cancel"@],
        BuiltinActionKind::Retile => seq!["retile"@, "layout"@],
        BuiltinActionKind::RetileWithResizeDimensions => seq!["retile"@, "resize"@],
        BuiltinActionKind::ManageFocusedWindow => seq!["manage"@, "window"@],
        BuiltinActionKind::UnmanageFocusedWindow => seq!["unmanage"@, "window"@],
        BuiltinActionKind::AdjustContainerPadding => seq!["padding"@, "container"@],
        BuiltinActionKind::AdjustWorkspacePadding => seq!["padding"@, "workspace"@],
        BuiltinActionKind::ToggleMouseFollowsFocus => seq!["mouse"@, "focus"@],
        BuiltinActionKind::SetMouseFollowsFocus => seq!["mouse"@, "focus"@],
        BuiltinActionKind::ToggleWindowContainerBehaviour => seq!["container"@, "behaviour"@],
        BuiltinActionKind::ToggleFloatOverride => seq!["float"@, "override"@],
        BuiltinActionKind::ToggleWorkspaceWindowContainerBehaviour => seq!["workspace"@, "container"@, "behaviour"@],
        BuiltinActionKind::ToggleWorkspaceFloatOverride => seq!["workspace"@, "float"@, "override"@],
        BuiltinActionKind::ToggleCrossMonitorMoveBehaviour => seq!["monitor"@, "move"@, "behaviour"@],
        BuiltinActionKind::ToggleMonocleFocusBehaviour => seq!["monocle"@, "focus"@],
        BuiltinActionKind::TogglePause => seq!["pause"@, "resume"@],
        BuiltinActionKind::SetFocusedContainerPadding => seq!["padding"@, "container"@],
        BuiltinActionKind::SetFocusedWorkspacePadding => seq!["padding"@, "workspace"@],
        BuiltinActionKind::SetContainerPadding => seq!["padding"@, "container"@],
        BuiltinActionKind::SetWorkspacePadding => seq!["padding"@, "workspace"@],
        BuiltinActionKind::SetWorkspaceTiling => seq!["tiling"@, "workspace"@],
        BuiltinActionKind::SetMonitorWorkspaceLayout => seq!["layout"@, "workspace"@],
        BuiltinActionKind::EnsureWorkspaces => seq!["workspace"@, "ensure"@],
        BuiltinActionKind::ClearWorkspaceLayoutRules => seq!["layout"@, "rules"@],
        BuiltinActionKind::SetScrollingColumns => seq!["scrolling"@, "columns"@],
        BuiltinActionKind::LockContainer => seq!["lock"@, "container"@],
        BuiltinActionKind::UnlockContainer => seq!["unlock"@, "container"@],
        BuiltinActionKind::ToggleTitleBars => seq!["titlebar"@],
        BuiltinActionKind::EnforceWorkspaceRules => seq!["rules"@, "workspace"@],
        BuiltinActionKind::AddSessionFloatRule => seq!["float"@, "session"@],
        BuiltinActionKind::ClearSessionFloatRules => seq!["float"@, "session"@],
        BuiltinActionKind::ResizeWindowEdge => seq!["resize"@, "edge"@],
        BuiltinActionKind::ResizeWindowEdgeByStep => seq!["resize"@, "edge"@, "step"@],
        BuiltinActionKind::SetWindowHidingBehaviour => seq!["hide"@, "cloak"@],
        BuiltinActionKind::SetCrossMonitorMoveBehaviour => seq!["monitor"@, "move"@],
        BuiltinActionKind::SetMonocleFocusBehaviour => seq!["monocle"@, "focus"@],
        BuiltinActionKind::SetUnmanagedWindowOperationBehaviour => seq!["unmanaged"@, "float"@],
        BuiltinActionKind::SetFocusFollowsMouse => seq!["focus"@, "mouse"@],
        BuiltinActionKind::ToggleFocusFollowsMouse => seq!["focus"@, "mouse"@],
        BuiltinActionKind::AddWorkspaceLayoutRule => seq!["layout"@, "rule"@],
        BuiltinActionKind::FocusNamedWorkspace => seq!["focus"@, "workspace"@, "name"@],
        BuiltinActionKind::MoveContainerToNamedWorkspace => seq!["move"@, "workspace"@, "name"@],
        BuiltinActionKind::SendContainerToNamedWorkspace => seq!["send"@, "workspace"@, "name"@],
        BuiltinActionKind::SetNamedWorkspaceContainerPadding => seq!["padding"@, "name"@],
        BuiltinActionKind::SetNamedWorkspacePadding => seq!["padding"@, "name"@],
        BuiltinActionKind::SetNamedWorkspaceTiling => seq!["tiling"@, "name"@],
        BuiltinActionKind::SetNamedWorkspaceLayout => seq!["layout"@, "name"@],
        BuiltinActionKind::SetNamedWorkspaceCustomLayout => seq!["layout"@, "custom"@, "name"@],
        BuiltinActionKind::AddNamedWorkspaceLayoutRule => seq!["layout"@, "rule"@, "name"@],
        BuiltinActionKind::AddNamedWorkspaceCustomLayoutRule => seq!["layout"@, "rule"@, "custom"@, "name"@],
        BuiltinActionKind::ClearNamedWorkspaceLayoutRules => seq!["layout"@, "rule"@, "name"@],
        BuiltinActionKind::EnsureNamedWorkspaces => seq!["workspace"@, "name"@],
        BuiltinActionKind::SetWorkspaceName => seq!["workspace"@, "name"@],
        BuiltinActionKind::SetLayoutRatios => seq!["layout"@, "ratio"@],
        BuiltinActionKind::SetCustomLayout => seq!["layout"@, "custom"@],
        BuiltinActionKind::SetWorkspaceCustomLayout => seq!["layout"@, "custom"@],
        BuiltinActionKind::AddWorkspaceCustomLayoutRule => seq!["layout"@, "rule"@, "custom"@],
        BuiltinActionKind::EagerFocus => seq!["focus"@, "exe"@],
        BuiltinActionKind::RemoveTitleBar => seq!["title"@, "bar"@],
        BuiltinActionKind::SetResizeStep => seq!["resize"@, "step"@, "configuration"@],
        BuiltinActionKind::SetTransparencyEnabled => seq!["transparency"@, "enabled"@, "configuration"@],
        BuiltinActionKind::ToggleTransparency => seq!["transparency"@, "toggle"@, "configuration"@],
        BuiltinActionKind::SetTransparencyAlpha => seq!["transparency"@, "alpha"@, "configuration"@],
        BuiltinActionKind::SetBorderEnabled => seq!["border"@, "enabled"@, "configuration"@],
        BuiltinActionKind::SetBorderColour => seq!["border"@, "colour"@, "configuration"@],
        BuiltinActionKind::SetBorderWidth => seq!["border"@, "width"@, "configuration"@],
        BuiltinActionKind::SetBorderOffset => seq!["border"@, "offset"@, "configuration"@],
        BuiltinActionKind::SetBorderStyle => seq!["border"@, "style"@, "configuration"@],
        BuiltinActionKind::SetBorderImplementation => seq!["border"@, "implementation"@, "configuration"@],
    }
}

/// The parameters each action takes, in order.
pub open spec fn parameters_of(kind: BuiltinActionKind) -> Seq<ParameterDefinition> {
    match kind {
        BuiltinActionKind::FocusWindow => seq![ParameterDefinition { id: ParameterId::Direction, domain: ParameterDomain::Direction, cardinality: ArgumentCardinality::RequiredScalar }],
        BuiltinActionKind::MoveWindow => seq![ParameterDefinition { id: ParameterId::Direction, domain: ParameterDomain::Direction, cardinality: ArgumentCardinality::RequiredScalar }],
        BuiltinActionKind::ResizeWindow => seq![ParameterDefinition { id: ParameterId::Axis, domain: ParameterDomain::Axis, cardinality: ArgumentCardinality::RequiredScalar }, ParameterDefinition { id: ParameterId::Delta, domain: ParameterDomain::Pixels, cardinality: ArgumentCardinality::RequiredScalar }],
        BuiltinActionKind::ResizeWindowByStep => seq![ParameterDefinition { id: ParameterId::Axis, domain: ParameterDomain::Axis, cardinality: ArgumentCardinality::RequiredScalar }, ParameterDefinition { id: ParameterId::Sizing, domain: ParameterDomain::Sizing, cardinality: ArgumentCardinality::RequiredScalar }],
        BuiltinActionKind::SetWorkspaceLayout => seq![ParameterDefinition { id: ParameterId::Workspace, domain: ParameterDomain::WorkspaceSelector, cardinality: ArgumentCardinality::RequiredScalar }, ParameterDefinition { id: ParameterId::Layout, domain: ParameterDomain::Layout, cardinality: ArgumentCardinality::RequiredScalar }],
        BuiltinActionKind::ToggleWindowFloat => seq![ParameterDefinition { id: ParameterId::Window, domain: ParameterDomain::WindowSelector, cardinality: ArgumentCardinality::RequiredScalar }],
        BuiltinActionKind::CycleFocusWindow => seq![ParameterDefinition { id: ParameterId::Cycle, domain: ParameterDomain::Cycle, cardinality: ArgumentCardinality::RequiredScalar }],
        BuiltinActionKind::CycleMoveWindow => seq![ParameterDefinition { id: ParameterId::Cycle, domain: ParameterDomain::Cycle, cardinality: ArgumentCardinality::RequiredScalar }],
        BuiltinActionKind::ToggleWindowMonocle => seq![ParameterDefinition { id: ParameterId::Window, domain: ParameterDomain::WindowSelector, cardinality: ArgumentCardinality::RequiredScalar }],
        BuiltinActionKind::ToggleWindowMaximize => seq![ParameterDefinition { id: ParameterId::Window, domain: ParameterDomain::WindowSelector, cardinality: ArgumentCardinality::RequiredScalar }],
        BuiltinActionKind::ToggleContainerLock => seq![ParameterDefinition { id: ParameterId::Window, domain: ParameterDomain::WindowSelector, cardinality: ArgumentCardinality::RequiredScalar }],
        BuiltinActionKind::StackWindow => seq![ParameterDefinition { id: ParameterId::Direction, domain: ParameterDomain::Direction, cardinality: ArgumentCardinality::RequiredScalar }],
        BuiltinActionKind::UnstackWindow => seq![ParameterDefinition { id: ParameterId::Window, domain: ParameterDomain::WindowSelector, cardinality: ArgumentCardinality::RequiredScalar }],
        BuiltinActionKind::StackAll => Seq::empty(),
        BuiltinActionKind::UnstackAll => Seq::empty(),
        BuiltinActionKind::CycleStack => seq![ParameterDefinition { id: ParameterId::Cycle, domain: ParameterDomain::Cycle, cardinality: ArgumentCardinality::RequiredScalar }],
        BuiltinActionKind::CycleStackIndex => seq![ParameterDefinition { id: ParameterId::Cycle, domain: ParameterDomain::Cycle, cardinality: ArgumentCardinality::RequiredScalar }],
        BuiltinActionKind::FocusStackWindow => seq![ParameterDefinition { id: ParameterId::Index, domain: ParameterDomain::Index, cardinality: ArgumentCardinality::RequiredScalar }],
        BuiltinActionKind::FocusWorkspace => seq![ParameterDefinition { id: ParameterId::Index, domain: ParameterDomain::Index, cardinality: ArgumentCardinality::RequiredScalar }],
        BuiltinActionKind::CycleFocusWorkspace => seq![ParameterDefinition { id: ParameterId::Cycle, domain: ParameterDomain::Cycle, cardinality: ArgumentCardinality::RequiredScalar }],
        BuiltinActionKind::CycleFocusEmptyWorkspace => seq![ParameterDefinition { id: ParameterId::Cycle, domain: ParameterDomain::Cycle, cardinality: ArgumentCardinality::RequiredScalar }],
        BuiltinActionKind::FocusLastWorkspace => Seq::empty(),
        BuiltinActionKind::CloseWorkspace => Seq::empty(),
        BuiltinActionKind::FocusMonitor => seq![ParameterDefinition { id: ParameterId::Index, domain: ParameterDomain::Index, cardinality: ArgumentCardinality::RequiredScalar }],
        BuiltinActionKind::CycleFocusMonitor => seq![ParameterDefinition { id: ParameterId::Cycle, domain: ParameterDomain::Cycle, cardinality: ArgumentCardinality::RequiredScalar }],
        BuiltinActionKind::FocusMonitorAtCursor => Seq::empty(),
        BuiltinActionKind::FocusWorkspaceOnAllMonitors => seq![ParameterDefinition { id: ParameterId::Index, domain: ParameterDomain::Index, cardinality: ArgumentCardinality::RequiredScalar }],
        BuiltinActionKind::FocusMonitorWorkspace => seq![ParameterDefinition { id: ParameterId::Monitor, domain: ParameterDomain::Index, cardinality: ArgumentCardinality::RequiredScalar }, ParameterDefinition { id: ParameterId::Index, domain: ParameterDomain::Index, cardinality: ArgumentCardinality::RequiredScalar }],
        BuiltinActionKind::CloseWindow => seq![ParameterDefinition { id: ParameterId::Window, domain: ParameterDomain::WindowSelector, cardinality: ArgumentCardinality::RequiredScalar }],
        BuiltinActionKind::MinimizeWindow => seq![ParameterDefinition { id: ParameterId::Window, domain: ParameterDomain::WindowSelector, cardinality: ArgumentCardinality::RequiredScalar }],
        BuiltinActionKind::ForceFocus => seq![ParameterDefinition { id: ParameterId::Window, domain: ParameterDomain::WindowSelector, cardinality: ArgumentCardinality::RequiredScalar }],
        BuiltinActionKind::PromoteContainer => Seq::empty(),
        BuiltinActionKind::PromoteContainerSwap => Seq::empty(),
        BuiltinActionKind::PromoteFocus => Seq::empty(),
        BuiltinActionKind::PromoteWindow => seq![ParameterDefinition { id: ParameterId::Direction, domain: ParameterDomain::Direction, cardinality: ArgumentCardinality::RequiredScalar }],
        BuiltinActionKind::NewWorkspace => Seq::empty(),
        BuiltinActionKind::ToggleTiling => Seq::empty(),
        BuiltinActionKind::CycleLayout => seq![ParameterDefinition { id: ParameterId::Cycle, domain: ParameterDomain::Cycle, cardinality: ArgumentCardinality::RequiredScalar }],
        BuiltinActionKind::FlipLayout => seq![ParameterDefinition { id: ParameterId::Axis, domain: ParameterDomain::Axis, cardinality: ArgumentCardinality::RequiredScalar }],
        BuiltinActionKind::ToggleWorkspaceLayer => Seq::empty(),
        BuiltinActionKind::MoveContainerToLastWorkspace => Seq::empty(),
        BuiltinActionKind::SendContainerToLastWorkspace => Seq::empty(),
        BuiltinActionKind::MoveContainerToWorkspace => seq![ParameterDefinition { id: ParameterId::Index, domain: ParameterDomain::Index, cardinality: ArgumentCardinality::RequiredScalar }],
        BuiltinActionKind::CycleMoveContainerToWorkspace => seq![ParameterDefinition { id: ParameterId::Cycle, domain: ParameterDomain::Cycle, cardinality: ArgumentCardinality::RequiredScalar }],
        BuiltinActionKind::SendContainerToWorkspace => seq![ParameterDefinition { id: ParameterId::Index, domain: ParameterDomain::Index, cardinality: ArgumentCardinality::RequiredScalar }],
        BuiltinActionKind::CycleSendContainerToWorkspace => seq![ParameterDefinition { id: ParameterId::Cycle, domain: ParameterDomain::Cycle, cardinality: ArgumentCardinality::RequiredScalar }],
        BuiltinActionKind::MoveContainerToMonitor => seq![ParameterDefinition { id: ParameterId::Index, domain: ParameterDomain::Index, cardinality: ArgumentCardinality::RequiredScalar }],
        BuiltinActionKind::CycleMoveContainerToMonitor => seq![ParameterDefinition { id: ParameterId::Cycle, domain: ParameterDomain::Cycle, cardinality: ArgumentCardinality::RequiredScalar }],
        BuiltinActionKind::SendContainerToMonitor => seq![ParameterDefinition { id: ParameterId::Index, domain: ParameterDomain::Index, cardinality: ArgumentCardinality::RequiredScalar }],
        BuiltinActionKind::CycleSendContainerToMonitor => seq![ParameterDefinition { id: ParameterId::Cycle, domain: ParameterDomain::Cycle, cardinality: ArgumentCardinality::RequiredScalar }],
        BuiltinActionKind::MoveContainerToMonitorWorkspace => seq![ParameterDefinition { id: ParameterId::Monitor, domain: ParameterDomain::Index, cardinality: ArgumentCardinality::RequiredScalar }, ParameterDefinition { id: ParameterId::Index, domain: ParameterDomain::Index, cardinality: ArgumentCardinality::RequiredScalar }],
        BuiltinActionKind::SendContainerToMonitorWorkspace => seq![ParameterDefinition { id: ParameterId::Monitor, domain: ParameterDomain::Index, cardinality: ArgumentCardinality::RequiredScalar }, ParameterDefinition { id: ParameterId::Index, domain: ParameterDomain::Index, cardinality: ArgumentCardinality::RequiredScalar }],
        BuiltinActionKind::MoveWorkspaceToMonitor => seq![ParameterDefinition { id: ParameterId::Index, domain: ParameterDomain::Index, cardinality: ArgumentCardinality::RequiredScalar }],
        BuiltinActionKind::CycleMoveWorkspaceToMonitor => seq![ParameterDefinition { id: ParameterId::Cycle, domain: ParameterDomain::Cycle, cardinality: ArgumentCardinality::RequiredScalar }],
        BuiltinActionKind::SwapWorkspacesToMonitor => seq![ParameterDefinition { id: ParameterId::Index, domain: ParameterDomain::Index, cardinality: ArgumentCardinality::RequiredScalar }],
        BuiltinActionKind::PreselectDirection => seq![ParameterDefinition { id: ParameterId::Direction, domain: ParameterDomain::Direction, cardinality: ArgumentCardinality::RequiredScalar }],
        BuiltinActionKind::CancelPreselect => Seq::empty(),
        BuiltinActionKind::Retile => Seq::empty(),
        BuiltinActionKind::RetileWithResizeDimensions => Seq::empty(),
        BuiltinActionKind::ManageFocusedWindow => Seq::empty(),
        BuiltinActionKind::UnmanageFocusedWindow => Seq::empty(),
        BuiltinActionKind::AdjustContainerPadding => seq![ParameterDefinition { id: ParameterId::Sizing, domain: ParameterDomain::Sizing, cardinality: ArgumentCardinality::RequiredScalar }, ParameterDefinition { id: ParameterId::Adjustment, domain: ParameterDomain::Adjustment, cardinality: ArgumentCardinality::RequiredScalar }],
        BuiltinActionKind::AdjustWorkspacePadding => seq![ParameterDefinition { id: ParameterId::Sizing, domain: ParameterDomain::Sizing, cardinality: ArgumentCardinality::RequiredScalar }, ParameterDefinition { id: ParameterId::Adjustment, domain: ParameterDomain::Adjustment, cardinality: ArgumentCardinality::RequiredScalar }],
        BuiltinActionKind::ToggleMouseFollowsFocus => Seq::empty(),
        BuiltinActionKind::SetMouseFollowsFocus => seq![ParameterDefinition { id: ParameterId::Enabled, domain: ParameterDomain::Flag, cardinality: ArgumentCardinality::RequiredScalar }],
        BuiltinActionKind::ToggleWindowContainerBehaviour => Seq::empty(),
        BuiltinActionKind::ToggleFloatOverride => Seq::empty(),
        BuiltinActionKind::ToggleWorkspaceWindowContainerBehaviour => Seq::empty(),
        BuiltinActionKind::ToggleWorkspaceFloatOverride => Seq::empty(),
        BuiltinActionKind::ToggleCrossMonitorMoveBehaviour => Seq::empty(),
        BuiltinActionKind::ToggleMonocleFocusBehaviour => Seq::empty(),
        BuiltinActionKind::TogglePause => Seq::empty(),
        BuiltinActionKind::SetFocusedContainerPadding => seq![ParameterDefinition { id: ParameterId::Size, domain: ParameterDomain::Size, cardinality: ArgumentCardinality::RequiredScalar }],
        BuiltinActionKind::SetFocusedWorkspacePadding => seq![ParameterDefinition { id: ParameterId::Size, domain: ParameterDomain::Size, cardinality: ArgumentCardinality::RequiredScalar }],
        BuiltinActionKind::SetContainerPadding => seq![ParameterDefinition { id: ParameterId::Monitor, domain: ParameterDomain::Index, cardinality: ArgumentCardinality::RequiredScalar }, ParameterDefinition { id: ParameterId::Index, domain: ParameterDomain::Index, cardinality: ArgumentCardinality::RequiredScalar }, ParameterDefinition { id: ParameterId::Size, domain: ParameterDomain::Size, cardinality: ArgumentCardinality::RequiredScalar }],
        BuiltinActionKind::SetWorkspacePadding => seq![ParameterDefinition { id: ParameterId::Monitor, domain: ParameterDomain::Index, cardinality: ArgumentCardinality::RequiredScalar }, ParameterDefinition { id: ParameterId::Index, domain: ParameterDomain::Index, cardinality: ArgumentCardinality::RequiredScalar }, ParameterDefinition { id: ParameterId::Size, domain: ParameterDomain::Size, cardinality: ArgumentCardinality::RequiredScalar }],
        BuiltinActionKind::SetWorkspaceTiling => seq![ParameterDefinition { id: ParameterId::Monitor, domain: ParameterDomain::Index, cardinality: ArgumentCardinality::RequiredScalar }, ParameterDefinition { id: ParameterId::Index, domain: ParameterDomain::Index, cardinality: ArgumentCardinality::RequiredScalar }, ParameterDefinition { id: ParameterId::Enabled, domain: ParameterDomain::Flag, cardinality: ArgumentCardinality::RequiredScalar }],
        BuiltinActionKind::SetMonitorWorkspaceLayout => seq![ParameterDefinition { id: ParameterId::Monitor, domain: ParameterDomain::Index, cardinality: ArgumentCardinality::RequiredScalar }, ParameterDefinition { id: ParameterId::Index, domain: ParameterDomain::Index, cardinality: ArgumentCardinality::RequiredScalar }, ParameterDefinition { id: ParameterId::Layout, domain: ParameterDomain::Layout, cardinality: ArgumentCardinality::RequiredScalar }],
        BuiltinActionKind::EnsureWorkspaces => seq![ParameterDefinition { id: ParameterId::Monitor, domain: ParameterDomain::Index, cardinality: ArgumentCardinality::RequiredScalar }, ParameterDefinition { id: ParameterId::Count, domain: ParameterDomain::Count, cardinality: ArgumentCardinality::RequiredScalar }],
        BuiltinActionKind::ClearWorkspaceLayoutRules => seq![ParameterDefinition { id: ParameterId::Monitor, domain: ParameterDomain::Index, cardinality: ArgumentCardinality::RequiredScalar }, ParameterDefinition { id: ParameterId::Index, domain: ParameterDomain::Index, cardinality: ArgumentCardinality::RequiredScalar }],
        BuiltinActionKind::SetScrollingColumns => seq![ParameterDefinition { id: ParameterId::Columns, domain: ParameterDomain::Columns, cardinality: ArgumentCardinality::RequiredScalar }],
        BuiltinActionKind::LockContainer => seq![ParameterDefinition { id: ParameterId::Monitor, domain: ParameterDomain::Index, cardinality: ArgumentCardinality::RequiredScalar }, ParameterDefinition { id: ParameterId::Index, domain: ParameterDomain::Index, cardinality: ArgumentCardinality::RequiredScalar }, ParameterDefinition { id: ParameterId::Container, domain: ParameterDomain::Index, cardinality: ArgumentCardinality::RequiredScalar }],
        BuiltinActionKind::UnlockContainer => seq![ParameterDefinition { id: ParameterId::Monitor, domain: ParameterDomain::Index, cardinality: ArgumentCardinality::RequiredScalar }, ParameterDefinition { id: ParameterId::Index, domain: ParameterDomain::Index, cardinality: ArgumentCardinality::RequiredScalar }, ParameterDefinition { id: ParameterId::Container, domain: ParameterDomain::Index, cardinality: ArgumentCardinality::RequiredScalar }],
        BuiltinActionKind::ToggleTitleBars => Seq::empty(),
        BuiltinActionKind::EnforceWorkspaceRules => Seq::empty(),
        BuiltinActionKind::AddSessionFloatRule => Seq::empty(),
        BuiltinActionKind::ClearSessionFloatRules => Seq::empty(),
        BuiltinActionKind::ResizeWindowEdge => seq![ParameterDefinition { id: ParameterId::Direction, domain: ParameterDomain::Direction, cardinality: ArgumentCardinality::RequiredScalar }, ParameterDefinition { id: ParameterId::Delta, domain: ParameterDomain::Pixels, cardinality: ArgumentCardinality::RequiredScalar }],
        BuiltinActionKind::ResizeWindowEdgeByStep => seq![ParameterDefinition { id: ParameterId::Direction, domain: ParameterDomain::Direction, cardinality: ArgumentCardinality::RequiredScalar }, ParameterDefinition { id: ParameterId::Sizing, domain: ParameterDomain::Sizing, cardinality: ArgumentCardinality::RequiredScalar }],
        BuiltinActionKind::SetWindowHidingBehaviour => seq![ParameterDefinition { id: ParameterId::Behaviour, domain: ParameterDomain::Behaviour, cardinality: ArgumentCardinality::RequiredScalar }],
        BuiltinActionKind::SetCrossMonitorMoveBehaviour => seq![ParameterDefinition { id: ParameterId::Behaviour, domain: ParameterDomain::Behaviour, cardinality: ArgumentCardinality::RequiredScalar }],
        BuiltinActionKind::SetMonocleFocusBehaviour => seq![ParameterDefinition { id: ParameterId::Behaviour, domain: ParameterDomain::Behaviour, cardinality: ArgumentCardinality::RequiredScalar }],
        BuiltinActionKind::SetUnmanagedWindowOperationBehaviour => seq![ParameterDefinition { id: ParameterId::Behaviour, domain: ParameterDomain::Behaviour, cardinality: ArgumentCardinality::RequiredScalar }],
        BuiltinActionKind::SetFocusFollowsMouse => seq![ParameterDefinition { id: ParameterId::Implementation, domain: ParameterDomain::Implementation, cardinality: ArgumentCardinality::RequiredScalar }, ParameterDefinition { id: ParameterId::Enabled, domain: ParameterDomain::Flag, cardinality: ArgumentCardinality::RequiredScalar }],
        BuiltinActionKind::ToggleFocusFollowsMouse => seq![ParameterDefinition { id: ParameterId::Implementation, domain: ParameterDomain::Implementation, cardinality: ArgumentCardinality::RequiredScalar }],
        BuiltinActionKind::AddWorkspaceLayoutRule => seq![ParameterDefinition { id: ParameterId::Monitor, domain: ParameterDomain::Index, cardinality: ArgumentCardinality::RequiredScalar }, ParameterDefinition { id: ParameterId::Index, domain: ParameterDomain::Index, cardinality: ArgumentCardinality::RequiredScalar }, ParameterDefinition { id: ParameterId::AtCount, domain: ParameterDomain::AtCount, cardinality: ArgumentCardinality::RequiredScalar }, ParameterDefinition { id: ParameterId::Layout, domain: ParameterDomain::Layout, cardinality: ArgumentCardinality::RequiredScalar }],
        BuiltinActionKind::FocusNamedWorkspace => seq![ParameterDefinition { id: ParameterId::Name, domain: ParameterDomain::Name, cardinality: ArgumentCardinality::RequiredScalar }],
        BuiltinActionKind::MoveContainerToNamedWorkspace => seq![ParameterDefinition { id: ParameterId::Name, domain: ParameterDomain::Name, cardinality: ArgumentCardinality::RequiredScalar }],
        BuiltinActionKind::SendContainerToNamedWorkspace => seq![ParameterDefinition { id: ParameterId::Name, domain: ParameterDomain::Name, cardinality: ArgumentCardinality::RequiredScalar }],
        BuiltinActionKind::SetNamedWorkspaceContainerPadding => seq![ParameterDefinition { id: ParameterId::Name, domain: ParameterDomain::Name, cardinality: ArgumentCardinality::RequiredScalar }, ParameterDefinition { id: ParameterId::Size, domain: ParameterDomain::Size, cardinality: ArgumentCardinality::RequiredScalar }],
        BuiltinActionKind::SetNamedWorkspacePadding => seq![ParameterDefinition { id: ParameterId::Name, domain: ParameterDomain::Name, cardinality: ArgumentCardinality::RequiredScalar }, ParameterDefinition { id: ParameterId::Size, domain: ParameterDomain::Size, cardinality: ArgumentCardinality::RequiredScalar }],
        BuiltinActionKind::SetNamedWorkspaceTiling => seq![ParameterDefinition { id: ParameterId::Name, domain: ParameterDomain::Name, cardinality: ArgumentCardinality::RequiredScalar }, ParameterDefinition { id: ParameterId::Enabled, domain: ParameterDomain::Flag, cardinality: ArgumentCardinality::RequiredScalar }],
        BuiltinActionKind::SetNamedWorkspaceLayout => seq![ParameterDefinition { id: ParameterId::Name, domain: ParameterDomain::Name, cardinality: ArgumentCardinality::RequiredScalar }, ParameterDefinition { id: ParameterId::Layout, domain: ParameterDomain::Layout, cardinality: ArgumentCardinality::RequiredScalar }],
        BuiltinActionKind::SetNamedWorkspaceCustomLayout => seq![ParameterDefinition { id: ParameterId::Name, domain: ParameterDomain::Name, cardinality: ArgumentCardinality::RequiredScalar }, ParameterDefinition { id: ParameterId::Path, domain: ParameterDomain::Path, cardinality: ArgumentCardinality::RequiredScalar }],
        BuiltinActionKind::AddNamedWorkspaceLayoutRule => seq![ParameterDefinition { id: ParameterId::Name, domain: ParameterDomain::Name, cardinality: ArgumentCardinality::RequiredScalar }, ParameterDefinition { id: ParameterId::AtCount, domain: ParameterDomain::AtCount, cardinality: ArgumentCardinality::RequiredScalar }, ParameterDefinition { id: ParameterId::Layout, domain: ParameterDomain::Layout, cardinality: ArgumentCardinality::RequiredScalar }],
        BuiltinActionKind::AddNamedWorkspaceCustomLayoutRule => seq![ParameterDefinition { id: ParameterId::Name, domain: ParameterDomain::Name, cardinality: ArgumentCardinality::RequiredScalar }, ParameterDefinition { id: ParameterId::AtCount, domain: ParameterDomain::AtCount, cardinality: ArgumentCardinality::RequiredScalar }, ParameterDefinition { id: ParameterId::Path, domain: ParameterDomain::Path, cardinality: ArgumentCardinality::RequiredScalar }],
        BuiltinActionKind::ClearNamedWorkspaceLayoutRules => seq![ParameterDefinition { id: ParameterId::Name, domain: ParameterDomain::Name, cardinality: ArgumentCardinality::RequiredScalar }],
        BuiltinActionKind::EnsureNamedWorkspaces => seq![ParameterDefinition { id: ParameterId::Monitor, domain: ParameterDomain::Index, cardinality: ArgumentCardinality::RequiredScalar }, ParameterDefinition { id: ParameterId::Names, domain: ParameterDomain::Name, cardinality: ArgumentCardinality::RequiredList }],
        BuiltinActionKind::SetWorkspaceName => seq![ParameterDefinition { id: ParameterId::Monitor, domain: ParameterDomain::Index, cardinality: ArgumentCardinality::RequiredScalar }, ParameterDefinition { id: ParameterId::Index, domain: ParameterDomain::Index, cardinality: ArgumentCardinality::RequiredScalar }, ParameterDefinition { id: ParameterId::Name, domain: ParameterDomain::Name, cardinality: ArgumentCardinality::RequiredScalar }],
        BuiltinActionKind::SetLayoutRatios => seq![ParameterDefinition { id: ParameterId::ColumnRatios, domain: ParameterDomain::Ratios, cardinality: ArgumentCardinality::OptionalList }, ParameterDefinition { id: ParameterId::RowRatios, domain: ParameterDomain::Ratios, cardinality: ArgumentCardinality::OptionalList }],
        BuiltinActionKind::SetCustomLayout => seq![ParameterDefinition { id: ParameterId::Path, domain: ParameterDomain::Path, cardinality: ArgumentCardinality::RequiredScalar }],
        BuiltinActionKind::SetWorkspaceCustomLayout => seq![ParameterDefinition { id: ParameterId::Monitor, domain: ParameterDomain::Index, cardinality: ArgumentCardinality::RequiredScalar }, ParameterDefinition { id: ParameterId::Index, domain: ParameterDomain::Index, cardinality: ArgumentCardinality::RequiredScalar }, ParameterDefinition { id: ParameterId::Path, domain: ParameterDomain::Path, cardinality: ArgumentCardinality::RequiredScalar }],
        BuiltinActionKind::AddWorkspaceCustomLayoutRule => seq![ParameterDefinition { id: ParameterId::Monitor, domain: ParameterDomain::Index, cardinality: ArgumentCardinality::RequiredScalar }, ParameterDefinition { id: ParameterId::Index, domain: ParameterDomain::Index, cardinality: ArgumentCardinality::RequiredScalar }, ParameterDefinition { id: ParameterId::AtCount, domain: ParameterDomain::AtCount, cardinality: ArgumentCardinality::RequiredScalar }, ParameterDefinition { id: ParameterId::Path, domain: ParameterDomain::Path, cardinality: ArgumentCardinality::RequiredScalar }],
        BuiltinActionKind::EagerFocus => seq![ParameterDefinition { id: ParameterId::Exe, domain: ParameterDomain::Exe, cardinality: ArgumentCardinality::RequiredScalar }],
        BuiltinActionKind::RemoveTitleBar => seq![ParameterDefinition { id: ParameterId::Identifier, domain: ParameterDomain::Identifier, cardinality: ArgumentCardinality::RequiredScalar }, ParameterDefinition { id: ParameterId::Exe, domain: ParameterDomain::Exe, cardinality: ArgumentCardinality::RequiredScalar }],
        BuiltinActionKind::SetResizeStep => seq![ParameterDefinition { id: ParameterId::ResizeStep, domain: ParameterDomain::ResizeStep, cardinality: ArgumentCardinality::RequiredScalar }],
        BuiltinActionKind::SetTransparencyEnabled => seq![ParameterDefinition { id: ParameterId::Enabled, domain: ParameterDomain::Flag, cardinality: ArgumentCardinality::RequiredScalar }],
        BuiltinActionKind::ToggleTransparency => Seq::empty(),
        BuiltinActionKind::SetTransparencyAlpha => seq![ParameterDefinition { id: ParameterId::Alpha, domain: ParameterDomain::Alpha, cardinality: ArgumentCardinality::RequiredScalar }],
        BuiltinActionKind::SetBorderEnabled => seq![ParameterDefinition { id: ParameterId::Enabled, domain: ParameterDomain::Flag, cardinality: ArgumentCardinality::RequiredScalar }],
        BuiltinActionKind::SetBorderColour => seq![ParameterDefinition { id: ParameterId::WindowKind, domain: ParameterDomain::WindowKind, cardinality: ArgumentCardinality::RequiredScalar }, ParameterDefinition { id: ParameterId::Red, domain: ParameterDomain::ColourChannel, cardinality: ArgumentCardinality::RequiredScalar }, ParameterDefinition { id: ParameterId::Green, domain: ParameterDomain::ColourChannel, cardinality: ArgumentCardinality::RequiredScalar }, ParameterDefinition { id: ParameterId::Blue, domain: ParameterDomain::ColourChannel, cardinality: ArgumentCardinality::RequiredScalar }],
        BuiltinActionKind::SetBorderWidth => seq![ParameterDefinition { id: ParameterId::Width, domain: ParameterDomain::BorderWidth, cardinality: ArgumentCardinality::RequiredScalar }],
        BuiltinActionKind::SetBorderOffset => seq![ParameterDefinition { id: ParameterId::Offset, domain: ParameterDomain::BorderOffset, cardinality: ArgumentCardinality::RequiredScalar }],
        BuiltinActionKind::SetBorderStyle => seq![ParameterDefinition { id: ParameterId::Style, domain: ParameterDomain::BorderStyle, cardinality: ArgumentCardinality::RequiredScalar }],
        BuiltinActionKind::SetBorderImplementation => seq![ParameterDefinition { id: ParameterId::Implementation, domain: ParameterDomain::BorderImplementation, cardinality: ArgumentCardinality::RequiredScalar }],
    }
}

/// `d` is the definition of `kind`: its identifier, schema version one, its
/// category, wording and parameters, both uses, no confirmation and no undo.
pub open spec fn is_definition_of(d: ActionDefinition, kind: BuiltinActionKind) -> bool {
    &&& d.id == kind.id_spec()
    &&& d.schema_version.value == 1
    &&& d.kind == kind
    &&& d.category == category_of(kind)
    &&& d.title@ == title_of(kind)
    &&& d.description@ == description_of(kind)
    &&& keyword_texts(d.keywords@) =~= keywords_of(kind)
    &&& d.parameters@ =~= parameters_of(kind)
    &&& d.permitted_uses@ =~= both_uses()
    &&& d.confirmation == ConfirmationPolicy::NotRequired
    &&& d.undo == UndoPolicy::NotSupported
}

/// A definition with both uses, no confirmation and no undo.
fn def(
    id: ActionId,
    kind: BuiltinActionKind,
    category: ActionCategory,
    title: &'static str,
    description: &'static str,
    keywords: Vec<&'static str>,
    parameters: Vec<ParameterDefinition>,
) -> (d: ActionDefinition)
    ensures
        d.id == id,
        d.schema_version.value == 1,
        d.kind == kind,
        d.category == category,
        d.title == title,
        d.description == description,
        d.keywords@ == keywords@,
        d.parameters@ == parameters@,
        d.permitted_uses@ == both_uses(),
        d.confirmation == ConfirmationPolicy::NotRequired,
        d.undo == UndoPolicy::NotSupported,
{
    ActionDefinition {
        id,
        schema_version: ActionSchemaVersion::v1(),
        kind,
        category,
        title,
        description,
        keywords,
        parameters,
        permitted_uses: vec![PermittedUse::Interactive, PermittedUse::Automation],
        confirmation: ConfirmationPolicy::NotRequired,
        undo: UndoPolicy::NotSupported,
    }
}

/// The definitions of the actions of the window category.
fn window_definition(kind: BuiltinActionKind) -> (d: ActionDefinition)
    requires
        category_of(kind) == ActionCategory::Window,
    ensures
        is_definition_of(d, kind),
{
    match kind {
            BuiltinActionKind::FocusWindow => def(
                ActionId::FOCUS_WINDOW,
                kind,
                ActionCategory::Window,
                "Focus window",
                "Focus the neighboring window in one direction",
                vec!["focus", "window", "direction"],
                vec![
                    ParameterDefinition { id: ParameterId::DIRECTION, domain: ParameterDomain::Direction, cardinality: ArgumentCardinality::RequiredScalar },
                ],
            ),
            BuiltinActionKind::MoveWindow => def(
                ActionId::MOVE_WINDOW,
                kind,
                ActionCategory::Window,
                "Move window",
                "Move the focused window in one direction",
                vec!["move", "window", "direction"],
                vec![
                    ParameterDefinition { id: ParameterId::DIRECTION, domain: ParameterDomain::Direction, cardinality: ArgumentCardinality::RequiredScalar },
                ],
            ),
            BuiltinActionKind::ResizeWindow => def(
                ActionId::RESIZE_WINDOW,
                kind,
                ActionCategory::Window,
                "Resize window",
                "Resize the focused window along one axis",
                vec!["resize", "window", "axis"],
                vec![
                    ParameterDefinition { id: ParameterId::AXIS, domain: ParameterDomain::Axis, cardinality: ArgumentCardinality::RequiredScalar },
                    ParameterDefinition { id: ParameterId::DELTA, domain: ParameterDomain::Pixels, cardinality: ArgumentCardinality::RequiredScalar },
                ],
            ),
            BuiltinActionKind::ResizeWindowByStep => def(
                ActionId::RESIZE_WINDOW_BY_STEP,
                kind,
                ActionCategory::Window,
                "Resize window by configured step",
                "Resize the focused window along one axis by the configured step",
                vec!["resize", "window", "axis", "step"],
                vec![
                    ParameterDefinition { id: ParameterId::AXIS, domain: ParameterDomain::Axis, cardinality: ArgumentCardinality::RequiredScalar },
                    ParameterDefinition { id: ParameterId::SIZING, domain: ParameterDomain::Sizing, cardinality: ArgumentCardinality::RequiredScalar },
                ],
            ),
            BuiltinActionKind::ToggleWindowFloat => def(
                ActionId::TOGGLE_WINDOW_FLOAT,
                kind,
                ActionCategory::Window,
                "Toggle window float",
                "Toggle whether the focused window floats",
                vec!["float", "window", "toggle"],
                vec![
                    ParameterDefinition { id: ParameterId::WINDOW, domain: ParameterDomain::WindowSelector, cardinality: ArgumentCardinality::RequiredScalar },
                ],
            ),
            BuiltinActionKind::CycleFocusWindow => def(
                ActionId::CYCLE_FOCUS_WINDOW,
                kind,
                ActionCategory::Window,
                "Cycle focus window",
                "Focus the next or previous window in the focused workspace",
                vec!["focus", "window", "cycle"],
                vec![
                    ParameterDefinition { id: ParameterId::CYCLE, domain: ParameterDomain::Cycle, cardinality: ArgumentCardinality::RequiredScalar },
                ],
            ),
            BuiltinActionKind::CycleMoveWindow => def(
                ActionId::CYCLE_MOVE_WINDOW,
                kind,
                ActionCategory::Window,
                "Cycle move window",
                "Move the focused window to the next or previous container",
                vec!["move", "window", "cycle"],
                vec![
                    ParameterDefinition { id: ParameterId::CYCLE, domain: ParameterDomain::Cycle, cardinality: ArgumentCardinality::RequiredScalar },
                ],
            ),
            BuiltinActionKind::ToggleWindowMonocle => def(
                ActionId::TOGGLE_WINDOW_MONOCLE,
                kind,
                ActionCategory::Window,
                "Toggle window monocle",
                "Toggle monocle for the focused window",
                vec!["monocle", "window", "toggle"],
                vec![
                    ParameterDefinition { id: ParameterId::WINDOW, domain: ParameterDomain::WindowSelector, cardinality: ArgumentCardinality::RequiredScalar },
                ],
            ),
            BuiltinActionKind::ToggleWindowMaximize => def(
                ActionId::TOGGLE_WINDOW_MAXIMIZE,
                kind,
                ActionCategory::Window,
                "Toggle window maximize",
                "Toggle maximize for the focused window",
                vec!["maximize", "window", "toggle"],
                vec![
                    ParameterDefinition { id: ParameterId::WINDOW, domain: ParameterDomain::WindowSelector, cardinality: ArgumentCardinality::RequiredScalar },
                ],
            ),
            BuiltinActionKind::ToggleContainerLock => def(
                ActionId::TOGGLE_CONTAINER_LOCK,
                kind,
                ActionCategory::Window,
                "Toggle container lock",
                "Toggle whether the focused container is locked",
                vec!["lock", "container", "toggle"],
                vec![
                    ParameterDefinition { id: ParameterId::WINDOW, domain: ParameterDomain::WindowSelector, cardinality: ArgumentCardinality::RequiredScalar },
                ],
            ),
            BuiltinActionKind::StackWindow => def(
                ActionId::STACK_WINDOW,
                kind,
                ActionCategory::Window,
                "Stack window",
                "Stack the focused window onto the neighbor in one direction",
                vec!["stack", "window"],
                vec![
                    ParameterDefinition { id: ParameterId::DIRECTION, domain: ParameterDomain::Direction, cardinality: ArgumentCardinality::RequiredScalar },
                ],
            ),
            BuiltinActionKind::UnstackWindow => def(
                ActionId::UNSTACK_WINDOW,
                kind,
                ActionCategory::Window,
                "Unstack window",
                "Remove the focused window from its stack",
                vec!["unstack", "window"],
                vec![
                    ParameterDefinition { id: ParameterId::WINDOW, domain: ParameterDomain::WindowSelector, cardinality: ArgumentCardinality::RequiredScalar },
                ],
            ),
            BuiltinActionKind::StackAll => def(
                ActionId::STACK_ALL,
                kind,
                ActionCategory::Window,
                "Stack all",
                "Stack every window on the focused workspace",
                vec!["stack", "all"],
                Vec::new(),
            ),
            BuiltinActionKind::UnstackAll => def(
                ActionId::UNSTACK_ALL,
                kind,
                ActionCategory::Window,
                "Unstack all",
                "Unstack every window on the focused workspace",
                vec!["unstack", "all"],
                Vec::new(),
            ),
            BuiltinActionKind::CycleStack => def(
                ActionId::CYCLE_STACK,
                kind,
                ActionCategory::Window,
                "Cycle stack",
                "Cycle the focused stack window",
                vec!["stack", "cycle"],
                vec![
                    ParameterDefinition { id: ParameterId::CYCLE, domain: ParameterDomain::Cycle, cardinality: ArgumentCardinality::RequiredScalar },
                ],
            ),
            BuiltinActionKind::CycleStackIndex => def(
                ActionId::CYCLE_STACK_INDEX,
                kind,
                ActionCategory::Window,
                "Cycle stack index",
                "Cycle the focused stack index",
                vec!["stack", "index", "cycle"],
                vec![
                    ParameterDefinition { id: ParameterId::CYCLE, domain: ParameterDomain::Cycle, cardinality: ArgumentCardinality::RequiredScalar },
                ],
            ),
            BuiltinActionKind::FocusStackWindow => def(
                ActionId::FOCUS_STACK_WINDOW,
                kind,
                ActionCategory::Window,
                "Focus stack window",
                "Focus a window in the focused stack by index",
                vec!["stack", "focus", "index"],
                vec![
                    ParameterDefinition { id: ParameterId::INDEX, domain: ParameterDomain::Index, cardinality: ArgumentCardinality::RequiredScalar },
                ],
            ),
            BuiltinActionKind::CloseWindow => def(
                ActionId::CLOSE_WINDOW,
                kind,
                ActionCategory::Window,
                "Close window",
                "Close the foreground window",
                vec!["close", "window"],
                vec![
                    ParameterDefinition { id: ParameterId::WINDOW, domain: ParameterDomain::WindowSelector, cardinality: ArgumentCardinality::RequiredScalar },
                ],
            ),
            BuiltinActionKind::MinimizeWindow => def(
                ActionId::MINIMIZE_WINDOW,
                kind,
                ActionCategory::Window,
                "Minimize window",
                "Minimize the foreground window",
                vec!["minimize", "window"],
                vec![
                    ParameterDefinition { id: ParameterId::WINDOW, domain: ParameterDomain::WindowSelector, cardinality: ArgumentCardinality::RequiredScalar },
                ],
            ),
            BuiltinActionKind::ForceFocus => def(
                ActionId::FORCE_FOCUS,
                kind,
                ActionCategory::Window,
                "Force focus",
                "Force focus the focused window with a click",
                vec!["focus", "force"],
                vec![
                    ParameterDefinition { id: ParameterId::WINDOW, domain: ParameterDomain::WindowSelector, cardinality: ArgumentCardinality::RequiredScalar },
                ],
            ),
            BuiltinActionKind::PromoteContainer => def(
                ActionId::PROMOTE_CONTAINER,
                kind,
                ActionCategory::Window,
                "Promote container",
                "Promote the focused container to the front of the layout",
                vec!["promote", "container"],
                Vec::new(),
            ),
            BuiltinActionKind::PromoteContainerSwap => def(
                ActionId::PROMOTE_CONTAINER_SWAP,
                kind,
                ActionCategory::Window,
                "Promote container swap",
                "Swap the focused container with the front of the layout",
                vec!["promote", "swap"],
                Vec::new(),
            ),
            BuiltinActionKind::PromoteFocus => def(
                ActionId::PROMOTE_FOCUS,
                kind,
                ActionCategory::Window,
                "Promote focus",
                "Move focus to the front container",
                vec!["promote", "focus"],
                Vec::new(),
            ),
            BuiltinActionKind::PromoteWindow => def(
                ActionId::PROMOTE_WINDOW,
                kind,
                ActionCategory::Window,
                "Promote window",
                "Focus a neighbor and promote it to the front",
                vec!["promote", "window", "direction"],
                vec![
                    ParameterDefinition { id: ParameterId::DIRECTION, domain: ParameterDomain::Direction, cardinality: ArgumentCardinality::RequiredScalar },
                ],
            ),
            BuiltinActionKind::PreselectDirection => def(
                ActionId::PRESELECT_DIRECTION,
                kind,
                ActionCategory::Window,
                "Preselect direction",
                "Preselect a direction for the next container insertion",
                vec!["preselect", "direction"],
                vec![
                    ParameterDefinition { id: ParameterId::DIRECTION, domain: ParameterDomain::Direction, cardinality: ArgumentCardinality::RequiredScalar },
                ],
            ),
            BuiltinActionKind::CancelPreselect => def(
                ActionId::CANCEL_PRESELECT,
                kind,
                ActionCategory::Window,
                "Cancel preselect",
                "Clear the workspace direction preselect",
                vec!["preselect", "cancel"],
                Vec::new(),
            ),
            BuiltinActionKind::ManageFocusedWindow => def(
                ActionId::MANAGE_FOCUSED_WINDOW,
                kind,
                ActionCategory::Window,
                "Manage focused window",
                "Start managing the focused window",
                vec!["manage", "window"],
                Vec::new(),
            ),
            BuiltinActionKind::UnmanageFocusedWindow => def(
                ActionId::UNMANAGE_FOCUSED_WINDOW,
                kind,
                ActionCategory::Window,
                "Unmanage focused window",
                "Stop managing the focused window",
                vec!["unmanage", "window"],
                Vec::new(),
            ),
            BuiltinActionKind::ToggleWindowContainerBehaviour => def(
                ActionId::TOGGLE_WINDOW_CONTAINER_BEHAVIOUR,
                kind,
                ActionCategory::Window,
                "Toggle window container behaviour",
                "Toggle between creating and appending window containers",
                vec!["container", "behaviour"],
                Vec::new(),
            ),
            BuiltinActionKind::ToggleFloatOverride => def(
                ActionId::TOGGLE_FLOAT_OVERRIDE,
                kind,
                ActionCategory::Window,
                "Toggle float override",
                "Toggle the global float override",
                vec!["float", "override"],
                Vec::new(),
            ),
            BuiltinActionKind::ToggleMonocleFocusBehaviour => def(
                ActionId::TOGGLE_MONOCLE_FOCUS_BEHAVIOUR,
                kind,
                ActionCategory::Window,
                "Toggle monocle focus behaviour",
                "Toggle whether directional focus cycles through a monocle",
                vec!["monocle", "focus"],
                Vec::new(),
            ),
            BuiltinActionKind::LockContainer => def(
                ActionId::LOCK_CONTAINER,
                kind,
                ActionCategory::Window,
                "Lock container",
                "Lock a container on a workspace",
                vec!["lock", "container"],
                vec![
                    ParameterDefinition { id: ParameterId::MONITOR, domain: ParameterDomain::Index, cardinality: ArgumentCardinality::RequiredScalar },
                    ParameterDefinition { id: ParameterId::INDEX, domain: ParameterDomain::Index, cardinality: ArgumentCardinality::RequiredScalar },
                    ParameterDefinition { id: ParameterId::CONTAINER, domain: ParameterDomain::Index, cardinality: ArgumentCardinality::RequiredScalar },
                ],
            ),
            BuiltinActionKind::UnlockContainer => def(
                ActionId::UNLOCK_CONTAINER,
                kind,
                ActionCategory::Window,
                "Unlock container",
                "Unlock a container on a workspace",
                vec!["unlock", "container"],
                vec![
                    ParameterDefinition { id: ParameterId::MONITOR, domain: ParameterDomain::Index, cardinality: ArgumentCardinality::RequiredScalar },
                    ParameterDefinition { id: ParameterId::INDEX, domain: ParameterDomain::Index, cardinality: ArgumentCardinality::RequiredScalar },
                    ParameterDefinition { id: ParameterId::CONTAINER, domain: ParameterDomain::Index, cardinality: ArgumentCardinality::RequiredScalar },
                ],
            ),
            BuiltinActionKind::ToggleTitleBars => def(
                ActionId::TOGGLE_TITLE_BARS,
                kind,
                ActionCategory::Window,
                "Toggle title bars",
                "Toggle removal of title bars on managed windows",
                vec!["titlebar"],
                Vec::new(),
            ),
            BuiltinActionKind::AddSessionFloatRule => def(
                ActionId::ADD_SESSION_FLOAT_RULE,
                kind,
                ActionCategory::Window,
                "Add session float rule",
                "Float the foreground window for this session",
                vec!["float", "session"],
                Vec::new(),
            ),
            BuiltinActionKind::ClearSessionFloatRules => def(
                ActionId::CLEAR_SESSION_FLOAT_RULES,
                kind,
                ActionCategory::Window,
                "Clear session float rules",
                "Clear float rules created this session",
                vec!["float", "session"],
                Vec::new(),
            ),
            BuiltinActionKind::ResizeWindowEdge => def(
                ActionId::RESIZE_WINDOW_EDGE,
                kind,
                ActionCategory::Window,
                "Resize window edge",
                "Resize the focused window from one edge",
                vec!["resize", "edge"],
                vec![
                    ParameterDefinition { id: ParameterId::DIRECTION, domain: ParameterDomain::Direction, cardinality: ArgumentCardinality::RequiredScalar },
                    ParameterDefinition { id: ParameterId::DELTA, domain: ParameterDomain::Pixels, cardinality: ArgumentCardinality::RequiredScalar },
                ],
            ),
            BuiltinActionKind::ResizeWindowEdgeByStep => def(
                ActionId::RESIZE_WINDOW_EDGE_BY_STEP,
                kind,
                ActionCategory::Window,
                "Resize window edge by configured step",
                "Resize the focused window from one edge by the configured step",
                vec!["resize", "edge", "step"],
                vec![
                    ParameterDefinition { id: ParameterId::DIRECTION, domain: ParameterDomain::Direction, cardinality: ArgumentCardinality::RequiredScalar },
                    ParameterDefinition { id: ParameterId::SIZING, domain: ParameterDomain::Sizing, cardinality: ArgumentCardinality::RequiredScalar },
                ],
            ),
            BuiltinActionKind::SetWindowHidingBehaviour => def(
                ActionId::SET_WINDOW_HIDING_BEHAVIOUR,
                kind,
                ActionCategory::Window,
                "Set window hiding behaviour",
                "Set how windows are hidden when leaving a workspace",
                vec!["hide", "cloak"],
                vec![
                    ParameterDefinition { id: ParameterId::BEHAVIOUR, domain: ParameterDomain::Behaviour, cardinality: ArgumentCardinality::RequiredScalar },
                ],
            ),
            BuiltinActionKind::SetCrossMonitorMoveBehaviour => def(
                ActionId::SET_CROSS_MONITOR_MOVE_BEHAVIOUR,
                kind,
                ActionCategory::Window,
                "Set cross-monitor move behaviour",
                "Set how window moves behave across monitors",
                vec!["monitor", "move"],
                vec![
                    ParameterDefinition { id: ParameterId::BEHAVIOUR, domain: ParameterDomain::Behaviour, cardinality: ArgumentCardinality::RequiredScalar },
                ],
            ),
            BuiltinActionKind::SetMonocleFocusBehaviour => def(
                ActionId::SET_MONOCLE_FOCUS_BEHAVIOUR,
                kind,
                ActionCategory::Window,
                "Set monocle focus behaviour",
                "Set how directional focus behaves while monocle is active",
                vec!["monocle", "focus"],
                vec![
                    ParameterDefinition { id: ParameterId::BEHAVIOUR, domain: ParameterDomain::Behaviour, cardinality: ArgumentCardinality::RequiredScalar },
                ],
            ),
            BuiltinActionKind::SetUnmanagedWindowOperationBehaviour => def(
                ActionId::SET_UNMANAGED_WINDOW_OPERATION_BEHAVIOUR,
                kind,
                ActionCategory::Window,
                "Set unmanaged window operation behaviour",
                "Set whether commands apply to unmanaged and floating windows",
                vec!["unmanaged", "float"],
                vec![
                    ParameterDefinition { id: ParameterId::BEHAVIOUR, domain: ParameterDomain::Behaviour, cardinality: ArgumentCardinality::RequiredScalar },
                ],
            ),
            BuiltinActionKind::SetFocusFollowsMouse => def(
                ActionId::SET_FOCUS_FOLLOWS_MOUSE,
                kind,
                ActionCategory::Window,
                "Set focus follows mouse",
                "Enable or disable a focus-follows-mouse implementation",
                vec!["focus", "mouse"],
                vec![
                    ParameterDefinition { id: ParameterId::IMPLEMENTATION, domain: ParameterDomain::Implementation, cardinality: ArgumentCardinality::RequiredScalar },
                    ParameterDefinition { id: ParameterId::ENABLED, domain: ParameterDomain::Flag, cardinality: ArgumentCardinality::RequiredScalar },
                ],
            ),
            BuiltinActionKind::ToggleFocusFollowsMouse => def(
                ActionId::TOGGLE_FOCUS_FOLLOWS_MOUSE,
                kind,
                ActionCategory::Window,
                "Toggle focus follows mouse",
                "Toggle a focus-follows-mouse implementation",
                vec!["focus", "mouse"],
                vec![
                    ParameterDefinition { id: ParameterId::IMPLEMENTATION, domain: ParameterDomain::Implementation, cardinality: ArgumentCardinality::RequiredScalar },
                ],
            ),
            BuiltinActionKind::EagerFocus => def(
                ActionId::EAGER_FOCUS,
                kind,
                ActionCategory::Window,
                "Eager focus",
                "Focus a managed window by executable name",
                vec!["focus", "exe"],
                vec![
                    ParameterDefinition { id: ParameterId::EXE, domain: ParameterDomain::Exe, cardinality: ArgumentCardinality::RequiredScalar },
                ],
            ),
            BuiltinActionKind::RemoveTitleBar => def(
                ActionId::REMOVE_TITLE_BAR,
                kind,
                ActionCategory::Window,
                "Remove title bar",
                "Remove the title bar from matching windows",
                vec!["title", "bar"],
                vec![
                    ParameterDefinition { id: ParameterId::IDENTIFIER, domain: ParameterDomain::Identifier, cardinality: ArgumentCardinality::RequiredScalar },
                    ParameterDefinition { id: ParameterId::EXE, domain: ParameterDomain::Exe, cardinality: ArgumentCardinality::RequiredScalar },
                ],
            ),
        _ => vstd::pervasive::unreached(),
    }
}

/// The definitions of the actions of the workspace category.
fn workspace_definition(kind: BuiltinActionKind) -> (d: ActionDefinition)
    requires
        category_of(kind) == ActionCategory::Workspace,
    ensures
        is_definition_of(d, kind),
{
    match kind {
            BuiltinActionKind::SetWorkspaceLayout => def(
                ActionId::SET_WORKSPACE_LAYOUT,
                kind,
                ActionCategory::Workspace,
                "Set workspace layout",
                "Set the focused workspace to a built-in layout",
                vec!["layout", "workspace", "bsp", "columns"],
                vec![
                    ParameterDefinition { id: ParameterId::WORKSPACE, domain: ParameterDomain::WorkspaceSelector, cardinality: ArgumentCardinality::RequiredScalar },
                    ParameterDefinition { id: ParameterId::LAYOUT, domain: ParameterDomain::Layout, cardinality: ArgumentCardinality::RequiredScalar },
                ],
            ),
            BuiltinActionKind::FocusWorkspace => def(
                ActionId::FOCUS_WORKSPACE,
                kind,
                ActionCategory::Workspace,
                "Focus workspace",
                "Focus a workspace by index on the target monitor",
                vec!["workspace", "focus", "index"],
                vec![
                    ParameterDefinition { id: ParameterId::INDEX, domain: ParameterDomain::Index, cardinality: ArgumentCardinality::RequiredScalar },
                ],
            ),
            BuiltinActionKind::CycleFocusWorkspace => def(
                ActionId::CYCLE_FOCUS_WORKSPACE,
                kind,
                ActionCategory::Workspace,
                "Cycle focus workspace",
                "Focus the next or previous workspace on the target monitor",
                vec!["workspace", "focus", "cycle"],
                vec![
                    ParameterDefinition { id: ParameterId::CYCLE, domain: ParameterDomain::Cycle, cardinality: ArgumentCardinality::RequiredScalar },
                ],
            ),
            BuiltinActionKind::CycleFocusEmptyWorkspace => def(
                ActionId::CYCLE_FOCUS_EMPTY_WORKSPACE,
                kind,
                ActionCategory::Workspace,
                "Cycle focus empty workspace",
                "Focus the next or previous empty workspace on the target monitor",
                vec!["workspace", "empty", "cycle"],
                vec![
                    ParameterDefinition { id: ParameterId::CYCLE, domain: ParameterDomain::Cycle, cardinality: ArgumentCardinality::RequiredScalar },
                ],
            ),
            BuiltinActionKind::FocusLastWorkspace => def(
                ActionId::FOCUS_LAST_WORKSPACE,
                kind,
                ActionCategory::Workspace,
                "Focus last workspace",
                "Focus the previously focused workspace on the target monitor",
                vec!["workspace", "last", "focus"],
                Vec::new(),
            ),
            BuiltinActionKind::CloseWorkspace => def(
                ActionId::CLOSE_WORKSPACE,
                kind,
                ActionCategory::Workspace,
                "Close workspace",
                "Close the focused empty unnamed workspace",
                vec!["workspace", "close"],
                Vec::new(),
            ),
            BuiltinActionKind::FocusMonitor => def(
                ActionId::FOCUS_MONITOR,
                kind,
                ActionCategory::Workspace,
                "Focus monitor",
                "Focus a monitor by index",
                vec!["monitor", "focus"],
                vec![
                    ParameterDefinition { id: ParameterId::INDEX, domain: ParameterDomain::Index, cardinality: ArgumentCardinality::RequiredScalar },
                ],
            ),
            BuiltinActionKind::CycleFocusMonitor => def(
                ActionId::CYCLE_FOCUS_MONITOR,
                kind,
                ActionCategory::Workspace,
                "Cycle focus monitor",
                "Focus the next or previous monitor",
                vec!["monitor", "focus", "cycle"],
                vec![
                    ParameterDefinition { id: ParameterId::CYCLE, domain: ParameterDomain::Cycle, cardinality: ArgumentCardinality::RequiredScalar },
                ],
            ),
            BuiltinActionKind::FocusMonitorAtCursor => def(
                ActionId::FOCUS_MONITOR_AT_CURSOR,
                kind,
                ActionCategory::Workspace,
                "Focus monitor at cursor",
                "Focus the monitor under the cursor",
                vec!["monitor", "cursor", "focus"],
                Vec::new(),
            ),
            BuiltinActionKind::FocusWorkspaceOnAllMonitors => def(
                ActionId::FOCUS_WORKSPACE_ON_ALL_MONITORS,
                kind,
                ActionCategory::Workspace,
                "Focus workspace on all monitors",
                "Focus the same workspace index on every monitor",
                vec!["workspace", "monitors", "focus"],
                vec![
                    ParameterDefinition { id: ParameterId::INDEX, domain: ParameterDomain::Index, cardinality: ArgumentCardinality::RequiredScalar },
                ],
            ),
            BuiltinActionKind::FocusMonitorWorkspace => def(
                ActionId::FOCUS_MONITOR_WORKSPACE,
                kind,
                ActionCategory::Workspace,
                "Focus monitor workspace",
                "Focus a workspace on a specific monitor",
                vec!["monitor", "workspace", "focus"],
                vec![
                    ParameterDefinition { id: ParameterId::MONITOR, domain: ParameterDomain::Index, cardinality: ArgumentCardinality::RequiredScalar },
                    ParameterDefinition { id: ParameterId::INDEX, domain: ParameterDomain::Index, cardinality: ArgumentCardinality::RequiredScalar },
                ],
            ),
            BuiltinActionKind::NewWorkspace => def(
                ActionId::NEW_WORKSPACE,
                kind,
                ActionCategory::Workspace,
                "New workspace",
                "Create and focus a new workspace on the focused monitor",
                vec!["workspace", "new"],
                Vec::new(),
            ),
            BuiltinActionKind::ToggleTiling => def(
                ActionId::TOGGLE_TILING,
                kind,
                ActionCategory::Workspace,
                "Toggle tiling",
                "Toggle tiling on the focused workspace",
                vec!["tiling", "toggle"],
                Vec::new(),
            ),
            BuiltinActionKind::CycleLayout => def(
                ActionId::CYCLE_LAYOUT,
                kind,
                ActionCategory::Workspace,
                "Cycle layout",
                "Cycle the focused workspace layout",
                vec!["layout", "cycle"],
                vec![
                    ParameterDefinition { id: ParameterId::CYCLE, domain: ParameterDomain::Cycle, cardinality: ArgumentCardinality::RequiredScalar },
                ],
            ),
            BuiltinActionKind::FlipLayout => def(
                ActionId::FLIP_LAYOUT,
                kind,
                ActionCategory::Workspace,
                "Flip layout",
                "Flip the focused workspace layout on an axis",
                vec!["layout", "flip"],
                vec![
                    ParameterDefinition { id: ParameterId::AXIS, domain: ParameterDomain::Axis, cardinality: ArgumentCardinality::RequiredScalar },
                ],
            ),
            BuiltinActionKind::ToggleWorkspaceLayer => def(
                ActionId::TOGGLE_WORKSPACE_LAYER,
                kind,
                ActionCategory::Workspace,
                "Toggle workspace layer",
                "Toggle between tiling and floating layers",
                vec!["layer", "tiling", "floating"],
                Vec::new(),
            ),
            BuiltinActionKind::MoveContainerToLastWorkspace => def(
                ActionId::MOVE_CONTAINER_TO_LAST_WORKSPACE,
                kind,
                ActionCategory::Workspace,
                "Move container to last workspace",
                "Move the focused container to the last workspace and follow it",
                vec!["container", "move", "workspace"],
                Vec::new(),
            ),
            BuiltinActionKind::SendContainerToLastWorkspace => def(
                ActionId::SEND_CONTAINER_TO_LAST_WORKSPACE,
                kind,
                ActionCategory::Workspace,
                "Send container to last workspace",
                "Send the focused container to the last workspace without following",
                vec!["container", "send", "workspace"],
                Vec::new(),
            ),
            BuiltinActionKind::MoveContainerToWorkspace => def(
                ActionId::MOVE_CONTAINER_TO_WORKSPACE,
                kind,
                ActionCategory::Workspace,
                "Move container to workspace",
                "Move the focused container to a workspace and follow it",
                vec!["container", "move", "workspace"],
                vec![
                    ParameterDefinition { id: ParameterId::INDEX, domain: ParameterDomain::Index, cardinality: ArgumentCardinality::RequiredScalar },
                ],
            ),
            BuiltinActionKind::CycleMoveContainerToWorkspace => def(
                ActionId::CYCLE_MOVE_CONTAINER_TO_WORKSPACE,
                kind,
                ActionCategory::Workspace,
                "Cycle move container to workspace",
                "Move the focused container to the next or previous workspace and follow it",
                vec!["container", "move", "cycle"],
                vec![
                    ParameterDefinition { id: ParameterId::CYCLE, domain: ParameterDomain::Cycle, cardinality: ArgumentCardinality::RequiredScalar },
                ],
            ),
            BuiltinActionKind::SendContainerToWorkspace => def(
                ActionId::SEND_CONTAINER_TO_WORKSPACE,
                kind,
                ActionCategory::Workspace,
                "Send container to workspace",
                "Send the focused container to a workspace without following",
                vec!["container", "send", "workspace"],
                vec![
                    ParameterDefinition { id: ParameterId::INDEX, domain: ParameterDomain::Index, cardinality: ArgumentCardinality::RequiredScalar },
                ],
            ),
            BuiltinActionKind::CycleSendContainerToWorkspace => def(
                ActionId::CYCLE_SEND_CONTAINER_TO_WORKSPACE,
                kind,
                ActionCategory::Workspace,
                "Cycle send container to workspace",
                "Send the focused container to the next or previous workspace without following",
                vec!["container", "send", "cycle"],
                vec![
                    ParameterDefinition { id: ParameterId::CYCLE, domain: ParameterDomain::Cycle, cardinality: ArgumentCardinality::RequiredScalar },
                ],
            ),
            BuiltinActionKind::MoveContainerToMonitor => def(
                ActionId::MOVE_CONTAINER_TO_MONITOR,
                kind,
                ActionCategory::Workspace,
                "Move container to monitor",
                "Move the focused container to a monitor and follow it",
                vec!["container", "move", "monitor"],
                vec![
                    ParameterDefinition { id: ParameterId::INDEX, domain: ParameterDomain::Index, cardinality: ArgumentCardinality::RequiredScalar },
                ],
            ),
            BuiltinActionKind::CycleMoveContainerToMonitor => def(
                ActionId::CYCLE_MOVE_CONTAINER_TO_MONITOR,
                kind,
                ActionCategory::Workspace,
                "Cycle move container to monitor",
                "Move the focused container to the next or previous monitor and follow it",
                vec!["container", "move", "monitor", "cycle"],
                vec![
                    ParameterDefinition { id: ParameterId::CYCLE, domain: ParameterDomain::Cycle, cardinality: ArgumentCardinality::RequiredScalar },
                ],
            ),
            BuiltinActionKind::SendContainerToMonitor => def(
                ActionId::SEND_CONTAINER_TO_MONITOR,
                kind,
                ActionCategory::Workspace,
                "Send container to monitor",
                "Send the focused container to a monitor without following",
                vec!["container", "send", "monitor"],
                vec![
                    ParameterDefinition { id: ParameterId::INDEX, domain: ParameterDomain::Index, cardinality: ArgumentCardinality::RequiredScalar },
                ],
            ),
            BuiltinActionKind::CycleSendContainerToMonitor => def(
                ActionId::CYCLE_SEND_CONTAINER_TO_MONITOR,
                kind,
                ActionCategory::Workspace,
                "Cycle send container to monitor",
                "Send the focused container to the next or previous monitor without following",
                vec!["container", "send", "monitor", "cycle"],
                vec![
                    ParameterDefinition { id: ParameterId::CYCLE, domain: ParameterDomain::Cycle, cardinality: ArgumentCardinality::RequiredScalar },
                ],
            ),
            BuiltinActionKind::MoveContainerToMonitorWorkspace => def(
                ActionId::MOVE_CONTAINER_TO_MONITOR_WORKSPACE,
                kind,
                ActionCategory::Workspace,
                "Move container to monitor workspace",
                "Move the focused container to a workspace on a monitor and follow it",
                vec!["container", "move", "monitor", "workspace"],
                vec![
                    ParameterDefinition { id: ParameterId::MONITOR, domain: ParameterDomain::Index, cardinality: ArgumentCardinality::RequiredScalar },
                    ParameterDefinition { id: ParameterId::INDEX, domain: ParameterDomain::Index, cardinality: ArgumentCardinality::RequiredScalar },
                ],
            ),
            BuiltinActionKind::SendContainerToMonitorWorkspace => def(
                ActionId::SEND_CONTAINER_TO_MONITOR_WORKSPACE,
                kind,
                ActionCategory::Workspace,
                "Send container to monitor workspace",
                "Send the focused container to a workspace on a monitor without following",
                vec!["container", "send", "monitor", "workspace"],
                vec![
                    ParameterDefinition { id: ParameterId::MONITOR, domain: ParameterDomain::Index, cardinality: ArgumentCardinality::RequiredScalar },
                    ParameterDefinition { id: ParameterId::INDEX, domain: ParameterDomain::Index, cardinality: ArgumentCardinality::RequiredScalar },
                ],
            ),
            BuiltinActionKind::MoveWorkspaceToMonitor => def(
                ActionId::MOVE_WORKSPACE_TO_MONITOR,
                kind,
                ActionCategory::Workspace,
                "Move workspace to monitor",
                "Move the focused workspace to a monitor",
                vec!["workspace", "move", "monitor"],
                vec![
                    ParameterDefinition { id: ParameterId::INDEX, domain: ParameterDomain::Index, cardinality: ArgumentCardinality::RequiredScalar },
                ],
            ),
            BuiltinActionKind::CycleMoveWorkspaceToMonitor => def(
                ActionId::CYCLE_MOVE_WORKSPACE_TO_MONITOR,
                kind,
                ActionCategory::Workspace,
                "Cycle move workspace to monitor",
                "Move the focused workspace to the next or previous monitor",
                vec!["workspace", "move", "monitor", "cycle"],
                vec![
                    ParameterDefinition { id: ParameterId::CYCLE, domain: ParameterDomain::Cycle, cardinality: ArgumentCardinality::RequiredScalar },
                ],
            ),
            BuiltinActionKind::SwapWorkspacesToMonitor => def(
                ActionId::SWAP_WORKSPACES_TO_MONITOR,
                kind,
                ActionCategory::Workspace,
                "Swap workspaces to monitor",
                "Swap the focused monitor's workspaces with another monitor",
                vec!["workspace", "swap", "monitor"],
                vec![
                    ParameterDefinition { id: ParameterId::INDEX, domain: ParameterDomain::Index, cardinality: ArgumentCardinality::RequiredScalar },
                ],
            ),
            BuiltinActionKind::Retile => def(
                ActionId::RETILE,
                kind,
                ActionCategory::Workspace,
                "Retile",
                "Retile every workspace",
                vec!["retile", "layout"],
                Vec::new(),
            ),
            BuiltinActionKind::RetileWithResizeDimensions => def(
                ActionId::RETILE_WITH_RESIZE_DIMENSIONS,
                kind,
                ActionCategory::Workspace,
                "Retile with resize dimensions",
                "Retile every workspace while preserving resize dimensions",
                vec!["retile", "resize"],
                Vec::new(),
            ),
            BuiltinActionKind::AdjustContainerPadding => def(
                ActionId::ADJUST_CONTAINER_PADDING,
                kind,
                ActionCategory::Workspace,
                "Adjust container padding",
                "Increase or decrease container padding on the focused workspace",
                vec!["padding", "container"],
                vec![
                    ParameterDefinition { id: ParameterId::SIZING, domain: ParameterDomain::Sizing, cardinality: ArgumentCardinality::RequiredScalar },
                    ParameterDefinition { id: ParameterId::ADJUSTMENT, domain: ParameterDomain::Adjustment, cardinality: ArgumentCardinality::RequiredScalar },
                ],
            ),
            BuiltinActionKind::AdjustWorkspacePadding => def(
                ActionId::ADJUST_WORKSPACE_PADDING,
                kind,
                ActionCategory::Workspace,
                "Adjust workspace padding",
                "Increase or decrease workspace padding on the focused workspace",
                vec!["padding", "workspace"],
                vec![
                    ParameterDefinition { id: ParameterId::SIZING, domain: ParameterDomain::Sizing, cardinality: ArgumentCardinality::RequiredScalar },
                    ParameterDefinition { id: ParameterId::ADJUSTMENT, domain: ParameterDomain::Adjustment, cardinality: ArgumentCardinality::RequiredScalar },
                ],
            ),
            BuiltinActionKind::ToggleMouseFollowsFocus => def(
                ActionId::TOGGLE_MOUSE_FOLLOWS_FOCUS,
                kind,
                ActionCategory::Workspace,
                "Toggle mouse follows focus",
                "Toggle whether the mouse follows focus changes",
                vec!["mouse", "focus"],
                Vec::new(),
            ),
            BuiltinActionKind::SetMouseFollowsFocus => def(
                ActionId::SET_MOUSE_FOLLOWS_FOCUS,
                kind,
                ActionCategory::Workspace,
                "Set mouse follows focus",
                "Enable or disable mouse follows focus",
                vec!["mouse", "focus"],
                vec![
                    ParameterDefinition { id: ParameterId::ENABLED, domain: ParameterDomain::Flag, cardinality: ArgumentCardinality::RequiredScalar },
                ],
            ),
            BuiltinActionKind::ToggleWorkspaceWindowContainerBehaviour => def(
                ActionId::TOGGLE_WORKSPACE_WINDOW_CONTAINER_BEHAVIOUR,
                kind,
                ActionCategory::Workspace,
                "Toggle workspace window container behaviour",
                "Toggle container behaviour on the focused workspace",
                vec!["workspace", "container", "behaviour"],
                Vec::new(),
            ),
            BuiltinActionKind::ToggleWorkspaceFloatOverride => def(
                ActionId::TOGGLE_WORKSPACE_FLOAT_OVERRIDE,
                kind,
                ActionCategory::Workspace,
                "Toggle workspace float override",
                "Toggle float override on the focused workspace",
                vec!["workspace", "float", "override"],
                Vec::new(),
            ),
            BuiltinActionKind::ToggleCrossMonitorMoveBehaviour => def(
                ActionId::TOGGLE_CROSS_MONITOR_MOVE_BEHAVIOUR,
                kind,
                ActionCategory::Workspace,
                "Toggle cross monitor move behaviour",
                "Toggle between swap and insert when moving across monitors",
                vec!["monitor", "move", "behaviour"],
                Vec::new(),
            ),
            BuiltinActionKind::TogglePause => def(
                ActionId::TOGGLE_PAUSE,
                kind,
                ActionCategory::Workspace,
                "Toggle pause",
                "Pause or resume window management",
                vec!["pause", "resume"],
                Vec::new(),
            ),
            BuiltinActionKind::SetFocusedContainerPadding => def(
                ActionId::SET_FOCUSED_CONTAINER_PADDING,
                kind,
                ActionCategory::Workspace,
                "Set focused container padding",
                "Set container padding on the focused workspace",
                vec!["padding", "container"],
                vec![
                    ParameterDefinition { id: ParameterId::SIZE, domain: ParameterDomain::Size, cardinality: ArgumentCardinality::RequiredScalar },
                ],
            ),
            BuiltinActionKind::SetFocusedWorkspacePadding => def(
                ActionId::SET_FOCUSED_WORKSPACE_PADDING,
                kind,
                ActionCategory::Workspace,
                "Set focused workspace padding",
                "Set workspace padding on the focused workspace",
                vec!["padding", "workspace"],
                vec![
                    ParameterDefinition { id: ParameterId::SIZE, domain: ParameterDomain::Size, cardinality: ArgumentCardinality::RequiredScalar },
                ],
            ),
            BuiltinActionKind::SetContainerPadding => def(
                ActionId::SET_CONTAINER_PADDING,
                kind,
                ActionCategory::Workspace,
                "Set container padding",
                "Set container padding on a workspace",
                vec!["padding", "container"],
                vec![
                    ParameterDefinition { id: ParameterId::MONITOR, domain: ParameterDomain::Index, cardinality: ArgumentCardinality::RequiredScalar },
                    ParameterDefinition { id: ParameterId::INDEX, domain: ParameterDomain::Index, cardinality: ArgumentCardinality::RequiredScalar },
                    ParameterDefinition { id: ParameterId::SIZE, domain: ParameterDomain::Size, cardinality: ArgumentCardinality::RequiredScalar },
                ],
            ),
            BuiltinActionKind::SetWorkspacePadding => def(
                ActionId::SET_WORKSPACE_PADDING,
                kind,
                ActionCategory::Workspace,
                "Set workspace padding",
                "Set workspace padding on a workspace",
                vec!["padding", "workspace"],
                vec![
                    ParameterDefinition { id: ParameterId::MONITOR, domain: ParameterDomain::Index, cardinality: ArgumentCardinality::RequiredScalar },
                    ParameterDefinition { id: ParameterId::INDEX, domain: ParameterDomain::Index, cardinality: ArgumentCardinality::RequiredScalar },
                    ParameterDefinition { id: ParameterId::SIZE, domain: ParameterDomain::Size, cardinality: ArgumentCardinality::RequiredScalar },
                ],
            ),
            BuiltinActionKind::SetWorkspaceTiling => def(
                ActionId::SET_WORKSPACE_TILING,
                kind,
                ActionCategory::Workspace,
                "Set workspace tiling",
                "Enable or disable tiling on a workspace",
                vec!["tiling", "workspace"],
                vec![
                    ParameterDefinition { id: ParameterId::MONITOR, domain: ParameterDomain::Index, cardinality: ArgumentCardinality::RequiredScalar },
                    ParameterDefinition { id: ParameterId::INDEX, domain: ParameterDomain::Index, cardinality: ArgumentCardinality::RequiredScalar },
                    ParameterDefinition { id: ParameterId::ENABLED, domain: ParameterDomain::Flag, cardinality: ArgumentCardinality::RequiredScalar },
                ],
            ),
            BuiltinActionKind::SetMonitorWorkspaceLayout => def(
                ActionId::SET_MONITOR_WORKSPACE_LAYOUT,
                kind,
                ActionCategory::Workspace,
                "Set monitor workspace layout",
                "Set the default layout on a workspace",
                vec!["layout", "workspace"],
                vec![
                    ParameterDefinition { id: ParameterId::MONITOR, domain: ParameterDomain::Index, cardinality: ArgumentCardinality::RequiredScalar },
                    ParameterDefinition { id: ParameterId::INDEX, domain: ParameterDomain::Index, cardinality: ArgumentCardinality::RequiredScalar },
                    ParameterDefinition { id: ParameterId::LAYOUT, domain: ParameterDomain::Layout, cardinality: ArgumentCardinality::RequiredScalar },
                ],
            ),
            BuiltinActionKind::EnsureWorkspaces => def(
                ActionId::ENSURE_WORKSPACES,
                kind,
                ActionCategory::Workspace,
                "Ensure workspaces",
                "Ensure a monitor has at least a given number of workspaces",
                vec!["workspace", "ensure"],
                vec![
                    ParameterDefinition { id: ParameterId::MONITOR, domain: ParameterDomain::Index, cardinality: ArgumentCardinality::RequiredScalar },
                    ParameterDefinition { id: ParameterId::COUNT, domain: ParameterDomain::Count, cardinality: ArgumentCardinality::RequiredScalar },
                ],
            ),
            BuiltinActionKind::ClearWorkspaceLayoutRules => def(
                ActionId::CLEAR_WORKSPACE_LAYOUT_RULES,
                kind,
                ActionCategory::Workspace,
                "Clear workspace layout rules",
                "Clear layout rules on a workspace",
                vec!["layout", "rules"],
                vec![
                    ParameterDefinition { id: ParameterId::MONITOR, domain: ParameterDomain::Index, cardinality: ArgumentCardinality::RequiredScalar },
                    ParameterDefinition { id: ParameterId::INDEX, domain: ParameterDomain::Index, cardinality: ArgumentCardinality::RequiredScalar },
                ],
            ),
            BuiltinActionKind::SetScrollingColumns => def(
                ActionId::SET_SCROLLING_COLUMNS,
                kind,
                ActionCategory::Workspace,
                "Set scrolling columns",
                "Set the scrolling layout column count",
                vec!["scrolling", "columns"],
                vec![
                    ParameterDefinition { id: ParameterId::COLUMNS, domain: ParameterDomain::Columns, cardinality: ArgumentCardinality::RequiredScalar },
                ],
            ),
            BuiltinActionKind::EnforceWorkspaceRules => def(
                ActionId::ENFORCE_WORKSPACE_RULES,
                kind,
                ActionCategory::Workspace,
                "Enforce workspace rules",
                "Apply workspace matching rules now",
                vec!["rules", "workspace"],
                Vec::new(),
            ),
            BuiltinActionKind::AddWorkspaceLayoutRule => def(
                ActionId::ADD_WORKSPACE_LAYOUT_RULE,
                kind,
                ActionCategory::Workspace,
                "Add workspace layout rule",
                "Apply a built-in layout when a workspace reaches a container count",
                vec!["layout", "rule"],
                vec![
                    ParameterDefinition { id: ParameterId::MONITOR, domain: ParameterDomain::Index, cardinality: ArgumentCardinality::RequiredScalar },
                    ParameterDefinition { id: ParameterId::INDEX, domain: ParameterDomain::Index, cardinality: ArgumentCardinality::RequiredScalar },
                    ParameterDefinition { id: ParameterId::AT_COUNT, domain: ParameterDomain::AtCount, cardinality: ArgumentCardinality::RequiredScalar },
                    ParameterDefinition { id: ParameterId::LAYOUT, domain: ParameterDomain::Layout, cardinality: ArgumentCardinality::RequiredScalar },
                ],
            ),
            BuiltinActionKind::FocusNamedWorkspace => def(
                ActionId::FOCUS_NAMED_WORKSPACE,
                kind,
                ActionCategory::Workspace,
                "Focus named workspace",
                "Focus the workspace with this name",
                vec!["focus", "workspace", "name"],
                vec![
                    ParameterDefinition { id: ParameterId::NAME, domain: ParameterDomain::Name, cardinality: ArgumentCardinality::RequiredScalar },
                ],
            ),
            BuiltinActionKind::MoveContainerToNamedWorkspace => def(
                ActionId::MOVE_CONTAINER_TO_NAMED_WORKSPACE,
                kind,
                ActionCategory::Workspace,
                "Move container to named workspace",
                "Move the focused container to the named workspace and follow it",
                vec!["move", "workspace", "name"],
                vec![
                    ParameterDefinition { id: ParameterId::NAME, domain: ParameterDomain::Name, cardinality: ArgumentCardinality::RequiredScalar },
                ],
            ),
            BuiltinActionKind::SendContainerToNamedWorkspace => def(
                ActionId::SEND_CONTAINER_TO_NAMED_WORKSPACE,
                kind,
                ActionCategory::Workspace,
                "Send container to named workspace",
                "Send the focused container to the named workspace",
                vec!["send", "workspace", "name"],
                vec![
                    ParameterDefinition { id: ParameterId::NAME, domain: ParameterDomain::Name, cardinality: ArgumentCardinality::RequiredScalar },
                ],
            ),
            BuiltinActionKind::SetNamedWorkspaceContainerPadding => def(
                ActionId::SET_NAMED_WORKSPACE_CONTAINER_PADDING,
                kind,
                ActionCategory::Workspace,
                "Set named workspace container padding",
                "Set container padding on the named workspace",
                vec!["padding", "name"],
                vec![
                    ParameterDefinition { id: ParameterId::NAME, domain: ParameterDomain::Name, cardinality: ArgumentCardinality::RequiredScalar },
                    ParameterDefinition { id: ParameterId::SIZE, domain: ParameterDomain::Size, cardinality: ArgumentCardinality::RequiredScalar },
                ],
            ),
            BuiltinActionKind::SetNamedWorkspacePadding => def(
                ActionId::SET_NAMED_WORKSPACE_PADDING,
                kind,
                ActionCategory::Workspace,
                "Set named workspace padding",
                "Set workspace padding on the named workspace",
                vec!["padding", "name"],
                vec![
                    ParameterDefinition { id: ParameterId::NAME, domain: ParameterDomain::Name, cardinality: ArgumentCardinality::RequiredScalar },
                    ParameterDefinition { id: ParameterId::SIZE, domain: ParameterDomain::Size, cardinality: ArgumentCardinality::RequiredScalar },
                ],
            ),
            BuiltinActionKind::SetNamedWorkspaceTiling => def(
                ActionId::SET_NAMED_WORKSPACE_TILING,
                kind,
                ActionCategory::Workspace,
                "Set named workspace tiling",
                "Enable or disable tiling on the named workspace",
                vec!["tiling", "name"],
                vec![
                    ParameterDefinition { id: ParameterId::NAME, domain: ParameterDomain::Name, cardinality: ArgumentCardinality::RequiredScalar },
                    ParameterDefinition { id: ParameterId::ENABLED, domain: ParameterDomain::Flag, cardinality: ArgumentCardinality::RequiredScalar },
                ],
            ),
            BuiltinActionKind::SetNamedWorkspaceLayout => def(
                ActionId::SET_NAMED_WORKSPACE_LAYOUT,
                kind,
                ActionCategory::Workspace,
                "Set named workspace layout",
                "Set a built-in layout on the named workspace",
                vec!["layout", "name"],
                vec![
                    ParameterDefinition { id: ParameterId::NAME, domain: ParameterDomain::Name, cardinality: ArgumentCardinality::RequiredScalar },
                    ParameterDefinition { id: ParameterId::LAYOUT, domain: ParameterDomain::Layout, cardinality: ArgumentCardinality::RequiredScalar },
                ],
            ),
            BuiltinActionKind::SetNamedWorkspaceCustomLayout => def(
                ActionId::SET_NAMED_WORKSPACE_CUSTOM_LAYOUT,
                kind,
                ActionCategory::Workspace,
                "Set named workspace custom layout",
                "Set a custom layout file on the named workspace",
                vec!["layout", "custom", "name"],
                vec![
                    ParameterDefinition { id: ParameterId::NAME, domain: ParameterDomain::Name, cardinality: ArgumentCardinality::RequiredScalar },
                    ParameterDefinition { id: ParameterId::PATH, domain: ParameterDomain::Path, cardinality: ArgumentCardinality::RequiredScalar },
                ],
            ),
            BuiltinActionKind::AddNamedWorkspaceLayoutRule => def(
                ActionId::ADD_NAMED_WORKSPACE_LAYOUT_RULE,
                kind,
                ActionCategory::Workspace,
                "Add named workspace layout rule",
                "Add a built-in layout rule to the named workspace",
                vec!["layout", "rule", "name"],
                vec![
                    ParameterDefinition { id: ParameterId::NAME, domain: ParameterDomain::Name, cardinality: ArgumentCardinality::RequiredScalar },
                    ParameterDefinition { id: ParameterId::AT_COUNT, domain: ParameterDomain::AtCount, cardinality: ArgumentCardinality::RequiredScalar },
                    ParameterDefinition { id: ParameterId::LAYOUT, domain: ParameterDomain::Layout, cardinality: ArgumentCardinality::RequiredScalar },
                ],
            ),
            BuiltinActionKind::AddNamedWorkspaceCustomLayoutRule => def(
                ActionId::ADD_NAMED_WORKSPACE_CUSTOM_LAYOUT_RULE,
                kind,
                ActionCategory::Workspace,
                "Add named workspace custom layout rule",
                "Add a custom layout rule to the named workspace",
                vec!["layout", "rule", "custom", "name"],
                vec![
                    ParameterDefinition { id: ParameterId::NAME, domain: ParameterDomain::Name, cardinality: ArgumentCardinality::RequiredScalar },
                    ParameterDefinition { id: ParameterId::AT_COUNT, domain: ParameterDomain::AtCount, cardinality: ArgumentCardinality::RequiredScalar },
                    ParameterDefinition { id: ParameterId::PATH, domain: ParameterDomain::Path, cardinality: ArgumentCardinality::RequiredScalar },
                ],
            ),
            BuiltinActionKind::ClearNamedWorkspaceLayoutRules => def(
                ActionId::CLEAR_NAMED_WORKSPACE_LAYOUT_RULES,
                kind,
                ActionCategory::Workspace,
                "Clear named workspace layout rules",
                "Clear layout rules on the named workspace",
                vec!["layout", "rule", "name"],
                vec![
                    ParameterDefinition { id: ParameterId::NAME, domain: ParameterDomain::Name, cardinality: ArgumentCardinality::RequiredScalar },
                ],
            ),
            BuiltinActionKind::EnsureNamedWorkspaces => def(
                ActionId::ENSURE_NAMED_WORKSPACES,
                kind,
                ActionCategory::Workspace,
                "Ensure named workspaces",
                "Ensure a monitor has workspaces with these names",
                vec!["workspace", "name"],
                vec![
                    ParameterDefinition { id: ParameterId::MONITOR, domain: ParameterDomain::Index, cardinality: ArgumentCardinality::RequiredScalar },
                    ParameterDefinition { id: ParameterId::NAMES, domain: ParameterDomain::Name, cardinality: ArgumentCardinality::RequiredList },
                ],
            ),
            BuiltinActionKind::SetWorkspaceName => def(
                ActionId::SET_WORKSPACE_NAME,
                kind,
                ActionCategory::Workspace,
                "Set workspace name",
                "Name a workspace on a monitor",
                vec!["workspace", "name"],
                vec![
                    ParameterDefinition { id: ParameterId::MONITOR, domain: ParameterDomain::Index, cardinality: ArgumentCardinality::RequiredScalar },
                    ParameterDefinition { id: ParameterId::INDEX, domain: ParameterDomain::Index, cardinality: ArgumentCardinality::RequiredScalar },
                    ParameterDefinition { id: ParameterId::NAME, domain: ParameterDomain::Name, cardinality: ArgumentCardinality::RequiredScalar },
                ],
            ),
            BuiltinActionKind::SetLayoutRatios => def(
                ActionId::SET_LAYOUT_RATIOS,
                kind,
                ActionCategory::Workspace,
                "Set layout ratios",
                "Set column and row ratios on the focused workspace",
                vec!["layout", "ratio"],
                vec![
                    ParameterDefinition { id: ParameterId::COLUMN_RATIOS, domain: ParameterDomain::Ratios, cardinality: ArgumentCardinality::OptionalList },
                    ParameterDefinition { id: ParameterId::ROW_RATIOS, domain: ParameterDomain::Ratios, cardinality: ArgumentCardinality::OptionalList },
                ],
            ),
            BuiltinActionKind::SetCustomLayout => def(
                ActionId::SET_CUSTOM_LAYOUT,
                kind,
                ActionCategory::Workspace,
                "Set custom layout",
                "Set a custom layout file on the focused workspace",
                vec!["layout", "custom"],
                vec![
                    ParameterDefinition { id: ParameterId::PATH, domain: ParameterDomain::Path, cardinality: ArgumentCardinality::RequiredScalar },
                ],
            ),
            BuiltinActionKind::SetWorkspaceCustomLayout => def(
                ActionId::SET_WORKSPACE_CUSTOM_LAYOUT,
                kind,
                ActionCategory::Workspace,
                "Set workspace custom layout",
                "Set a custom layout file on a monitor workspace",
                vec!["layout", "custom"],
                vec![
                    ParameterDefinition { id: ParameterId::MONITOR, domain: ParameterDomain::Index, cardinality: ArgumentCardinality::RequiredScalar },
                    ParameterDefinition { id: ParameterId::INDEX, domain: ParameterDomain::Index, cardinality: ArgumentCardinality::RequiredScalar },
                    ParameterDefinition { id: ParameterId::PATH, domain: ParameterDomain::Path, cardinality: ArgumentCardinality::RequiredScalar },
                ],
            ),
            BuiltinActionKind::AddWorkspaceCustomLayoutRule => def(
                ActionId::ADD_WORKSPACE_CUSTOM_LAYOUT_RULE,
                kind,
                ActionCategory::Workspace,
                "Add workspace custom layout rule",
                "Add a custom layout rule to a monitor workspace",
                vec!["layout", "rule", "custom"],
                vec![
                    ParameterDefinition { id: ParameterId::MONITOR, domain: ParameterDomain::Index, cardinality: ArgumentCardinality::RequiredScalar },
                    ParameterDefinition { id: ParameterId::INDEX, domain: ParameterDomain::Index, cardinality: ArgumentCardinality::RequiredScalar },
                    ParameterDefinition { id: ParameterId::AT_COUNT, domain: ParameterDomain::AtCount, cardinality: ArgumentCardinality::RequiredScalar },
                    ParameterDefinition { id: ParameterId::PATH, domain: ParameterDomain::Path, cardinality: ArgumentCardinality::RequiredScalar },
                ],
            ),
        _ => vstd::pervasive::unreached(),
    }
}

/// The definitions of the actions of the configuration category.
fn configuration_definition(kind: BuiltinActionKind) -> (d: ActionDefinition)
    requires
        category_of(kind) == ActionCategory::Configuration,
    ensures
        is_definition_of(d, kind),
{
    match kind {
            BuiltinActionKind::SetResizeStep => def(
                ActionId::SET_RESIZE_STEP,
                kind,
                ActionCategory::Configuration,
                "Set resize step",
                "Set the positive pixel step used by configured-step resize actions",
                vec!["resize", "step", "configuration"],
                vec![
                    ParameterDefinition { id: ParameterId::RESIZE_STEP, domain: ParameterDomain::ResizeStep, cardinality: ArgumentCardinality::RequiredScalar },
                ],
            ),
            BuiltinActionKind::SetTransparencyEnabled => def(
                ActionId::SET_TRANSPARENCY_ENABLED,
                kind,
                ActionCategory::Configuration,
                "Set transparency enabled",
                "Enable or disable transparency for unfocused windows",
                vec!["transparency", "enabled", "configuration"],
                vec![
                    ParameterDefinition { id: ParameterId::ENABLED, domain: ParameterDomain::Flag, cardinality: ArgumentCardinality::RequiredScalar },
                ],
            ),
            BuiltinActionKind::ToggleTransparency => def(
                ActionId::TOGGLE_TRANSPARENCY,
                kind,
                ActionCategory::Configuration,
                "Toggle transparency",
                "Toggle transparency for unfocused windows",
                vec!["transparency", "toggle", "configuration"],
                Vec::new(),
            ),
            BuiltinActionKind::SetTransparencyAlpha => def(
                ActionId::SET_TRANSPARENCY_ALPHA,
                kind,
                ActionCategory::Configuration,
                "Set transparency alpha",
                "Set the alpha value used for unfocused-window transparency",
                vec!["transparency", "alpha", "configuration"],
                vec![
                    ParameterDefinition { id: ParameterId::ALPHA, domain: ParameterDomain::Alpha, cardinality: ArgumentCardinality::RequiredScalar },
                ],
            ),
            BuiltinActionKind::SetBorderEnabled => def(
                ActionId::SET_BORDER_ENABLED,
                kind,
                ActionCategory::Configuration,
                "Set borders enabled",
                "Enable or disable window borders",
                vec!["border", "enabled", "configuration"],
                vec![
                    ParameterDefinition { id: ParameterId::ENABLED, domain: ParameterDomain::Flag, cardinality: ArgumentCardinality::RequiredScalar },
                ],
            ),
            BuiltinActionKind::SetBorderColour => def(
                ActionId::SET_BORDER_COLOUR,
                kind,
                ActionCategory::Configuration,
                "Set border colour",
                "Set the border colour for one window kind",
                vec!["border", "colour", "configuration"],
                vec![
                    ParameterDefinition { id: ParameterId::WINDOW_KIND, domain: ParameterDomain::WindowKind, cardinality: ArgumentCardinality::RequiredScalar },
                    ParameterDefinition { id: ParameterId::RED, domain: ParameterDomain::ColourChannel, cardinality: ArgumentCardinality::RequiredScalar },
                    ParameterDefinition { id: ParameterId::GREEN, domain: ParameterDomain::ColourChannel, cardinality: ArgumentCardinality::RequiredScalar },
                    ParameterDefinition { id: ParameterId::BLUE, domain: ParameterDomain::ColourChannel, cardinality: ArgumentCardinality::RequiredScalar },
                ],
            ),
            BuiltinActionKind::SetBorderWidth => def(
                ActionId::SET_BORDER_WIDTH,
                kind,
                ActionCategory::Configuration,
                "Set border width",
                "Set the signed width used by komorebi borders",
                vec!["border", "width", "configuration"],
                vec![
                    ParameterDefinition { id: ParameterId::WIDTH, domain: ParameterDomain::BorderWidth, cardinality: ArgumentCardinality::RequiredScalar },
                ],
            ),
            BuiltinActionKind::SetBorderOffset => def(
                ActionId::SET_BORDER_OFFSET,
                kind,
                ActionCategory::Configuration,
                "Set border offset",
                "Set the signed offset used by komorebi borders",
                vec!["border", "offset", "configuration"],
                vec![
                    ParameterDefinition { id: ParameterId::OFFSET, domain: ParameterDomain::BorderOffset, cardinality: ArgumentCardinality::RequiredScalar },
                ],
            ),
            BuiltinActionKind::SetBorderStyle => def(
                ActionId::SET_BORDER_STYLE,
                kind,
                ActionCategory::Configuration,
                "Set border style",
                "Set the corner style used by komorebi borders",
                vec!["border", "style", "configuration"],
                vec![
                    ParameterDefinition { id: ParameterId::STYLE, domain: ParameterDomain::BorderStyle, cardinality: ArgumentCardinality::RequiredScalar },
                ],
            ),
            BuiltinActionKind::SetBorderImplementation => def(
                ActionId::SET_BORDER_IMPLEMENTATION,
                kind,
                ActionCategory::Configuration,
                "Set border implementation",
                "Select komorebi borders or native Windows accent borders",
                vec!["border", "implementation", "configuration"],
                vec![
                    ParameterDefinition { id: ParameterId::IMPLEMENTATION, domain: ParameterDomain::BorderImplementation, cardinality: ArgumentCardinality::RequiredScalar },
                ],
            ),
        _ => vstd::pervasive::unreached(),
    }
}

impl BuiltinActionKind {
    /// The definition of this kind of action.
    pub fn definition(self) -> (d: ActionDefinition)
        ensures
            is_definition_of(d, self),
    {
        match self {
            BuiltinActionKind::FocusWindow | BuiltinActionKind::MoveWindow |
            BuiltinActionKind::ResizeWindow | BuiltinActionKind::ResizeWindowByStep |
            BuiltinActionKind::ToggleWindowFloat | BuiltinActionKind::CycleFocusWindow |
            BuiltinActionKind::CycleMoveWindow | BuiltinActionKind::ToggleWindowMonocle |
            BuiltinActionKind::ToggleWindowMaximize | BuiltinActionKind::ToggleContainerLock |
            BuiltinActionKind::StackWindow | BuiltinActionKind::UnstackWindow |
            BuiltinActionKind::StackAll | BuiltinActionKind::UnstackAll |
            BuiltinActionKind::CycleStack | BuiltinActionKind::CycleStackIndex |
            BuiltinActionKind::FocusStackWindow | BuiltinActionKind::CloseWindow |
            BuiltinActionKind::MinimizeWindow | BuiltinActionKind::ForceFocus |
            BuiltinActionKind::PromoteContainer | BuiltinActionKind::PromoteContainerSwap |
            BuiltinActionKind::PromoteFocus | BuiltinActionKind::PromoteWindow |
            BuiltinActionKind::PreselectDirection | BuiltinActionKind::CancelPreselect |
            BuiltinActionKind::ManageFocusedWindow | BuiltinActionKind::UnmanageFocusedWindow |
            BuiltinActionKind::ToggleWindowContainerBehaviour |
            BuiltinActionKind::ToggleFloatOverride |
            BuiltinActionKind::ToggleMonocleFocusBehaviour | BuiltinActionKind::LockContainer |
            BuiltinActionKind::UnlockContainer | BuiltinActionKind::ToggleTitleBars |
            BuiltinActionKind::AddSessionFloatRule |
            BuiltinActionKind::ClearSessionFloatRules | BuiltinActionKind::ResizeWindowEdge |
            BuiltinActionKind::ResizeWindowEdgeByStep |
            BuiltinActionKind::SetWindowHidingBehaviour |
            BuiltinActionKind::SetCrossMonitorMoveBehaviour |
            BuiltinActionKind::SetMonocleFocusBehaviour |
            BuiltinActionKind::SetUnmanagedWindowOperationBehaviour |
            BuiltinActionKind::SetFocusFollowsMouse |
            BuiltinActionKind::ToggleFocusFollowsMouse | BuiltinActionKind::EagerFocus |
            BuiltinActionKind::RemoveTitleBar => window_definition(self),
            BuiltinActionKind::SetWorkspaceLayout | BuiltinActionKind::FocusWorkspace |
            BuiltinActionKind::CycleFocusWorkspace |
            BuiltinActionKind::CycleFocusEmptyWorkspace |
            BuiltinActionKind::FocusLastWorkspace | BuiltinActionKind::CloseWorkspace |
            BuiltinActionKind::FocusMonitor | BuiltinActionKind::CycleFocusMonitor |
            BuiltinActionKind::FocusMonitorAtCursor |
            BuiltinActionKind::FocusWorkspaceOnAllMonitors |
            BuiltinActionKind::FocusMonitorWorkspace | BuiltinActionKind::NewWorkspace |
            BuiltinActionKind::ToggleTiling | BuiltinActionKind::CycleLayout |
            BuiltinActionKind::FlipLayout | BuiltinActionKind::ToggleWorkspaceLayer |
            BuiltinActionKind::MoveContainerToLastWorkspace |
            BuiltinActionKind::SendContainerToLastWorkspace |
            BuiltinActionKind::MoveContainerToWorkspace |
            BuiltinActionKind::CycleMoveContainerToWorkspace |
            BuiltinActionKind::SendContainerToWorkspace |
            BuiltinActionKind::CycleSendContainerToWorkspace |
            BuiltinActionKind::MoveContainerToMonitor |
            BuiltinActionKind::CycleMoveContainerToMonitor |
            BuiltinActionKind::SendContainerToMonitor |
            BuiltinActionKind::CycleSendContainerToMonitor |
            BuiltinActionKind::MoveContainerToMonitorWorkspace |
            BuiltinActionKind::SendContainerToMonitorWorkspace |
            BuiltinActionKind::MoveWorkspaceToMonitor |
            BuiltinActionKind::CycleMoveWorkspaceToMonitor |
            BuiltinActionKind::SwapWorkspacesToMonitor | BuiltinActionKind::Retile |
            BuiltinActionKind::RetileWithResizeDimensions |
            BuiltinActionKind::AdjustContainerPadding |
            BuiltinActionKind::AdjustWorkspacePadding |
            BuiltinActionKind::ToggleMouseFollowsFocus |
            BuiltinActionKind::SetMouseFollowsFocus |
            BuiltinActionKind::ToggleWorkspaceWindowContainerBehaviour |
            BuiltinActionKind::ToggleWorkspaceFloatOverride |
            BuiltinActionKind::ToggleCrossMonitorMoveBehaviour |
            BuiltinActionKind::TogglePause | BuiltinActionKind::SetFocusedContainerPadding |
            BuiltinActionKind::SetFocusedWorkspacePadding |
            BuiltinActionKind::SetContainerPadding | BuiltinActionKind::SetWorkspacePadding |
            BuiltinActionKind::SetWorkspaceTiling |
            BuiltinActionKind::SetMonitorWorkspaceLayout |
            BuiltinActionKind::EnsureWorkspaces |
            BuiltinActionKind::ClearWorkspaceLayoutRules |
            BuiltinActionKind::SetScrollingColumns | BuiltinActionKind::EnforceWorkspaceRules |
            BuiltinActionKind::AddWorkspaceLayoutRule |
            BuiltinActionKind::FocusNamedWorkspace |
            BuiltinActionKind::MoveContainerToNamedWorkspace |
            BuiltinActionKind::SendContainerToNamedWorkspace |
            BuiltinActionKind::SetNamedWorkspaceContainerPadding |
            BuiltinActionKind::SetNamedWorkspacePadding |
            BuiltinActionKind::SetNamedWorkspaceTiling |
            BuiltinActionKind::SetNamedWorkspaceLayout |
            BuiltinActionKind::SetNamedWorkspaceCustomLayout |
            BuiltinActionKind::AddNamedWorkspaceLayoutRule |
            BuiltinActionKind::AddNamedWorkspaceCustomLayoutRule |
            BuiltinActionKind::ClearNamedWorkspaceLayoutRules |
            BuiltinActionKind::EnsureNamedWorkspaces | BuiltinActionKind::SetWorkspaceName |
            BuiltinActionKind::SetLayoutRatios | BuiltinActionKind::SetCustomLayout |
            BuiltinActionKind::SetWorkspaceCustomLayout |
            BuiltinActionKind::AddWorkspaceCustomLayoutRule => workspace_definition(self),
            BuiltinActionKind::SetResizeStep | BuiltinActionKind::SetTransparencyEnabled |
            BuiltinActionKind::ToggleTransparency | BuiltinActionKind::SetTransparencyAlpha |
            BuiltinActionKind::SetBorderEnabled | BuiltinActionKind::SetBorderColour |
            BuiltinActionKind::SetBorderWidth | BuiltinActionKind::SetBorderOffset |
            BuiltinActionKind::SetBorderStyle | BuiltinActionKind::SetBorderImplementation => configuration_definition(self),
        }
    }
}

/// The definitions of all built-in actions, in the order of
/// `BuiltinActionKind::all`.
pub fn definitions() -> (r: Vec<ActionDefinition>)
    ensures
        r@.len() == BuiltinActionKind::all_spec().len(),
        forall|i: int|
            0 <= i < r@.len() ==> is_definition_of(#[trigger] r@[i], BuiltinActionKind::all_spec()[i]),
{
    let kinds = BuiltinActionKind::all();
    let mut r: Vec<ActionDefinition> = Vec::new();
    let mut i: usize = 0;
    while i < kinds.len()
        invariant
            kinds@ == BuiltinActionKind::all_spec(),
            0 <= i <= kinds@.len(),
            r@.len() == i,
            forall|j: int| 0 <= j < i ==> is_definition_of(#[trigger] r@[j], kinds@[j]),
        decreases kinds.len() - i,
    {
        r.push(kinds[i].definition());
        i = i + 1;
    }
    r
}

/// The stable name of each built-in layout.
pub open spec fn layout_name_spec(layout: DefaultLayout) -> Seq<char> {
    match layout {
        DefaultLayout::BSP => "bsp"@,
        DefaultLayout::Columns => "columns"@,
        DefaultLayout::Rows => "rows"@,
        DefaultLayout::VerticalStack => "vertical-stack"@,
        DefaultLayout::HorizontalStack => "horizontal-stack"@,
        DefaultLayout::UltrawideVerticalStack => "ultrawide-vertical-stack"@,
        DefaultLayout::Grid => "grid"@,
        DefaultLayout::RightMainVerticalStack => "right-main-vertical-stack"@,
        DefaultLayout::Scrolling => "scrolling"@,
    }
}

pub fn layout_name(layout: DefaultLayout) -> (r: &'static str)
    ensures
        r@ == layout_name_spec(layout),
{
    match layout {
        DefaultLayout::BSP => "bsp",
        DefaultLayout::Columns => "columns",
        DefaultLayout::Rows => "rows",
        DefaultLayout::VerticalStack => "vertical-stack",
        DefaultLayout::HorizontalStack => "horizontal-stack",
        DefaultLayout::UltrawideVerticalStack => "ultrawide-vertical-stack",
        DefaultLayout::Grid => "grid",
        DefaultLayout::RightMainVerticalStack => "right-main-vertical-stack",
        DefaultLayout::Scrolling => "scrolling",
    }
}

/// Distinct layouts have distinct names.
pub proof fn lemma_layout_names_distinct(a: DefaultLayout, b: DefaultLayout)
    ensures
        a != b ==> layout_name_spec(a) != layout_name_spec(b),
{
    reveal_strlit("bsp");
    reveal_strlit("columns");
    reveal_strlit("rows");
    reveal_strlit("vertical-stack");
    reveal_strlit("horizontal-stack");
    reveal_strlit("ultrawide-vertical-stack");
    reveal_strlit("grid");
    reveal_strlit("right-main-vertical-stack");
    reveal_strlit("scrolling");
    if a != b {
        assert(layout_name_spec(a).len() != layout_name_spec(b).len()
            || layout_name_spec(a)[0] != layout_name_spec(b)[0]
            || layout_name_spec(a)[1] != layout_name_spec(b)[1]
            || layout_name_spec(a)[2] != layout_name_spec(b)[2]);
    }
}

} // verus!
