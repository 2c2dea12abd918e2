//! Stable identifiers of actions, parameters, windows and tokens.

use vstd::prelude::*;

verus! {

/// The stable wire identifier of a built-in action.
#[derive(Clone, Copy, Debug, PartialEq, Eq, Hash, Structural)]
pub enum ActionId {
    FocusWindow,
    MoveWindow,
    ResizeWindow,
    ResizeWindowByStep,
    SetWorkspaceLayout,
    ToggleWindowFloat,
    CycleFocusWindow,
    CycleMoveWindow,
    ToggleWindowMonocle,
    ToggleWindowMaximize,
    ToggleContainerLock,
    StackWindow,
    UnstackWindow,
    StackAll,
    UnstackAll,
    CycleStack,
    CycleStackIndex,
    FocusStackWindow,
    FocusWorkspace,
    CycleFocusWorkspace,
    CycleFocusEmptyWorkspace,
    FocusLastWorkspace,
    CloseWorkspace,
    FocusMonitor,
    CycleFocusMonitor,
    FocusMonitorAtCursor,
    FocusWorkspaceOnAllMonitors,
    FocusMonitorWorkspace,
    CloseWindow,
    MinimizeWindow,
    ForceFocus,
    PromoteContainer,
    PromoteContainerSwap,
    PromoteFocus,
    PromoteWindow,
    NewWorkspace,
    ToggleTiling,
    CycleLayout,
    FlipLayout,
    ToggleWorkspaceLayer,
    MoveContainerToLastWorkspace,
    SendContainerToLastWorkspace,
    MoveContainerToWorkspace,
    CycleMoveContainerToWorkspace,
    SendContainerToWorkspace,
    CycleSendContainerToWorkspace,
    MoveContainerToMonitor,
    CycleMoveContainerToMonitor,
    SendContainerToMonitor,
    CycleSendContainerToMonitor,
    MoveContainerToMonitorWorkspace,
    SendContainerToMonitorWorkspace,
    MoveWorkspaceToMonitor,
    CycleMoveWorkspaceToMonitor,
    SwapWorkspacesToMonitor,
    PreselectDirection,
    CancelPreselect,
    Retile,
    RetileWithResizeDimensions,
    ManageFocusedWindow,
    UnmanageFocusedWindow,
    AdjustContainerPadding,
    AdjustWorkspacePadding,
    ToggleMouseFollowsFocus,
    SetMouseFollowsFocus,
    ToggleWindowContainerBehaviour,
    ToggleFloatOverride,
    ToggleWorkspaceWindowContainerBehaviour,
    ToggleWorkspaceFloatOverride,
    ToggleCrossMonitorMoveBehaviour,
    ToggleMonocleFocusBehaviour,
    TogglePause,
    SetFocusedContainerPadding,
    SetFocusedWorkspacePadding,
    SetContainerPadding,
    SetWorkspacePadding,
    SetWorkspaceTiling,
    SetMonitorWorkspaceLayout,
    EnsureWorkspaces,
    ClearWorkspaceLayoutRules,
    SetScrollingColumns,
    LockContainer,
    UnlockContainer,
    ToggleTitleBars,
    EnforceWorkspaceRules,
    AddSessionFloatRule,
    ClearSessionFloatRules,
    ResizeWindowEdge,
    ResizeWindowEdgeByStep,
    SetWindowHidingBehaviour,
    SetCrossMonitorMoveBehaviour,
    SetMonocleFocusBehaviour,
    SetUnmanagedWindowOperationBehaviour,
    SetFocusFollowsMouse,
    ToggleFocusFollowsMouse,
    AddWorkspaceLayoutRule,
    FocusNamedWorkspace,
    MoveContainerToNamedWorkspace,
    SendContainerToNamedWorkspace,
    SetNamedWorkspaceContainerPadding,
    SetNamedWorkspacePadding,
    SetNamedWorkspaceTiling,
    SetNamedWorkspaceLayout,
    SetNamedWorkspaceCustomLayout,
    AddNamedWorkspaceLayoutRule,
    AddNamedWorkspaceCustomLayoutRule,
    ClearNamedWorkspaceLayoutRules,
    EnsureNamedWorkspaces,
    SetWorkspaceName,
    SetLayoutRatios,
    SetCustomLayout,
    SetWorkspaceCustomLayout,
    AddWorkspaceCustomLayoutRule,
    EagerFocus,
    RemoveTitleBar,
    SetResizeStep,
    SetTransparencyEnabled,
    ToggleTransparency,
    SetTransparencyAlpha,
    SetBorderEnabled,
    SetBorderColour,
    SetBorderWidth,
    SetBorderOffset,
    SetBorderStyle,
    SetBorderImplementation,
}

impl ActionId {
    pub const FOCUS_WINDOW: ActionId = ActionId::FocusWindow;
    pub const MOVE_WINDOW: ActionId = ActionId::MoveWindow;
    pub const RESIZE_WINDOW: ActionId = ActionId::ResizeWindow;
    pub const RESIZE_WINDOW_BY_STEP: ActionId = ActionId::ResizeWindowByStep;
    pub const SET_WORKSPACE_LAYOUT: ActionId = ActionId::SetWorkspaceLayout;
    pub const TOGGLE_WINDOW_FLOAT: ActionId = ActionId::ToggleWindowFloat;
    pub const CYCLE_FOCUS_WINDOW: ActionId = ActionId::CycleFocusWindow;
    pub const CYCLE_MOVE_WINDOW: ActionId = ActionId::CycleMoveWindow;
    pub const TOGGLE_WINDOW_MONOCLE: ActionId = ActionId::ToggleWindowMonocle;
    pub const TOGGLE_WINDOW_MAXIMIZE: ActionId = ActionId::ToggleWindowMaximize;
    pub const TOGGLE_CONTAINER_LOCK: ActionId = ActionId::ToggleContainerLock;
    pub const STACK_WINDOW: ActionId = ActionId::StackWindow;
    pub const UNSTACK_WINDOW: ActionId = ActionId::UnstackWindow;
    pub const STACK_ALL: ActionId = ActionId::StackAll;
    pub const UNSTACK_ALL: ActionId = ActionId::UnstackAll;
    pub const CYCLE_STACK: ActionId = ActionId::CycleStack;
    pub const CYCLE_STACK_INDEX: ActionId = ActionId::CycleStackIndex;
    pub const FOCUS_STACK_WINDOW: ActionId = ActionId::FocusStackWindow;
    pub const FOCUS_WORKSPACE: ActionId = ActionId::FocusWorkspace;
    pub const CYCLE_FOCUS_WORKSPACE: ActionId = ActionId::CycleFocusWorkspace;
    pub const CYCLE_FOCUS_EMPTY_WORKSPACE: ActionId = ActionId::CycleFocusEmptyWorkspace;
    pub const FOCUS_LAST_WORKSPACE: ActionId = ActionId::FocusLastWorkspace;
    pub const CLOSE_WORKSPACE: ActionId = ActionId::CloseWorkspace;
    pub const FOCUS_MONITOR: ActionId = ActionId::FocusMonitor;
    pub const CYCLE_FOCUS_MONITOR: ActionId = ActionId::CycleFocusMonitor;
    pub const FOCUS_MONITOR_AT_CURSOR: ActionId = ActionId::FocusMonitorAtCursor;
    pub const FOCUS_WORKSPACE_ON_ALL_MONITORS: ActionId = ActionId::FocusWorkspaceOnAllMonitors;
    pub const FOCUS_MONITOR_WORKSPACE: ActionId = ActionId::FocusMonitorWorkspace;
    pub const CLOSE_WINDOW: ActionId = ActionId::CloseWindow;
    pub const MINIMIZE_WINDOW: ActionId = ActionId::MinimizeWindow;
    pub const FORCE_FOCUS: ActionId = ActionId::ForceFocus;
    pub const PROMOTE_CONTAINER: ActionId = ActionId::PromoteContainer;
    pub const PROMOTE_CONTAINER_SWAP: ActionId = ActionId::PromoteContainerSwap;
    pub const PROMOTE_FOCUS: ActionId = ActionId::PromoteFocus;
    pub const PROMOTE_WINDOW: ActionId = ActionId::PromoteWindow;
    pub const NEW_WORKSPACE: ActionId = ActionId::NewWorkspace;
    pub const TOGGLE_TILING: ActionId = ActionId::ToggleTiling;
    pub const CYCLE_LAYOUT: ActionId = ActionId::CycleLayout;
    pub const FLIP_LAYOUT: ActionId = ActionId::FlipLayout;
    pub const TOGGLE_WORKSPACE_LAYER: ActionId = ActionId::ToggleWorkspaceLayer;
    pub const MOVE_CONTAINER_TO_LAST_WORKSPACE: ActionId = ActionId::MoveContainerToLastWorkspace;
    pub const SEND_CONTAINER_TO_LAST_WORKSPACE: ActionId = ActionId::SendContainerToLastWorkspace;
    pub const MOVE_CONTAINER_TO_WORKSPACE: ActionId = ActionId::MoveContainerToWorkspace;
    pub const CYCLE_MOVE_CONTAINER_TO_WORKSPACE: ActionId = ActionId::CycleMoveContainerToWorkspace;
    pub const SEND_CONTAINER_TO_WORKSPACE: ActionId = ActionId::SendContainerToWorkspace;
    pub const CYCLE_SEND_CONTAINER_TO_WORKSPACE: ActionId = ActionId::CycleSendContainerToWorkspace;
    pub const MOVE_CONTAINER_TO_MONITOR: ActionId = ActionId::MoveContainerToMonitor;
    pub const CYCLE_MOVE_CONTAINER_TO_MONITOR: ActionId = ActionId::CycleMoveContainerToMonitor;
    pub const SEND_CONTAINER_TO_MONITOR: ActionId = ActionId::SendContainerToMonitor;
    pub const CYCLE_SEND_CONTAINER_TO_MONITOR: ActionId = ActionId::CycleSendContainerToMonitor;
    pub const MOVE_CONTAINER_TO_MONITOR_WORKSPACE: ActionId = ActionId::MoveContainerToMonitorWorkspace;
    pub const SEND_CONTAINER_TO_MONITOR_WORKSPACE: ActionId = ActionId::SendContainerToMonitorWorkspace;
    pub const MOVE_WORKSPACE_TO_MONITOR: ActionId = ActionId::MoveWorkspaceToMonitor;
    pub const CYCLE_MOVE_WORKSPACE_TO_MONITOR: ActionId = ActionId::CycleMoveWorkspaceToMonitor;
    pub const SWAP_WORKSPACES_TO_MONITOR: ActionId = ActionId::SwapWorkspacesToMonitor;
    pub const PRESELECT_DIRECTION: ActionId = ActionId::PreselectDirection;
    pub const CANCEL_PRESELECT: ActionId = ActionId::CancelPreselect;
    pub const RETILE: ActionId = ActionId::Retile;
    pub const RETILE_WITH_RESIZE_DIMENSIONS: ActionId = ActionId::RetileWithResizeDimensions;
    pub const MANAGE_FOCUSED_WINDOW: ActionId = ActionId::ManageFocusedWindow;
    pub const UNMANAGE_FOCUSED_WINDOW: ActionId = ActionId::UnmanageFocusedWindow;
    pub const ADJUST_CONTAINER_PADDING: ActionId = ActionId::AdjustContainerPadding;
    pub const ADJUST_WORKSPACE_PADDING: ActionId = ActionId::AdjustWorkspacePadding;
    pub const TOGGLE_MOUSE_FOLLOWS_FOCUS: ActionId = ActionId::ToggleMouseFollowsFocus;
    pub const SET_MOUSE_FOLLOWS_FOCUS: ActionId = ActionId::SetMouseFollowsFocus;
    pub const TOGGLE_WINDOW_CONTAINER_BEHAVIOUR: ActionId = ActionId::ToggleWindowContainerBehaviour;
    pub const TOGGLE_FLOAT_OVERRIDE: ActionId = ActionId::ToggleFloatOverride;
    pub const TOGGLE_WORKSPACE_WINDOW_CONTAINER_BEHAVIOUR: ActionId = ActionId::ToggleWorkspaceWindowContainerBehaviour;
    pub const TOGGLE_WORKSPACE_FLOAT_OVERRIDE: ActionId = ActionId::ToggleWorkspaceFloatOverride;
    pub const TOGGLE_CROSS_MONITOR_MOVE_BEHAVIOUR: ActionId = ActionId::ToggleCrossMonitorMoveBehaviour;
    pub const TOGGLE_MONOCLE_FOCUS_BEHAVIOUR: ActionId = ActionId::ToggleMonocleFocusBehaviour;
    pub const TOGGLE_PAUSE: ActionId = ActionId::TogglePause;
    pub const SET_FOCUSED_CONTAINER_PADDING: ActionId = ActionId::SetFocusedContainerPadding;
    pub const SET_FOCUSED_WORKSPACE_PADDING: ActionId = ActionId::SetFocusedWorkspacePadding;
    pub const SET_CONTAINER_PADDING: ActionId = ActionId::SetContainerPadding;
    pub const SET_WORKSPACE_PADDING: ActionId = ActionId::SetWorkspacePadding;
    pub const SET_WORKSPACE_TILING: ActionId = ActionId::SetWorkspaceTiling;
    pub const SET_MONITOR_WORKSPACE_LAYOUT: ActionId = ActionId::SetMonitorWorkspaceLayout;
    pub const ENSURE_WORKSPACES: ActionId = ActionId::EnsureWorkspaces;
    pub const CLEAR_WORKSPACE_LAYOUT_RULES: ActionId = ActionId::ClearWorkspaceLayoutRules;
    pub const SET_SCROLLING_COLUMNS: ActionId = ActionId::SetScrollingColumns;
    pub const LOCK_CONTAINER: ActionId = ActionId::LockContainer;
    pub const UNLOCK_CONTAINER: ActionId = ActionId::UnlockContainer;
    pub const TOGGLE_TITLE_BARS: ActionId = ActionId::ToggleTitleBars;
    pub const ENFORCE_WORKSPACE_RULES: ActionId = ActionId::EnforceWorkspaceRules;
    pub const ADD_SESSION_FLOAT_RULE: ActionId = ActionId::AddSessionFloatRule;
    pub const CLEAR_SESSION_FLOAT_RULES: ActionId = ActionId::ClearSessionFloatRules;
    pub const RESIZE_WINDOW_EDGE: ActionId = ActionId::ResizeWindowEdge;
    pub const RESIZE_WINDOW_EDGE_BY_STEP: ActionId = ActionId::ResizeWindowEdgeByStep;
    pub const SET_WINDOW_HIDING_BEHAVIOUR: ActionId = ActionId::SetWindowHidingBehaviour;
    pub const SET_CROSS_MONITOR_MOVE_BEHAVIOUR: ActionId = ActionId::SetCrossMonitorMoveBehaviour;
    pub const SET_MONOCLE_FOCUS_BEHAVIOUR: ActionId = ActionId::SetMonocleFocusBehaviour;
    pub const SET_UNMANAGED_WINDOW_OPERATION_BEHAVIOUR: ActionId = ActionId::SetUnmanagedWindowOperationBehaviour;
    pub const SET_FOCUS_FOLLOWS_MOUSE: ActionId = ActionId::SetFocusFollowsMouse;
    pub const TOGGLE_FOCUS_FOLLOWS_MOUSE: ActionId = ActionId::ToggleFocusFollowsMouse;
    pub const ADD_WORKSPACE_LAYOUT_RULE: ActionId = ActionId::AddWorkspaceLayoutRule;
    pub const FOCUS_NAMED_WORKSPACE: ActionId = ActionId::FocusNamedWorkspace;
    pub const MOVE_CONTAINER_TO_NAMED_WORKSPACE: ActionId = ActionId::MoveContainerToNamedWorkspace;
    pub const SEND_CONTAINER_TO_NAMED_WORKSPACE: ActionId = ActionId::SendContainerToNamedWorkspace;
    pub const SET_NAMED_WORKSPACE_CONTAINER_PADDING: ActionId = ActionId::SetNamedWorkspaceContainerPadding;
    pub const SET_NAMED_WORKSPACE_PADDING: ActionId = ActionId::SetNamedWorkspacePadding;
    pub const SET_NAMED_WORKSPACE_TILING: ActionId = ActionId::SetNamedWorkspaceTiling;
    pub const SET_NAMED_WORKSPACE_LAYOUT: ActionId = ActionId::SetNamedWorkspaceLayout;
    pub const SET_NAMED_WORKSPACE_CUSTOM_LAYOUT: ActionId = ActionId::SetNamedWorkspaceCustomLayout;
    pub const ADD_NAMED_WORKSPACE_LAYOUT_RULE: ActionId = ActionId::AddNamedWorkspaceLayoutRule;
    pub const ADD_NAMED_WORKSPACE_CUSTOM_LAYOUT_RULE: ActionId = ActionId::AddNamedWorkspaceCustomLayoutRule;
    pub const CLEAR_NAMED_WORKSPACE_LAYOUT_RULES: ActionId = ActionId::ClearNamedWorkspaceLayoutRules;
    pub const ENSURE_NAMED_WORKSPACES: ActionId = ActionId::EnsureNamedWorkspaces;
    pub const SET_WORKSPACE_NAME: ActionId = ActionId::SetWorkspaceName;
    pub const SET_LAYOUT_RATIOS: ActionId = ActionId::SetLayoutRatios;
    pub const SET_CUSTOM_LAYOUT: ActionId = ActionId::SetCustomLayout;
    pub const SET_WORKSPACE_CUSTOM_LAYOUT: ActionId = ActionId::SetWorkspaceCustomLayout;
    pub const ADD_WORKSPACE_CUSTOM_LAYOUT_RULE: ActionId = ActionId::AddWorkspaceCustomLayoutRule;
    pub const EAGER_FOCUS: ActionId = ActionId::EagerFocus;
    pub const REMOVE_TITLE_BAR: ActionId = ActionId::RemoveTitleBar;
    pub const SET_RESIZE_STEP: ActionId = ActionId::SetResizeStep;
    pub const SET_TRANSPARENCY_ENABLED: ActionId = ActionId::SetTransparencyEnabled;
    pub const TOGGLE_TRANSPARENCY: ActionId = ActionId::ToggleTransparency;
    pub const SET_TRANSPARENCY_ALPHA: ActionId = ActionId::SetTransparencyAlpha;
    pub const SET_BORDER_ENABLED: ActionId = ActionId::SetBorderEnabled;
    pub const SET_BORDER_COLOUR: ActionId = ActionId::SetBorderColour;
    pub const SET_BORDER_WIDTH: ActionId = ActionId::SetBorderWidth;
    pub const SET_BORDER_OFFSET: ActionId = ActionId::SetBorderOffset;
    pub const SET_BORDER_STYLE: ActionId = ActionId::SetBorderStyle;
    pub const SET_BORDER_IMPLEMENTATION: ActionId = ActionId::SetBorderImplementation;

    pub open spec fn text(self) -> Seq<char> {
        match self {
            ActionId::FocusWindow => "focus-window"@,
            ActionId::MoveWindow => "move-window"@,
            ActionId::ResizeWindow => "resize-window"@,
            ActionId::ResizeWindowByStep => "resize-window-by-step"@,
            ActionId::SetWorkspaceLayout => "set-workspace-layout"@,
            ActionId::ToggleWindowFloat => "toggle-window-float"@,
            ActionId::CycleFocusWindow => "cycle-focus-window"@,
            ActionId::CycleMoveWindow => "cycle-move-window"@,
            ActionId::ToggleWindowMonocle => "toggle-window-monocle"@,
            ActionId::ToggleWindowMaximize => "toggle-window-maximize"@,
            ActionId::ToggleContainerLock => "toggle-container-lock"@,
            ActionId::StackWindow => "stack-window"@,
            ActionId::UnstackWindow => "unstack-window"@,
            ActionId::StackAll => "stack-all"@,
            ActionId::UnstackAll => "unstack-all"@,
            ActionId::CycleStack => "cycle-stack"@,
            ActionId::CycleStackIndex => "cycle-stack-index"@,
            ActionId::FocusStackWindow => "focus-stack-window"@,
            ActionId::FocusWorkspace => "focus-workspace"@,
            ActionId::CycleFocusWorkspace => "cycle-focus-workspace"@,
            ActionId::CycleFocusEmptyWorkspace => "cycle-focus-empty-workspace"@,
            ActionId::FocusLastWorkspace => "focus-last-workspace"@,
            ActionId::CloseWorkspace => "close-workspace"@,
            ActionId::FocusMonitor => "focus-monitor"@,
            ActionId::CycleFocusMonitor => "cycle-focus-monitor"@,
            ActionId::FocusMonitorAtCursor => "focus-monitor-at-cursor"@,
            ActionId::FocusWorkspaceOnAllMonitors => "focus-workspace-on-all-monitors"@,
            ActionId::FocusMonitorWorkspace => "focus-monitor-workspace"@,
            ActionId::CloseWindow => "close-window"@,
            ActionId::MinimizeWindow => "minimize-window"@,
            ActionId::ForceFocus => "force-focus"@,
            ActionId::PromoteContainer => "promote-container"@,
            ActionId::PromoteContainerSwap => "promote-container-swap"@,
            ActionId::PromoteFocus => "promote-focus"@,
            ActionId::PromoteWindow => "promote-window"@,
            ActionId::NewWorkspace => "new-workspace"@,
            ActionId::ToggleTiling => "toggle-tiling"@,
            ActionId::CycleLayout => "cycle-layout"@,
            ActionId::FlipLayout => "flip-layout"@,
            ActionId::ToggleWorkspaceLayer => "toggle-workspace-layer"@,
            ActionId::MoveContainerToLastWorkspace => "move-container-to-last-workspace"@,
            ActionId::SendContainerToLastWorkspace => "send-container-to-last-workspace"@,
            ActionId::MoveContainerToWorkspace => "move-container-to-workspace"@,
            ActionId::CycleMoveContainerToWorkspace => "cycle-move-container-to-workspace"@,
            ActionId::SendContainerToWorkspace => "send-container-to-workspace"@,
            ActionId::CycleSendContainerToWorkspace => "cycle-send-container-to-workspace"@,
            ActionId::MoveContainerToMonitor => "move-container-to-monitor"@,
            ActionId::CycleMoveContainerToMonitor => "cycle-move-container-to-monitor"@,
            ActionId::SendContainerToMonitor => "send-container-to-monitor"@,
            ActionId::CycleSendContainerToMonitor => "cycle-send-container-to-monitor"@,
            ActionId::MoveContainerToMonitorWorkspace => "move-container-to-monitor-workspace"@,
            ActionId::SendContainerToMonitorWorkspace => "send-container-to-monitor-workspace"@,
            ActionId::MoveWorkspaceToMonitor => "move-workspace-to-monitor"@,
            ActionId::CycleMoveWorkspaceToMonitor => "cycle-move-workspace-to-monitor"@,
            ActionId::SwapWorkspacesToMonitor => "swap-workspaces-to-monitor"@,
            ActionId::PreselectDirection => "preselect-direction"@,
            ActionId::CancelPreselect => "cancel-preselect"@,
            ActionId::Retile => "retile"@,
            ActionId::RetileWithResizeDimensions => "retile-with-resize-dimensions"@,
            ActionId::ManageFocusedWindow => "manage-focused-window"@,
            ActionId::UnmanageFocusedWindow => "unmanage-focused-window"@,
            ActionId::AdjustContainerPadding => "adjust-container-padding"@,
            ActionId::AdjustWorkspacePadding => "adjust-workspace-padding"@,
            ActionId::ToggleMouseFollowsFocus => "toggle-mouse-follows-focus"@,
            ActionId::SetMouseFollowsFocus => "set-mouse-follows-focus"@,
            ActionId::ToggleWindowContainerBehaviour => "toggle-window-container-behaviour"@,
            ActionId::ToggleFloatOverride => "toggle-float-override"@,
            ActionId::ToggleWorkspaceWindowContainerBehaviour => "toggle-workspace-window-container-behaviour"@,
            ActionId::ToggleWorkspaceFloatOverride => "toggle-workspace-float-override"@,
            ActionId::ToggleCrossMonitorMoveBehaviour => "toggle-cross-monitor-move-behaviour"@,
            ActionId::ToggleMonocleFocusBehaviour => "toggle-monocle-focus-behaviour"@,
            ActionId::TogglePause => "toggle-pause"@,
            ActionId::SetFocusedContainerPadding => "set-focused-container-padding"@,
            ActionId::SetFocusedWorkspacePadding => "set-focused-workspace-padding"@,
            ActionId::SetContainerPadding => "set-container-padding"@,
            ActionId::SetWorkspacePadding => "set-workspace-padding"@,
            ActionId::SetWorkspaceTiling => "set-workspace-tiling"@,
            ActionId::SetMonitorWorkspaceLayout => "set-monitor-workspace-layout"@,
            ActionId::EnsureWorkspaces => "ensure-workspaces"@,
            ActionId::ClearWorkspaceLayoutRules => "clear-workspace-layout-rules"@,
            ActionId::SetScrollingColumns => "set-scrolling-columns"@,
            ActionId::LockContainer => "lock-container"@,
            ActionId::UnlockContainer => "unlock-container"@,
            ActionId::ToggleTitleBars => "toggle-title-bars"@,
            ActionId::EnforceWorkspaceRules => "enforce-workspace-rules"@,
            ActionId::AddSessionFloatRule => "add-session-float-rule"@,
            ActionId::ClearSessionFloatRules => "clear-session-float-rules"@,
            ActionId::ResizeWindowEdge => "resize-window-edge"@,
            ActionId::ResizeWindowEdgeByStep => "resize-window-edge-by-step"@,
            ActionId::SetWindowHidingBehaviour => "set-window-hiding-behaviour"@,
            ActionId::SetCrossMonitorMoveBehaviour => "set-cross-monitor-move-behaviour"@,
            ActionId::SetMonocleFocusBehaviour => "set-monocle-focus-behaviour"@,
            ActionId::SetUnmanagedWindowOperationBehaviour => "set-unmanaged-window-operation-behaviour"@,
            ActionId::SetFocusFollowsMouse => "set-focus-follows-mouse"@,
            ActionId::ToggleFocusFollowsMouse => "toggle-focus-follows-mouse"@,
            ActionId::AddWorkspaceLayoutRule => "add-workspace-layout-rule"@,
            ActionId::FocusNamedWorkspace => "focus-named-workspace"@,
            ActionId::MoveContainerToNamedWorkspace => "move-container-to-named-workspace"@,
            ActionId::SendContainerToNamedWorkspace => "send-container-to-named-workspace"@,
            ActionId::SetNamedWorkspaceContainerPadding => "set-named-workspace-container-padding"@,
            ActionId::SetNamedWorkspacePadding => "set-named-workspace-padding"@,
            ActionId::SetNamedWorkspaceTiling => "set-named-workspace-tiling"@,
            ActionId::SetNamedWorkspaceLayout => "set-named-workspace-layout"@,
            ActionId::SetNamedWorkspaceCustomLayout => "set-named-workspace-custom-layout"@,
            ActionId::AddNamedWorkspaceLayoutRule => "add-named-workspace-layout-rule"@,
            ActionId::AddNamedWorkspaceCustomLayoutRule => "add-named-workspace-custom-layout-rule"@,
            ActionId::ClearNamedWorkspaceLayoutRules => "clear-named-workspace-layout-rules"@,
            ActionId::EnsureNamedWorkspaces => "ensure-named-workspaces"@,
            ActionId::SetWorkspaceName => "set-workspace-name"@,
            ActionId::SetLayoutRatios => "set-layout-ratios"@,
            ActionId::SetCustomLayout => "set-custom-layout"@,
            ActionId::SetWorkspaceCustomLayout => "set-workspace-custom-layout"@,
            ActionId::AddWorkspaceCustomLayoutRule => "add-workspace-custom-layout-rule"@,
            ActionId::EagerFocus => "eager-focus"@,
            ActionId::RemoveTitleBar => "remove-title-bar"@,
            ActionId::SetResizeStep => "set-resize-step"@,
            ActionId::SetTransparencyEnabled => "set-transparency-enabled"@,
            ActionId::ToggleTransparency => "toggle-transparency"@,
            ActionId::SetTransparencyAlpha => "set-transparency-alpha"@,
            ActionId::SetBorderEnabled => "set-border-enabled"@,
            ActionId::SetBorderColour => "set-border-colour"@,
            ActionId::SetBorderWidth => "set-border-width"@,
            ActionId::SetBorderOffset => "set-border-offset"@,
            ActionId::SetBorderStyle => "set-border-style"@,
            ActionId::SetBorderImplementation => "set-border-implementation"@,
        }
    }

    /// The identifier as written on the wire.
    pub fn as_str(self) -> (r: &'static str)
        ensures
            r@ == self.text(),
    {
        match self {
            ActionId::FocusWindow => "focus-window",
            ActionId::MoveWindow => "move-window",
            ActionId::ResizeWindow => "resize-window",
            ActionId::ResizeWindowByStep => "resize-window-by-step",
            ActionId::SetWorkspaceLayout => "set-workspace-layout",
            ActionId::ToggleWindowFloat => "toggle-window-float",
            ActionId::CycleFocusWindow => "cycle-focus-window",
            ActionId::CycleMoveWindow => "cycle-move-window",
            ActionId::ToggleWindowMonocle => "toggle-window-monocle",
            ActionId::ToggleWindowMaximize => "toggle-window-maximize",
            ActionId::ToggleContainerLock => "toggle-container-lock",
            ActionId::StackWindow => "stack-window",
            ActionId::UnstackWindow => "unstack-window",
            ActionId::StackAll => "stack-all",
            ActionId::UnstackAll => "unstack-all",
            ActionId::CycleStack => "cycle-stack",
            ActionId::CycleStackIndex => "cycle-stack-index",
            ActionId::FocusStackWindow => "focus-stack-window",
            ActionId::FocusWorkspace => "focus-workspace",
            ActionId::CycleFocusWorkspace => "cycle-focus-workspace",
            ActionId::CycleFocusEmptyWorkspace => "cycle-focus-empty-workspace",
            ActionId::FocusLastWorkspace => "focus-last-workspace",
            ActionId::CloseWorkspace => "close-workspace",
            ActionId::FocusMonitor => "focus-monitor",
            ActionId::CycleFocusMonitor => "cycle-focus-monitor",
            ActionId::FocusMonitorAtCursor => "focus-monitor-at-cursor",
            ActionId::FocusWorkspaceOnAllMonitors => "focus-workspace-on-all-monitors",
            ActionId::FocusMonitorWorkspace => "focus-monitor-workspace",
            ActionId::CloseWindow => "close-window",
            ActionId::MinimizeWindow => "minimize-window",
            ActionId::ForceFocus => "force-focus",
            ActionId::PromoteContainer => "promote-container",
            ActionId::PromoteContainerSwap => "promote-container-swap",
            ActionId::PromoteFocus => "promote-focus",
            ActionId::PromoteWindow => "promote-window",
            ActionId::NewWorkspace => "new-workspace",
            ActionId::ToggleTiling => "toggle-tiling",
            ActionId::CycleLayout => "cycle-layout",
            ActionId::FlipLayout => "flip-layout",
            ActionId::ToggleWorkspaceLayer => "toggle-workspace-layer",
            ActionId::MoveContainerToLastWorkspace => "move-container-to-last-workspace",
            ActionId::SendContainerToLastWorkspace => "send-container-to-last-workspace",
            ActionId::MoveContainerToWorkspace => "move-container-to-workspace",
            ActionId::CycleMoveContainerToWorkspace => "cycle-move-container-to-workspace",
            ActionId::SendContainerToWorkspace => "send-container-to-workspace",
            ActionId::CycleSendContainerToWorkspace => "cycle-send-container-to-workspace",
            ActionId::MoveContainerToMonitor => "move-container-to-monitor",
            ActionId::CycleMoveContainerToMonitor => "cycle-move-container-to-monitor",
            ActionId::SendContainerToMonitor => "send-container-to-monitor",
            ActionId::CycleSendContainerToMonitor => "cycle-send-container-to-monitor",
            ActionId::MoveContainerToMonitorWorkspace => "move-container-to-monitor-workspace",
            ActionId::SendContainerToMonitorWorkspace => "send-container-to-monitor-workspace",
            ActionId::MoveWorkspaceToMonitor => "move-workspace-to-monitor",
            ActionId::CycleMoveWorkspaceToMonitor => "cycle-move-workspace-to-monitor",
            ActionId::SwapWorkspacesToMonitor => "swap-workspaces-to-monitor",
            ActionId::PreselectDirection => "preselect-direction",
            ActionId::CancelPreselect => "cancel-preselect",
            ActionId::Retile => "retile",
            ActionId::RetileWithResizeDimensions => "retile-with-resize-dimensions",
            ActionId::ManageFocusedWindow => "manage-focused-window",
            ActionId::UnmanageFocusedWindow => "unmanage-focused-window",
            ActionId::AdjustContainerPadding => "adjust-container-padding",
            ActionId::AdjustWorkspacePadding => "adjust-workspace-padding",
            ActionId::ToggleMouseFollowsFocus => "toggle-mouse-follows-focus",
            ActionId::SetMouseFollowsFocus => "set-mouse-follows-focus",
            ActionId::ToggleWindowContainerBehaviour => "toggle-window-container-behaviour",
            ActionId::ToggleFloatOverride => "toggle-float-override",
            ActionId::ToggleWorkspaceWindowContainerBehaviour => "toggle-workspace-window-container-behaviour",
            ActionId::ToggleWorkspaceFloatOverride => "toggle-workspace-float-override",
            ActionId::ToggleCrossMonitorMoveBehaviour => "toggle-cross-monitor-move-behaviour",
            ActionId::ToggleMonocleFocusBehaviour => "toggle-monocle-focus-behaviour",
            ActionId::TogglePause => "toggle-pause",
            ActionId::SetFocusedContainerPadding => "set-focused-container-padding",
            ActionId::SetFocusedWorkspacePadding => "set-focused-workspace-padding",
            ActionId::SetContainerPadding => "set-container-padding",
            ActionId::SetWorkspacePadding => "set-workspace-padding",
            ActionId::SetWorkspaceTiling => "set-workspace-tiling",
            ActionId::SetMonitorWorkspaceLayout => "set-monitor-workspace-layout",
            ActionId::EnsureWorkspaces => "ensure-workspaces",
            ActionId::ClearWorkspaceLayoutRules => "clear-workspace-layout-rules",
            ActionId::SetScrollingColumns => "set-scrolling-columns",
            ActionId::LockContainer => "lock-container",
            ActionId::UnlockContainer => "unlock-container",
            ActionId::ToggleTitleBars => "toggle-title-bars",
            ActionId::EnforceWorkspaceRules => "enforce-workspace-rules",
            ActionId::AddSessionFloatRule => "add-session-float-rule",
            ActionId::ClearSessionFloatRules => "clear-session-float-rules",
            ActionId::ResizeWindowEdge => "resize-window-edge",
            ActionId::ResizeWindowEdgeByStep => "resize-window-edge-by-step",
            ActionId::SetWindowHidingBehaviour => "set-window-hiding-behaviour",
            ActionId::SetCrossMonitorMoveBehaviour => "set-cross-monitor-move-behaviour",
            ActionId::SetMonocleFocusBehaviour => "set-monocle-focus-behaviour",
            ActionId::SetUnmanagedWindowOperationBehaviour => "set-unmanaged-window-operation-behaviour",
            ActionId::SetFocusFollowsMouse => "set-focus-follows-mouse",
            ActionId::ToggleFocusFollowsMouse => "toggle-focus-follows-mouse",
            ActionId::AddWorkspaceLayoutRule => "add-workspace-layout-rule",
            ActionId::FocusNamedWorkspace => "focus-named-workspace",
            ActionId::MoveContainerToNamedWorkspace => "move-container-to-named-workspace",
            ActionId::SendContainerToNamedWorkspace => "send-container-to-named-workspace",
            ActionId::SetNamedWorkspaceContainerPadding => "set-named-workspace-container-padding",
            ActionId::SetNamedWorkspacePadding => "set-named-workspace-padding",
            ActionId::SetNamedWorkspaceTiling => "set-named-workspace-tiling",
            ActionId::SetNamedWorkspaceLayout => "set-named-workspace-layout",
            ActionId::SetNamedWorkspaceCustomLayout => "set-named-workspace-custom-layout",
            ActionId::AddNamedWorkspaceLayoutRule => "add-named-workspace-layout-rule",
            ActionId::AddNamedWorkspaceCustomLayoutRule => "add-named-workspace-custom-layout-rule",
            ActionId::ClearNamedWorkspaceLayoutRules => "clear-named-workspace-layout-rules",
            ActionId::EnsureNamedWorkspaces => "ensure-named-workspaces",
            ActionId::SetWorkspaceName => "set-workspace-name",
            ActionId::SetLayoutRatios => "set-layout-ratios",
            ActionId::SetCustomLayout => "set-custom-layout",
            ActionId::SetWorkspaceCustomLayout => "set-workspace-custom-layout",
            ActionId::AddWorkspaceCustomLayoutRule => "add-workspace-custom-layout-rule",
            ActionId::EagerFocus => "eager-focus",
            ActionId::RemoveTitleBar => "remove-title-bar",
            ActionId::SetResizeStep => "set-resize-step",
            ActionId::SetTransparencyEnabled => "set-transparency-enabled",
            ActionId::ToggleTransparency => "toggle-transparency",
            ActionId::SetTransparencyAlpha => "set-transparency-alpha",
            ActionId::SetBorderEnabled => "set-border-enabled",
            ActionId::SetBorderColour => "set-border-colour",
            ActionId::SetBorderWidth => "set-border-width",
            ActionId::SetBorderOffset => "set-border-offset",
            ActionId::SetBorderStyle => "set-border-style",
            ActionId::SetBorderImplementation => "set-border-implementation",
        }
    }
}

/// The first character position that tells apart the texts of one length.
spec fn first_probe(len: nat) -> int {
    if len == 11 {
        2
    } else if len == 12 {
        3
    } else if len == 16 {
        13
    } else if len == 17 {
        11
    } else if len == 18 {
        4
    } else if len == 19 {
        7
    } else if len == 20 {
        14
    } else if len == 22 {
        11
    } else if len == 23 {
        18
    } else if len == 24 {
        7
    } else if len == 26 {
        21
    } else if len == 29 {
        12
    } else if len == 31 {
        6
    } else if len == 32 {
        2
    } else {
        0
    }
}

/// The second character position that tells apart the texts of one length.
spec fn second_probe(len: nat) -> int {
    if len == 21 {
        7
    } else if len == 25 {
        5
    } else if len == 27 {
        7
    } else if len == 31 {
        11
    } else if len == 33 {
        6
    } else {
        0
    }
}

/// A text's length and the characters at its two probe positions.
spec fn id_signature(text: Seq<char>) -> (nat, char, char) {
    (text.len(), text[first_probe(text.len())], text[second_probe(text.len())])
}

/// The action whose text has this signature.
spec fn id_of_signature(signature: (nat, char, char)) -> Option<ActionId> {
    if signature == (12nat, 'u', 'f') {
        Some(ActionId::FocusWindow)
    } else if signature == (11nat, 'v', 'm') {
        Some(ActionId::MoveWindow)
    } else if signature == (13nat, 'r', 'r') {
        Some(ActionId::ResizeWindow)
    } else if signature == (21nat, 'r', 'w') {
        Some(ActionId::ResizeWindowByStep)
    } else if signature == (20nat, 'l', 's') {
        Some(ActionId::SetWorkspaceLayout)
    } else if signature == (19nat, 'w', 't') {
        Some(ActionId::ToggleWindowFloat)
    } else if signature == (18nat, 'e', 'c') {
        Some(ActionId::CycleFocusWindow)
    } else if signature == (17nat, 'w', 'c') {
        Some(ActionId::CycleMoveWindow)
    } else if signature == (21nat, 't', 'w') {
        Some(ActionId::ToggleWindowMonocle)
    } else if signature == (22nat, 'o', 't') {
        Some(ActionId::ToggleWindowMaximize)
    } else if signature == (21nat, 't', 'c') {
        Some(ActionId::ToggleContainerLock)
    } else if signature == (12nat, 'c', 's') {
        Some(ActionId::StackWindow)
    } else if signature == (14nat, 'u', 'u') {
        Some(ActionId::UnstackWindow)
    } else if signature == (9nat, 's', 's') {
        Some(ActionId::StackAll)
    } else if signature == (11nat, 's', 'u') {
        Some(ActionId::UnstackAll)
    } else if signature == (11nat, 'c', 'c') {
        Some(ActionId::CycleStack)
    } else if signature == (17nat, '-', 'c') {
        Some(ActionId::CycleStackIndex)
    } else if signature == (18nat, 's', 'f') {
        Some(ActionId::FocusStackWindow)
    } else if signature == (15nat, 'f', 'f') {
        Some(ActionId::FocusWorkspace)
    } else if signature == (21nat, 'c', 'o') {
        Some(ActionId::CycleFocusWorkspace)
    } else if signature == (27nat, 'c', 'o') {
        Some(ActionId::CycleFocusEmptyWorkspace)
    } else if signature == (20nat, 'k', 'f') {
        Some(ActionId::FocusLastWorkspace)
    } else if signature == (15nat, 'c', 'c') {
        Some(ActionId::CloseWorkspace)
    } else if signature == (13nat, 'f', 'f') {
        Some(ActionId::FocusMonitor)
    } else if signature == (19nat, 'o', 'c') {
        Some(ActionId::CycleFocusMonitor)
    } else if signature == (23nat, 'u', 'f') {
        Some(ActionId::FocusMonitorAtCursor)
    } else if signature == (31nat, 'w', 'p') {
        Some(ActionId::FocusWorkspaceOnAllMonitors)
    } else if signature == (23nat, 's', 'f') {
        Some(ActionId::FocusMonitorWorkspace)
    } else if signature == (12nat, 's', 'c') {
        Some(ActionId::CloseWindow)
    } else if signature == (15nat, 'm', 'm') {
        Some(ActionId::MinimizeWindow)
    } else if signature == (11nat, 'r', 'f') {
        Some(ActionId::ForceFocus)
    } else if signature == (17nat, 't', 'p') {
        Some(ActionId::PromoteContainer)
    } else if signature == (22nat, 't', 'p') {
        Some(ActionId::PromoteContainerSwap)
    } else if signature == (13nat, 'p', 'p') {
        Some(ActionId::PromoteFocus)
    } else if signature == (14nat, 'p', 'p') {
        Some(ActionId::PromoteWindow)
    } else if signature == (13nat, 'n', 'n') {
        Some(ActionId::NewWorkspace)
    } else if signature == (13nat, 't', 't') {
        Some(ActionId::ToggleTiling)
    } else if signature == (12nat, 'l', 'c') {
        Some(ActionId::CycleLayout)
    } else if signature == (11nat, 'i', 'f') {
        Some(ActionId::FlipLayout)
    } else if signature == (22nat, 's', 't') {
        Some(ActionId::ToggleWorkspaceLayer)
    } else if signature == (32nat, 'v', 'm') {
        Some(ActionId::MoveContainerToLastWorkspace)
    } else if signature == (32nat, 'n', 's') {
        Some(ActionId::SendContainerToLastWorkspace)
    } else if signature == (27nat, 'm', 'n') {
        Some(ActionId::MoveContainerToWorkspace)
    } else if signature == (33nat, 'c', 'm') {
        Some(ActionId::CycleMoveContainerToWorkspace)
    } else if signature == (27nat, 's', 'n') {
        Some(ActionId::SendContainerToWorkspace)
    } else if signature == (33nat, 'c', 's') {
        Some(ActionId::CycleSendContainerToWorkspace)
    } else if signature == (25nat, 'm', 'c') {
        Some(ActionId::MoveContainerToMonitor)
    } else if signature == (31nat, 'm', 'c') {
        Some(ActionId::CycleMoveContainerToMonitor)
    } else if signature == (25nat, 's', 'c') {
        Some(ActionId::SendContainerToMonitor)
    } else if signature == (31nat, 's', 'c') {
        Some(ActionId::CycleSendContainerToMonitor)
    } else if signature == (35nat, 'm', 'm') {
        Some(ActionId::MoveContainerToMonitorWorkspace)
    } else if signature == (35nat, 's', 's') {
        Some(ActionId::SendContainerToMonitorWorkspace)
    } else if signature == (25nat, 'm', 'w') {
        Some(ActionId::MoveWorkspaceToMonitor)
    } else if signature == (31nat, 'm', 'w') {
        Some(ActionId::CycleMoveWorkspaceToMonitor)
    } else if signature == (26nat, 'n', 's') {
        Some(ActionId::SwapWorkspacesToMonitor)
    } else if signature == (19nat, 'c', 'p') {
        Some(ActionId::PreselectDirection)
    } else if signature == (16nat, 'e', 'c') {
        Some(ActionId::CancelPreselect)
    } else if signature == (6nat, 'r', 'r') {
        Some(ActionId::Retile)
    } else if signature == (29nat, 'r', 'r') {
        Some(ActionId::RetileWithResizeDimensions)
    } else if signature == (21nat, 'm', 'f') {
        Some(ActionId::ManageFocusedWindow)
    } else if signature == (23nat, 'i', 'u') {
        Some(ActionId::UnmanageFocusedWindow)
    } else if signature == (24nat, 'c', 'a') {
        Some(ActionId::AdjustContainerPadding)
    } else if signature == (24nat, 'w', 'a') {
        Some(ActionId::AdjustWorkspacePadding)
    } else if signature == (26nat, 'f', 't') {
        Some(ActionId::ToggleMouseFollowsFocus)
    } else if signature == (23nat, 'f', 's') {
        Some(ActionId::SetMouseFollowsFocus)
    } else if signature == (33nat, 't', '-') {
        Some(ActionId::ToggleWindowContainerBehaviour)
    } else if signature == (21nat, 't', 'f') {
        Some(ActionId::ToggleFloatOverride)
    } else if signature == (43nat, 't', 't') {
        Some(ActionId::ToggleWorkspaceWindowContainerBehaviour)
    } else if signature == (31nat, '-', 's') {
        Some(ActionId::ToggleWorkspaceFloatOverride)
    } else if signature == (35nat, 't', 't') {
        Some(ActionId::ToggleCrossMonitorMoveBehaviour)
    } else if signature == (30nat, 't', 't') {
        Some(ActionId::ToggleMonocleFocusBehaviour)
    } else if signature == (12nat, 'g', 't') {
        Some(ActionId::TogglePause)
    } else if signature == (29nat, 'c', 's') {
        Some(ActionId::SetFocusedContainerPadding)
    } else if signature == (29nat, 'w', 's') {
        Some(ActionId::SetFocusedWorkspacePadding)
    } else if signature == (21nat, 's', 't') {
        Some(ActionId::SetContainerPadding)
    } else if signature == (21nat, 's', 'k') {
        Some(ActionId::SetWorkspacePadding)
    } else if signature == (20nat, 't', 's') {
        Some(ActionId::SetWorkspaceTiling)
    } else if signature == (28nat, 's', 's') {
        Some(ActionId::SetMonitorWorkspaceLayout)
    } else if signature == (17nat, 's', 'e') {
        Some(ActionId::EnsureWorkspaces)
    } else if signature == (28nat, 'c', 'c') {
        Some(ActionId::ClearWorkspaceLayoutRules)
    } else if signature == (21nat, 's', 'o') {
        Some(ActionId::SetScrollingColumns)
    } else if signature == (14nat, 'l', 'l') {
        Some(ActionId::LockContainer)
    } else if signature == (16nat, 'n', 'u') {
        Some(ActionId::UnlockContainer)
    } else if signature == (17nat, 'e', 't') {
        Some(ActionId::ToggleTitleBars)
    } else if signature == (23nat, 'r', 'e') {
        Some(ActionId::EnforceWorkspaceRules)
    } else if signature == (22nat, '-', 'a') {
        Some(ActionId::AddSessionFloatRule)
    } else if signature == (25nat, 'c', '-') {
        Some(ActionId::ClearSessionFloatRules)
    } else if signature == (18nat, 'z', 'r') {
        Some(ActionId::ResizeWindowEdge)
    } else if signature == (26nat, '-', 'r') {
        Some(ActionId::ResizeWindowEdgeByStep)
    } else if signature == (27nat, 's', 'd') {
        Some(ActionId::SetWindowHidingBehaviour)
    } else if signature == (32nat, 't', 's') {
        Some(ActionId::SetCrossMonitorMoveBehaviour)
    } else if signature == (27nat, 's', 'o') {
        Some(ActionId::SetMonocleFocusBehaviour)
    } else if signature == (40nat, 's', 's') {
        Some(ActionId::SetUnmanagedWindowOperationBehaviour)
    } else if signature == (23nat, 'm', 's') {
        Some(ActionId::SetFocusFollowsMouse)
    } else if signature == (26nat, 'm', 't') {
        Some(ActionId::ToggleFocusFollowsMouse)
    } else if signature == (25nat, 'a', 'o') {
        Some(ActionId::AddWorkspaceLayoutRule)
    } else if signature == (21nat, 'f', 'a') {
        Some(ActionId::FocusNamedWorkspace)
    } else if signature == (33nat, 'm', 'o') {
        Some(ActionId::MoveContainerToNamedWorkspace)
    } else if signature == (33nat, 's', 'o') {
        Some(ActionId::SendContainerToNamedWorkspace)
    } else if signature == (37nat, 's', 's') {
        Some(ActionId::SetNamedWorkspaceContainerPadding)
    } else if signature == (27nat, 's', 'e') {
        Some(ActionId::SetNamedWorkspacePadding)
    } else if signature == (26nat, 'i', 's') {
        Some(ActionId::SetNamedWorkspaceTiling)
    } else if signature == (26nat, 'a', 's') {
        Some(ActionId::SetNamedWorkspaceLayout)
    } else if signature == (33nat, 's', 'm') {
        Some(ActionId::SetNamedWorkspaceCustomLayout)
    } else if signature == (31nat, 'm', 'o') {
        Some(ActionId::AddNamedWorkspaceLayoutRule)
    } else if signature == (38nat, 'a', 'a') {
        Some(ActionId::AddNamedWorkspaceCustomLayoutRule)
    } else if signature == (34nat, 'c', 'c') {
        Some(ActionId::ClearNamedWorkspaceLayoutRules)
    } else if signature == (23nat, 'p', 'e') {
        Some(ActionId::EnsureNamedWorkspaces)
    } else if signature == (18nat, 'w', 's') {
        Some(ActionId::SetWorkspaceName)
    } else if signature == (17nat, 'r', 's') {
        Some(ActionId::SetLayoutRatios)
    } else if signature == (17nat, 'l', 's') {
        Some(ActionId::SetCustomLayout)
    } else if signature == (27nat, 's', 'k') {
        Some(ActionId::SetWorkspaceCustomLayout)
    } else if signature == (32nat, 'd', 'a') {
        Some(ActionId::AddWorkspaceCustomLayoutRule)
    } else if signature == (11nat, 'g', 'e') {
        Some(ActionId::EagerFocus)
    } else if signature == (16nat, 'b', 'r') {
        Some(ActionId::RemoveTitleBar)
    } else if signature == (15nat, 's', 's') {
        Some(ActionId::SetResizeStep)
    } else if signature == (24nat, 'n', 's') {
        Some(ActionId::SetTransparencyEnabled)
    } else if signature == (19nat, 't', 't') {
        Some(ActionId::ToggleTransparency)
    } else if signature == (22nat, 'r', 's') {
        Some(ActionId::SetTransparencyAlpha)
    } else if signature == (18nat, 'b', 's') {
        Some(ActionId::SetBorderEnabled)
    } else if signature == (17nat, 'c', 's') {
        Some(ActionId::SetBorderColour)
    } else if signature == (16nat, 'd', 's') {
        Some(ActionId::SetBorderWidth)
    } else if signature == (17nat, 'o', 's') {
        Some(ActionId::SetBorderOffset)
    } else if signature == (16nat, 'y', 's') {
        Some(ActionId::SetBorderStyle)
    } else if signature == (25nat, 's', 'o') {
        Some(ActionId::SetBorderImplementation)
    } else {
        None
    }
}

proof fn lemma_signature_decodes_part_1(id: ActionId)
    requires
        matches!(id, ActionId::FocusWindow | ActionId::MoveWindow | ActionId::ResizeWindow | ActionId::ResizeWindowByStep | ActionId::SetWorkspaceLayout | ActionId::ToggleWindowFloat | ActionId::CycleFocusWindow | ActionId::CycleMoveWindow | ActionId::ToggleWindowMonocle | ActionId::ToggleWindowMaximize | ActionId::ToggleContainerLock | ActionId::StackWindow | ActionId::UnstackWindow | ActionId::StackAll | ActionId::UnstackAll | ActionId::CycleStack | ActionId::CycleStackIndex | ActionId::FocusStackWindow | ActionId::FocusWorkspace | ActionId::CycleFocusWorkspace | ActionId::CycleFocusEmptyWorkspace | ActionId::FocusLastWorkspace | ActionId::CloseWorkspace | ActionId::FocusMonitor | ActionId::CycleFocusMonitor),
    ensures
        id_of_signature(id_signature(id.text())) == Some(id),
{
    match id {
        ActionId::FocusWindow => {
            reveal_strlit("focus-window");
        },
        ActionId::MoveWindow => {
            reveal_strlit("move-window");
        },
        ActionId::ResizeWindow => {
            reveal_strlit("resize-window");
        },
        ActionId::ResizeWindowByStep => {
            reveal_strlit("resize-window-by-step");
        },
        ActionId::SetWorkspaceLayout => {
            reveal_strlit("set-workspace-layout");
        },
        ActionId::ToggleWindowFloat => {
            reveal_strlit("toggle-window-float");
        },
        ActionId::CycleFocusWindow => {
            reveal_strlit("cycle-focus-window");
        },
        ActionId::CycleMoveWindow => {
            reveal_strlit("cycle-move-window");
        },
        ActionId::ToggleWindowMonocle => {
            reveal_strlit("toggle-window-monocle");
        },
        ActionId::ToggleWindowMaximize => {
            reveal_strlit("toggle-window-maximize");
        },
        ActionId::ToggleContainerLock => {
            reveal_strlit("toggle-container-lock");
        },
        ActionId::StackWindow => {
            reveal_strlit("stack-window");
        },
        ActionId::UnstackWindow => {
            reveal_strlit("unstack-window");
        },
        ActionId::StackAll => {
            reveal_strlit("stack-all");
        },
        ActionId::UnstackAll => {
            reveal_strlit("unstack-all");
        },
        ActionId::CycleStack => {
            reveal_strlit("cycle-stack");
        },
        ActionId::CycleStackIndex => {
            reveal_strlit("cycle-stack-index");
        },
        ActionId::FocusStackWindow => {
            reveal_strlit("focus-stack-window");
        },
        ActionId::FocusWorkspace => {
            reveal_strlit("focus-workspace");
        },
        ActionId::CycleFocusWorkspace => {
            reveal_strlit("cycle-focus-workspace");
        },
        ActionId::CycleFocusEmptyWorkspace => {
            reveal_strlit("cycle-focus-empty-workspace");
        },
        ActionId::FocusLastWorkspace => {
            reveal_strlit("focus-last-workspace");
        },
        ActionId::CloseWorkspace => {
            reveal_strlit("close-workspace");
        },
        ActionId::FocusMonitor => {
            reveal_strlit("focus-monitor");
        },
        ActionId::CycleFocusMonitor => {
            reveal_strlit("cycle-focus-monitor");
        },
        _ => {},
    }
}

proof fn lemma_signature_decodes_part_2(id: ActionId)
    requires
        matches!(id, ActionId::FocusMonitorAtCursor | ActionId::FocusWorkspaceOnAllMonitors | ActionId::FocusMonitorWorkspace | ActionId::CloseWindow | ActionId::MinimizeWindow | ActionId::ForceFocus | ActionId::PromoteContainer | ActionId::PromoteContainerSwap | ActionId::PromoteFocus | ActionId::PromoteWindow | ActionId::NewWorkspace | ActionId::ToggleTiling | ActionId::CycleLayout | ActionId::FlipLayout | ActionId::ToggleWorkspaceLayer | ActionId::MoveContainerToLastWorkspace | ActionId::SendContainerToLastWorkspace | ActionId::MoveContainerToWorkspace | ActionId::CycleMoveContainerToWorkspace | ActionId::SendContainerToWorkspace | ActionId::CycleSendContainerToWorkspace | ActionId::MoveContainerToMonitor | ActionId::CycleMoveContainerToMonitor | ActionId::SendContainerToMonitor | ActionId::CycleSendContainerToMonitor),
    ensures
        id_of_signature(id_signature(id.text())) == Some(id),
{
    match id {
        ActionId::FocusMonitorAtCursor => {
            reveal_strlit("focus-monitor-at-cursor");
        },
        ActionId::FocusWorkspaceOnAllMonitors => {
            reveal_strlit("focus-workspace-on-all-monitors");
        },
        ActionId::FocusMonitorWorkspace => {
            reveal_strlit("focus-monitor-workspace");
        },
        ActionId::CloseWindow => {
            reveal_strlit("close-window");
        },
        ActionId::MinimizeWindow => {
            reveal_strlit("minimize-window");
        },
        ActionId::ForceFocus => {
            reveal_strlit("force-focus");
        },
        ActionId::PromoteContainer => {
            reveal_strlit("promote-container");
        },
        ActionId::PromoteContainerSwap => {
            reveal_strlit("promote-container-swap");
        },
        ActionId::PromoteFocus => {
            reveal_strlit("promote-focus");
        },
        ActionId::PromoteWindow => {
            reveal_strlit("promote-window");
        },
        ActionId::NewWorkspace => {
            reveal_strlit("new-workspace");
        },
        ActionId::ToggleTiling => {
            reveal_strlit("toggle-tiling");
        },
        ActionId::CycleLayout => {
            reveal_strlit("cycle-layout");
        },
        ActionId::FlipLayout => {
            reveal_strlit("flip-layout");
        },
        ActionId::ToggleWorkspaceLayer => {
            reveal_strlit("toggle-workspace-layer");
        },
        ActionId::MoveContainerToLastWorkspace => {
            reveal_strlit("move-container-to-last-workspace");
        },
        ActionId::SendContainerToLastWorkspace => {
            reveal_strlit("send-container-to-last-workspace");
        },
        ActionId::MoveContainerToWorkspace => {
            reveal_strlit("move-container-to-workspace");
        },
        ActionId::CycleMoveContainerToWorkspace => {
            reveal_strlit("cycle-move-container-to-workspace");
        },
        ActionId::SendContainerToWorkspace => {
            reveal_strlit("send-container-to-workspace");
        },
        ActionId::CycleSendContainerToWorkspace => {
            reveal_strlit("cycle-send-container-to-workspace");
        },
        ActionId::MoveContainerToMonitor => {
            reveal_strlit("move-container-to-monitor");
        },
        ActionId::CycleMoveContainerToMonitor => {
            reveal_strlit("cycle-move-container-to-monitor");
        },
        ActionId::SendContainerToMonitor => {
            reveal_strlit("send-container-to-monitor");
        },
        ActionId::CycleSendContainerToMonitor => {
            reveal_strlit("cycle-send-container-to-monitor");
        },
        _ => {},
    }
}

proof fn lemma_signature_decodes_part_3(id: ActionId)
    requires
        matches!(id, ActionId::MoveContainerToMonitorWorkspace | ActionId::SendContainerToMonitorWorkspace | ActionId::MoveWorkspaceToMonitor | ActionId::CycleMoveWorkspaceToMonitor | ActionId::SwapWorkspacesToMonitor | ActionId::PreselectDirection | ActionId::CancelPreselect | ActionId::Retile | ActionId::RetileWithResizeDimensions | ActionId::ManageFocusedWindow | ActionId::UnmanageFocusedWindow | ActionId::AdjustContainerPadding | ActionId::AdjustWorkspacePadding | ActionId::ToggleMouseFollowsFocus | ActionId::SetMouseFollowsFocus | ActionId::ToggleWindowContainerBehaviour | ActionId::ToggleFloatOverride | ActionId::ToggleWorkspaceWindowContainerBehaviour | ActionId::ToggleWorkspaceFloatOverride | ActionId::ToggleCrossMonitorMoveBehaviour | ActionId::ToggleMonocleFocusBehaviour | ActionId::TogglePause | ActionId::SetFocusedContainerPadding | ActionId::SetFocusedWorkspacePadding | ActionId::SetContainerPadding),
    ensures
        id_of_signature(id_signature(id.text())) == Some(id),
{
    match id {
        ActionId::MoveContainerToMonitorWorkspace => {
            reveal_strlit("move-container-to-monitor-workspace");
        },
        ActionId::SendContainerToMonitorWorkspace => {
            reveal_strlit("send-container-to-monitor-workspace");
        },
        ActionId::MoveWorkspaceToMonitor => {
            reveal_strlit("move-workspace-to-monitor");
        },
        ActionId::CycleMoveWorkspaceToMonitor => {
            reveal_strlit("cycle-move-workspace-to-monitor");
        },
        ActionId::SwapWorkspacesToMonitor => {
            reveal_strlit("swap-workspaces-to-monitor");
        },
        ActionId::PreselectDirection => {
            reveal_strlit("preselect-direction");
        },
        ActionId::CancelPreselect => {
            reveal_strlit("cancel-preselect");
        },
        ActionId::Retile => {
            reveal_strlit("retile");
        },
        ActionId::RetileWithResizeDimensions => {
            reveal_strlit("retile-with-resize-dimensions");
        },
        ActionId::ManageFocusedWindow => {
            reveal_strlit("manage-focused-window");
        },
        ActionId::UnmanageFocusedWindow => {
            reveal_strlit("unmanage-focused-window");
        },
        ActionId::AdjustContainerPadding => {
            reveal_strlit("adjust-container-padding");
        },
        ActionId::AdjustWorkspacePadding => {
            reveal_strlit("adjust-workspace-padding");
        },
        ActionId::ToggleMouseFollowsFocus => {
            reveal_strlit("toggle-mouse-follows-focus");
        },
        ActionId::SetMouseFollowsFocus => {
            reveal_strlit("set-mouse-follows-focus");
        },
        ActionId::ToggleWindowContainerBehaviour => {
            reveal_strlit("toggle-window-container-behaviour");
        },
        ActionId::ToggleFloatOverride => {
            reveal_strlit("toggle-float-override");
        },
        ActionId::ToggleWorkspaceWindowContainerBehaviour => {
            reveal_strlit("toggle-workspace-window-container-behaviour");
        },
        ActionId::ToggleWorkspaceFloatOverride => {
            reveal_strlit("toggle-workspace-float-override");
        },
        ActionId::ToggleCrossMonitorMoveBehaviour => {
            reveal_strlit("toggle-cross-monitor-move-behaviour");
        },
        ActionId::ToggleMonocleFocusBehaviour => {
            reveal_strlit("toggle-monocle-focus-behaviour");
        },
        ActionId::TogglePause => {
            reveal_strlit("toggle-pause");
        },
        ActionId::SetFocusedContainerPadding => {
            reveal_strlit("set-focused-container-padding");
        },
        ActionId::SetFocusedWorkspacePadding => {
            reveal_strlit("set-focused-workspace-padding");
        },
        ActionId::SetContainerPadding => {
            reveal_strlit("set-container-padding");
        },
        _ => {},
    }
}

proof fn lemma_signature_decodes_part_4(id: ActionId)
    requires
        matches!(id, ActionId::SetWorkspacePadding | ActionId::SetWorkspaceTiling | ActionId::SetMonitorWorkspaceLayout | ActionId::EnsureWorkspaces | ActionId::ClearWorkspaceLayoutRules | ActionId::SetScrollingColumns | ActionId::LockContainer | ActionId::UnlockContainer | ActionId::ToggleTitleBars | ActionId::EnforceWorkspaceRules | ActionId::AddSessionFloatRule | ActionId::ClearSessionFloatRules | ActionId::ResizeWindowEdge | ActionId::ResizeWindowEdgeByStep | ActionId::SetWindowHidingBehaviour | ActionId::SetCrossMonitorMoveBehaviour | ActionId::SetMonocleFocusBehaviour | ActionId::SetUnmanagedWindowOperationBehaviour | ActionId::SetFocusFollowsMouse | ActionId::ToggleFocusFollowsMouse | ActionId::AddWorkspaceLayoutRule | ActionId::FocusNamedWorkspace | ActionId::MoveContainerToNamedWorkspace | ActionId::SendContainerToNamedWorkspace | ActionId::SetNamedWorkspaceContainerPadding),
    ensures
        id_of_signature(id_signature(id.text())) == Some(id),
{
    match id {
        ActionId::SetWorkspacePadding => {
            reveal_strlit("set-workspace-padding");
        },
        ActionId::SetWorkspaceTiling => {
            reveal_strlit("set-workspace-tiling");
        },
        ActionId::SetMonitorWorkspaceLayout => {
            reveal_strlit("set-monitor-workspace-layout");
        },
        ActionId::EnsureWorkspaces => {
            reveal_strlit("ensure-workspaces");
        },
        ActionId::ClearWorkspaceLayoutRules => {
            reveal_strlit("clear-workspace-layout-rules");
        },
        ActionId::SetScrollingColumns => {
            reveal_strlit("set-scrolling-columns");
        },
        ActionId::LockContainer => {
            reveal_strlit("lock-container");
        },
        ActionId::UnlockContainer => {
            reveal_strlit("unlock-container");
        },
        ActionId::ToggleTitleBars => {
            reveal_strlit("toggle-title-bars");
        },
        ActionId::EnforceWorkspaceRules => {
            reveal_strlit("enforce-workspace-rules");
        },
        ActionId::AddSessionFloatRule => {
            reveal_strlit("add-session-float-rule");
        },
        ActionId::ClearSessionFloatRules => {
            reveal_strlit("clear-session-float-rules");
        },
        ActionId::ResizeWindowEdge => {
            reveal_strlit("resize-window-edge");
        },
        ActionId::ResizeWindowEdgeByStep => {
            reveal_strlit("resize-window-edge-by-step");
        },
        ActionId::SetWindowHidingBehaviour => {
            reveal_strlit("set-window-hiding-behaviour");
        },
        ActionId::SetCrossMonitorMoveBehaviour => {
            reveal_strlit("set-cross-monitor-move-behaviour");
        },
        ActionId::SetMonocleFocusBehaviour => {
            reveal_strlit("set-monocle-focus-behaviour");
        },
        ActionId::SetUnmanagedWindowOperationBehaviour => {
            reveal_strlit("set-unmanaged-window-operation-behaviour");
        },
        ActionId::SetFocusFollowsMouse => {
            reveal_strlit("set-focus-follows-mouse");
        },
        ActionId::ToggleFocusFollowsMouse => {
            reveal_strlit("toggle-focus-follows-mouse");
        },
        ActionId::AddWorkspaceLayoutRule => {
            reveal_strlit("add-workspace-layout-rule");
        },
        ActionId::FocusNamedWorkspace => {
            reveal_strlit("focus-named-workspace");
        },
        ActionId::MoveContainerToNamedWorkspace => {
            reveal_strlit("move-container-to-named-workspace");
        },
        ActionId::SendContainerToNamedWorkspace => {
            reveal_strlit("send-container-to-named-workspace");
        },
        ActionId::SetNamedWorkspaceContainerPadding => {
            reveal_strlit("set-named-workspace-container-padding");
        },
        _ => {},
    }
}

proof fn lemma_signature_decodes_part_5(id: ActionId)
    requires
        matches!(id, ActionId::SetNamedWorkspacePadding | ActionId::SetNamedWorkspaceTiling | ActionId::SetNamedWorkspaceLayout | ActionId::SetNamedWorkspaceCustomLayout | ActionId::AddNamedWorkspaceLayoutRule | ActionId::AddNamedWorkspaceCustomLayoutRule | ActionId::ClearNamedWorkspaceLayoutRules | ActionId::EnsureNamedWorkspaces | ActionId::SetWorkspaceName | ActionId::SetLayoutRatios | ActionId::SetCustomLayout | ActionId::SetWorkspaceCustomLayout | ActionId::AddWorkspaceCustomLayoutRule | ActionId::EagerFocus | ActionId::RemoveTitleBar | ActionId::SetResizeStep | ActionId::SetTransparencyEnabled | ActionId::ToggleTransparency | ActionId::SetTransparencyAlpha | ActionId::SetBorderEnabled | ActionId::SetBorderColour | ActionId::SetBorderWidth | ActionId::SetBorderOffset | ActionId::SetBorderStyle | ActionId::SetBorderImplementation),
    ensures
        id_of_signature(id_signature(id.text())) == Some(id),
{
    match id {
        ActionId::SetNamedWorkspacePadding => {
            reveal_strlit("set-named-workspace-padding");
        },
        ActionId::SetNamedWorkspaceTiling => {
            reveal_strlit("set-named-workspace-tiling");
        },
        ActionId::SetNamedWorkspaceLayout => {
            reveal_strlit("set-named-workspace-layout");
        },
        ActionId::SetNamedWorkspaceCustomLayout => {
            reveal_strlit("set-named-workspace-custom-layout");
        },
        ActionId::AddNamedWorkspaceLayoutRule => {
            reveal_strlit("add-named-workspace-layout-rule");
        },
        ActionId::AddNamedWorkspaceCustomLayoutRule => {
            reveal_strlit("add-named-workspace-custom-layout-rule");
        },
        ActionId::ClearNamedWorkspaceLayoutRules => {
            reveal_strlit("clear-named-workspace-layout-rules");
        },
        ActionId::EnsureNamedWorkspaces => {
            reveal_strlit("ensure-named-workspaces");
        },
        ActionId::SetWorkspaceName => {
            reveal_strlit("set-workspace-name");
        },
        ActionId::SetLayoutRatios => {
            reveal_strlit("set-layout-ratios");
        },
        ActionId::SetCustomLayout => {
            reveal_strlit("set-custom-layout");
        },
        ActionId::SetWorkspaceCustomLayout => {
            reveal_strlit("set-workspace-custom-layout");
        },
        ActionId::AddWorkspaceCustomLayoutRule => {
            reveal_strlit("add-workspace-custom-layout-rule");
        },
        ActionId::EagerFocus => {
            reveal_strlit("eager-focus");
        },
        ActionId::RemoveTitleBar => {
            reveal_strlit("remove-title-bar");
        },
        ActionId::SetResizeStep => {
            reveal_strlit("set-resize-step");
        },
        ActionId::SetTransparencyEnabled => {
            reveal_strlit("set-transparency-enabled");
        },
        ActionId::ToggleTransparency => {
            reveal_strlit("toggle-transparency");
        },
        ActionId::SetTransparencyAlpha => {
            reveal_strlit("set-transparency-alpha");
        },
        ActionId::SetBorderEnabled => {
            reveal_strlit("set-border-enabled");
        },
        ActionId::SetBorderColour => {
            reveal_strlit("set-border-colour");
        },
        ActionId::SetBorderWidth => {
            reveal_strlit("set-border-width");
        },
        ActionId::SetBorderOffset => {
            reveal_strlit("set-border-offset");
        },
        ActionId::SetBorderStyle => {
            reveal_strlit("set-border-style");
        },
        ActionId::SetBorderImplementation => {
            reveal_strlit("set-border-implementation");
        },
        _ => {},
    }
}

proof fn lemma_signature_decodes(id: ActionId)
    ensures
        id_of_signature(id_signature(id.text())) == Some(id),
{
    match id {
        ActionId::FocusWindow | ActionId::MoveWindow | ActionId::ResizeWindow | ActionId::ResizeWindowByStep | ActionId::SetWorkspaceLayout | ActionId::ToggleWindowFloat | ActionId::CycleFocusWindow | ActionId::CycleMoveWindow | ActionId::ToggleWindowMonocle | ActionId::ToggleWindowMaximize | ActionId::ToggleContainerLock | ActionId::StackWindow | ActionId::UnstackWindow | ActionId::StackAll | ActionId::UnstackAll | ActionId::CycleStack | ActionId::CycleStackIndex | ActionId::FocusStackWindow | ActionId::FocusWorkspace | ActionId::CycleFocusWorkspace | ActionId::CycleFocusEmptyWorkspace | ActionId::FocusLastWorkspace | ActionId::CloseWorkspace | ActionId::FocusMonitor | ActionId::CycleFocusMonitor => lemma_signature_decodes_part_1(id),
        ActionId::FocusMonitorAtCursor | ActionId::FocusWorkspaceOnAllMonitors | ActionId::FocusMonitorWorkspace | ActionId::CloseWindow | ActionId::MinimizeWindow | ActionId::ForceFocus | ActionId::PromoteContainer | ActionId::PromoteContainerSwap | ActionId::PromoteFocus | ActionId::PromoteWindow | ActionId::NewWorkspace | ActionId::ToggleTiling | ActionId::CycleLayout | ActionId::FlipLayout | ActionId::ToggleWorkspaceLayer | ActionId::MoveContainerToLastWorkspace | ActionId::SendContainerToLastWorkspace | ActionId::MoveContainerToWorkspace | ActionId::CycleMoveContainerToWorkspace | ActionId::SendContainerToWorkspace | ActionId::CycleSendContainerToWorkspace | ActionId::MoveContainerToMonitor | ActionId::CycleMoveContainerToMonitor | ActionId::SendContainerToMonitor | ActionId::CycleSendContainerToMonitor => lemma_signature_decodes_part_2(id),
        ActionId::MoveContainerToMonitorWorkspace | ActionId::SendContainerToMonitorWorkspace | ActionId::MoveWorkspaceToMonitor | ActionId::CycleMoveWorkspaceToMonitor | ActionId::SwapWorkspacesToMonitor | ActionId::PreselectDirection | ActionId::CancelPreselect | ActionId::Retile | ActionId::RetileWithResizeDimensions | ActionId::ManageFocusedWindow | ActionId::UnmanageFocusedWindow | ActionId::AdjustContainerPadding | ActionId::AdjustWorkspacePadding | ActionId::ToggleMouseFollowsFocus | ActionId::SetMouseFollowsFocus | ActionId::ToggleWindowContainerBehaviour | ActionId::ToggleFloatOverride | ActionId::ToggleWorkspaceWindowContainerBehaviour | ActionId::ToggleWorkspaceFloatOverride | ActionId::ToggleCrossMonitorMoveBehaviour | ActionId::ToggleMonocleFocusBehaviour | ActionId::TogglePause | ActionId::SetFocusedContainerPadding | ActionId::SetFocusedWorkspacePadding | ActionId::SetContainerPadding => lemma_signature_decodes_part_3(id),
        ActionId::SetWorkspacePadding | ActionId::SetWorkspaceTiling | ActionId::SetMonitorWorkspaceLayout | ActionId::EnsureWorkspaces | ActionId::ClearWorkspaceLayoutRules | ActionId::SetScrollingColumns | ActionId::LockContainer | ActionId::UnlockContainer | ActionId::ToggleTitleBars | ActionId::EnforceWorkspaceRules | ActionId::AddSessionFloatRule | ActionId::ClearSessionFloatRules | ActionId::ResizeWindowEdge | ActionId::ResizeWindowEdgeByStep | ActionId::SetWindowHidingBehaviour | ActionId::SetCrossMonitorMoveBehaviour | ActionId::SetMonocleFocusBehaviour | ActionId::SetUnmanagedWindowOperationBehaviour | ActionId::SetFocusFollowsMouse | ActionId::ToggleFocusFollowsMouse | ActionId::AddWorkspaceLayoutRule | ActionId::FocusNamedWorkspace | ActionId::MoveContainerToNamedWorkspace | ActionId::SendContainerToNamedWorkspace | ActionId::SetNamedWorkspaceContainerPadding => lemma_signature_decodes_part_4(id),
        ActionId::SetNamedWorkspacePadding | ActionId::SetNamedWorkspaceTiling | ActionId::SetNamedWorkspaceLayout | ActionId::SetNamedWorkspaceCustomLayout | ActionId::AddNamedWorkspaceLayoutRule | ActionId::AddNamedWorkspaceCustomLayoutRule | ActionId::ClearNamedWorkspaceLayoutRules | ActionId::EnsureNamedWorkspaces | ActionId::SetWorkspaceName | ActionId::SetLayoutRatios | ActionId::SetCustomLayout | ActionId::SetWorkspaceCustomLayout | ActionId::AddWorkspaceCustomLayoutRule | ActionId::EagerFocus | ActionId::RemoveTitleBar | ActionId::SetResizeStep | ActionId::SetTransparencyEnabled | ActionId::ToggleTransparency | ActionId::SetTransparencyAlpha | ActionId::SetBorderEnabled | ActionId::SetBorderColour | ActionId::SetBorderWidth | ActionId::SetBorderOffset | ActionId::SetBorderStyle | ActionId::SetBorderImplementation => lemma_signature_decodes_part_5(id),
    }
}

/// No two actions share an identifier text.
pub proof fn lemma_action_id_texts_distinct(a: ActionId, b: ActionId)
    ensures
        a.text() == b.text() ==> a == b,
{
    lemma_signature_decodes(a);
    lemma_signature_decodes(b);
}

/// The stable wire identifier of an action parameter.
#[derive(Clone, Copy, Debug, PartialEq, Eq, Hash, Structural)]
pub enum ParameterId {
    Direction,
    Axis,
    Delta,
    Workspace,
    Layout,
    Window,
    Cycle,
    Index,
    Monitor,
    Sizing,
    Adjustment,
    Enabled,
    Size,
    Count,
    Container,
    Columns,
    Name,
    Path,
    Behaviour,
    Implementation,
    Exe,
    Identifier,
    Names,
    ColumnRatios,
    RowRatios,
    AtCount,
    ResizeStep,
    Alpha,
    WindowKind,
    Red,
    Green,
    Blue,
    Width,
    Offset,
    Style,
}

impl ParameterId {
    pub const DIRECTION: ParameterId = ParameterId::Direction;
    pub const AXIS: ParameterId = ParameterId::Axis;
    pub const DELTA: ParameterId = ParameterId::Delta;
    pub const WORKSPACE: ParameterId = ParameterId::Workspace;
    pub const LAYOUT: ParameterId = ParameterId::Layout;
    pub const WINDOW: ParameterId = ParameterId::Window;
    pub const CYCLE: ParameterId = ParameterId::Cycle;
    pub const INDEX: ParameterId = ParameterId::Index;
    pub const MONITOR: ParameterId = ParameterId::Monitor;
    pub const SIZING: ParameterId = ParameterId::Sizing;
    pub const ADJUSTMENT: ParameterId = ParameterId::Adjustment;
    pub const ENABLED: ParameterId = ParameterId::Enabled;
    pub const SIZE: ParameterId = ParameterId::Size;
    pub const COUNT: ParameterId = ParameterId::Count;
    pub const CONTAINER: ParameterId = ParameterId::Container;
    pub const COLUMNS: ParameterId = ParameterId::Columns;
    pub const NAME: ParameterId = ParameterId::Name;
    pub const PATH: ParameterId = ParameterId::Path;
    pub const BEHAVIOUR: ParameterId = ParameterId::Behaviour;
    pub const IMPLEMENTATION: ParameterId = ParameterId::Implementation;
    pub const EXE: ParameterId = ParameterId::Exe;
    pub const IDENTIFIER: ParameterId = ParameterId::Identifier;
    pub const NAMES: ParameterId = ParameterId::Names;
    pub const COLUMN_RATIOS: ParameterId = ParameterId::ColumnRatios;
    pub const ROW_RATIOS: ParameterId = ParameterId::RowRatios;
    pub const AT_COUNT: ParameterId = ParameterId::AtCount;
    pub const RESIZE_STEP: ParameterId = ParameterId::ResizeStep;
    pub const ALPHA: ParameterId = ParameterId::Alpha;
    pub const WINDOW_KIND: ParameterId = ParameterId::WindowKind;
    pub const RED: ParameterId = ParameterId::Red;
    pub const GREEN: ParameterId = ParameterId::Green;
    pub const BLUE: ParameterId = ParameterId::Blue;
    pub const WIDTH: ParameterId = ParameterId::Width;
    pub const OFFSET: ParameterId = ParameterId::Offset;
    pub const STYLE: ParameterId = ParameterId::Style;

    pub open spec fn text(self) -> Seq<char> {
        match self {
            ParameterId::Direction => "direction"@,
            ParameterId::Axis => "axis"@,
            ParameterId::Delta => "delta"@,
            ParameterId::Workspace => "workspace"@,
            ParameterId::Layout => "layout"@,
            ParameterId::Window => "window"@,
            ParameterId::Cycle => "cycle"@,
            ParameterId::Index => "index"@,
            ParameterId::Monitor => "monitor"@,
            ParameterId::Sizing => "sizing"@,
            ParameterId::Adjustment => "adjustment"@,
            ParameterId::Enabled => "enabled"@,
            ParameterId::Size => "size"@,
            ParameterId::Count => "count"@,
            ParameterId::Container => "container"@,
            ParameterId::Columns => "columns"@,
            ParameterId::Name => "name"@,
            ParameterId::Path => "path"@,
            ParameterId::Behaviour => "behaviour"@,
            ParameterId::Implementation => "implementation"@,
            ParameterId::Exe => "exe"@,
            ParameterId::Identifier => "identifier"@,
            ParameterId::Names => "names"@,
            ParameterId::ColumnRatios => "column-ratios"@,
            ParameterId::RowRatios => "row-ratios"@,
            ParameterId::AtCount => "at-count"@,
            ParameterId::ResizeStep => "resize-step"@,
            ParameterId::Alpha => "alpha"@,
            ParameterId::WindowKind => "window-kind"@,
            ParameterId::Red => "red"@,
            ParameterId::Green => "green"@,
            ParameterId::Blue => "blue"@,
            ParameterId::Width => "width"@,
            ParameterId::Offset => "offset"@,
            ParameterId::Style => "style"@,
        }
    }

    pub fn as_str(self) -> (r: &'static str)
        ensures
            r@ == self.text(),
    {
        match self {
            ParameterId::Direction => "direction",
            ParameterId::Axis => "axis",
            ParameterId::Delta => "delta",
            ParameterId::Workspace => "workspace",
            ParameterId::Layout => "layout",
            ParameterId::Window => "window",
            ParameterId::Cycle => "cycle",
            ParameterId::Index => "index",
            ParameterId::Monitor => "monitor",
            ParameterId::Sizing => "sizing",
            ParameterId::Adjustment => "adjustment",
            ParameterId::Enabled => "enabled",
            ParameterId::Size => "size",
            ParameterId::Count => "count",
            ParameterId::Container => "container",
            ParameterId::Columns => "columns",
            ParameterId::Name => "name",
            ParameterId::Path => "path",
            ParameterId::Behaviour => "behaviour",
            ParameterId::Implementation => "implementation",
            ParameterId::Exe => "exe",
            ParameterId::Identifier => "identifier",
            ParameterId::Names => "names",
            ParameterId::ColumnRatios => "column-ratios",
            ParameterId::RowRatios => "row-ratios",
            ParameterId::AtCount => "at-count",
            ParameterId::ResizeStep => "resize-step",
            ParameterId::Alpha => "alpha",
            ParameterId::WindowKind => "window-kind",
            ParameterId::Red => "red",
            ParameterId::Green => "green",
            ParameterId::Blue => "blue",
            ParameterId::Width => "width",
            ParameterId::Offset => "offset",
            ParameterId::Style => "style",
        }
    }

    pub open spec fn all_spec() -> Seq<ParameterId> {
        seq![
            ParameterId::Direction,
            ParameterId::Axis,
            ParameterId::Delta,
            ParameterId::Workspace,
            ParameterId::Layout,
            ParameterId::Window,
            ParameterId::Cycle,
            ParameterId::Index,
            ParameterId::Monitor,
            ParameterId::Sizing,
            ParameterId::Adjustment,
            ParameterId::Enabled,
            ParameterId::Size,
            ParameterId::Count,
            ParameterId::Container,
            ParameterId::Columns,
            ParameterId::Name,
            ParameterId::Path,
            ParameterId::Behaviour,
            ParameterId::Implementation,
            ParameterId::Exe,
            ParameterId::Identifier,
            ParameterId::Names,
            ParameterId::ColumnRatios,
            ParameterId::RowRatios,
            ParameterId::AtCount,
            ParameterId::ResizeStep,
            ParameterId::Alpha,
            ParameterId::WindowKind,
            ParameterId::Red,
            ParameterId::Green,
            ParameterId::Blue,
            ParameterId::Width,
            ParameterId::Offset,
            ParameterId::Style,
        ]
    }

    /// Every parameter identifier, once each.
    pub fn all() -> (v: Vec<ParameterId>)
        ensures
            v@ == Self::all_spec(),
    {
        vec![
            ParameterId::Direction,
            ParameterId::Axis,
            ParameterId::Delta,
            ParameterId::Workspace,
            ParameterId::Layout,
            ParameterId::Window,
            ParameterId::Cycle,
            ParameterId::Index,
            ParameterId::Monitor,
            ParameterId::Sizing,
            ParameterId::Adjustment,
            ParameterId::Enabled,
            ParameterId::Size,
            ParameterId::Count,
            ParameterId::Container,
            ParameterId::Columns,
            ParameterId::Name,
            ParameterId::Path,
            ParameterId::Behaviour,
            ParameterId::Implementation,
            ParameterId::Exe,
            ParameterId::Identifier,
            ParameterId::Names,
            ParameterId::ColumnRatios,
            ParameterId::RowRatios,
            ParameterId::AtCount,
            ParameterId::ResizeStep,
            ParameterId::Alpha,
            ParameterId::WindowKind,
            ParameterId::Red,
            ParameterId::Green,
            ParameterId::Blue,
            ParameterId::Width,
            ParameterId::Offset,
            ParameterId::Style,
        ]
    }
}

/// The version of an action's schema; every built-in action is at version one.

/// The first character position that tells apart the parameter texts of one length.
spec fn parameter_first_probe(len: nat) -> int {
    if len == 5 {
        1
    } else {
        0
    }
}

/// The second character position that tells apart the parameter texts of one length.
spec fn parameter_second_probe(len: nat) -> int {
    0
}

/// A parameter text's length and the characters at its two probe positions.
spec fn parameter_signature(text: Seq<char>) -> (nat, char, char) {
    (
        text.len(),
        text[parameter_first_probe(text.len())],
        text[parameter_second_probe(text.len())],
    )
}

/// The parameter whose text has this signature.
spec fn parameter_of_signature(signature: (nat, char, char)) -> Option<ParameterId> {
    if signature == (9nat, 'd', 'd') {
        Some(ParameterId::Direction)
    } else if signature == (4nat, 'a', 'a') {
        Some(ParameterId::Axis)
    } else if signature == (5nat, 'e', 'd') {
        Some(ParameterId::Delta)
    } else if signature == (9nat, 'w', 'w') {
        Some(ParameterId::Workspace)
    } else if signature == (6nat, 'l', 'l') {
        Some(ParameterId::Layout)
    } else if signature == (6nat, 'w', 'w') {
        Some(ParameterId::Window)
    } else if signature == (5nat, 'y', 'c') {
        Some(ParameterId::Cycle)
    } else if signature == (5nat, 'n', 'i') {
        Some(ParameterId::Index)
    } else if signature == (7nat, 'm', 'm') {
        Some(ParameterId::Monitor)
    } else if signature == (6nat, 's', 's') {
        Some(ParameterId::Sizing)
    } else if signature == (10nat, 'a', 'a') {
        Some(ParameterId::Adjustment)
    } else if signature == (7nat, 'e', 'e') {
        Some(ParameterId::Enabled)
    } else if signature == (4nat, 's', 's') {
        Some(ParameterId::Size)
    } else if signature == (5nat, 'o', 'c') {
        Some(ParameterId::Count)
    } else if signature == (9nat, 'c', 'c') {
        Some(ParameterId::Container)
    } else if signature == (7nat, 'c', 'c') {
        Some(ParameterId::Columns)
    } else if signature == (4nat, 'n', 'n') {
        Some(ParameterId::Name)
    } else if signature == (4nat, 'p', 'p') {
        Some(ParameterId::Path)
    } else if signature == (9nat, 'b', 'b') {
        Some(ParameterId::Behaviour)
    } else if signature == (14nat, 'i', 'i') {
        Some(ParameterId::Implementation)
    } else if signature == (3nat, 'e', 'e') {
        Some(ParameterId::Exe)
    } else if signature == (10nat, 'i', 'i') {
        Some(ParameterId::Identifier)
    } else if signature == (5nat, 'a', 'n') {
        Some(ParameterId::Names)
    } else if signature == (13nat, 'c', 'c') {
        Some(ParameterId::ColumnRatios)
    } else if signature == (10nat, 'r', 'r') {
        Some(ParameterId::RowRatios)
    } else if signature == (8nat, 'a', 'a') {
        Some(ParameterId::AtCount)
    } else if signature == (11nat, 'r', 'r') {
        Some(ParameterId::ResizeStep)
    } else if signature == (5nat, 'l', 'a') {
        Some(ParameterId::Alpha)
    } else if signature == (11nat, 'w', 'w') {
        Some(ParameterId::WindowKind)
    } else if signature == (3nat, 'r', 'r') {
        Some(ParameterId::Red)
    } else if signature == (5nat, 'r', 'g') {
        Some(ParameterId::Green)
    } else if signature == (4nat, 'b', 'b') {
        Some(ParameterId::Blue)
    } else if signature == (5nat, 'i', 'w') {
        Some(ParameterId::Width)
    } else if signature == (6nat, 'o', 'o') {
        Some(ParameterId::Offset)
    } else if signature == (5nat, 't', 's') {
        Some(ParameterId::Style)
    } else {
        None
    }
}

proof fn lemma_parameter_signature_decodes(id: ParameterId)
    ensures
        parameter_of_signature(parameter_signature(id.text())) == Some(id),
{
    match id {
        ParameterId::Direction => {
            reveal_strlit("direction");
        },
        ParameterId::Axis => {
            reveal_strlit("axis");
        },
        ParameterId::Delta => {
            reveal_strlit("delta");
        },
        ParameterId::Workspace => {
            reveal_strlit("workspace");
        },
        ParameterId::Layout => {
            reveal_strlit("layout");
        },
        ParameterId::Window => {
            reveal_strlit("window");
        },
        ParameterId::Cycle => {
            reveal_strlit("cycle");
        },
        ParameterId::Index => {
            reveal_strlit("index");
        },
        ParameterId::Monitor => {
            reveal_strlit("monitor");
        },
        ParameterId::Sizing => {
            reveal_strlit("sizing");
        },
        ParameterId::Adjustment => {
            reveal_strlit("adjustment");
        },
        ParameterId::Enabled => {
            reveal_strlit("enabled");
        },
        ParameterId::Size => {
            reveal_strlit("size");
        },
        ParameterId::Count => {
            reveal_strlit("count");
        },
        ParameterId::Container => {
            reveal_strlit("container");
        },
        ParameterId::Columns => {
            reveal_strlit("columns");
        },
        ParameterId::Name => {
            reveal_strlit("name");
        },
        ParameterId::Path => {
            reveal_strlit("path");
        },
        ParameterId::Behaviour => {
            reveal_strlit("behaviour");
        },
        ParameterId::Implementation => {
            reveal_strlit("implementation");
        },
        ParameterId::Exe => {
            reveal_strlit("exe");
        },
        ParameterId::Identifier => {
            reveal_strlit("identifier");
        },
        ParameterId::Names => {
            reveal_strlit("names");
        },
        ParameterId::ColumnRatios => {
            reveal_strlit("column-ratios");
        },
        ParameterId::RowRatios => {
            reveal_strlit("row-ratios");
        },
        ParameterId::AtCount => {
            reveal_strlit("at-count");
        },
        ParameterId::ResizeStep => {
            reveal_strlit("resize-step");
        },
        ParameterId::Alpha => {
            reveal_strlit("alpha");
        },
        ParameterId::WindowKind => {
            reveal_strlit("window-kind");
        },
        ParameterId::Red => {
            reveal_strlit("red");
        },
        ParameterId::Green => {
            reveal_strlit("green");
        },
        ParameterId::Blue => {
            reveal_strlit("blue");
        },
        ParameterId::Width => {
            reveal_strlit("width");
        },
        ParameterId::Offset => {
            reveal_strlit("offset");
        },
        ParameterId::Style => {
            reveal_strlit("style");
        },
    }
}

/// No two parameters share a wire name.
pub proof fn lemma_parameter_texts_distinct(a: ParameterId, b: ParameterId)
    ensures
        a.text() == b.text() ==> a == b,
{
    lemma_parameter_signature_decodes(a);
    lemma_parameter_signature_decodes(b);
}

#[derive(Clone, Copy, Debug, PartialEq, Eq, Hash, PartialOrd, Ord, Structural)]
pub struct ActionSchemaVersion {
    pub value: u16,
}

pub const SCHEMA_VERSION_ONE: u16 = 1;

impl ActionSchemaVersion {
    pub fn v1() -> (v: Self)
        ensures
            v.value == SCHEMA_VERSION_ONE,
    {
        ActionSchemaVersion { value: SCHEMA_VERSION_ONE }
    }

    pub fn get(self) -> (r: u16)
        ensures
            r == self.value,
    {
        self.value
    }
}

#[derive(Clone, Copy, Debug, PartialEq, Eq, Hash, Structural)]
pub struct WindowId {
    pub value: u64,
}

impl WindowId {
    pub fn new(value: u64) -> (id: Self)
        ensures
            id.value == value,
    {
        WindowId { value }
    }
}

/// Compares two sixteen-byte arrays.
pub fn bytes16_eq(a: &[u8; 16], b: &[u8; 16]) -> (r: bool)
    ensures
        r == (*a == *b),
{
    let mut i: usize = 0;
    while i < 16
        invariant
            0 <= i <= 16,
            forall|j: int| 0 <= j < i ==> a[j] == b[j],
        decreases 16 - i,
    {
        if a[i] != b[i] {
            return false;
        }
        i = i + 1;
    }
    proof {
        broadcast use vstd::array::group_array_axioms;

        assert(*a =~= *b);
    }
    true
}

/// A secret challenge that confirms one exact action.
#[derive(Clone, Copy, PartialEq, Eq, Hash)]
pub struct ConfirmationToken {
    pub bytes: [u8; 16],
}

/// The UUID version nibble and RFC 4122 variant bits of a random UUID.
pub open spec fn is_random_uuid(bytes: [u8; 16]) -> bool {
    bytes[6] & 0xf0 == 0x40 && bytes[8] & 0xc0 == 0x80
}

/// `uuid::Uuid::new_v4`, as its bytes: a fresh random UUID of version 4 and the
/// RFC 4122 variant. Which of the remaining bits come out is left unsaid; they
/// come from the operating system's random source.
#[verifier::external_body]
fn random_uuid_bytes() -> (bytes: [u8; 16])
    ensures
        is_random_uuid(bytes),
{
    *uuid::Uuid::new_v4().as_bytes()
}

impl ConfirmationToken {
    /// A fresh random token.
    pub fn issue() -> (token: Self)
        ensures
            is_random_uuid(token.bytes),
    {
        ConfirmationToken { bytes: random_uuid_bytes() }
    }

    pub fn from_bytes(bytes: [u8; 16]) -> (token: Self)
        ensures
            token.bytes == bytes,
    {
        ConfirmationToken { bytes }
    }

    pub fn as_bytes(&self) -> (r: &[u8; 16])
        ensures
            *r == self.bytes,
    {
        &self.bytes
    }

    /// The debug rendering, which never shows the secret.
    pub fn debug_text(&self) -> (r: &'static str)
        ensures
            r@ == "ConfirmationToken([redacted])"@,
    {
        "ConfirmationToken([redacted])"
    }
}

/// Identifies one issued undo record.
#[derive(Clone, Copy, Debug, PartialEq, Eq, Hash)]
pub struct UndoToken {
    pub bytes: [u8; 16],
}

impl UndoToken {
    /// A fresh random token.
    pub fn new() -> (token: Self)
        ensures
            is_random_uuid(token.bytes),
    {
        UndoToken { bytes: random_uuid_bytes() }
    }

    pub fn from_bytes(bytes: [u8; 16]) -> (token: Self)
        ensures
            token.bytes == bytes,
    {
        UndoToken { bytes }
    }
}

} // verus!
