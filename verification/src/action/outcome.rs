//! What an admitted action yields: its logical result, and the native
//! effects the manager carries out for it.

use vstd::prelude::*;
use crate::action::builtin_action::LayoutRatio;
use crate::action::builtin_action::Pixels;
use crate::action::builtin_action::WorkspaceName;
use crate::action::builtin_action::duplicate_names;
use crate::action::builtin_action::duplicate_ratio_lists;
use crate::action::builtin_action::same_ratios;
use crate::action::index::ContainerIndex;
use crate::action::index::MonitorIndex;
use crate::action::index::StackIndex;
use crate::action::index::WorkspaceIndex;
use crate::action::path::WindowsPath;
use crate::border_geometry::BorderOffset;
use crate::border_geometry::BorderWidth;
use crate::manager_types::ApplicationIdentifier;
use crate::manager_types::Axis;
use crate::manager_types::BorderImplementation;
use crate::manager_types::BorderStyle;
use crate::manager_types::CycleDirection;
use crate::manager_types::DefaultLayout;
use crate::manager_types::FocusFollowsMouseImplementation;
use crate::manager_types::HidingBehaviour;
use crate::manager_types::MonocleFocusBehaviour;
use crate::manager_types::MoveBehaviour;
use crate::manager_types::OperationBehaviour;
use crate::manager_types::OperationDirection;
use crate::manager_types::Rgb;
use crate::manager_types::Sizing;
use crate::manager_types::WindowKind;
use crate::resize_step::ResizeStep;
use crate::transparency_alpha::TransparencyAlpha;

verus! {

/// The logical outcome of an admitted action.
#[derive(Clone, Copy, Debug, PartialEq, Eq, Structural)]
pub enum ActionResult {
    Focused {
        direction: OperationDirection,
    },
    Moved {
        direction: OperationDirection,
    },
    Resized {
        axis: Axis,
        delta: Pixels,
    },
    ResizeStepSet {
        step: ResizeStep,
    },
    TransparencyEnabledSet {
        enabled: bool,
    },
    TransparencyToggled {
        enabled: bool,
    },
    TransparencyAlphaSet {
        alpha: TransparencyAlpha,
    },
    BorderEnabledSet {
        enabled: bool,
    },
    BorderColourSet {
        window_kind: WindowKind,
        colour: Rgb,
    },
    BorderWidthSet {
        width: BorderWidth,
    },
    BorderOffsetSet {
        offset: BorderOffset,
    },
    BorderStyleSet {
        style: BorderStyle,
    },
    BorderImplementationSet {
        implementation: BorderImplementation,
    },
    LayoutSet {
        layout: DefaultLayout,
    },
    FloatToggled {
        floating: bool,
    },
    CycleFocused {
        direction: CycleDirection,
    },
    CycleMoved {
        direction: CycleDirection,
    },
    MonocleToggled,
    MaximizeToggled,
    LockToggled,
    Stacked {
        direction: OperationDirection,
    },
    Unstacked,
    StackedAll,
    UnstackedAll,
    StackCycled {
        direction: CycleDirection,
    },
    StackIndexCycled {
        direction: CycleDirection,
    },
    StackWindowFocused {
        index: StackIndex,
    },
    WorkspaceFocused {
        index: WorkspaceIndex,
    },
    WorkspaceCycled {
        direction: CycleDirection,
    },
    EmptyWorkspaceCycled {
        direction: CycleDirection,
    },
    LastWorkspaceFocused,
    WorkspaceClosed,
    MonitorFocused {
        index: MonitorIndex,
    },
    MonitorCycled {
        direction: CycleDirection,
    },
    MonitorAtCursorFocused,
    WorkspaceFocusedOnAllMonitors {
        index: WorkspaceIndex,
    },
    MonitorWorkspaceFocused {
        monitor: MonitorIndex,
        workspace: WorkspaceIndex,
    },
    WindowClosed,
    WindowMinimized,
    FocusForced,
    ContainerPromoted,
    ContainerPromoteSwapped,
    FocusPromoted,
    WindowPromoted {
        direction: OperationDirection,
    },
    WorkspaceCreated,
    TilingToggled,
    LayoutCycled {
        direction: CycleDirection,
    },
    LayoutFlipped {
        axis: Axis,
    },
    WorkspaceLayerToggled,
    ContainerMovedToLastWorkspace,
    ContainerSentToLastWorkspace,
    ContainerMovedToWorkspace {
        index: WorkspaceIndex,
    },
    ContainerCycledToWorkspace {
        direction: CycleDirection,
    },
    ContainerSentToWorkspace {
        index: WorkspaceIndex,
    },
    ContainerCycleSentToWorkspace {
        direction: CycleDirection,
    },
    ContainerMovedToMonitor {
        index: MonitorIndex,
    },
    ContainerCycledToMonitor {
        direction: CycleDirection,
    },
    ContainerSentToMonitor {
        index: MonitorIndex,
    },
    ContainerCycleSentToMonitor {
        direction: CycleDirection,
    },
    ContainerMovedToMonitorWorkspace {
        monitor: MonitorIndex,
        workspace: WorkspaceIndex,
    },
    ContainerSentToMonitorWorkspace {
        monitor: MonitorIndex,
        workspace: WorkspaceIndex,
    },
    WorkspaceMovedToMonitor {
        index: MonitorIndex,
    },
    WorkspaceCycledToMonitor {
        direction: CycleDirection,
    },
    WorkspacesSwappedToMonitor {
        index: MonitorIndex,
    },
    DirectionPreselected {
        direction: OperationDirection,
    },
    PreselectCancelled,
    Retiled,
    RetiledWithResizeDimensions,
    FocusedWindowManaged,
    FocusedWindowUnmanaged,
    ContainerPaddingAdjusted {
        sizing: Sizing,
        adjustment: i32,
    },
    WorkspacePaddingAdjusted {
        sizing: Sizing,
        adjustment: i32,
    },
    MouseFollowsFocusToggled,
    MouseFollowsFocusSet {
        enabled: bool,
    },
    WindowContainerBehaviourToggled,
    FloatOverrideToggled,
    WorkspaceWindowContainerBehaviourToggled,
    WorkspaceFloatOverrideToggled,
    CrossMonitorMoveBehaviourToggled,
    MonocleFocusBehaviourToggled,
    PauseToggled {
        paused: bool,
    },
    FocusedContainerPaddingSet {
        size: i32,
    },
    FocusedWorkspacePaddingSet {
        size: i32,
    },
    ContainerPaddingSet {
        monitor: MonitorIndex,
        workspace: WorkspaceIndex,
        size: i32,
    },
    WorkspacePaddingSet {
        monitor: MonitorIndex,
        workspace: WorkspaceIndex,
        size: i32,
    },
    WorkspaceTilingSet {
        monitor: MonitorIndex,
        workspace: WorkspaceIndex,
        tile: bool,
    },
    MonitorWorkspaceLayoutSet {
        monitor: MonitorIndex,
        workspace: WorkspaceIndex,
        layout: DefaultLayout,
    },
    WorkspacesEnsured {
        monitor: MonitorIndex,
        count: usize,
    },
    WorkspaceLayoutRulesCleared {
        monitor: MonitorIndex,
        workspace: WorkspaceIndex,
    },
    ScrollingColumnsSet {
        columns: usize,
    },
    ContainerLocked {
        monitor: MonitorIndex,
        workspace: WorkspaceIndex,
        container: ContainerIndex,
    },
    ContainerUnlocked {
        monitor: MonitorIndex,
        workspace: WorkspaceIndex,
        container: ContainerIndex,
    },
    TitleBarsToggled,
    WorkspaceRulesEnforced,
    SessionFloatRuleAdded,
    SessionFloatRulesCleared,
    WindowEdgeResized {
        direction: OperationDirection,
        delta: Pixels,
    },
    WindowHidingBehaviourSet {
        behaviour: HidingBehaviour,
    },
    CrossMonitorMoveBehaviourSet {
        behaviour: MoveBehaviour,
    },
    MonocleFocusBehaviourSet {
        behaviour: MonocleFocusBehaviour,
    },
    UnmanagedWindowOperationBehaviourSet {
        behaviour: OperationBehaviour,
    },
    FocusFollowsMouseSet {
        implementation: FocusFollowsMouseImplementation,
        enabled: bool,
    },
    FocusFollowsMouseToggled {
        implementation: FocusFollowsMouseImplementation,
    },
    WorkspaceLayoutRuleAdded {
        monitor: MonitorIndex,
        workspace: WorkspaceIndex,
        at_container_count: usize,
        layout: DefaultLayout,
    },
    LayoutRatiosSet,
    CustomLayoutSet,
    WorkspaceCustomLayoutSet {
        monitor: MonitorIndex,
        workspace: WorkspaceIndex,
    },
    WorkspaceCustomLayoutRuleAdded {
        monitor: MonitorIndex,
        workspace: WorkspaceIndex,
        at_container_count: usize,
    },
    NamedWorkspacesEnsured {
        monitor: MonitorIndex,
    },
    WorkspaceNamed {
        monitor: MonitorIndex,
        workspace: WorkspaceIndex,
    },
    EagerFocused,
    TitleBarRemoved,
}

/// The position of a planned effect in its action's plan.
#[derive(Clone, Copy, Debug, PartialEq, Eq, Hash, Structural)]
pub struct EffectId {
    ordinal: u64,
}

impl EffectId {
    pub closed spec fn ordinal_spec(self) -> u64 {
        self.ordinal
    }

    pub fn new(ordinal: u64) -> (r: Self)
        ensures
            r.ordinal_spec() == ordinal,
    {
        EffectId { ordinal }
    }

    pub fn ordinal(self) -> (r: u64)
        ensures
            r == self.ordinal_spec(),
    {
        self.ordinal
    }
}

/// An effect on the desktop that the manager carries out for an action.
#[derive(Clone, Debug)]
pub enum NativeEffect {
    FocusNeighbor {
        direction: OperationDirection,
    },
    MoveNeighbor {
        direction: OperationDirection,
    },
    Resize {
        axis: Axis,
        delta: Pixels,
    },
    SetResizeStep {
        step: ResizeStep,
    },
    SetTransparencyEnabled {
        enabled: bool,
    },
    SetTransparencyAlpha {
        alpha: TransparencyAlpha,
    },
    SetBorderEnabled {
        enabled: bool,
        implementation: BorderImplementation,
    },
    SetBorderColour {
        window_kind: WindowKind,
        colour: Rgb,
    },
    SetBorderWidth {
        width: BorderWidth,
    },
    SetBorderOffset {
        offset: BorderOffset,
    },
    SetBorderStyle {
        style: BorderStyle,
    },
    SetBorderImplementation {
        implementation: BorderImplementation,
    },
    SetLayout {
        layout: DefaultLayout,
    },
    SetWindowFloating {
        floating: bool,
    },
    CycleFocus {
        direction: CycleDirection,
    },
    CycleMove {
        direction: CycleDirection,
    },
    ToggleMonocle,
    ToggleMaximize,
    ToggleLock,
    Stack {
        direction: OperationDirection,
    },
    Unstack,
    StackAll,
    UnstackAll,
    CycleStack {
        direction: CycleDirection,
    },
    CycleStackIndex {
        direction: CycleDirection,
    },
    FocusStack {
        index: StackIndex,
    },
    FocusWorkspace {
        index: WorkspaceIndex,
    },
    CycleFocusWorkspace {
        direction: CycleDirection,
    },
    CycleFocusEmptyWorkspace {
        direction: CycleDirection,
    },
    FocusLastWorkspace,
    CloseWorkspace,
    FocusMonitor {
        index: MonitorIndex,
    },
    CycleFocusMonitor {
        direction: CycleDirection,
    },
    FocusMonitorAtCursor,
    FocusWorkspaceOnAllMonitors {
        index: WorkspaceIndex,
    },
    FocusMonitorWorkspace {
        monitor: MonitorIndex,
        workspace: WorkspaceIndex,
    },
    CloseWindow,
    MinimizeWindow,
    ForceFocus,
    PromoteContainer,
    PromoteContainerSwap,
    PromoteFocus,
    PromoteWindow {
        direction: OperationDirection,
    },
    CreateWorkspace,
    ToggleTiling,
    CycleLayout {
        direction: CycleDirection,
    },
    FlipLayout {
        axis: Axis,
    },
    ToggleWorkspaceLayer,
    MoveContainerToLastWorkspace,
    SendContainerToLastWorkspace,
    MoveContainerToWorkspace {
        index: WorkspaceIndex,
    },
    CycleMoveContainerToWorkspace {
        direction: CycleDirection,
    },
    SendContainerToWorkspace {
        index: WorkspaceIndex,
    },
    CycleSendContainerToWorkspace {
        direction: CycleDirection,
    },
    MoveContainerToMonitor {
        index: MonitorIndex,
    },
    CycleMoveContainerToMonitor {
        direction: CycleDirection,
    },
    SendContainerToMonitor {
        index: MonitorIndex,
    },
    CycleSendContainerToMonitor {
        direction: CycleDirection,
    },
    MoveContainerToMonitorWorkspace {
        monitor: MonitorIndex,
        workspace: WorkspaceIndex,
    },
    SendContainerToMonitorWorkspace {
        monitor: MonitorIndex,
        workspace: WorkspaceIndex,
    },
    MoveWorkspaceToMonitor {
        index: MonitorIndex,
    },
    CycleMoveWorkspaceToMonitor {
        direction: CycleDirection,
    },
    SwapWorkspacesToMonitor {
        index: MonitorIndex,
    },
    PreselectDirection {
        direction: OperationDirection,
    },
    CancelPreselect,
    Retile,
    RetileWithResizeDimensions,
    ManageFocusedWindow,
    UnmanageFocusedWindow,
    AdjustContainerPadding {
        sizing: Sizing,
        adjustment: i32,
    },
    AdjustWorkspacePadding {
        sizing: Sizing,
        adjustment: i32,
    },
    ToggleMouseFollowsFocus,
    SetMouseFollowsFocus {
        enabled: bool,
    },
    ToggleWindowContainerBehaviour,
    ToggleFloatOverride,
    ToggleWorkspaceWindowContainerBehaviour,
    ToggleWorkspaceFloatOverride,
    ToggleCrossMonitorMoveBehaviour,
    ToggleMonocleFocusBehaviour,
    TogglePause,
    SetFocusedContainerPadding {
        size: i32,
    },
    SetFocusedWorkspacePadding {
        size: i32,
    },
    SetContainerPadding {
        monitor: MonitorIndex,
        workspace: WorkspaceIndex,
        size: i32,
    },
    SetWorkspacePadding {
        monitor: MonitorIndex,
        workspace: WorkspaceIndex,
        size: i32,
    },
    SetWorkspaceTiling {
        monitor: MonitorIndex,
        workspace: WorkspaceIndex,
        tile: bool,
    },
    SetMonitorWorkspaceLayout {
        monitor: MonitorIndex,
        workspace: WorkspaceIndex,
        layout: DefaultLayout,
    },
    EnsureWorkspaces {
        monitor: MonitorIndex,
        count: usize,
    },
    ClearWorkspaceLayoutRules {
        monitor: MonitorIndex,
        workspace: WorkspaceIndex,
    },
    SetScrollingColumns {
        columns: usize,
    },
    LockContainer {
        monitor: MonitorIndex,
        workspace: WorkspaceIndex,
        container: ContainerIndex,
    },
    UnlockContainer {
        monitor: MonitorIndex,
        workspace: WorkspaceIndex,
        container: ContainerIndex,
    },
    ToggleTitleBars,
    EnforceWorkspaceRules,
    AddSessionFloatRule,
    ClearSessionFloatRules,
    ResizeEdge {
        direction: OperationDirection,
        delta: Pixels,
    },
    SetWindowHidingBehaviour {
        behaviour: HidingBehaviour,
    },
    SetCrossMonitorMoveBehaviour {
        behaviour: MoveBehaviour,
    },
    SetMonocleFocusBehaviour {
        behaviour: MonocleFocusBehaviour,
    },
    SetUnmanagedWindowOperationBehaviour {
        behaviour: OperationBehaviour,
    },
    SetFocusFollowsMouse {
        implementation: FocusFollowsMouseImplementation,
        enabled: bool,
    },
    ToggleFocusFollowsMouse {
        implementation: FocusFollowsMouseImplementation,
    },
    AddWorkspaceLayoutRule {
        monitor: MonitorIndex,
        workspace: WorkspaceIndex,
        at_container_count: usize,
        layout: DefaultLayout,
    },
    SetLayoutRatios {
        columns: Option<Vec<LayoutRatio>>,
        rows: Option<Vec<LayoutRatio>>,
    },
    SetCustomLayout {
        path: WindowsPath,
    },
    SetWorkspaceCustomLayout {
        monitor: MonitorIndex,
        workspace: WorkspaceIndex,
        path: WindowsPath,
    },
    AddWorkspaceCustomLayoutRule {
        monitor: MonitorIndex,
        workspace: WorkspaceIndex,
        at_container_count: usize,
        path: WindowsPath,
    },
    EnsureNamedWorkspaces {
        monitor: MonitorIndex,
        names: Vec<WorkspaceName>,
    },
    SetWorkspaceName {
        monitor: MonitorIndex,
        workspace: WorkspaceIndex,
        name: WorkspaceName,
    },
    EagerFocus {
        exe: String,
    },
    RemoveTitleBar {
        identifier: ApplicationIdentifier,
        id: String,
    },
}

/// Two effects of one kind whose arguments agree, lists, texts and paths by
/// their contents.
pub open spec fn same_effect(a: NativeEffect, b: NativeEffect) -> bool {
    match (a, b) {
        (NativeEffect::FocusNeighbor { direction: a_direction }, NativeEffect::FocusNeighbor { direction: b_direction }) => a_direction == b_direction,
        (NativeEffect::MoveNeighbor { direction: a_direction }, NativeEffect::MoveNeighbor { direction: b_direction }) => a_direction == b_direction,
        (NativeEffect::Resize { axis: a_axis, delta: a_delta }, NativeEffect::Resize { axis: b_axis, delta: b_delta }) => a_axis == b_axis && a_delta == b_delta,
        (NativeEffect::SetResizeStep { step: a_step }, NativeEffect::SetResizeStep { step: b_step }) => a_step == b_step,
        (NativeEffect::SetTransparencyEnabled { enabled: a_enabled }, NativeEffect::SetTransparencyEnabled { enabled: b_enabled }) => a_enabled == b_enabled,
        (NativeEffect::SetTransparencyAlpha { alpha: a_alpha }, NativeEffect::SetTransparencyAlpha { alpha: b_alpha }) => a_alpha == b_alpha,
        (NativeEffect::SetBorderEnabled { enabled: a_enabled, implementation: a_implementation }, NativeEffect::SetBorderEnabled { enabled: b_enabled, implementation: b_implementation }) => a_enabled == b_enabled && a_implementation == b_implementation,
        (NativeEffect::SetBorderColour { window_kind: a_window_kind, colour: a_colour }, NativeEffect::SetBorderColour { window_kind: b_window_kind, colour: b_colour }) => a_window_kind == b_window_kind && a_colour == b_colour,
        (NativeEffect::SetBorderWidth { width: a_width }, NativeEffect::SetBorderWidth { width: b_width }) => a_width == b_width,
        (NativeEffect::SetBorderOffset { offset: a_offset }, NativeEffect::SetBorderOffset { offset: b_offset }) => a_offset == b_offset,
        (NativeEffect::SetBorderStyle { style: a_style }, NativeEffect::SetBorderStyle { style: b_style }) => a_style == b_style,
        (NativeEffect::SetBorderImplementation { implementation: a_implementation }, NativeEffect::SetBorderImplementation { implementation: b_implementation }) => a_implementation == b_implementation,
        (NativeEffect::SetLayout { layout: a_layout }, NativeEffect::SetLayout { layout: b_layout }) => a_layout == b_layout,
        (NativeEffect::SetWindowFloating { floating: a_floating }, NativeEffect::SetWindowFloating { floating: b_floating }) => a_floating == b_floating,
        (NativeEffect::CycleFocus { direction: a_direction }, NativeEffect::CycleFocus { direction: b_direction }) => a_direction == b_direction,
        (NativeEffect::CycleMove { direction: a_direction }, NativeEffect::CycleMove { direction: b_direction }) => a_direction == b_direction,
        (NativeEffect::ToggleMonocle, NativeEffect::ToggleMonocle) => true,
        (NativeEffect::ToggleMaximize, NativeEffect::ToggleMaximize) => true,
        (NativeEffect::ToggleLock, NativeEffect::ToggleLock) => true,
        (NativeEffect::Stack { direction: a_direction }, NativeEffect::Stack { direction: b_direction }) => a_direction == b_direction,
        (NativeEffect::Unstack, NativeEffect::Unstack) => true,
        (NativeEffect::StackAll, NativeEffect::StackAll) => true,
        (NativeEffect::UnstackAll, NativeEffect::UnstackAll) => true,
        (NativeEffect::CycleStack { direction: a_direction }, NativeEffect::CycleStack { direction: b_direction }) => a_direction == b_direction,
        (NativeEffect::CycleStackIndex { direction: a_direction }, NativeEffect::CycleStackIndex { direction: b_direction }) => a_direction == b_direction,
        (NativeEffect::FocusStack { index: a_index }, NativeEffect::FocusStack { index: b_index }) => a_index == b_index,
        (NativeEffect::FocusWorkspace { index: a_index }, NativeEffect::FocusWorkspace { index: b_index }) => a_index == b_index,
        (NativeEffect::CycleFocusWorkspace { direction: a_direction }, NativeEffect::CycleFocusWorkspace { direction: b_direction }) => a_direction == b_direction,
        (NativeEffect::CycleFocusEmptyWorkspace { direction: a_direction }, NativeEffect::CycleFocusEmptyWorkspace { direction: b_direction }) => a_direction == b_direction,
        (NativeEffect::FocusLastWorkspace, NativeEffect::FocusLastWorkspace) => true,
        (NativeEffect::CloseWorkspace, NativeEffect::CloseWorkspace) => true,
        (NativeEffect::FocusMonitor { index: a_index }, NativeEffect::FocusMonitor { index: b_index }) => a_index == b_index,
        (NativeEffect::CycleFocusMonitor { direction: a_direction }, NativeEffect::CycleFocusMonitor { direction: b_direction }) => a_direction == b_direction,
        (NativeEffect::FocusMonitorAtCursor, NativeEffect::FocusMonitorAtCursor) => true,
        (NativeEffect::FocusWorkspaceOnAllMonitors { index: a_index }, NativeEffect::FocusWorkspaceOnAllMonitors { index: b_index }) => a_index == b_index,
        (NativeEffect::FocusMonitorWorkspace { monitor: a_monitor, workspace: a_workspace }, NativeEffect::FocusMonitorWorkspace { monitor: b_monitor, workspace: b_workspace }) => a_monitor == b_monitor && a_workspace == b_workspace,
        (NativeEffect::CloseWindow, NativeEffect::CloseWindow) => true,
        (NativeEffect::MinimizeWindow, NativeEffect::MinimizeWindow) => true,
        (NativeEffect::ForceFocus, NativeEffect::ForceFocus) => true,
        (NativeEffect::PromoteContainer, NativeEffect::PromoteContainer) => true,
        (NativeEffect::PromoteContainerSwap, NativeEffect::PromoteContainerSwap) => true,
        (NativeEffect::PromoteFocus, NativeEffect::PromoteFocus) => true,
        (NativeEffect::PromoteWindow { direction: a_direction }, NativeEffect::PromoteWindow { direction: b_direction }) => a_direction == b_direction,
        (NativeEffect::CreateWorkspace, NativeEffect::CreateWorkspace) => true,
        (NativeEffect::ToggleTiling, NativeEffect::ToggleTiling) => true,
        (NativeEffect::CycleLayout { direction: a_direction }, NativeEffect::CycleLayout { direction: b_direction }) => a_direction == b_direction,
        (NativeEffect::FlipLayout { axis: a_axis }, NativeEffect::FlipLayout { axis: b_axis }) => a_axis == b_axis,
        (NativeEffect::ToggleWorkspaceLayer, NativeEffect::ToggleWorkspaceLayer) => true,
        (NativeEffect::MoveContainerToLastWorkspace, NativeEffect::MoveContainerToLastWorkspace) => true,
        (NativeEffect::SendContainerToLastWorkspace, NativeEffect::SendContainerToLastWorkspace) => true,
        (NativeEffect::MoveContainerToWorkspace { index: a_index }, NativeEffect::MoveContainerToWorkspace { index: b_index }) => a_index == b_index,
        (NativeEffect::CycleMoveContainerToWorkspace { direction: a_direction }, NativeEffect::CycleMoveContainerToWorkspace { direction: b_direction }) => a_direction == b_direction,
        (NativeEffect::SendContainerToWorkspace { index: a_index }, NativeEffect::SendContainerToWorkspace { index: b_index }) => a_index == b_index,
        (NativeEffect::CycleSendContainerToWorkspace { direction: a_direction }, NativeEffect::CycleSendContainerToWorkspace { direction: b_direction }) => a_direction == b_direction,
        (NativeEffect::MoveContainerToMonitor { index: a_index }, NativeEffect::MoveContainerToMonitor { index: b_index }) => a_index == b_index,
        (NativeEffect::CycleMoveContainerToMonitor { direction: a_direction }, NativeEffect::CycleMoveContainerToMonitor { direction: b_direction }) => a_direction == b_direction,
        (NativeEffect::SendContainerToMonitor { index: a_index }, NativeEffect::SendContainerToMonitor { index: b_index }) => a_index == b_index,
        (NativeEffect::CycleSendContainerToMonitor { direction: a_direction }, NativeEffect::CycleSendContainerToMonitor { direction: b_direction }) => a_direction == b_direction,
        (NativeEffect::MoveContainerToMonitorWorkspace { monitor: a_monitor, workspace: a_workspace }, NativeEffect::MoveContainerToMonitorWorkspace { monitor: b_monitor, workspace: b_workspace }) => a_monitor == b_monitor && a_workspace == b_workspace,
        (NativeEffect::SendContainerToMonitorWorkspace { monitor: a_monitor, workspace: a_workspace }, NativeEffect::SendContainerToMonitorWorkspace { monitor: b_monitor, workspace: b_workspace }) => a_monitor == b_monitor && a_workspace == b_workspace,
        (NativeEffect::MoveWorkspaceToMonitor { index: a_index }, NativeEffect::MoveWorkspaceToMonitor { index: b_index }) => a_index == b_index,
        (NativeEffect::CycleMoveWorkspaceToMonitor { direction: a_direction }, NativeEffect::CycleMoveWorkspaceToMonitor { direction: b_direction }) => a_direction == b_direction,
        (NativeEffect::SwapWorkspacesToMonitor { index: a_index }, NativeEffect::SwapWorkspacesToMonitor { index: b_index }) => a_index == b_index,
        (NativeEffect::PreselectDirection { direction: a_direction }, NativeEffect::PreselectDirection { direction: b_direction }) => a_direction == b_direction,
        (NativeEffect::CancelPreselect, NativeEffect::CancelPreselect) => true,
        (NativeEffect::Retile, NativeEffect::Retile) => true,
        (NativeEffect::RetileWithResizeDimensions, NativeEffect::RetileWithResizeDimensions) => true,
        (NativeEffect::ManageFocusedWindow, NativeEffect::ManageFocusedWindow) => true,
        (NativeEffect::UnmanageFocusedWindow, NativeEffect::UnmanageFocusedWindow) => true,
        (NativeEffect::AdjustContainerPadding { sizing: a_sizing, adjustment: a_adjustment }, NativeEffect::AdjustContainerPadding { sizing: b_sizing, adjustment: b_adjustment }) => a_sizing == b_sizing && a_adjustment == b_adjustment,
        (NativeEffect::AdjustWorkspacePadding { sizing: a_sizing, adjustment: a_adjustment }, NativeEffect::AdjustWorkspacePadding { sizing: b_sizing, adjustment: b_adjustment }) => a_sizing == b_sizing && a_adjustment == b_adjustment,
        (NativeEffect::ToggleMouseFollowsFocus, NativeEffect::ToggleMouseFollowsFocus) => true,
        (NativeEffect::SetMouseFollowsFocus { enabled: a_enabled }, NativeEffect::SetMouseFollowsFocus { enabled: b_enabled }) => a_enabled == b_enabled,
        (NativeEffect::ToggleWindowContainerBehaviour, NativeEffect::ToggleWindowContainerBehaviour) => true,
        (NativeEffect::ToggleFloatOverride, NativeEffect::ToggleFloatOverride) => true,
        (NativeEffect::ToggleWorkspaceWindowContainerBehaviour, NativeEffect::ToggleWorkspaceWindowContainerBehaviour) => true,
        (NativeEffect::ToggleWorkspaceFloatOverride, NativeEffect::ToggleWorkspaceFloatOverride) => true,
        (NativeEffect::ToggleCrossMonitorMoveBehaviour, NativeEffect::ToggleCrossMonitorMoveBehaviour) => true,
        (NativeEffect::ToggleMonocleFocusBehaviour, NativeEffect::ToggleMonocleFocusBehaviour) => true,
        (NativeEffect::TogglePause, NativeEffect::TogglePause) => true,
        (NativeEffect::SetFocusedContainerPadding { size: a_size }, NativeEffect::SetFocusedContainerPadding { size: b_size }) => a_size == b_size,
        (NativeEffect::SetFocusedWorkspacePadding { size: a_size }, NativeEffect::SetFocusedWorkspacePadding { size: b_size }) => a_size == b_size,
        (NativeEffect::SetContainerPadding { monitor: a_monitor, workspace: a_workspace, size: a_size }, NativeEffect::SetContainerPadding { monitor: b_monitor, workspace: b_workspace, size: b_size }) => a_monitor == b_monitor && a_workspace == b_workspace && a_size == b_size,
        (NativeEffect::SetWorkspacePadding { monitor: a_monitor, workspace: a_workspace, size: a_size }, NativeEffect::SetWorkspacePadding { monitor: b_monitor, workspace: b_workspace, size: b_size }) => a_monitor == b_monitor && a_workspace == b_workspace && a_size == b_size,
        (NativeEffect::SetWorkspaceTiling { monitor: a_monitor, workspace: a_workspace, tile: a_tile }, NativeEffect::SetWorkspaceTiling { monitor: b_monitor, workspace: b_workspace, tile: b_tile }) => a_monitor == b_monitor && a_workspace == b_workspace && a_tile == b_tile,
        (NativeEffect::SetMonitorWorkspaceLayout { monitor: a_monitor, workspace: a_workspace, layout: a_layout }, NativeEffect::SetMonitorWorkspaceLayout { monitor: b_monitor, workspace: b_workspace, layout: b_layout }) => a_monitor == b_monitor && a_workspace == b_workspace && a_layout == b_layout,
        (NativeEffect::EnsureWorkspaces { monitor: a_monitor, count: a_count }, NativeEffect::EnsureWorkspaces { monitor: b_monitor, count: b_count }) => a_monitor == b_monitor && a_count == b_count,
        (NativeEffect::ClearWorkspaceLayoutRules { monitor: a_monitor, workspace: a_workspace }, NativeEffect::ClearWorkspaceLayoutRules { monitor: b_monitor, workspace: b_workspace }) => a_monitor == b_monitor && a_workspace == b_workspace,
        (NativeEffect::SetScrollingColumns { columns: a_columns }, NativeEffect::SetScrollingColumns { columns: b_columns }) => a_columns == b_columns,
        (NativeEffect::LockContainer { monitor: a_monitor, workspace: a_workspace, container: a_container }, NativeEffect::LockContainer { monitor: b_monitor, workspace: b_workspace, container: b_container }) => a_monitor == b_monitor && a_workspace == b_workspace && a_container == b_container,
        (NativeEffect::UnlockContainer { monitor: a_monitor, workspace: a_workspace, container: a_container }, NativeEffect::UnlockContainer { monitor: b_monitor, workspace: b_workspace, container: b_container }) => a_monitor == b_monitor && a_workspace == b_workspace && a_container == b_container,
        (NativeEffect::ToggleTitleBars, NativeEffect::ToggleTitleBars) => true,
        (NativeEffect::EnforceWorkspaceRules, NativeEffect::EnforceWorkspaceRules) => true,
        (NativeEffect::AddSessionFloatRule, NativeEffect::AddSessionFloatRule) => true,
        (NativeEffect::ClearSessionFloatRules, NativeEffect::ClearSessionFloatRules) => true,
        (NativeEffect::ResizeEdge { direction: a_direction, delta: a_delta }, NativeEffect::ResizeEdge { direction: b_direction, delta: b_delta }) => a_direction == b_direction && a_delta == b_delta,
        (NativeEffect::SetWindowHidingBehaviour { behaviour: a_behaviour }, NativeEffect::SetWindowHidingBehaviour { behaviour: b_behaviour }) => a_behaviour == b_behaviour,
        (NativeEffect::SetCrossMonitorMoveBehaviour { behaviour: a_behaviour }, NativeEffect::SetCrossMonitorMoveBehaviour { behaviour: b_behaviour }) => a_behaviour == b_behaviour,
        (NativeEffect::SetMonocleFocusBehaviour { behaviour: a_behaviour }, NativeEffect::SetMonocleFocusBehaviour { behaviour: b_behaviour }) => a_behaviour == b_behaviour,
        (NativeEffect::SetUnmanagedWindowOperationBehaviour { behaviour: a_behaviour }, NativeEffect::SetUnmanagedWindowOperationBehaviour { behaviour: b_behaviour }) => a_behaviour == b_behaviour,
        (NativeEffect::SetFocusFollowsMouse { implementation: a_implementation, enabled: a_enabled }, NativeEffect::SetFocusFollowsMouse { implementation: b_implementation, enabled: b_enabled }) => a_implementation == b_implementation && a_enabled == b_enabled,
        (NativeEffect::ToggleFocusFollowsMouse { implementation: a_implementation }, NativeEffect::ToggleFocusFollowsMouse { implementation: b_implementation }) => a_implementation == b_implementation,
        (NativeEffect::AddWorkspaceLayoutRule { monitor: a_monitor, workspace: a_workspace, at_container_count: a_at_container_count, layout: a_layout }, NativeEffect::AddWorkspaceLayoutRule { monitor: b_monitor, workspace: b_workspace, at_container_count: b_at_container_count, layout: b_layout }) => a_monitor == b_monitor && a_workspace == b_workspace && a_at_container_count == b_at_container_count && a_layout == b_layout,
        (NativeEffect::SetLayoutRatios { columns: a_columns, rows: a_rows }, NativeEffect::SetLayoutRatios { columns: b_columns, rows: b_rows }) => same_ratios(a_columns, b_columns) && same_ratios(a_rows, b_rows),
        (NativeEffect::SetCustomLayout { path: a_path }, NativeEffect::SetCustomLayout { path: b_path }) => a_path.units() == b_path.units(),
        (NativeEffect::SetWorkspaceCustomLayout { monitor: a_monitor, workspace: a_workspace, path: a_path }, NativeEffect::SetWorkspaceCustomLayout { monitor: b_monitor, workspace: b_workspace, path: b_path }) => a_monitor == b_monitor && a_workspace == b_workspace && a_path.units() == b_path.units(),
        (NativeEffect::AddWorkspaceCustomLayoutRule { monitor: a_monitor, workspace: a_workspace, at_container_count: a_at_container_count, path: a_path }, NativeEffect::AddWorkspaceCustomLayoutRule { monitor: b_monitor, workspace: b_workspace, at_container_count: b_at_container_count, path: b_path }) => a_monitor == b_monitor && a_workspace == b_workspace && a_at_container_count == b_at_container_count && a_path.units() == b_path.units(),
        (NativeEffect::EnsureNamedWorkspaces { monitor: a_monitor, names: a_names }, NativeEffect::EnsureNamedWorkspaces { monitor: b_monitor, names: b_names }) => a_monitor == b_monitor && a_names@ == b_names@,
        (NativeEffect::SetWorkspaceName { monitor: a_monitor, workspace: a_workspace, name: a_name }, NativeEffect::SetWorkspaceName { monitor: b_monitor, workspace: b_workspace, name: b_name }) => a_monitor == b_monitor && a_workspace == b_workspace && a_name == b_name,
        (NativeEffect::EagerFocus { exe: a_exe }, NativeEffect::EagerFocus { exe: b_exe }) => a_exe@ == b_exe@,
        (NativeEffect::RemoveTitleBar { identifier: a_identifier, id: a_id }, NativeEffect::RemoveTitleBar { identifier: b_identifier, id: b_id }) => a_identifier == b_identifier && a_id@ == b_id@,
        _ => false,
    }
}

impl NativeEffect {
    /// A copy of this effect.
    pub fn duplicate(&self) -> (r: Self)
        ensures
            same_effect(*self, r),
    {
        proof {
            reveal(same_ratios);
        }
        match self {
            NativeEffect::FocusNeighbor { direction } => NativeEffect::FocusNeighbor { direction: *direction },
            NativeEffect::MoveNeighbor { direction } => NativeEffect::MoveNeighbor { direction: *direction },
            NativeEffect::Resize { axis, delta } => NativeEffect::Resize { axis: *axis, delta: *delta },
            NativeEffect::SetResizeStep { step } => NativeEffect::SetResizeStep { step: *step },
            NativeEffect::SetTransparencyEnabled { enabled } => NativeEffect::SetTransparencyEnabled { enabled: *enabled },
            NativeEffect::SetTransparencyAlpha { alpha } => NativeEffect::SetTransparencyAlpha { alpha: *alpha },
            NativeEffect::SetBorderEnabled { enabled, implementation } => NativeEffect::SetBorderEnabled { enabled: *enabled, implementation: *implementation },
            NativeEffect::SetBorderColour { window_kind, colour } => NativeEffect::SetBorderColour { window_kind: *window_kind, colour: *colour },
            NativeEffect::SetBorderWidth { width } => NativeEffect::SetBorderWidth { width: *width },
            NativeEffect::SetBorderOffset { offset } => NativeEffect::SetBorderOffset { offset: *offset },
            NativeEffect::SetBorderStyle { style } => NativeEffect::SetBorderStyle { style: *style },
            NativeEffect::SetBorderImplementation { implementation } => NativeEffect::SetBorderImplementation { implementation: *implementation },
            NativeEffect::SetLayout { layout } => NativeEffect::SetLayout { layout: *layout },
            NativeEffect::SetWindowFloating { floating } => NativeEffect::SetWindowFloating { floating: *floating },
            NativeEffect::CycleFocus { direction } => NativeEffect::CycleFocus { direction: *direction },
            NativeEffect::CycleMove { direction } => NativeEffect::CycleMove { direction: *direction },
            NativeEffect::ToggleMonocle => NativeEffect::ToggleMonocle,
            NativeEffect::ToggleMaximize => NativeEffect::ToggleMaximize,
            NativeEffect::ToggleLock => NativeEffect::ToggleLock,
            NativeEffect::Stack { direction } => NativeEffect::Stack { direction: *direction },
            NativeEffect::Unstack => NativeEffect::Unstack,
            NativeEffect::StackAll => NativeEffect::StackAll,
            NativeEffect::UnstackAll => NativeEffect::UnstackAll,
            NativeEffect::CycleStack { direction } => NativeEffect::CycleStack { direction: *direction },
            NativeEffect::CycleStackIndex { direction } => NativeEffect::CycleStackIndex { direction: *direction },
            NativeEffect::FocusStack { index } => NativeEffect::FocusStack { index: *index },
            NativeEffect::FocusWorkspace { index } => NativeEffect::FocusWorkspace { index: *index },
            NativeEffect::CycleFocusWorkspace { direction } => NativeEffect::CycleFocusWorkspace { direction: *direction },
            NativeEffect::CycleFocusEmptyWorkspace { direction } => NativeEffect::CycleFocusEmptyWorkspace { direction: *direction },
            NativeEffect::FocusLastWorkspace => NativeEffect::FocusLastWorkspace,
            NativeEffect::CloseWorkspace => NativeEffect::CloseWorkspace,
            NativeEffect::FocusMonitor { index } => NativeEffect::FocusMonitor { index: *index },
            NativeEffect::CycleFocusMonitor { direction } => NativeEffect::CycleFocusMonitor { direction: *direction },
            NativeEffect::FocusMonitorAtCursor => NativeEffect::FocusMonitorAtCursor,
            NativeEffect::FocusWorkspaceOnAllMonitors { index } => NativeEffect::FocusWorkspaceOnAllMonitors { index: *index },
            NativeEffect::FocusMonitorWorkspace { monitor, workspace } => NativeEffect::FocusMonitorWorkspace { monitor: *monitor, workspace: *workspace },
            NativeEffect::CloseWindow => NativeEffect::CloseWindow,
            NativeEffect::MinimizeWindow => NativeEffect::MinimizeWindow,
            NativeEffect::ForceFocus => NativeEffect::ForceFocus,
            NativeEffect::PromoteContainer => NativeEffect::PromoteContainer,
            NativeEffect::PromoteContainerSwap => NativeEffect::PromoteContainerSwap,
            NativeEffect::PromoteFocus => NativeEffect::PromoteFocus,
            NativeEffect::PromoteWindow { direction } => NativeEffect::PromoteWindow { direction: *direction },
            NativeEffect::CreateWorkspace => NativeEffect::CreateWorkspace,
            NativeEffect::ToggleTiling => NativeEffect::ToggleTiling,
            NativeEffect::CycleLayout { direction } => NativeEffect::CycleLayout { direction: *direction },
            NativeEffect::FlipLayout { axis } => NativeEffect::FlipLayout { axis: *axis },
            NativeEffect::ToggleWorkspaceLayer => NativeEffect::ToggleWorkspaceLayer,
            NativeEffect::MoveContainerToLastWorkspace => NativeEffect::MoveContainerToLastWorkspace,
            NativeEffect::SendContainerToLastWorkspace => NativeEffect::SendContainerToLastWorkspace,
            NativeEffect::MoveContainerToWorkspace { index } => NativeEffect::MoveContainerToWorkspace { index: *index },
            NativeEffect::CycleMoveContainerToWorkspace { direction } => NativeEffect::CycleMoveContainerToWorkspace { direction: *direction },
            NativeEffect::SendContainerToWorkspace { index } => NativeEffect::SendContainerToWorkspace { index: *index },
            NativeEffect::CycleSendContainerToWorkspace { direction } => NativeEffect::CycleSendContainerToWorkspace { direction: *direction },
            NativeEffect::MoveContainerToMonitor { index } => NativeEffect::MoveContainerToMonitor { index: *index },
            NativeEffect::CycleMoveContainerToMonitor { direction } => NativeEffect::CycleMoveContainerToMonitor { direction: *direction },
            NativeEffect::SendContainerToMonitor { index } => NativeEffect::SendContainerToMonitor { index: *index },
            NativeEffect::CycleSendContainerToMonitor { direction } => NativeEffect::CycleSendContainerToMonitor { direction: *direction },
            NativeEffect::MoveContainerToMonitorWorkspace { monitor, workspace } => NativeEffect::MoveContainerToMonitorWorkspace { monitor: *monitor, workspace: *workspace },
            NativeEffect::SendContainerToMonitorWorkspace { monitor, workspace } => NativeEffect::SendContainerToMonitorWorkspace { monitor: *monitor, workspace: *workspace },
            NativeEffect::MoveWorkspaceToMonitor { index } => NativeEffect::MoveWorkspaceToMonitor { index: *index },
            NativeEffect::CycleMoveWorkspaceToMonitor { direction } => NativeEffect::CycleMoveWorkspaceToMonitor { direction: *direction },
            NativeEffect::SwapWorkspacesToMonitor { index } => NativeEffect::SwapWorkspacesToMonitor { index: *index },
            NativeEffect::PreselectDirection { direction } => NativeEffect::PreselectDirection { direction: *direction },
            NativeEffect::CancelPreselect => NativeEffect::CancelPreselect,
            NativeEffect::Retile => NativeEffect::Retile,
            NativeEffect::RetileWithResizeDimensions => NativeEffect::RetileWithResizeDimensions,
            NativeEffect::ManageFocusedWindow => NativeEffect::ManageFocusedWindow,
            NativeEffect::UnmanageFocusedWindow => NativeEffect::UnmanageFocusedWindow,
            NativeEffect::AdjustContainerPadding { sizing, adjustment } => NativeEffect::AdjustContainerPadding { sizing: *sizing, adjustment: *adjustment },
            NativeEffect::AdjustWorkspacePadding { sizing, adjustment } => NativeEffect::AdjustWorkspacePadding { sizing: *sizing, adjustment: *adjustment },
            NativeEffect::ToggleMouseFollowsFocus => NativeEffect::ToggleMouseFollowsFocus,
            NativeEffect::SetMouseFollowsFocus { enabled } => NativeEffect::SetMouseFollowsFocus { enabled: *enabled },
            NativeEffect::ToggleWindowContainerBehaviour => NativeEffect::ToggleWindowContainerBehaviour,
            NativeEffect::ToggleFloatOverride => NativeEffect::ToggleFloatOverride,
            NativeEffect::ToggleWorkspaceWindowContainerBehaviour => NativeEffect::ToggleWorkspaceWindowContainerBehaviour,
            NativeEffect::ToggleWorkspaceFloatOverride => NativeEffect::ToggleWorkspaceFloatOverride,
            NativeEffect::ToggleCrossMonitorMoveBehaviour => NativeEffect::ToggleCrossMonitorMoveBehaviour,
            NativeEffect::ToggleMonocleFocusBehaviour => NativeEffect::ToggleMonocleFocusBehaviour,
            NativeEffect::TogglePause => NativeEffect::TogglePause,
            NativeEffect::SetFocusedContainerPadding { size } => NativeEffect::SetFocusedContainerPadding { size: *size },
            NativeEffect::SetFocusedWorkspacePadding { size } => NativeEffect::SetFocusedWorkspacePadding { size: *size },
            NativeEffect::SetContainerPadding { monitor, workspace, size } => NativeEffect::SetContainerPadding { monitor: *monitor, workspace: *workspace, size: *size },
            NativeEffect::SetWorkspacePadding { monitor, workspace, size } => NativeEffect::SetWorkspacePadding { monitor: *monitor, workspace: *workspace, size: *size },
            NativeEffect::SetWorkspaceTiling { monitor, workspace, tile } => NativeEffect::SetWorkspaceTiling { monitor: *monitor, workspace: *workspace, tile: *tile },
            NativeEffect::SetMonitorWorkspaceLayout { monitor, workspace, layout } => NativeEffect::SetMonitorWorkspaceLayout { monitor: *monitor, workspace: *workspace, layout: *layout },
            NativeEffect::EnsureWorkspaces { monitor, count } => NativeEffect::EnsureWorkspaces { monitor: *monitor, count: *count },
            NativeEffect::ClearWorkspaceLayoutRules { monitor, workspace } => NativeEffect::ClearWorkspaceLayoutRules { monitor: *monitor, workspace: *workspace },
            NativeEffect::SetScrollingColumns { columns } => NativeEffect::SetScrollingColumns { columns: *columns },
            NativeEffect::LockContainer { monitor, workspace, container } => NativeEffect::LockContainer { monitor: *monitor, workspace: *workspace, container: *container },
            NativeEffect::UnlockContainer { monitor, workspace, container } => NativeEffect::UnlockContainer { monitor: *monitor, workspace: *workspace, container: *container },
            NativeEffect::ToggleTitleBars => NativeEffect::ToggleTitleBars,
            NativeEffect::EnforceWorkspaceRules => NativeEffect::EnforceWorkspaceRules,
            NativeEffect::AddSessionFloatRule => NativeEffect::AddSessionFloatRule,
            NativeEffect::ClearSessionFloatRules => NativeEffect::ClearSessionFloatRules,
            NativeEffect::ResizeEdge { direction, delta } => NativeEffect::ResizeEdge { direction: *direction, delta: *delta },
            NativeEffect::SetWindowHidingBehaviour { behaviour } => NativeEffect::SetWindowHidingBehaviour { behaviour: *behaviour },
            NativeEffect::SetCrossMonitorMoveBehaviour { behaviour } => NativeEffect::SetCrossMonitorMoveBehaviour { behaviour: *behaviour },
            NativeEffect::SetMonocleFocusBehaviour { behaviour } => NativeEffect::SetMonocleFocusBehaviour { behaviour: *behaviour },
            NativeEffect::SetUnmanagedWindowOperationBehaviour { behaviour } => NativeEffect::SetUnmanagedWindowOperationBehaviour { behaviour: *behaviour },
            NativeEffect::SetFocusFollowsMouse { implementation, enabled } => NativeEffect::SetFocusFollowsMouse { implementation: *implementation, enabled: *enabled },
            NativeEffect::ToggleFocusFollowsMouse { implementation } => NativeEffect::ToggleFocusFollowsMouse { implementation: *implementation },
            NativeEffect::AddWorkspaceLayoutRule { monitor, workspace, at_container_count, layout } => NativeEffect::AddWorkspaceLayoutRule { monitor: *monitor, workspace: *workspace, at_container_count: *at_container_count, layout: *layout },
            NativeEffect::SetLayoutRatios { columns, rows } => NativeEffect::SetLayoutRatios { columns: duplicate_ratio_lists(columns), rows: duplicate_ratio_lists(rows) },
            NativeEffect::SetCustomLayout { path } => NativeEffect::SetCustomLayout { path: path.duplicate() },
            NativeEffect::SetWorkspaceCustomLayout { monitor, workspace, path } => NativeEffect::SetWorkspaceCustomLayout { monitor: *monitor, workspace: *workspace, path: path.duplicate() },
            NativeEffect::AddWorkspaceCustomLayoutRule { monitor, workspace, at_container_count, path } => NativeEffect::AddWorkspaceCustomLayoutRule { monitor: *monitor, workspace: *workspace, at_container_count: *at_container_count, path: path.duplicate() },
            NativeEffect::EnsureNamedWorkspaces { monitor, names } => NativeEffect::EnsureNamedWorkspaces { monitor: *monitor, names: duplicate_names(names) },
            NativeEffect::SetWorkspaceName { monitor, workspace, name } => NativeEffect::SetWorkspaceName { monitor: *monitor, workspace: *workspace, name: name.duplicate() },
            NativeEffect::EagerFocus { exe } => NativeEffect::EagerFocus { exe: exe.clone() },
            NativeEffect::RemoveTitleBar { identifier, id } => NativeEffect::RemoveTitleBar { identifier: *identifier, id: id.clone() },
        }
    }
}

/// An effect of an admitted action with its position in the plan.
#[derive(Clone, Debug)]
pub struct PlannedEffect {
    pub id: EffectId,
    pub effect: NativeEffect,
}

impl PlannedEffect {
    pub fn duplicate(&self) -> (r: Self)
        ensures
            r.id == self.id,
            same_effect(self.effect, r.effect),
    {
        PlannedEffect { id: self.id, effect: self.effect.duplicate() }
    }
}

/// Two plans with the same effects at the same positions.
pub open spec fn same_plan(a: Seq<PlannedEffect>, b: Seq<PlannedEffect>) -> bool {
    a.len() == b.len() && forall|i: int|
        0 <= i < a.len() ==> #[trigger] a[i].id == b[i].id && same_effect(a[i].effect, b[i].effect)
}

pub fn duplicate_plan(plan: &Vec<PlannedEffect>) -> (r: Vec<PlannedEffect>)
    ensures
        same_plan(plan@, r@),
{
    let mut r: Vec<PlannedEffect> = Vec::new();
    let mut i: usize = 0;
    while i < plan.len()
        invariant
            0 <= i <= plan@.len(),
            r@.len() == i,
            forall|j: int|
                0 <= j < i ==> #[trigger] plan@[j].id == r@[j].id && same_effect(
                    plan@[j].effect,
                    r@[j].effect,
                ),
        decreases plan.len() - i,
    {
        r.push(plan[i].duplicate());
        i = i + 1;
    }
    r
}

/// An effect that the manager could not carry out, and why.
#[derive(Clone, Debug, PartialEq, Eq)]
pub struct NativeEffectFailure {
    pub effect_id: EffectId,
    pub message: String,
}

impl NativeEffectFailure {
    pub fn duplicate(&self) -> (r: Self)
        ensures
            r == *self,
    {
        NativeEffectFailure { effect_id: self.effect_id, message: self.message.clone() }
    }
}

} // verus!
