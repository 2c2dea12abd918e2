//! The legacy socket protocol: which messages are actions, queries,
//! subscriptions, configuration or administration, and the built-in action
//! each action message stands for.

use vstd::prelude::*;
use crate::action::builtin_action::BuiltinAction;
use crate::action::builtin_action::LayoutRatio;
use crate::action::builtin_action::WindowSelector;
use crate::action::builtin_action::WorkspaceName;
use crate::action::builtin_action::WorkspaceSelector;
use crate::action::builtin_action::duplicate_ratio_lists;
use crate::action::builtin_action::same_ratios;
use crate::action::index::ContainerIndex;
use crate::action::index::MonitorIndex;
use crate::action::index::StackIndex;
use crate::action::index::WorkspaceIndex;
use crate::action::path::WindowsPath;
use crate::action::path::has_nul;
use crate::animation_configuration::AnimationPrefix;
use crate::animation_configuration::AnimationStyleSnapshot;
use crate::border_geometry::BorderOffset;
use crate::border_geometry::BorderWidth;
use crate::manager_types::ApplicationIdentifier;
use crate::manager_types::Axis;
use crate::manager_types::BorderImplementation;
use crate::manager_types::BorderStyle;
use crate::manager_types::CycleDirection;
use crate::manager_types::DefaultLayout;
use crate::manager_types::FocusFollowsMouseImplementation;
use crate::manager_types::HidingBehaviour;
use crate::manager_types::MonocleFocusBehaviour;
use crate::manager_types::MoveBehaviour;
use crate::manager_types::OperationBehaviour;
use crate::manager_types::OperationDirection;
use crate::manager_types::Rgb;
use crate::manager_types::Sizing;
use crate::manager_types::StackbarLabel;
use crate::manager_types::StackbarMode;
use crate::manager_types::WindowKind;
use crate::resize_step::ResizeStep;
use crate::subscriber::SubscribeOptions;
use crate::subscriber::SubscriberName;
use crate::transparency_alpha::TransparencyAlpha;
use crate::work_area_offset::Rect;

verus! {

/// A message of the legacy socket protocol. Paths are WTF-16 code units.
#[derive(Clone, Debug)]
pub enum SocketMessage {
    FocusWindow(OperationDirection),
    MoveWindow(OperationDirection),
    PreselectDirection(OperationDirection),
    CancelPreselect,
    CycleFocusWindow(CycleDirection),
    CycleMoveWindow(CycleDirection),
    StackWindow(OperationDirection),
    UnstackWindow,
    CycleStack(CycleDirection),
    CycleStackIndex(CycleDirection),
    FocusStackWindow(usize),
    StackAll,
    UnstackAll,
    ResizeWindowEdge(OperationDirection, Sizing),
    ResizeWindowAxis(Axis, Sizing),
    MoveContainerToLastWorkspace,
    SendContainerToLastWorkspace,
    MoveContainerToMonitorNumber(usize),
    CycleMoveContainerToMonitor(CycleDirection),
    MoveContainerToWorkspaceNumber(usize),
    MoveContainerToNamedWorkspace(String),
    CycleMoveContainerToWorkspace(CycleDirection),
    SendContainerToMonitorNumber(usize),
    CycleSendContainerToMonitor(CycleDirection),
    SendContainerToWorkspaceNumber(usize),
    CycleSendContainerToWorkspace(CycleDirection),
    SendContainerToMonitorWorkspaceNumber(usize, usize),
    MoveContainerToMonitorWorkspaceNumber(usize, usize),
    SendContainerToNamedWorkspace(String),
    CycleMoveWorkspaceToMonitor(CycleDirection),
    MoveWorkspaceToMonitorNumber(usize),
    SwapWorkspacesToMonitorNumber(usize),
    ForceFocus,
    Close,
    Minimize,
    Promote,
    PromoteSwap,
    PromoteFocus,
    PromoteWindow(OperationDirection),
    EagerFocus(String),
    LockMonitorWorkspaceContainer(usize, usize, usize),
    UnlockMonitorWorkspaceContainer(usize, usize, usize),
    ToggleLock,
    ToggleFloat,
    ToggleMonocle,
    ToggleMaximize,
    ToggleWindowContainerBehaviour,
    ToggleFloatOverride,
    WindowHidingBehaviour(HidingBehaviour),
    ToggleCrossMonitorMoveBehaviour,
    CrossMonitorMoveBehaviour(MoveBehaviour),
    ToggleMonocleFocusBehaviour,
    MonocleFocusBehaviour(MonocleFocusBehaviour),
    UnmanagedWindowOperationBehaviour(OperationBehaviour),
    ManageFocusedWindow,
    UnmanageFocusedWindow,
    AdjustContainerPadding(Sizing, i32),
    AdjustWorkspacePadding(Sizing, i32),
    ChangeLayout(DefaultLayout),
    CycleLayout(CycleDirection),
    LayoutRatios(Option<Vec<LayoutRatio>>, Option<Vec<LayoutRatio>>),
    ScrollingLayoutColumns(usize),
    ChangeLayoutCustom(Vec<u16>),
    FlipLayout(Axis),
    ToggleWorkspaceWindowContainerBehaviour,
    ToggleWorkspaceFloatOverride,
    EnsureWorkspaces(usize, usize),
    EnsureNamedWorkspaces(usize, Vec<String>),
    NewWorkspace,
    ToggleTiling,
    TogglePause,
    Retile,
    RetileWithResizeDimensions,
    CycleFocusMonitor(CycleDirection),
    CycleFocusWorkspace(CycleDirection),
    CycleFocusEmptyWorkspace(CycleDirection),
    FocusMonitorNumber(usize),
    FocusMonitorAtCursor,
    FocusLastWorkspace,
    CloseWorkspace,
    FocusWorkspaceNumber(usize),
    FocusWorkspaceNumbers(usize),
    FocusMonitorWorkspaceNumber(usize, usize),
    FocusNamedWorkspace(String),
    ContainerPadding(usize, usize, i32),
    NamedWorkspaceContainerPadding(String, i32),
    FocusedWorkspaceContainerPadding(i32),
    WorkspacePadding(usize, usize, i32),
    NamedWorkspacePadding(String, i32),
    FocusedWorkspacePadding(i32),
    WorkspaceTiling(usize, usize, bool),
    NamedWorkspaceTiling(String, bool),
    WorkspaceName(usize, usize, String),
    WorkspaceLayout(usize, usize, DefaultLayout),
    NamedWorkspaceLayout(String, DefaultLayout),
    WorkspaceLayoutCustom(usize, usize, Vec<u16>),
    NamedWorkspaceLayoutCustom(String, Vec<u16>),
    WorkspaceLayoutRule(usize, usize, usize, DefaultLayout),
    NamedWorkspaceLayoutRule(String, usize, DefaultLayout),
    WorkspaceLayoutCustomRule(usize, usize, usize, Vec<u16>),
    NamedWorkspaceLayoutCustomRule(String, usize, Vec<u16>),
    ClearWorkspaceLayoutRules(usize, usize),
    ClearNamedWorkspaceLayoutRules(String),
    ToggleWorkspaceLayer,
    FocusFollowsMouse(FocusFollowsMouseImplementation, bool),
    ToggleFocusFollowsMouse(FocusFollowsMouseImplementation),
    MouseFollowsFocus(bool),
    ToggleMouseFollowsFocus,
    RemoveTitleBar(ApplicationIdentifier, String),
    ToggleTitleBars,
    SessionFloatRule,
    ClearSessionFloatRules,
    EnforceWorkspaceRules,
    State,
    GlobalState,
    VisibleWindows,
    MonitorInformation,
    Query(String),
    SessionFloatRules,
    AddSubscriberSocket(SubscriberName),
    AddSubscriberSocketWithOptions(SubscriberName, SubscribeOptions),
    RemoveSubscriberSocket(SubscriberName),
    AddSubscriberPipe(SubscriberName),
    RemoveSubscriberPipe(SubscriberName),
    MonitorIndexPreference(usize, i32, i32, i32, i32),
    DisplayIndexPreference(usize, String),
    ReloadConfiguration,
    ReplaceConfiguration(Vec<u16>),
    ReloadStaticConfiguration(Vec<u16>),
    WatchConfiguration(bool),
    CompleteConfiguration,
    AltFocusHack(bool),
    Theme(String),
    Animation(bool, Option<AnimationPrefix>),
    AnimationDuration(u64, Option<AnimationPrefix>),
    AnimationFps(u64),
    AnimationStyle(AnimationStyleSnapshot, Option<AnimationPrefix>),
    Border(bool),
    BorderColour(WindowKind, u32, u32, u32),
    BorderStyle(BorderStyle),
    BorderWidth(i32),
    BorderOffset(i32),
    BorderImplementation(BorderImplementation),
    Transparency(bool),
    ToggleTransparency,
    TransparencyAlpha(u8),
    InvisibleBorders(Rect),
    StackbarMode(StackbarMode),
    StackbarLabel(StackbarLabel),
    StackbarFocusedTextColour(u32, u32, u32),
    StackbarUnfocusedTextColour(u32, u32, u32),
    StackbarBackgroundColour(u32, u32, u32),
    StackbarHeight(i32),
    StackbarTabWidth(i32),
    StackbarFontSize(i32),
    StackbarFontFamily(Option<String>),
    WorkAreaOffset(Rect),
    MonitorWorkAreaOffset(usize, Rect),
    WorkspaceWorkAreaOffset(usize, usize, Rect),
    ToggleWindowBasedWorkAreaOffset,
    ResizeDelta(i32),
    InitialWorkspaceRule(ApplicationIdentifier, String, usize, usize),
    InitialNamedWorkspaceRule(ApplicationIdentifier, String, String),
    WorkspaceRule(ApplicationIdentifier, String, usize, usize),
    NamedWorkspaceRule(ApplicationIdentifier, String, String),
    ClearWorkspaceRules(usize, usize),
    ClearNamedWorkspaceRules(String),
    ClearAllWorkspaceRules,
    IgnoreRule(ApplicationIdentifier, String),
    ManageRule(ApplicationIdentifier, String),
    IdentifyObjectNameChangeApplication(ApplicationIdentifier, String),
    IdentifyTrayApplication(ApplicationIdentifier, String),
    IdentifyLayeredApplication(ApplicationIdentifier, String),
    IdentifyBorderOverflowApplication(ApplicationIdentifier, String),
    QuickSave,
    QuickLoad,
    Save(Vec<u16>),
    Load(Vec<u16>),
    Stop,
    StopIgnoreRestore,
    ApplicationSpecificConfigurationSchema,
    NotificationSchema,
    SocketSchema,
    StaticConfigSchema,
    GenerateStaticConfig,
    DebugWindow(isize),
    ApplyState(String),
}

/// What a socket message asks of the manager.
#[derive(Clone, Copy, Debug, PartialEq, Eq, Structural)]
pub enum SocketMessageClass {
    Action,
    Query,
    Subscription,
    Configuration,
    SchemaDebugAdmin,
    InternalOnly,
}

/// The class of each message.
pub open spec fn class_of(message: SocketMessage) -> SocketMessageClass {
    match message {
        SocketMessage::FocusWindow(..) | SocketMessage::MoveWindow(..) |
        SocketMessage::PreselectDirection(..) | SocketMessage::CancelPreselect |
        SocketMessage::CycleFocusWindow(..) | SocketMessage::CycleMoveWindow(..) |
        SocketMessage::StackWindow(..) | SocketMessage::UnstackWindow |
        SocketMessage::CycleStack(..) | SocketMessage::CycleStackIndex(..) |
        SocketMessage::FocusStackWindow(..) | SocketMessage::StackAll |
        SocketMessage::UnstackAll | SocketMessage::ResizeWindowEdge(..) |
        SocketMessage::ResizeWindowAxis(..) | SocketMessage::MoveContainerToLastWorkspace |
        SocketMessage::SendContainerToLastWorkspace |
        SocketMessage::MoveContainerToMonitorNumber(..) |
        SocketMessage::CycleMoveContainerToMonitor(..) |
        SocketMessage::MoveContainerToWorkspaceNumber(..) |
        SocketMessage::MoveContainerToNamedWorkspace(..) |
        SocketMessage::CycleMoveContainerToWorkspace(..) |
        SocketMessage::SendContainerToMonitorNumber(..) |
        SocketMessage::CycleSendContainerToMonitor(..) |
        SocketMessage::SendContainerToWorkspaceNumber(..) |
        SocketMessage::CycleSendContainerToWorkspace(..) |
        SocketMessage::SendContainerToMonitorWorkspaceNumber(..) |
        SocketMessage::MoveContainerToMonitorWorkspaceNumber(..) |
        SocketMessage::SendContainerToNamedWorkspace(..) |
        SocketMessage::CycleMoveWorkspaceToMonitor(..) |
        SocketMessage::MoveWorkspaceToMonitorNumber(..) |
        SocketMessage::SwapWorkspacesToMonitorNumber(..) | SocketMessage::ForceFocus |
        SocketMessage::Close | SocketMessage::Minimize | SocketMessage::Promote |
        SocketMessage::PromoteSwap | SocketMessage::PromoteFocus |
        SocketMessage::PromoteWindow(..) | SocketMessage::EagerFocus(..) |
        SocketMessage::LockMonitorWorkspaceContainer(..) |
        SocketMessage::UnlockMonitorWorkspaceContainer(..) | SocketMessage::ToggleLock |
        SocketMessage::ToggleFloat | SocketMessage::ToggleMonocle |
        SocketMessage::ToggleMaximize | SocketMessage::ToggleWindowContainerBehaviour |
        SocketMessage::ToggleFloatOverride | SocketMessage::WindowHidingBehaviour(..) |
        SocketMessage::ToggleCrossMonitorMoveBehaviour |
        SocketMessage::CrossMonitorMoveBehaviour(..) |
        SocketMessage::ToggleMonocleFocusBehaviour | SocketMessage::MonocleFocusBehaviour(..) |
        SocketMessage::UnmanagedWindowOperationBehaviour(..) |
        SocketMessage::ManageFocusedWindow | SocketMessage::UnmanageFocusedWindow |
        SocketMessage::AdjustContainerPadding(..) | SocketMessage::AdjustWorkspacePadding(..) |
        SocketMessage::ChangeLayout(..) | SocketMessage::CycleLayout(..) |
        SocketMessage::LayoutRatios(..) | SocketMessage::ScrollingLayoutColumns(..) |
        SocketMessage::ChangeLayoutCustom(..) | SocketMessage::FlipLayout(..) |
        SocketMessage::ToggleWorkspaceWindowContainerBehaviour |
        SocketMessage::ToggleWorkspaceFloatOverride | SocketMessage::EnsureWorkspaces(..) |
        SocketMessage::EnsureNamedWorkspaces(..) | SocketMessage::NewWorkspace |
        SocketMessage::ToggleTiling | SocketMessage::TogglePause | SocketMessage::Retile |
        SocketMessage::RetileWithResizeDimensions | SocketMessage::CycleFocusMonitor(..) |
        SocketMessage::CycleFocusWorkspace(..) | SocketMessage::CycleFocusEmptyWorkspace(..) |
        SocketMessage::FocusMonitorNumber(..) | SocketMessage::FocusMonitorAtCursor |
        SocketMessage::FocusLastWorkspace | SocketMessage::CloseWorkspace |
        SocketMessage::FocusWorkspaceNumber(..) | SocketMessage::FocusWorkspaceNumbers(..) |
        SocketMessage::FocusMonitorWorkspaceNumber(..) |
        SocketMessage::FocusNamedWorkspace(..) | SocketMessage::ContainerPadding(..) |
        SocketMessage::NamedWorkspaceContainerPadding(..) |
        SocketMessage::FocusedWorkspaceContainerPadding(..) |
        SocketMessage::WorkspacePadding(..) | SocketMessage::NamedWorkspacePadding(..) |
        SocketMessage::FocusedWorkspacePadding(..) | SocketMessage::WorkspaceTiling(..) |
        SocketMessage::NamedWorkspaceTiling(..) | SocketMessage::WorkspaceName(..) |
        SocketMessage::WorkspaceLayout(..) | SocketMessage::NamedWorkspaceLayout(..) |
        SocketMessage::WorkspaceLayoutCustom(..) |
        SocketMessage::NamedWorkspaceLayoutCustom(..) |
        SocketMessage::WorkspaceLayoutRule(..) | SocketMessage::NamedWorkspaceLayoutRule(..) |
        SocketMessage::WorkspaceLayoutCustomRule(..) |
        SocketMessage::NamedWorkspaceLayoutCustomRule(..) |
        SocketMessage::ClearWorkspaceLayoutRules(..) |
        SocketMessage::ClearNamedWorkspaceLayoutRules(..) |
        SocketMessage::ToggleWorkspaceLayer | SocketMessage::FocusFollowsMouse(..) |
        SocketMessage::ToggleFocusFollowsMouse(..) | SocketMessage::MouseFollowsFocus(..) |
        SocketMessage::ToggleMouseFollowsFocus | SocketMessage::RemoveTitleBar(..) |
        SocketMessage::ToggleTitleBars | SocketMessage::SessionFloatRule |
        SocketMessage::ClearSessionFloatRules | SocketMessage::EnforceWorkspaceRules => SocketMessageClass::Action,
        SocketMessage::State | SocketMessage::GlobalState | SocketMessage::VisibleWindows |
        SocketMessage::MonitorInformation | SocketMessage::Query(..) |
        SocketMessage::SessionFloatRules => SocketMessageClass::Query,
        SocketMessage::AddSubscriberSocket(..) |
        SocketMessage::AddSubscriberSocketWithOptions(..) |
        SocketMessage::RemoveSubscriberSocket(..) | SocketMessage::AddSubscriberPipe(..) |
        SocketMessage::RemoveSubscriberPipe(..) => SocketMessageClass::Subscription,
        SocketMessage::MonitorIndexPreference(..) | SocketMessage::DisplayIndexPreference(..) |
        SocketMessage::ReloadConfiguration | SocketMessage::ReplaceConfiguration(..) |
        SocketMessage::ReloadStaticConfiguration(..) | SocketMessage::WatchConfiguration(..) |
        SocketMessage::CompleteConfiguration | SocketMessage::AltFocusHack(..) |
        SocketMessage::Theme(..) | SocketMessage::Animation(..) |
        SocketMessage::AnimationDuration(..) | SocketMessage::AnimationFps(..) |
        SocketMessage::AnimationStyle(..) | SocketMessage::Border(..) |
        SocketMessage::BorderColour(..) | SocketMessage::BorderStyle(..) |
        SocketMessage::BorderWidth(..) | SocketMessage::BorderOffset(..) |
        SocketMessage::BorderImplementation(..) | SocketMessage::Transparency(..) |
        SocketMessage::ToggleTransparency | SocketMessage::TransparencyAlpha(..) |
        SocketMessage::InvisibleBorders(..) | SocketMessage::StackbarMode(..) |
        SocketMessage::StackbarLabel(..) | SocketMessage::StackbarFocusedTextColour(..) |
        SocketMessage::StackbarUnfocusedTextColour(..) |
        SocketMessage::StackbarBackgroundColour(..) | SocketMessage::StackbarHeight(..) |
        SocketMessage::StackbarTabWidth(..) | SocketMessage::StackbarFontSize(..) |
        SocketMessage::StackbarFontFamily(..) | SocketMessage::WorkAreaOffset(..) |
        SocketMessage::MonitorWorkAreaOffset(..) | SocketMessage::WorkspaceWorkAreaOffset(..) |
        SocketMessage::ToggleWindowBasedWorkAreaOffset | SocketMessage::ResizeDelta(..) |
        SocketMessage::InitialWorkspaceRule(..) |
        SocketMessage::InitialNamedWorkspaceRule(..) | SocketMessage::WorkspaceRule(..) |
        SocketMessage::NamedWorkspaceRule(..) | SocketMessage::ClearWorkspaceRules(..) |
        SocketMessage::ClearNamedWorkspaceRules(..) | SocketMessage::ClearAllWorkspaceRules |
        SocketMessage::IgnoreRule(..) | SocketMessage::ManageRule(..) |
        SocketMessage::IdentifyObjectNameChangeApplication(..) |
        SocketMessage::IdentifyTrayApplication(..) |
        SocketMessage::IdentifyLayeredApplication(..) |
        SocketMessage::IdentifyBorderOverflowApplication(..) | SocketMessage::QuickSave |
        SocketMessage::QuickLoad | SocketMessage::Save(..) | SocketMessage::Load(..) => SocketMessageClass::Configuration,
        SocketMessage::Stop | SocketMessage::StopIgnoreRestore |
        SocketMessage::ApplicationSpecificConfigurationSchema |
        SocketMessage::NotificationSchema | SocketMessage::SocketSchema |
        SocketMessage::StaticConfigSchema | SocketMessage::GenerateStaticConfig |
        SocketMessage::DebugWindow(..) => SocketMessageClass::SchemaDebugAdmin,
        SocketMessage::ApplyState(..) => SocketMessageClass::InternalOnly,
    }
}

pub fn classify(message: &SocketMessage) -> (r: SocketMessageClass)
    ensures
        r == class_of(*message),
{
    match message {
        SocketMessage::FocusWindow(..) | SocketMessage::MoveWindow(..) |
        SocketMessage::PreselectDirection(..) | SocketMessage::CancelPreselect |
        SocketMessage::CycleFocusWindow(..) | SocketMessage::CycleMoveWindow(..) |
        SocketMessage::StackWindow(..) | SocketMessage::UnstackWindow |
        SocketMessage::CycleStack(..) | SocketMessage::CycleStackIndex(..) |
        SocketMessage::FocusStackWindow(..) | SocketMessage::StackAll |
        SocketMessage::UnstackAll | SocketMessage::ResizeWindowEdge(..) |
        SocketMessage::ResizeWindowAxis(..) | SocketMessage::MoveContainerToLastWorkspace |
        SocketMessage::SendContainerToLastWorkspace |
        SocketMessage::MoveContainerToMonitorNumber(..) |
        SocketMessage::CycleMoveContainerToMonitor(..) |
        SocketMessage::MoveContainerToWorkspaceNumber(..) |
        SocketMessage::MoveContainerToNamedWorkspace(..) |
        SocketMessage::CycleMoveContainerToWorkspace(..) |
        SocketMessage::SendContainerToMonitorNumber(..) |
        SocketMessage::CycleSendContainerToMonitor(..) |
        SocketMessage::SendContainerToWorkspaceNumber(..) |
        SocketMessage::CycleSendContainerToWorkspace(..) |
        SocketMessage::SendContainerToMonitorWorkspaceNumber(..) |
        SocketMessage::MoveContainerToMonitorWorkspaceNumber(..) |
        SocketMessage::SendContainerToNamedWorkspace(..) |
        SocketMessage::CycleMoveWorkspaceToMonitor(..) |
        SocketMessage::MoveWorkspaceToMonitorNumber(..) |
        SocketMessage::SwapWorkspacesToMonitorNumber(..) | SocketMessage::ForceFocus |
        SocketMessage::Close | SocketMessage::Minimize | SocketMessage::Promote |
        SocketMessage::PromoteSwap | SocketMessage::PromoteFocus |
        SocketMessage::PromoteWindow(..) | SocketMessage::EagerFocus(..) |
        SocketMessage::LockMonitorWorkspaceContainer(..) |
        SocketMessage::UnlockMonitorWorkspaceContainer(..) | SocketMessage::ToggleLock |
        SocketMessage::ToggleFloat | SocketMessage::ToggleMonocle |
        SocketMessage::ToggleMaximize | SocketMessage::ToggleWindowContainerBehaviour |
        SocketMessage::ToggleFloatOverride | SocketMessage::WindowHidingBehaviour(..) |
        SocketMessage::ToggleCrossMonitorMoveBehaviour |
        SocketMessage::CrossMonitorMoveBehaviour(..) |
        SocketMessage::ToggleMonocleFocusBehaviour | SocketMessage::MonocleFocusBehaviour(..) |
        SocketMessage::UnmanagedWindowOperationBehaviour(..) |
        SocketMessage::ManageFocusedWindow | SocketMessage::UnmanageFocusedWindow |
        SocketMessage::AdjustContainerPadding(..) | SocketMessage::AdjustWorkspacePadding(..) |
        SocketMessage::ChangeLayout(..) | SocketMessage::CycleLayout(..) |
        SocketMessage::LayoutRatios(..) | SocketMessage::ScrollingLayoutColumns(..) |
        SocketMessage::ChangeLayoutCustom(..) | SocketMessage::FlipLayout(..) |
        SocketMessage::ToggleWorkspaceWindowContainerBehaviour |
        SocketMessage::ToggleWorkspaceFloatOverride | SocketMessage::EnsureWorkspaces(..) |
        SocketMessage::EnsureNamedWorkspaces(..) | SocketMessage::NewWorkspace |
        SocketMessage::ToggleTiling | SocketMessage::TogglePause | SocketMessage::Retile |
        SocketMessage::RetileWithResizeDimensions | SocketMessage::CycleFocusMonitor(..) |
        SocketMessage::CycleFocusWorkspace(..) | SocketMessage::CycleFocusEmptyWorkspace(..) |
        SocketMessage::FocusMonitorNumber(..) | SocketMessage::FocusMonitorAtCursor |
        SocketMessage::FocusLastWorkspace | SocketMessage::CloseWorkspace |
        SocketMessage::FocusWorkspaceNumber(..) | SocketMessage::FocusWorkspaceNumbers(..) |
        SocketMessage::FocusMonitorWorkspaceNumber(..) |
        SocketMessage::FocusNamedWorkspace(..) | SocketMessage::ContainerPadding(..) |
        SocketMessage::NamedWorkspaceContainerPadding(..) |
        SocketMessage::FocusedWorkspaceContainerPadding(..) |
        SocketMessage::WorkspacePadding(..) | SocketMessage::NamedWorkspacePadding(..) |
        SocketMessage::FocusedWorkspacePadding(..) | SocketMessage::WorkspaceTiling(..) |
        SocketMessage::NamedWorkspaceTiling(..) | SocketMessage::WorkspaceName(..) |
        SocketMessage::WorkspaceLayout(..) | SocketMessage::NamedWorkspaceLayout(..) |
        SocketMessage::WorkspaceLayoutCustom(..) |
        SocketMessage::NamedWorkspaceLayoutCustom(..) |
        SocketMessage::WorkspaceLayoutRule(..) | SocketMessage::NamedWorkspaceLayoutRule(..) |
        SocketMessage::WorkspaceLayoutCustomRule(..) |
        SocketMessage::NamedWorkspaceLayoutCustomRule(..) |
        SocketMessage::ClearWorkspaceLayoutRules(..) |
        SocketMessage::ClearNamedWorkspaceLayoutRules(..) |
        SocketMessage::ToggleWorkspaceLayer | SocketMessage::FocusFollowsMouse(..) |
        SocketMessage::ToggleFocusFollowsMouse(..) | SocketMessage::MouseFollowsFocus(..) |
        SocketMessage::ToggleMouseFollowsFocus | SocketMessage::RemoveTitleBar(..) |
        SocketMessage::ToggleTitleBars | SocketMessage::SessionFloatRule |
        SocketMessage::ClearSessionFloatRules | SocketMessage::EnforceWorkspaceRules => SocketMessageClass::Action,
        SocketMessage::State | SocketMessage::GlobalState | SocketMessage::VisibleWindows |
        SocketMessage::MonitorInformation | SocketMessage::Query(..) |
        SocketMessage::SessionFloatRules => SocketMessageClass::Query,
        SocketMessage::AddSubscriberSocket(..) |
        SocketMessage::AddSubscriberSocketWithOptions(..) |
        SocketMessage::RemoveSubscriberSocket(..) | SocketMessage::AddSubscriberPipe(..) |
        SocketMessage::RemoveSubscriberPipe(..) => SocketMessageClass::Subscription,
        SocketMessage::MonitorIndexPreference(..) | SocketMessage::DisplayIndexPreference(..) |
        SocketMessage::ReloadConfiguration | SocketMessage::ReplaceConfiguration(..) |
        SocketMessage::ReloadStaticConfiguration(..) | SocketMessage::WatchConfiguration(..) |
        SocketMessage::CompleteConfiguration | SocketMessage::AltFocusHack(..) |
        SocketMessage::Theme(..) | SocketMessage::Animation(..) |
        SocketMessage::AnimationDuration(..) | SocketMessage::AnimationFps(..) |
        SocketMessage::AnimationStyle(..) | SocketMessage::Border(..) |
        SocketMessage::BorderColour(..) | SocketMessage::BorderStyle(..) |
        SocketMessage::BorderWidth(..) | SocketMessage::BorderOffset(..) |
        SocketMessage::BorderImplementation(..) | SocketMessage::Transparency(..) |
        SocketMessage::ToggleTransparency | SocketMessage::TransparencyAlpha(..) |
        SocketMessage::InvisibleBorders(..) | SocketMessage::StackbarMode(..) |
        SocketMessage::StackbarLabel(..) | SocketMessage::StackbarFocusedTextColour(..) |
        SocketMessage::StackbarUnfocusedTextColour(..) |
        SocketMessage::StackbarBackgroundColour(..) | SocketMessage::StackbarHeight(..) |
        SocketMessage::StackbarTabWidth(..) | SocketMessage::StackbarFontSize(..) |
        SocketMessage::StackbarFontFamily(..) | SocketMessage::WorkAreaOffset(..) |
        SocketMessage::MonitorWorkAreaOffset(..) | SocketMessage::WorkspaceWorkAreaOffset(..) |
        SocketMessage::ToggleWindowBasedWorkAreaOffset | SocketMessage::ResizeDelta(..) |
        SocketMessage::InitialWorkspaceRule(..) |
        SocketMessage::InitialNamedWorkspaceRule(..) | SocketMessage::WorkspaceRule(..) |
        SocketMessage::NamedWorkspaceRule(..) | SocketMessage::ClearWorkspaceRules(..) |
        SocketMessage::ClearNamedWorkspaceRules(..) | SocketMessage::ClearAllWorkspaceRules |
        SocketMessage::IgnoreRule(..) | SocketMessage::ManageRule(..) |
        SocketMessage::IdentifyObjectNameChangeApplication(..) |
        SocketMessage::IdentifyTrayApplication(..) |
        SocketMessage::IdentifyLayeredApplication(..) |
        SocketMessage::IdentifyBorderOverflowApplication(..) | SocketMessage::QuickSave |
        SocketMessage::QuickLoad | SocketMessage::Save(..) | SocketMessage::Load(..) => SocketMessageClass::Configuration,
        SocketMessage::Stop | SocketMessage::StopIgnoreRestore |
        SocketMessage::ApplicationSpecificConfigurationSchema |
        SocketMessage::NotificationSchema | SocketMessage::SocketSchema |
        SocketMessage::StaticConfigSchema | SocketMessage::GenerateStaticConfig |
        SocketMessage::DebugWindow(..) => SocketMessageClass::SchemaDebugAdmin,
        SocketMessage::ApplyState(..) => SocketMessageClass::InternalOnly,
    }
}

/// An action message whose parameters the built-in action cannot hold.
#[derive(Clone, Copy, Debug, PartialEq, Eq, Structural)]
pub enum SocketActionAdapterError {
    InvalidParameters,
}

/// The messages that stand for a built-in action.
pub open spec fn carries_action(message: SocketMessage) -> bool {
    match message {
        SocketMessage::FocusWindow(..) | SocketMessage::MoveWindow(..) |
        SocketMessage::PreselectDirection(..) | SocketMessage::CancelPreselect |
        SocketMessage::CycleFocusWindow(..) | SocketMessage::CycleMoveWindow(..) |
        SocketMessage::StackWindow(..) | SocketMessage::UnstackWindow |
        SocketMessage::CycleStack(..) | SocketMessage::CycleStackIndex(..) |
        SocketMessage::FocusStackWindow(..) | SocketMessage::StackAll |
        SocketMessage::UnstackAll | SocketMessage::ResizeWindowEdge(..) |
        SocketMessage::ResizeWindowAxis(..) | SocketMessage::MoveContainerToLastWorkspace |
        SocketMessage::SendContainerToLastWorkspace |
        SocketMessage::MoveContainerToMonitorNumber(..) |
        SocketMessage::CycleMoveContainerToMonitor(..) |
        SocketMessage::MoveContainerToWorkspaceNumber(..) |
        SocketMessage::MoveContainerToNamedWorkspace(..) |
        SocketMessage::CycleMoveContainerToWorkspace(..) |
        SocketMessage::SendContainerToMonitorNumber(..) |
        SocketMessage::CycleSendContainerToMonitor(..) |
        SocketMessage::SendContainerToWorkspaceNumber(..) |
        SocketMessage::CycleSendContainerToWorkspace(..) |
        SocketMessage::SendContainerToMonitorWorkspaceNumber(..) |
        SocketMessage::MoveContainerToMonitorWorkspaceNumber(..) |
        SocketMessage::SendContainerToNamedWorkspace(..) |
        SocketMessage::CycleMoveWorkspaceToMonitor(..) |
        SocketMessage::MoveWorkspaceToMonitorNumber(..) |
        SocketMessage::SwapWorkspacesToMonitorNumber(..) | SocketMessage::ForceFocus |
        SocketMessage::Close | SocketMessage::Minimize | SocketMessage::Promote |
        SocketMessage::PromoteSwap | SocketMessage::PromoteFocus |
        SocketMessage::PromoteWindow(..) | SocketMessage::EagerFocus(..) |
        SocketMessage::LockMonitorWorkspaceContainer(..) |
        SocketMessage::UnlockMonitorWorkspaceContainer(..) | SocketMessage::ToggleLock |
        SocketMessage::ToggleFloat | SocketMessage::ToggleMonocle |
        SocketMessage::ToggleMaximize | SocketMessage::ToggleWindowContainerBehaviour |
        SocketMessage::ToggleFloatOverride | SocketMessage::WindowHidingBehaviour(..) |
        SocketMessage::ToggleCrossMonitorMoveBehaviour |
        SocketMessage::CrossMonitorMoveBehaviour(..) |
        SocketMessage::ToggleMonocleFocusBehaviour | SocketMessage::MonocleFocusBehaviour(..) |
        SocketMessage::UnmanagedWindowOperationBehaviour(..) |
        SocketMessage::ManageFocusedWindow | SocketMessage::UnmanageFocusedWindow |
        SocketMessage::AdjustContainerPadding(..) | SocketMessage::AdjustWorkspacePadding(..) |
        SocketMessage::ChangeLayout(..) | SocketMessage::CycleLayout(..) |
        SocketMessage::LayoutRatios(..) | SocketMessage::ScrollingLayoutColumns(..) |
        SocketMessage::ChangeLayoutCustom(..) | SocketMessage::FlipLayout(..) |
        SocketMessage::ToggleWorkspaceWindowContainerBehaviour |
        SocketMessage::ToggleWorkspaceFloatOverride | SocketMessage::EnsureWorkspaces(..) |
        SocketMessage::EnsureNamedWorkspaces(..) | SocketMessage::NewWorkspace |
        SocketMessage::ToggleTiling | SocketMessage::TogglePause | SocketMessage::Retile |
        SocketMessage::RetileWithResizeDimensions | SocketMessage::CycleFocusMonitor(..) |
        SocketMessage::CycleFocusWorkspace(..) | SocketMessage::CycleFocusEmptyWorkspace(..) |
        SocketMessage::FocusMonitorNumber(..) | SocketMessage::FocusMonitorAtCursor |
        SocketMessage::FocusLastWorkspace | SocketMessage::CloseWorkspace |
        SocketMessage::FocusWorkspaceNumber(..) | SocketMessage::FocusWorkspaceNumbers(..) |
        SocketMessage::FocusMonitorWorkspaceNumber(..) |
        SocketMessage::FocusNamedWorkspace(..) | SocketMessage::ContainerPadding(..) |
        SocketMessage::NamedWorkspaceContainerPadding(..) |
        SocketMessage::FocusedWorkspaceContainerPadding(..) |
        SocketMessage::WorkspacePadding(..) | SocketMessage::NamedWorkspacePadding(..) |
        SocketMessage::FocusedWorkspacePadding(..) | SocketMessage::WorkspaceTiling(..) |
        SocketMessage::NamedWorkspaceTiling(..) | SocketMessage::WorkspaceName(..) |
        SocketMessage::WorkspaceLayout(..) | SocketMessage::NamedWorkspaceLayout(..) |
        SocketMessage::WorkspaceLayoutCustom(..) |
        SocketMessage::NamedWorkspaceLayoutCustom(..) |
        SocketMessage::WorkspaceLayoutRule(..) | SocketMessage::NamedWorkspaceLayoutRule(..) |
        SocketMessage::WorkspaceLayoutCustomRule(..) |
        SocketMessage::NamedWorkspaceLayoutCustomRule(..) |
        SocketMessage::ClearWorkspaceLayoutRules(..) |
        SocketMessage::ClearNamedWorkspaceLayoutRules(..) |
        SocketMessage::ToggleWorkspaceLayer | SocketMessage::FocusFollowsMouse(..) |
        SocketMessage::ToggleFocusFollowsMouse(..) | SocketMessage::MouseFollowsFocus(..) |
        SocketMessage::ToggleMouseFollowsFocus | SocketMessage::RemoveTitleBar(..) |
        SocketMessage::ToggleTitleBars | SocketMessage::SessionFloatRule |
        SocketMessage::ClearSessionFloatRules | SocketMessage::EnforceWorkspaceRules |
        SocketMessage::Border(..) | SocketMessage::BorderColour(..) |
        SocketMessage::BorderStyle(..) | SocketMessage::BorderWidth(..) |
        SocketMessage::BorderOffset(..) | SocketMessage::BorderImplementation(..) |
        SocketMessage::Transparency(..) | SocketMessage::ToggleTransparency |
        SocketMessage::TransparencyAlpha(..) | SocketMessage::ResizeDelta(..) => true,
        _ => false,
    }
}

/// The action messages whose parameters are invalid: an empty workspace name,
/// a path with a NUL unit, a resize step that is not positive, or no scrolling
/// columns.
pub open spec fn has_invalid_parameters(message: SocketMessage) -> bool {
    match message {
        SocketMessage::MoveContainerToNamedWorkspace(p0) => p0@.len() == 0,
        SocketMessage::SendContainerToNamedWorkspace(p0) => p0@.len() == 0,
        SocketMessage::ScrollingLayoutColumns(p0) => p0 == 0,
        SocketMessage::ChangeLayoutCustom(p0) => has_nul(p0@),
        SocketMessage::EnsureNamedWorkspaces(p0, p1) => exists|i: int| 0 <= i < p1@.len() && #[trigger] p1@[i]@.len() == 0,
        SocketMessage::FocusNamedWorkspace(p0) => p0@.len() == 0,
        SocketMessage::NamedWorkspaceContainerPadding(p0, p1) => p0@.len() == 0,
        SocketMessage::NamedWorkspacePadding(p0, p1) => p0@.len() == 0,
        SocketMessage::NamedWorkspaceTiling(p0, p1) => p0@.len() == 0,
        SocketMessage::WorkspaceName(p0, p1, p2) => p2@.len() == 0,
        SocketMessage::NamedWorkspaceLayout(p0, p1) => p0@.len() == 0,
        SocketMessage::WorkspaceLayoutCustom(p0, p1, p2) => has_nul(p2@),
        SocketMessage::NamedWorkspaceLayoutCustom(p0, p1) => p0@.len() == 0 || has_nul(p1@),
        SocketMessage::NamedWorkspaceLayoutRule(p0, p1, p2) => p0@.len() == 0,
        SocketMessage::WorkspaceLayoutCustomRule(p0, p1, p2, p3) => has_nul(p3@),
        SocketMessage::NamedWorkspaceLayoutCustomRule(p0, p1, p2) => p0@.len() == 0 || has_nul(p2@),
        SocketMessage::ClearNamedWorkspaceLayoutRules(p0) => p0@.len() == 0,
        SocketMessage::ResizeDelta(p0) => p0 <= 0,
        _ => false,
    }
}

/// The names holding these texts, in order.
pub open spec fn names_of_texts(names: Seq<WorkspaceName>, texts: Seq<String>) -> bool {
    names.len() == texts.len() && forall|i: int|
        0 <= i < names.len() ==> #[trigger] names[i] == WorkspaceName::of_string(texts[i])
}

/// `a` is the built-in action a valid action message stands for.
pub open spec fn adapts_to(message: SocketMessage, a: BuiltinAction) -> bool {
    match message {
        SocketMessage::FocusWindow(p0) => a matches BuiltinAction::FocusWindow { direction } && direction == p0,
        SocketMessage::MoveWindow(p0) => a matches BuiltinAction::MoveWindow { direction } && direction == p0,
        SocketMessage::PreselectDirection(p0) => a matches BuiltinAction::PreselectDirection { direction } && direction == p0,
        SocketMessage::CancelPreselect => a is CancelPreselect,
        SocketMessage::CycleFocusWindow(p0) => a matches BuiltinAction::CycleFocusWindow { direction } && direction == p0,
        SocketMessage::CycleMoveWindow(p0) => a matches BuiltinAction::CycleMoveWindow { direction } && direction == p0,
        SocketMessage::StackWindow(p0) => a matches BuiltinAction::StackWindow { direction } && direction == p0,
        SocketMessage::UnstackWindow => a matches BuiltinAction::UnstackWindow { window } && window == WindowSelector::FocusedAtExecution,
        SocketMessage::CycleStack(p0) => a matches BuiltinAction::CycleStack { direction } && direction == p0,
        SocketMessage::CycleStackIndex(p0) => a matches BuiltinAction::CycleStackIndex { direction } && direction == p0,
        SocketMessage::FocusStackWindow(p0) => a matches BuiltinAction::FocusStackWindow { index } && index == StackIndex { value: p0 },
        SocketMessage::StackAll => a is StackAll,
        SocketMessage::UnstackAll => a is UnstackAll,
        SocketMessage::ResizeWindowEdge(p0, p1) => a matches BuiltinAction::ResizeWindowEdgeByStep { direction, sizing } && direction == p0 && sizing == p1,
        SocketMessage::ResizeWindowAxis(p0, p1) => a matches BuiltinAction::ResizeWindowByStep { axis, sizing } && axis == p0 && sizing == p1,
        SocketMessage::MoveContainerToLastWorkspace => a is MoveContainerToLastWorkspace,
        SocketMessage::SendContainerToLastWorkspace => a is SendContainerToLastWorkspace,
        SocketMessage::MoveContainerToMonitorNumber(p0) => a matches BuiltinAction::MoveContainerToMonitor { index } && index == MonitorIndex { value: p0 },
        SocketMessage::CycleMoveContainerToMonitor(p0) => a matches BuiltinAction::CycleMoveContainerToMonitor { direction } && direction == p0,
        SocketMessage::MoveContainerToWorkspaceNumber(p0) => a matches BuiltinAction::MoveContainerToWorkspace { index } && index == WorkspaceIndex { value: p0 },
        SocketMessage::MoveContainerToNamedWorkspace(p0) => a matches BuiltinAction::MoveContainerToNamedWorkspace { name } && name == WorkspaceName::of_string(p0),
        SocketMessage::CycleMoveContainerToWorkspace(p0) => a matches BuiltinAction::CycleMoveContainerToWorkspace { direction } && direction == p0,
        SocketMessage::SendContainerToMonitorNumber(p0) => a matches BuiltinAction::SendContainerToMonitor { index } && index == MonitorIndex { value: p0 },
        SocketMessage::CycleSendContainerToMonitor(p0) => a matches BuiltinAction::CycleSendContainerToMonitor { direction } && direction == p0,
        SocketMessage::SendContainerToWorkspaceNumber(p0) => a matches BuiltinAction::SendContainerToWorkspace { index } && index == WorkspaceIndex { value: p0 },
        SocketMessage::CycleSendContainerToWorkspace(p0) => a matches BuiltinAction::CycleSendContainerToWorkspace { direction } && direction == p0,
        SocketMessage::SendContainerToMonitorWorkspaceNumber(p0, p1) => a matches BuiltinAction::SendContainerToMonitorWorkspace { monitor, workspace } && monitor == MonitorIndex { value: p0 } && workspace == WorkspaceIndex { value: p1 },
        SocketMessage::MoveContainerToMonitorWorkspaceNumber(p0, p1) => a matches BuiltinAction::MoveContainerToMonitorWorkspace { monitor, workspace } && monitor == MonitorIndex { value: p0 } && workspace == WorkspaceIndex { value: p1 },
        SocketMessage::SendContainerToNamedWorkspace(p0) => a matches BuiltinAction::SendContainerToNamedWorkspace { name } && name == WorkspaceName::of_string(p0),
        SocketMessage::CycleMoveWorkspaceToMonitor(p0) => a matches BuiltinAction::CycleMoveWorkspaceToMonitor { direction } && direction == p0,
        SocketMessage::MoveWorkspaceToMonitorNumber(p0) => a matches BuiltinAction::MoveWorkspaceToMonitor { index } && index == MonitorIndex { value: p0 },
        SocketMessage::SwapWorkspacesToMonitorNumber(p0) => a matches BuiltinAction::SwapWorkspacesToMonitor { index } && index == MonitorIndex { value: p0 },
        SocketMessage::ForceFocus => a matches BuiltinAction::ForceFocus { window } && window == WindowSelector::FocusedAtExecution,
        SocketMessage::Close => a matches BuiltinAction::CloseWindow { window } && window == WindowSelector::FocusedAtExecution,
        SocketMessage::Minimize => a matches BuiltinAction::MinimizeWindow { window } && window == WindowSelector::FocusedAtExecution,
        SocketMessage::Promote => a is PromoteContainer,
        SocketMessage::PromoteSwap => a is PromoteContainerSwap,
        SocketMessage::PromoteFocus => a is PromoteFocus,
        SocketMessage::PromoteWindow(p0) => a matches BuiltinAction::PromoteWindow { direction } && direction == p0,
        SocketMessage::EagerFocus(p0) => a matches BuiltinAction::EagerFocus { exe } && exe == p0,
        SocketMessage::LockMonitorWorkspaceContainer(p0, p1, p2) => a matches BuiltinAction::LockContainer { monitor, workspace, container } && monitor == MonitorIndex { value: p0 } && workspace == WorkspaceIndex { value: p1 } && container == ContainerIndex { value: p2 },
        SocketMessage::UnlockMonitorWorkspaceContainer(p0, p1, p2) => a matches BuiltinAction::UnlockContainer { monitor, workspace, container } && monitor == MonitorIndex { value: p0 } && workspace == WorkspaceIndex { value: p1 } && container == ContainerIndex { value: p2 },
        SocketMessage::ToggleLock => a matches BuiltinAction::ToggleContainerLock { window } && window == WindowSelector::FocusedAtExecution,
        SocketMessage::ToggleFloat => a matches BuiltinAction::ToggleWindowFloat { window } && window == WindowSelector::FocusedAtExecution,
        SocketMessage::ToggleMonocle => a matches BuiltinAction::ToggleWindowMonocle { window } && window == WindowSelector::FocusedAtExecution,
        SocketMessage::ToggleMaximize => a matches BuiltinAction::ToggleWindowMaximize { window } && window == WindowSelector::FocusedAtExecution,
        SocketMessage::ToggleWindowContainerBehaviour => a is ToggleWindowContainerBehaviour,
        SocketMessage::ToggleFloatOverride => a is ToggleFloatOverride,
        SocketMessage::WindowHidingBehaviour(p0) => a matches BuiltinAction::SetWindowHidingBehaviour { behaviour } && behaviour == p0,
        SocketMessage::ToggleCrossMonitorMoveBehaviour => a is ToggleCrossMonitorMoveBehaviour,
        SocketMessage::CrossMonitorMoveBehaviour(p0) => a matches BuiltinAction::SetCrossMonitorMoveBehaviour { behaviour } && behaviour == p0,
        SocketMessage::ToggleMonocleFocusBehaviour => a is ToggleMonocleFocusBehaviour,
        SocketMessage::MonocleFocusBehaviour(p0) => a matches BuiltinAction::SetMonocleFocusBehaviour { behaviour } && behaviour == p0,
        SocketMessage::UnmanagedWindowOperationBehaviour(p0) => a matches BuiltinAction::SetUnmanagedWindowOperationBehaviour { behaviour } && behaviour == p0,
        SocketMessage::ManageFocusedWindow => a is ManageFocusedWindow,
        SocketMessage::UnmanageFocusedWindow => a is UnmanageFocusedWindow,
        SocketMessage::AdjustContainerPadding(p0, p1) => a matches BuiltinAction::AdjustContainerPadding { sizing, adjustment } && sizing == p0 && adjustment == p1,
        SocketMessage::AdjustWorkspacePadding(p0, p1) => a matches BuiltinAction::AdjustWorkspacePadding { sizing, adjustment } && sizing == p0 && adjustment == p1,
        SocketMessage::ChangeLayout(p0) => a matches BuiltinAction::SetWorkspaceLayout { workspace, layout } && workspace == WorkspaceSelector::FocusedAtExecution && layout == p0,
        SocketMessage::CycleLayout(p0) => a matches BuiltinAction::CycleLayout { direction } && direction == p0,
        SocketMessage::LayoutRatios(p0, p1) => a matches BuiltinAction::SetLayoutRatios { columns, rows } && same_ratios(columns, p0) && same_ratios(rows, p1),
        SocketMessage::ScrollingLayoutColumns(p0) => a matches BuiltinAction::SetScrollingColumns { columns } && columns == p0,
        SocketMessage::ChangeLayoutCustom(p0) => a matches BuiltinAction::SetCustomLayout { path } && path.units() == p0@,
        SocketMessage::FlipLayout(p0) => a matches BuiltinAction::FlipLayout { axis } && axis == p0,
        SocketMessage::ToggleWorkspaceWindowContainerBehaviour => a is ToggleWorkspaceWindowContainerBehaviour,
        SocketMessage::ToggleWorkspaceFloatOverride => a is ToggleWorkspaceFloatOverride,
        SocketMessage::EnsureWorkspaces(p0, p1) => a matches BuiltinAction::EnsureWorkspaces { monitor, count } && monitor == MonitorIndex { value: p0 } && count == p1,
        SocketMessage::EnsureNamedWorkspaces(p0, p1) => a matches BuiltinAction::EnsureNamedWorkspaces { monitor, names } && monitor == MonitorIndex { value: p0 } && names_of_texts(names@, p1@),
        SocketMessage::NewWorkspace => a is NewWorkspace,
        SocketMessage::ToggleTiling => a is ToggleTiling,
        SocketMessage::TogglePause => a is TogglePause,
        SocketMessage::Retile => a is Retile,
        SocketMessage::RetileWithResizeDimensions => a is RetileWithResizeDimensions,
        SocketMessage::CycleFocusMonitor(p0) => a matches BuiltinAction::CycleFocusMonitor { direction } && direction == p0,
        SocketMessage::CycleFocusWorkspace(p0) => a matches BuiltinAction::CycleFocusWorkspace { direction } && direction == p0,
        SocketMessage::CycleFocusEmptyWorkspace(p0) => a matches BuiltinAction::CycleFocusEmptyWorkspace { direction } && direction == p0,
        SocketMessage::FocusMonitorNumber(p0) => a matches BuiltinAction::FocusMonitor { index } && index == MonitorIndex { value: p0 },
        SocketMessage::FocusMonitorAtCursor => a is FocusMonitorAtCursor,
        SocketMessage::FocusLastWorkspace => a is FocusLastWorkspace,
        SocketMessage::CloseWorkspace => a is CloseWorkspace,
        SocketMessage::FocusWorkspaceNumber(p0) => a matches BuiltinAction::FocusWorkspace { index } && index == WorkspaceIndex { value: p0 },
        SocketMessage::FocusWorkspaceNumbers(p0) => a matches BuiltinAction::FocusWorkspaceOnAllMonitors { index } && index == WorkspaceIndex { value: p0 },
        SocketMessage::FocusMonitorWorkspaceNumber(p0, p1) => a matches BuiltinAction::FocusMonitorWorkspace { monitor, workspace } && monitor == MonitorIndex { value: p0 } && workspace == WorkspaceIndex { value: p1 },
        SocketMessage::FocusNamedWorkspace(p0) => a matches BuiltinAction::FocusNamedWorkspace { name } && name == WorkspaceName::of_string(p0),
        SocketMessage::ContainerPadding(p0, p1, p2) => a matches BuiltinAction::SetContainerPadding { monitor, workspace, size } && monitor == MonitorIndex { value: p0 } && workspace == WorkspaceIndex { value: p1 } && size == p2,
        SocketMessage::NamedWorkspaceContainerPadding(p0, p1) => a matches BuiltinAction::SetNamedWorkspaceContainerPadding { name, size } && name == WorkspaceName::of_string(p0) && size == p1,
        SocketMessage::FocusedWorkspaceContainerPadding(p0) => a matches BuiltinAction::SetFocusedContainerPadding { size } && size == p0,
        SocketMessage::WorkspacePadding(p0, p1, p2) => a matches BuiltinAction::SetWorkspacePadding { monitor, workspace, size } && monitor == MonitorIndex { value: p0 } && workspace == WorkspaceIndex { value: p1 } && size == p2,
        SocketMessage::NamedWorkspacePadding(p0, p1) => a matches BuiltinAction::SetNamedWorkspacePadding { name, size } && name == WorkspaceName::of_string(p0) && size == p1,
        SocketMessage::FocusedWorkspacePadding(p0) => a matches BuiltinAction::SetFocusedWorkspacePadding { size } && size == p0,
        SocketMessage::WorkspaceTiling(p0, p1, p2) => a matches BuiltinAction::SetWorkspaceTiling { monitor, workspace, tile } && monitor == MonitorIndex { value: p0 } && workspace == WorkspaceIndex { value: p1 } && tile == p2,
        SocketMessage::NamedWorkspaceTiling(p0, p1) => a matches BuiltinAction::SetNamedWorkspaceTiling { name, tile } && name == WorkspaceName::of_string(p0) && tile == p1,
        SocketMessage::WorkspaceName(p0, p1, p2) => a matches BuiltinAction::SetWorkspaceName { monitor, workspace, name } && monitor == MonitorIndex { value: p0 } && workspace == WorkspaceIndex { value: p1 } && name == WorkspaceName::of_string(p2),
        SocketMessage::WorkspaceLayout(p0, p1, p2) => a matches BuiltinAction::SetMonitorWorkspaceLayout { monitor, workspace, layout } && monitor == MonitorIndex { value: p0 } && workspace == WorkspaceIndex { value: p1 } && layout == p2,
        SocketMessage::NamedWorkspaceLayout(p0, p1) => a matches BuiltinAction::SetNamedWorkspaceLayout { name, layout } && name == WorkspaceName::of_string(p0) && layout == p1,
        SocketMessage::WorkspaceLayoutCustom(p0, p1, p2) => a matches BuiltinAction::SetWorkspaceCustomLayout { monitor, workspace, path } && monitor == MonitorIndex { value: p0 } && workspace == WorkspaceIndex { value: p1 } && path.units() == p2@,
        SocketMessage::NamedWorkspaceLayoutCustom(p0, p1) => a matches BuiltinAction::SetNamedWorkspaceCustomLayout { name, path } && name == WorkspaceName::of_string(p0) && path.units() == p1@,
        SocketMessage::WorkspaceLayoutRule(p0, p1, p2, p3) => a matches BuiltinAction::AddWorkspaceLayoutRule { monitor, workspace, at_container_count, layout } && monitor == MonitorIndex { value: p0 } && workspace == WorkspaceIndex { value: p1 } && at_container_count == p2 && layout == p3,
        SocketMessage::NamedWorkspaceLayoutRule(p0, p1, p2) => a matches BuiltinAction::AddNamedWorkspaceLayoutRule { name, at_container_count, layout } && name == WorkspaceName::of_string(p0) && at_container_count == p1 && layout == p2,
        SocketMessage::WorkspaceLayoutCustomRule(p0, p1, p2, p3) => a matches BuiltinAction::AddWorkspaceCustomLayoutRule { monitor, workspace, at_container_count, path } && monitor == MonitorIndex { value: p0 } && workspace == WorkspaceIndex { value: p1 } && at_container_count == p2 && path.units() == p3@,
        SocketMessage::NamedWorkspaceLayoutCustomRule(p0, p1, p2) => a matches BuiltinAction::AddNamedWorkspaceCustomLayoutRule { name, at_container_count, path } && name == WorkspaceName::of_string(p0) && at_container_count == p1 && path.units() == p2@,
        SocketMessage::ClearWorkspaceLayoutRules(p0, p1) => a matches BuiltinAction::ClearWorkspaceLayoutRules { monitor, workspace } && monitor == MonitorIndex { value: p0 } && workspace == WorkspaceIndex { value: p1 },
        SocketMessage::ClearNamedWorkspaceLayoutRules(p0) => a matches BuiltinAction::ClearNamedWorkspaceLayoutRules { name } && name == WorkspaceName::of_string(p0),
        SocketMessage::ToggleWorkspaceLayer => a is ToggleWorkspaceLayer,
        SocketMessage::FocusFollowsMouse(p0, p1) => a matches BuiltinAction::SetFocusFollowsMouse { implementation, enabled } && implementation == p0 && enabled == p1,
        SocketMessage::ToggleFocusFollowsMouse(p0) => a matches BuiltinAction::ToggleFocusFollowsMouse { implementation } && implementation == p0,
        SocketMessage::MouseFollowsFocus(p0) => a matches BuiltinAction::SetMouseFollowsFocus { enabled } && enabled == p0,
        SocketMessage::ToggleMouseFollowsFocus => a is ToggleMouseFollowsFocus,
        SocketMessage::RemoveTitleBar(p0, p1) => a matches BuiltinAction::RemoveTitleBar { identifier, id } && identifier == p0 && id == p1,
        SocketMessage::ToggleTitleBars => a is ToggleTitleBars,
        SocketMessage::SessionFloatRule => a is AddSessionFloatRule,
        SocketMessage::ClearSessionFloatRules => a is ClearSessionFloatRules,
        SocketMessage::EnforceWorkspaceRules => a is EnforceWorkspaceRules,
        SocketMessage::Border(p0) => a matches BuiltinAction::SetBorderEnabled { enabled } && enabled == p0,
        SocketMessage::BorderColour(p0, p1, p2, p3) => a matches BuiltinAction::SetBorderColour { window_kind, colour } && window_kind == p0 && colour == Rgb { r: p1, g: p2, b: p3 },
        SocketMessage::BorderStyle(p0) => a matches BuiltinAction::SetBorderStyle { style } && style == p0,
        SocketMessage::BorderWidth(p0) => a matches BuiltinAction::SetBorderWidth { width } && width == BorderWidth { value: p0 },
        SocketMessage::BorderOffset(p0) => a matches BuiltinAction::SetBorderOffset { offset } && offset == BorderOffset { value: p0 },
        SocketMessage::BorderImplementation(p0) => a matches BuiltinAction::SetBorderImplementation { implementation } && implementation == p0,
        SocketMessage::Transparency(p0) => a matches BuiltinAction::SetTransparencyEnabled { enabled } && enabled == p0,
        SocketMessage::ToggleTransparency => a is ToggleTransparency,
        SocketMessage::TransparencyAlpha(p0) => a matches BuiltinAction::SetTransparencyAlpha { alpha } && alpha == TransparencyAlpha { value: p0 },
        SocketMessage::ResizeDelta(p0) => a matches BuiltinAction::SetResizeStep { step } && step.pixels() == p0,
        _ => false,
    }
}

pub fn copy_units(units: &Vec<u16>) -> (r: Vec<u16>)
    ensures
        r@ == units@,
{
    let mut r: Vec<u16> = Vec::new();
    let mut i: usize = 0;
    while i < units.len()
        invariant
            0 <= i <= units@.len(),
            r@ == units@.take(i as int),
        decreases units.len() - i,
    {
        r.push(units[i]);
        i = i + 1;
        proof {
            assert(r@ =~= units@.take(i as int));
        }
    }
    proof {
        assert(units@.take(i as int) =~= units@);
    }
    r
}

fn workspace_names(texts: &Vec<String>) -> (r: Option<Vec<WorkspaceName>>)
    ensures
        r is None <==> exists|i: int| 0 <= i < texts@.len() && #[trigger] texts@[i]@.len() == 0,
        r matches Some(names) ==> names_of_texts(names@, texts@),
{
    let mut names: Vec<WorkspaceName> = Vec::new();
    let mut i: usize = 0;
    while i < texts.len()
        invariant
            0 <= i <= texts@.len(),
            names@.len() == i,
            forall|j: int| 0 <= j < i ==> #[trigger] names@[j] == WorkspaceName::of_string(texts@[j]),
            forall|j: int| 0 <= j < i ==> #[trigger] texts@[j]@.len() != 0,
        decreases texts.len() - i,
    {
        match WorkspaceName::from_string(texts[i].clone()) {
            Ok(name) => names.push(name),
            Err(_) => {
                return None;
            },
        }
        i = i + 1;
    }
    Some(names)
}

/// The built-in action an action message stands for; other messages are no
/// action, and an action message with invalid parameters is refused.
pub fn adapt_action(message: &SocketMessage) -> (r: Result<Option<BuiltinAction>, SocketActionAdapterError>)
    ensures
        !carries_action(*message) ==> r == Ok::<Option<BuiltinAction>, SocketActionAdapterError>(None),
        carries_action(*message) && has_invalid_parameters(*message) ==> r == Err::<
            Option<BuiltinAction>,
            SocketActionAdapterError,
        >(SocketActionAdapterError::InvalidParameters),
        carries_action(*message) && !has_invalid_parameters(*message) ==> (r matches Ok(Some(a))
            && adapts_to(*message, a)),
{
    proof {
        reveal(same_ratios);
    }
    match message {
        SocketMessage::FocusWindow(p0) => Ok(Some(BuiltinAction::FocusWindow { direction: *p0 })),
        SocketMessage::MoveWindow(p0) => Ok(Some(BuiltinAction::MoveWindow { direction: *p0 })),
        SocketMessage::PreselectDirection(p0) => Ok(Some(BuiltinAction::PreselectDirection { direction: *p0 })),
        SocketMessage::CancelPreselect => Ok(Some(BuiltinAction::CancelPreselect)),
        SocketMessage::CycleFocusWindow(p0) => Ok(Some(BuiltinAction::CycleFocusWindow { direction: *p0 })),
        SocketMessage::CycleMoveWindow(p0) => Ok(Some(BuiltinAction::CycleMoveWindow { direction: *p0 })),
        SocketMessage::StackWindow(p0) => Ok(Some(BuiltinAction::StackWindow { direction: *p0 })),
        SocketMessage::UnstackWindow => Ok(Some(BuiltinAction::UnstackWindow { window: WindowSelector::FocusedAtExecution })),
        SocketMessage::CycleStack(p0) => Ok(Some(BuiltinAction::CycleStack { direction: *p0 })),
        SocketMessage::CycleStackIndex(p0) => Ok(Some(BuiltinAction::CycleStackIndex { direction: *p0 })),
        SocketMessage::FocusStackWindow(p0) => Ok(Some(BuiltinAction::FocusStackWindow { index: StackIndex { value: *p0 } })),
        SocketMessage::StackAll => Ok(Some(BuiltinAction::StackAll)),
        SocketMessage::UnstackAll => Ok(Some(BuiltinAction::UnstackAll)),
        SocketMessage::ResizeWindowEdge(p0, p1) => Ok(Some(BuiltinAction::ResizeWindowEdgeByStep { direction: *p0, sizing: *p1 })),
        SocketMessage::ResizeWindowAxis(p0, p1) => Ok(Some(BuiltinAction::ResizeWindowByStep { axis: *p0, sizing: *p1 })),
        SocketMessage::MoveContainerToLastWorkspace => Ok(Some(BuiltinAction::MoveContainerToLastWorkspace)),
        SocketMessage::SendContainerToLastWorkspace => Ok(Some(BuiltinAction::SendContainerToLastWorkspace)),
        SocketMessage::MoveContainerToMonitorNumber(p0) => Ok(Some(BuiltinAction::MoveContainerToMonitor { index: MonitorIndex { value: *p0 } })),
        SocketMessage::CycleMoveContainerToMonitor(p0) => Ok(Some(BuiltinAction::CycleMoveContainerToMonitor { direction: *p0 })),
        SocketMessage::MoveContainerToWorkspaceNumber(p0) => Ok(Some(BuiltinAction::MoveContainerToWorkspace { index: WorkspaceIndex { value: *p0 } })),
        SocketMessage::MoveContainerToNamedWorkspace(p0) => {
            let name = match WorkspaceName::from_string(p0.clone()) {
                Ok(name) => name,
                Err(_) => {
                    return Err(SocketActionAdapterError::InvalidParameters);
                },
            };
            Ok(Some(BuiltinAction::MoveContainerToNamedWorkspace { name }))
        },
        SocketMessage::CycleMoveContainerToWorkspace(p0) => Ok(Some(BuiltinAction::CycleMoveContainerToWorkspace { direction: *p0 })),
        SocketMessage::SendContainerToMonitorNumber(p0) => Ok(Some(BuiltinAction::SendContainerToMonitor { index: MonitorIndex { value: *p0 } })),
        SocketMessage::CycleSendContainerToMonitor(p0) => Ok(Some(BuiltinAction::CycleSendContainerToMonitor { direction: *p0 })),
        SocketMessage::SendContainerToWorkspaceNumber(p0) => Ok(Some(BuiltinAction::SendContainerToWorkspace { index: WorkspaceIndex { value: *p0 } })),
        SocketMessage::CycleSendContainerToWorkspace(p0) => Ok(Some(BuiltinAction::CycleSendContainerToWorkspace { direction: *p0 })),
        SocketMessage::SendContainerToMonitorWorkspaceNumber(p0, p1) => Ok(Some(BuiltinAction::SendContainerToMonitorWorkspace { monitor: MonitorIndex { value: *p0 }, workspace: WorkspaceIndex { value: *p1 } })),
        SocketMessage::MoveContainerToMonitorWorkspaceNumber(p0, p1) => Ok(Some(BuiltinAction::MoveContainerToMonitorWorkspace { monitor: MonitorIndex { value: *p0 }, workspace: WorkspaceIndex { value: *p1 } })),
        SocketMessage::SendContainerToNamedWorkspace(p0) => {
            let name = match WorkspaceName::from_string(p0.clone()) {
                Ok(name) => name,
                Err(_) => {
                    return Err(SocketActionAdapterError::InvalidParameters);
                },
            };
            Ok(Some(BuiltinAction::SendContainerToNamedWorkspace { name }))
        },
        SocketMessage::CycleMoveWorkspaceToMonitor(p0) => Ok(Some(BuiltinAction::CycleMoveWorkspaceToMonitor { direction: *p0 })),
        SocketMessage::MoveWorkspaceToMonitorNumber(p0) => Ok(Some(BuiltinAction::MoveWorkspaceToMonitor { index: MonitorIndex { value: *p0 } })),
        SocketMessage::SwapWorkspacesToMonitorNumber(p0) => Ok(Some(BuiltinAction::SwapWorkspacesToMonitor { index: MonitorIndex { value: *p0 } })),
        SocketMessage::ForceFocus => Ok(Some(BuiltinAction::ForceFocus { window: WindowSelector::FocusedAtExecution })),
        SocketMessage::Close => Ok(Some(BuiltinAction::CloseWindow { window: WindowSelector::FocusedAtExecution })),
        SocketMessage::Minimize => Ok(Some(BuiltinAction::MinimizeWindow { window: WindowSelector::FocusedAtExecution })),
        SocketMessage::Promote => Ok(Some(BuiltinAction::PromoteContainer)),
        SocketMessage::PromoteSwap => Ok(Some(BuiltinAction::PromoteContainerSwap)),
        SocketMessage::PromoteFocus => Ok(Some(BuiltinAction::PromoteFocus)),
        SocketMessage::PromoteWindow(p0) => Ok(Some(BuiltinAction::PromoteWindow { direction: *p0 })),
        SocketMessage::EagerFocus(p0) => {
            let exe = p0.clone();
            Ok(Some(BuiltinAction::EagerFocus { exe }))
        },
        SocketMessage::LockMonitorWorkspaceContainer(p0, p1, p2) => Ok(Some(BuiltinAction::LockContainer { monitor: MonitorIndex { value: *p0 }, workspace: WorkspaceIndex { value: *p1 }, container: ContainerIndex { value: *p2 } })),
        SocketMessage::UnlockMonitorWorkspaceContainer(p0, p1, p2) => Ok(Some(BuiltinAction::UnlockContainer { monitor: MonitorIndex { value: *p0 }, workspace: WorkspaceIndex { value: *p1 }, container: ContainerIndex { value: *p2 } })),
        SocketMessage::ToggleLock => Ok(Some(BuiltinAction::ToggleContainerLock { window: WindowSelector::FocusedAtExecution })),
        SocketMessage::ToggleFloat => Ok(Some(BuiltinAction::ToggleWindowFloat { window: WindowSelector::FocusedAtExecution })),
        SocketMessage::ToggleMonocle => Ok(Some(BuiltinAction::ToggleWindowMonocle { window: WindowSelector::FocusedAtExecution })),
        SocketMessage::ToggleMaximize => Ok(Some(BuiltinAction::ToggleWindowMaximize { window: WindowSelector::FocusedAtExecution })),
        SocketMessage::ToggleWindowContainerBehaviour => Ok(Some(BuiltinAction::ToggleWindowContainerBehaviour)),
        SocketMessage::ToggleFloatOverride => Ok(Some(BuiltinAction::ToggleFloatOverride)),
        SocketMessage::WindowHidingBehaviour(p0) => Ok(Some(BuiltinAction::SetWindowHidingBehaviour { behaviour: *p0 })),
        SocketMessage::ToggleCrossMonitorMoveBehaviour => Ok(Some(BuiltinAction::ToggleCrossMonitorMoveBehaviour)),
        SocketMessage::CrossMonitorMoveBehaviour(p0) => Ok(Some(BuiltinAction::SetCrossMonitorMoveBehaviour { behaviour: *p0 })),
        SocketMessage::ToggleMonocleFocusBehaviour => Ok(Some(BuiltinAction::ToggleMonocleFocusBehaviour)),
        SocketMessage::MonocleFocusBehaviour(p0) => Ok(Some(BuiltinAction::SetMonocleFocusBehaviour { behaviour: *p0 })),
        SocketMessage::UnmanagedWindowOperationBehaviour(p0) => Ok(Some(BuiltinAction::SetUnmanagedWindowOperationBehaviour { behaviour: *p0 })),
        SocketMessage::ManageFocusedWindow => Ok(Some(BuiltinAction::ManageFocusedWindow)),
        SocketMessage::UnmanageFocusedWindow => Ok(Some(BuiltinAction::UnmanageFocusedWindow)),
        SocketMessage::AdjustContainerPadding(p0, p1) => Ok(Some(BuiltinAction::AdjustContainerPadding { sizing: *p0, adjustment: *p1 })),
        SocketMessage::AdjustWorkspacePadding(p0, p1) => Ok(Some(BuiltinAction::AdjustWorkspacePadding { sizing: *p0, adjustment: *p1 })),
        SocketMessage::ChangeLayout(p0) => Ok(Some(BuiltinAction::SetWorkspaceLayout { workspace: WorkspaceSelector::FocusedAtExecution, layout: *p0 })),
        SocketMessage::CycleLayout(p0) => Ok(Some(BuiltinAction::CycleLayout { direction: *p0 })),
        SocketMessage::LayoutRatios(p0, p1) => {
            let columns = duplicate_ratio_lists(p0);
            let rows = duplicate_ratio_lists(p1);
            Ok(Some(BuiltinAction::SetLayoutRatios { columns, rows }))
        },
        SocketMessage::ScrollingLayoutColumns(p0) => {
            if *p0 == 0 {
                return Err(SocketActionAdapterError::InvalidParameters);
            }
            let columns = *p0;
            Ok(Some(BuiltinAction::SetScrollingColumns { columns }))
        },
        SocketMessage::ChangeLayoutCustom(p0) => {
            let path = match WindowsPath::from_wtf16(copy_units(p0)) {
                Ok(path) => path,
                Err(_) => {
                    return Err(SocketActionAdapterError::InvalidParameters);
                },
            };
            Ok(Some(BuiltinAction::SetCustomLayout { path }))
        },
        SocketMessage::FlipLayout(p0) => Ok(Some(BuiltinAction::FlipLayout { axis: *p0 })),
        SocketMessage::ToggleWorkspaceWindowContainerBehaviour => Ok(Some(BuiltinAction::ToggleWorkspaceWindowContainerBehaviour)),
        SocketMessage::ToggleWorkspaceFloatOverride => Ok(Some(BuiltinAction::ToggleWorkspaceFloatOverride)),
        SocketMessage::EnsureWorkspaces(p0, p1) => Ok(Some(BuiltinAction::EnsureWorkspaces { monitor: MonitorIndex { value: *p0 }, count: *p1 })),
        SocketMessage::EnsureNamedWorkspaces(p0, p1) => {
            let names = match workspace_names(p1) {
                Some(names) => names,
                None => {
                    return Err(SocketActionAdapterError::InvalidParameters);
                },
            };
            Ok(Some(BuiltinAction::EnsureNamedWorkspaces { monitor: MonitorIndex { value: *p0 }, names }))
        },
        SocketMessage::NewWorkspace => Ok(Some(BuiltinAction::NewWorkspace)),
        SocketMessage::ToggleTiling => Ok(Some(BuiltinAction::ToggleTiling)),
        SocketMessage::TogglePause => Ok(Some(BuiltinAction::TogglePause)),
        SocketMessage::Retile => Ok(Some(BuiltinAction::Retile)),
        SocketMessage::RetileWithResizeDimensions => Ok(Some(BuiltinAction::RetileWithResizeDimensions)),
        SocketMessage::CycleFocusMonitor(p0) => Ok(Some(BuiltinAction::CycleFocusMonitor { direction: *p0 })),
        SocketMessage::CycleFocusWorkspace(p0) => Ok(Some(BuiltinAction::CycleFocusWorkspace { direction: *p0 })),
        SocketMessage::CycleFocusEmptyWorkspace(p0) => Ok(Some(BuiltinAction::CycleFocusEmptyWorkspace { direction: *p0 })),
        SocketMessage::FocusMonitorNumber(p0) => Ok(Some(BuiltinAction::FocusMonitor { index: MonitorIndex { value: *p0 } })),
        SocketMessage::FocusMonitorAtCursor => Ok(Some(BuiltinAction::FocusMonitorAtCursor)),
        SocketMessage::FocusLastWorkspace => Ok(Some(BuiltinAction::FocusLastWorkspace)),
        SocketMessage::CloseWorkspace => Ok(Some(BuiltinAction::CloseWorkspace)),
        SocketMessage::FocusWorkspaceNumber(p0) => Ok(Some(BuiltinAction::FocusWorkspace { index: WorkspaceIndex { value: *p0 } })),
        SocketMessage::FocusWorkspaceNumbers(p0) => Ok(Some(BuiltinAction::FocusWorkspaceOnAllMonitors { index: WorkspaceIndex { value: *p0 } })),
        SocketMessage::FocusMonitorWorkspaceNumber(p0, p1) => Ok(Some(BuiltinAction::FocusMonitorWorkspace { monitor: MonitorIndex { value: *p0 }, workspace: WorkspaceIndex { value: *p1 } })),
        SocketMessage::FocusNamedWorkspace(p0) => {
            let name = match WorkspaceName::from_string(p0.clone()) {
                Ok(name) => name,
                Err(_) => {
                    return Err(SocketActionAdapterError::InvalidParameters);
                },
            };
            Ok(Some(BuiltinAction::FocusNamedWorkspace { name }))
        },
        SocketMessage::ContainerPadding(p0, p1, p2) => Ok(Some(BuiltinAction::SetContainerPadding { monitor: MonitorIndex { value: *p0 }, workspace: WorkspaceIndex { value: *p1 }, size: *p2 })),
        SocketMessage::NamedWorkspaceContainerPadding(p0, p1) => {
            let name = match WorkspaceName::from_string(p0.clone()) {
                Ok(name) => name,
                Err(_) => {
                    return Err(SocketActionAdapterError::InvalidParameters);
                },
            };
            Ok(Some(BuiltinAction::SetNamedWorkspaceContainerPadding { name, size: *p1 }))
        },
        SocketMessage::FocusedWorkspaceContainerPadding(p0) => Ok(Some(BuiltinAction::SetFocusedContainerPadding { size: *p0 })),
        SocketMessage::WorkspacePadding(p0, p1, p2) => Ok(Some(BuiltinAction::SetWorkspacePadding { monitor: MonitorIndex { value: *p0 }, workspace: WorkspaceIndex { value: *p1 }, size: *p2 })),
        SocketMessage::NamedWorkspacePadding(p0, p1) => {
            let name = match WorkspaceName::from_string(p0.clone()) {
                Ok(name) => name,
                Err(_) => {
                    return Err(SocketActionAdapterError::InvalidParameters);
                },
            };
            Ok(Some(BuiltinAction::SetNamedWorkspacePadding { name, size: *p1 }))
        },
        SocketMessage::FocusedWorkspacePadding(p0) => Ok(Some(BuiltinAction::SetFocusedWorkspacePadding { size: *p0 })),
        SocketMessage::WorkspaceTiling(p0, p1, p2) => Ok(Some(BuiltinAction::SetWorkspaceTiling { monitor: MonitorIndex { value: *p0 }, workspace: WorkspaceIndex { value: *p1 }, tile: *p2 })),
        SocketMessage::NamedWorkspaceTiling(p0, p1) => {
            let name = match WorkspaceName::from_string(p0.clone()) {
                Ok(name) => name,
                Err(_) => {
                    return Err(SocketActionAdapterError::InvalidParameters);
                },
            };
            Ok(Some(BuiltinAction::SetNamedWorkspaceTiling { name, tile: *p1 }))
        },
        SocketMessage::WorkspaceName(p0, p1, p2) => {
            let name = match WorkspaceName::from_string(p2.clone()) {
                Ok(name) => name,
                Err(_) => {
                    return Err(SocketActionAdapterError::InvalidParameters);
                },
            };
            Ok(Some(BuiltinAction::SetWorkspaceName { monitor: MonitorIndex { value: *p0 }, workspace: WorkspaceIndex { value: *p1 }, name }))
        },
        SocketMessage::WorkspaceLayout(p0, p1, p2) => Ok(Some(BuiltinAction::SetMonitorWorkspaceLayout { monitor: MonitorIndex { value: *p0 }, workspace: WorkspaceIndex { value: *p1 }, layout: *p2 })),
        SocketMessage::NamedWorkspaceLayout(p0, p1) => {
            let name = match WorkspaceName::from_string(p0.clone()) {
                Ok(name) => name,
                Err(_) => {
                    return Err(SocketActionAdapterError::InvalidParameters);
                },
            };
            Ok(Some(BuiltinAction::SetNamedWorkspaceLayout { name, layout: *p1 }))
        },
        SocketMessage::WorkspaceLayoutCustom(p0, p1, p2) => {
            let path = match WindowsPath::from_wtf16(copy_units(p2)) {
                Ok(path) => path,
                Err(_) => {
                    return Err(SocketActionAdapterError::InvalidParameters);
                },
            };
            Ok(Some(BuiltinAction::SetWorkspaceCustomLayout { monitor: MonitorIndex { value: *p0 }, workspace: WorkspaceIndex { value: *p1 }, path }))
        },
        SocketMessage::NamedWorkspaceLayoutCustom(p0, p1) => {
            let name = match WorkspaceName::from_string(p0.clone()) {
                Ok(name) => name,
                Err(_) => {
                    return Err(SocketActionAdapterError::InvalidParameters);
                },
            };
            let path = match WindowsPath::from_wtf16(copy_units(p1)) {
                Ok(path) => path,
                Err(_) => {
                    return Err(SocketActionAdapterError::InvalidParameters);
                },
            };
            Ok(Some(BuiltinAction::SetNamedWorkspaceCustomLayout { name, path }))
        },
        SocketMessage::WorkspaceLayoutRule(p0, p1, p2, p3) => Ok(Some(BuiltinAction::AddWorkspaceLayoutRule { monitor: MonitorIndex { value: *p0 }, workspace: WorkspaceIndex { value: *p1 }, at_container_count: *p2, layout: *p3 })),
        SocketMessage::NamedWorkspaceLayoutRule(p0, p1, p2) => {
            let name = match WorkspaceName::from_string(p0.clone()) {
                Ok(name) => name,
                Err(_) => {
                    return Err(SocketActionAdapterError::InvalidParameters);
                },
            };
            Ok(Some(BuiltinAction::AddNamedWorkspaceLayoutRule { name, at_container_count: *p1, layout: *p2 }))
        },
        SocketMessage::WorkspaceLayoutCustomRule(p0, p1, p2, p3) => {
            let path = match WindowsPath::from_wtf16(copy_units(p3)) {
                Ok(path) => path,
                Err(_) => {
                    return Err(SocketActionAdapterError::InvalidParameters);
                },
            };
            Ok(Some(BuiltinAction::AddWorkspaceCustomLayoutRule { monitor: MonitorIndex { value: *p0 }, workspace: WorkspaceIndex { value: *p1 }, at_container_count: *p2, path }))
        },
        SocketMessage::NamedWorkspaceLayoutCustomRule(p0, p1, p2) => {
            let name = match WorkspaceName::from_string(p0.clone()) {
                Ok(name) => name,
                Err(_) => {
                    return Err(SocketActionAdapterError::InvalidParameters);
                },
            };
            let path = match WindowsPath::from_wtf16(copy_units(p2)) {
                Ok(path) => path,
                Err(_) => {
                    return Err(SocketActionAdapterError::InvalidParameters);
                },
            };
            Ok(Some(BuiltinAction::AddNamedWorkspaceCustomLayoutRule { name, at_container_count: *p1, path }))
        },
        SocketMessage::ClearWorkspaceLayoutRules(p0, p1) => Ok(Some(BuiltinAction::ClearWorkspaceLayoutRules { monitor: MonitorIndex { value: *p0 }, workspace: WorkspaceIndex { value: *p1 } })),
        SocketMessage::ClearNamedWorkspaceLayoutRules(p0) => {
            let name = match WorkspaceName::from_string(p0.clone()) {
                Ok(name) => name,
                Err(_) => {
                    return Err(SocketActionAdapterError::InvalidParameters);
                },
            };
            Ok(Some(BuiltinAction::ClearNamedWorkspaceLayoutRules { name }))
        },
        SocketMessage::ToggleWorkspaceLayer => Ok(Some(BuiltinAction::ToggleWorkspaceLayer)),
        SocketMessage::FocusFollowsMouse(p0, p1) => Ok(Some(BuiltinAction::SetFocusFollowsMouse { implementation: *p0, enabled: *p1 })),
        SocketMessage::ToggleFocusFollowsMouse(p0) => Ok(Some(BuiltinAction::ToggleFocusFollowsMouse { implementation: *p0 })),
        SocketMessage::MouseFollowsFocus(p0) => Ok(Some(BuiltinAction::SetMouseFollowsFocus { enabled: *p0 })),
        SocketMessage::ToggleMouseFollowsFocus => Ok(Some(BuiltinAction::ToggleMouseFollowsFocus)),
        SocketMessage::RemoveTitleBar(p0, p1) => {
            let id = p1.clone();
            Ok(Some(BuiltinAction::RemoveTitleBar { identifier: *p0, id }))
        },
        SocketMessage::ToggleTitleBars => Ok(Some(BuiltinAction::ToggleTitleBars)),
        SocketMessage::SessionFloatRule => Ok(Some(BuiltinAction::AddSessionFloatRule)),
        SocketMessage::ClearSessionFloatRules => Ok(Some(BuiltinAction::ClearSessionFloatRules)),
        SocketMessage::EnforceWorkspaceRules => Ok(Some(BuiltinAction::EnforceWorkspaceRules)),
        SocketMessage::Border(p0) => Ok(Some(BuiltinAction::SetBorderEnabled { enabled: *p0 })),
        SocketMessage::BorderColour(p0, p1, p2, p3) => Ok(Some(BuiltinAction::SetBorderColour { window_kind: *p0, colour: Rgb { r: *p1, g: *p2, b: *p3 } })),
        SocketMessage::BorderStyle(p0) => Ok(Some(BuiltinAction::SetBorderStyle { style: *p0 })),
        SocketMessage::BorderWidth(p0) => Ok(Some(BuiltinAction::SetBorderWidth { width: BorderWidth { value: *p0 } })),
        SocketMessage::BorderOffset(p0) => Ok(Some(BuiltinAction::SetBorderOffset { offset: BorderOffset { value: *p0 } })),
        SocketMessage::BorderImplementation(p0) => Ok(Some(BuiltinAction::SetBorderImplementation { implementation: *p0 })),
        SocketMessage::Transparency(p0) => Ok(Some(BuiltinAction::SetTransparencyEnabled { enabled: *p0 })),
        SocketMessage::ToggleTransparency => Ok(Some(BuiltinAction::ToggleTransparency)),
        SocketMessage::TransparencyAlpha(p0) => Ok(Some(BuiltinAction::SetTransparencyAlpha { alpha: TransparencyAlpha { value: *p0 } })),
        SocketMessage::ResizeDelta(p0) => {
            let step = match ResizeStep::new(*p0) {
                Ok(step) => step,
                Err(_) => {
                    return Err(SocketActionAdapterError::InvalidParameters);
                },
            };
            Ok(Some(BuiltinAction::SetResizeStep { step }))
        },
        _ => Ok(None),
    }
}

/// The built-in action a valid action message stands for.
pub fn to_builtin_action(message: &SocketMessage) -> (r: Option<BuiltinAction>)
    ensures
        r is Some <==> carries_action(*message) && !has_invalid_parameters(*message),
        r matches Some(a) ==> adapts_to(*message, a),
{
    match adapt_action(message) {
        Ok(action) => action,
        Err(_) => None,
    }
}

/// Every action message is classified as an action, except the configuration
/// setters that the catalog also offers; no query, subscription or
/// administration message stands for an action.
pub proof fn lemma_action_messages_are_actions_or_settings(message: SocketMessage)
    ensures
        class_of(message) == SocketMessageClass::Action ==> carries_action(message),
        carries_action(message) ==> class_of(message) == SocketMessageClass::Action || class_of(
            message,
        ) == SocketMessageClass::Configuration,
{
}

} // verus!
