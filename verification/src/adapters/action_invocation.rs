//! The binding of an invocation's arguments to the built-in action it names.

pub mod arguments;

use vstd::prelude::*;
use crate::action::builtin_action::BuiltinAction;
use crate::action::builtin_action::BuiltinActionKind;
use crate::action::builtin_action::LayoutRatio;
use crate::action::definition::parameters_of;
use crate::action::meaning::container_field;
use crate::action::meaning::path_field;
use crate::action::meaning::adjustment_field;
use crate::action::meaning::alpha_field;
use crate::action::meaning::at_container_count_field;
use crate::action::meaning::axis_field;
use crate::action::meaning::hiding_behaviour_field;
use crate::action::meaning::monocle_behaviour_field;
use crate::action::meaning::move_behaviour_field;
use crate::action::meaning::operation_behaviour_field;
use crate::action::meaning::colour_field;
use crate::action::meaning::count_field;
use crate::action::meaning::delta_field;
use crate::action::meaning::cycle_field;
use crate::action::meaning::direction_field;
use crate::action::meaning::enabled_field;
use crate::action::meaning::tile_field;
use crate::action::meaning::border_implementation_field;
use crate::action::meaning::ffm_implementation_field;
use crate::action::meaning::layout_field;
use crate::action::meaning::offset_field;
use crate::action::meaning::width_field;
use crate::action::meaning::style_field;
use crate::action::meaning::step_field;
use crate::action::meaning::size_field;
use crate::action::meaning::sizing_field;
use crate::action::meaning::window_field;
use crate::action::meaning::window_kind_field;
use crate::action::meaning::workspace_selector_field;
use crate::action::meaning::name_field;
use crate::action::meaning::index_field;
use crate::action::meaning::monitor_field;
use crate::action::meaning::workspace_field;
use crate::action::id::ParameterId;
use crate::action::index::ContainerIndex;
use crate::action::index::MonitorIndex;
use crate::action::index::StackIndex;
use crate::action::index::WorkspaceIndex;
use crate::action::id::ActionId;
use crate::action::offer::ActionAvailability;
use crate::action::offer::ActionOffer;
use crate::action::offer::Unavailability;
use crate::stamp::StateStamp;
use crate::stamp::lemma_stamp_equality;
use crate::action::offer::DynamicParameterChoice;
use crate::action::offer::DynamicParameterChoices;
use crate::adapters::action_invocation::arguments::ActionArgument;
use crate::adapters::action_invocation::arguments::ActionArguments;
use crate::adapters::action_invocation::arguments::ArgumentBindingError;
use crate::adapters::action_invocation::arguments::ArgumentScalar;
use crate::adapters::action_invocation::arguments::ValidatedArguments;
use crate::adapters::action_invocation::arguments::alpha_of;
use crate::adapters::action_invocation::arguments::application_identifier_of;
use crate::adapters::action_invocation::arguments::argument_of;
use crate::adapters::action_invocation::arguments::axis_of;
use crate::adapters::action_invocation::arguments::boolean_of;
use crate::adapters::action_invocation::arguments::border_implementation_of;
use crate::adapters::action_invocation::arguments::border_offset_of;
use crate::adapters::action_invocation::arguments::border_style_of;
use crate::adapters::action_invocation::arguments::border_width_of;
use crate::adapters::action_invocation::arguments::cycle_of;
use crate::adapters::action_invocation::arguments::direction_of;
use crate::adapters::action_invocation::arguments::ffm_implementation_of;
use crate::adapters::action_invocation::arguments::find;
use crate::adapters::action_invocation::arguments::hiding_behaviour_of;
use crate::adapters::action_invocation::arguments::i32_of;
use crate::adapters::action_invocation::arguments::layout_of;
use crate::adapters::action_invocation::arguments::monocle_behaviour_of;
use crate::adapters::action_invocation::arguments::move_behaviour_of;
use crate::adapters::action_invocation::arguments::names_of;
use crate::adapters::action_invocation::arguments::nonzero_usize_of;
use crate::adapters::action_invocation::arguments::operation_behaviour_of;
use crate::adapters::action_invocation::arguments::pixels_of;
use crate::adapters::action_invocation::arguments::ratios_of;
use crate::adapters::action_invocation::arguments::resize_step_of;
use crate::adapters::action_invocation::arguments::rgb_of;
use crate::adapters::action_invocation::arguments::same_text;
use crate::adapters::action_invocation::arguments::sizing_of;
use crate::adapters::action_invocation::arguments::text_of;
use crate::adapters::action_invocation::arguments::usize_of;
use crate::adapters::action_invocation::arguments::validation_of;
use crate::adapters::action_invocation::arguments::window_kind_of;
use crate::adapters::action_invocation::arguments::window_selector_of;
use crate::adapters::action_invocation::arguments::windows_path_of;
use crate::adapters::action_invocation::arguments::workspace_name_of;
use crate::adapters::action_invocation::arguments::workspace_selector_of;
use crate::manager_types::OperationDirection;

verus! {

/// The values of an optional list of ratios.
pub open spec fn ratio_view(ratios: Option<Vec<LayoutRatio>>) -> Option<Seq<LayoutRatio>> {
    match ratios {
        Some(v) => Some(v@),
        None => None,
    }
}

/// Whether `r` is what binding arguments that fit the definition of `kind`
/// gives: the parameters are read in the order of the action's fields, and the
/// first that fails is the error.
pub open spec fn binding_of(
    kind: BuiltinActionKind,
    v: Seq<(String, ActionArgument)>,
    r: Result<BuiltinAction, ArgumentBindingError>,
) -> bool {
    match kind {
        BuiltinActionKind::FocusWindow => match direction_of(v, ParameterId::Direction) {
            Err(e) => r == Err::<BuiltinAction, ArgumentBindingError>(e),
            Ok(x0) => r == Ok::<BuiltinAction, ArgumentBindingError>(BuiltinAction::FocusWindow { direction: x0 }),
        },
        BuiltinActionKind::MoveWindow => match direction_of(v, ParameterId::Direction) {
            Err(e) => r == Err::<BuiltinAction, ArgumentBindingError>(e),
            Ok(x0) => r == Ok::<BuiltinAction, ArgumentBindingError>(BuiltinAction::MoveWindow { direction: x0 }),
        },
        BuiltinActionKind::ResizeWindow => match axis_of(v, ParameterId::Axis) {
            Err(e) => r == Err::<BuiltinAction, ArgumentBindingError>(e),
            Ok(x0) => match pixels_of(v, ParameterId::Delta) {
                Err(e) => r == Err::<BuiltinAction, ArgumentBindingError>(e),
                Ok(x1) => r == Ok::<BuiltinAction, ArgumentBindingError>(BuiltinAction::ResizeWindow { axis: x0, delta: x1 }),
            },
        },
        BuiltinActionKind::ResizeWindowByStep => match axis_of(v, ParameterId::Axis) {
            Err(e) => r == Err::<BuiltinAction, ArgumentBindingError>(e),
            Ok(x0) => match sizing_of(v, ParameterId::Sizing) {
                Err(e) => r == Err::<BuiltinAction, ArgumentBindingError>(e),
                Ok(x1) => r == Ok::<BuiltinAction, ArgumentBindingError>(BuiltinAction::ResizeWindowByStep { axis: x0, sizing: x1 }),
            },
        },
        BuiltinActionKind::SetWorkspaceLayout => match workspace_selector_of(v, ParameterId::Workspace) {
            Err(e) => r == Err::<BuiltinAction, ArgumentBindingError>(e),
            Ok(x0) => match layout_of(v, ParameterId::Layout) {
                Err(e) => r == Err::<BuiltinAction, ArgumentBindingError>(e),
                Ok(x1) => r == Ok::<BuiltinAction, ArgumentBindingError>(BuiltinAction::SetWorkspaceLayout { workspace: x0, layout: x1 }),
            },
        },
        BuiltinActionKind::ToggleWindowFloat => match window_selector_of(v, ParameterId::Window) {
            Err(e) => r == Err::<BuiltinAction, ArgumentBindingError>(e),
            Ok(x0) => r == Ok::<BuiltinAction, ArgumentBindingError>(BuiltinAction::ToggleWindowFloat { window: x0 }),
        },
        BuiltinActionKind::CycleFocusWindow => match cycle_of(v, ParameterId::Cycle) {
            Err(e) => r == Err::<BuiltinAction, ArgumentBindingError>(e),
            Ok(x0) => r == Ok::<BuiltinAction, ArgumentBindingError>(BuiltinAction::CycleFocusWindow { direction: x0 }),
        },
        BuiltinActionKind::CycleMoveWindow => match cycle_of(v, ParameterId::Cycle) {
            Err(e) => r == Err::<BuiltinAction, ArgumentBindingError>(e),
            Ok(x0) => r == Ok::<BuiltinAction, ArgumentBindingError>(BuiltinAction::CycleMoveWindow { direction: x0 }),
        },
        BuiltinActionKind::ToggleWindowMonocle => match window_selector_of(v, ParameterId::Window) {
            Err(e) => r == Err::<BuiltinAction, ArgumentBindingError>(e),
            Ok(x0) => r == Ok::<BuiltinAction, ArgumentBindingError>(BuiltinAction::ToggleWindowMonocle { window: x0 }),
        },
        BuiltinActionKind::ToggleWindowMaximize => match window_selector_of(v, ParameterId::Window) {
            Err(e) => r == Err::<BuiltinAction, ArgumentBindingError>(e),
            Ok(x0) => r == Ok::<BuiltinAction, ArgumentBindingError>(BuiltinAction::ToggleWindowMaximize { window: x0 }),
        },
        BuiltinActionKind::ToggleContainerLock => match window_selector_of(v, ParameterId::Window) {
            Err(e) => r == Err::<BuiltinAction, ArgumentBindingError>(e),
            Ok(x0) => r == Ok::<BuiltinAction, ArgumentBindingError>(BuiltinAction::ToggleContainerLock { window: x0 }),
        },
        BuiltinActionKind::StackWindow => match direction_of(v, ParameterId::Direction) {
            Err(e) => r == Err::<BuiltinAction, ArgumentBindingError>(e),
            Ok(x0) => r == Ok::<BuiltinAction, ArgumentBindingError>(BuiltinAction::StackWindow { direction: x0 }),
        },
        BuiltinActionKind::UnstackWindow => match window_selector_of(v, ParameterId::Window) {
            Err(e) => r == Err::<BuiltinAction, ArgumentBindingError>(e),
            Ok(x0) => r == Ok::<BuiltinAction, ArgumentBindingError>(BuiltinAction::UnstackWindow { window: x0 }),
        },
        BuiltinActionKind::StackAll => r == Ok::<BuiltinAction, ArgumentBindingError>(BuiltinAction::StackAll),
        BuiltinActionKind::UnstackAll => r == Ok::<BuiltinAction, ArgumentBindingError>(BuiltinAction::UnstackAll),
        BuiltinActionKind::CycleStack => match cycle_of(v, ParameterId::Cycle) {
            Err(e) => r == Err::<BuiltinAction, ArgumentBindingError>(e),
            Ok(x0) => r == Ok::<BuiltinAction, ArgumentBindingError>(BuiltinAction::CycleStack { direction: x0 }),
        },
        BuiltinActionKind::CycleStackIndex => match cycle_of(v, ParameterId::Cycle) {
            Err(e) => r == Err::<BuiltinAction, ArgumentBindingError>(e),
            Ok(x0) => r == Ok::<BuiltinAction, ArgumentBindingError>(BuiltinAction::CycleStackIndex { direction: x0 }),
        },
        BuiltinActionKind::FocusStackWindow => match usize_of(v, ParameterId::Index) {
            Err(e) => r == Err::<BuiltinAction, ArgumentBindingError>(e),
            Ok(x0) => r == Ok::<BuiltinAction, ArgumentBindingError>(BuiltinAction::FocusStackWindow { index: StackIndex { value: x0 } }),
        },
        BuiltinActionKind::FocusWorkspace => match usize_of(v, ParameterId::Index) {
            Err(e) => r == Err::<BuiltinAction, ArgumentBindingError>(e),
            Ok(x0) => r == Ok::<BuiltinAction, ArgumentBindingError>(BuiltinAction::FocusWorkspace { index: WorkspaceIndex { value: x0 } }),
        },
        BuiltinActionKind::CycleFocusWorkspace => match cycle_of(v, ParameterId::Cycle) {
            Err(e) => r == Err::<BuiltinAction, ArgumentBindingError>(e),
            Ok(x0) => r == Ok::<BuiltinAction, ArgumentBindingError>(BuiltinAction::CycleFocusWorkspace { direction: x0 }),
        },
        BuiltinActionKind::CycleFocusEmptyWorkspace => match cycle_of(v, ParameterId::Cycle) {
            Err(e) => r == Err::<BuiltinAction, ArgumentBindingError>(e),
            Ok(x0) => r == Ok::<BuiltinAction, ArgumentBindingError>(BuiltinAction::CycleFocusEmptyWorkspace { direction: x0 }),
        },
        BuiltinActionKind::FocusLastWorkspace => r == Ok::<BuiltinAction, ArgumentBindingError>(BuiltinAction::FocusLastWorkspace),
        BuiltinActionKind::CloseWorkspace => r == Ok::<BuiltinAction, ArgumentBindingError>(BuiltinAction::CloseWorkspace),
        BuiltinActionKind::FocusMonitor => match usize_of(v, ParameterId::Index) {
            Err(e) => r == Err::<BuiltinAction, ArgumentBindingError>(e),
            Ok(x0) => r == Ok::<BuiltinAction, ArgumentBindingError>(BuiltinAction::FocusMonitor { index: MonitorIndex { value: x0 } }),
        },
        BuiltinActionKind::CycleFocusMonitor => match cycle_of(v, ParameterId::Cycle) {
            Err(e) => r == Err::<BuiltinAction, ArgumentBindingError>(e),
            Ok(x0) => r == Ok::<BuiltinAction, ArgumentBindingError>(BuiltinAction::CycleFocusMonitor { direction: x0 }),
        },
        BuiltinActionKind::FocusMonitorAtCursor => r == Ok::<BuiltinAction, ArgumentBindingError>(BuiltinAction::FocusMonitorAtCursor),
        BuiltinActionKind::FocusWorkspaceOnAllMonitors => match usize_of(v, ParameterId::Index) {
            Err(e) => r == Err::<BuiltinAction, ArgumentBindingError>(e),
            Ok(x0) => r == Ok::<BuiltinAction, ArgumentBindingError>(BuiltinAction::FocusWorkspaceOnAllMonitors { index: WorkspaceIndex { value: x0 } }),
        },
        BuiltinActionKind::FocusMonitorWorkspace => match usize_of(v, ParameterId::Monitor) {
            Err(e) => r == Err::<BuiltinAction, ArgumentBindingError>(e),
            Ok(x0) => match usize_of(v, ParameterId::Index) {
                Err(e) => r == Err::<BuiltinAction, ArgumentBindingError>(e),
                Ok(x1) => r == Ok::<BuiltinAction, ArgumentBindingError>(BuiltinAction::FocusMonitorWorkspace { monitor: MonitorIndex { value: x0 }, workspace: WorkspaceIndex { value: x1 } }),
            },
        },
        BuiltinActionKind::CloseWindow => match window_selector_of(v, ParameterId::Window) {
            Err(e) => r == Err::<BuiltinAction, ArgumentBindingError>(e),
            Ok(x0) => r == Ok::<BuiltinAction, ArgumentBindingError>(BuiltinAction::CloseWindow { window: x0 }),
        },
        BuiltinActionKind::MinimizeWindow => match window_selector_of(v, ParameterId::Window) {
            Err(e) => r == Err::<BuiltinAction, ArgumentBindingError>(e),
            Ok(x0) => r == Ok::<BuiltinAction, ArgumentBindingError>(BuiltinAction::MinimizeWindow { window: x0 }),
        },
        BuiltinActionKind::ForceFocus => match window_selector_of(v, ParameterId::Window) {
            Err(e) => r == Err::<BuiltinAction, ArgumentBindingError>(e),
            Ok(x0) => r == Ok::<BuiltinAction, ArgumentBindingError>(BuiltinAction::ForceFocus { window: x0 }),
        },
        BuiltinActionKind::PromoteContainer => r == Ok::<BuiltinAction, ArgumentBindingError>(BuiltinAction::PromoteContainer),
        BuiltinActionKind::PromoteContainerSwap => r == Ok::<BuiltinAction, ArgumentBindingError>(BuiltinAction::PromoteContainerSwap),
        BuiltinActionKind::PromoteFocus => r == Ok::<BuiltinAction, ArgumentBindingError>(BuiltinAction::PromoteFocus),
        BuiltinActionKind::PromoteWindow => match direction_of(v, ParameterId::Direction) {
            Err(e) => r == Err::<BuiltinAction, ArgumentBindingError>(e),
            Ok(x0) => r == Ok::<BuiltinAction, ArgumentBindingError>(BuiltinAction::PromoteWindow { direction: x0 }),
        },
        BuiltinActionKind::NewWorkspace => r == Ok::<BuiltinAction, ArgumentBindingError>(BuiltinAction::NewWorkspace),
        BuiltinActionKind::ToggleTiling => r == Ok::<BuiltinAction, ArgumentBindingError>(BuiltinAction::ToggleTiling),
        BuiltinActionKind::CycleLayout => match cycle_of(v, ParameterId::Cycle) {
            Err(e) => r == Err::<BuiltinAction, ArgumentBindingError>(e),
            Ok(x0) => r == Ok::<BuiltinAction, ArgumentBindingError>(BuiltinAction::CycleLayout { direction: x0 }),
        },
        BuiltinActionKind::FlipLayout => match axis_of(v, ParameterId::Axis) {
            Err(e) => r == Err::<BuiltinAction, ArgumentBindingError>(e),
            Ok(x0) => r == Ok::<BuiltinAction, ArgumentBindingError>(BuiltinAction::FlipLayout { axis: x0 }),
        },
        BuiltinActionKind::ToggleWorkspaceLayer => r == Ok::<BuiltinAction, ArgumentBindingError>(BuiltinAction::ToggleWorkspaceLayer),
        BuiltinActionKind::MoveContainerToLastWorkspace => r == Ok::<BuiltinAction, ArgumentBindingError>(BuiltinAction::MoveContainerToLastWorkspace),
        BuiltinActionKind::SendContainerToLastWorkspace => r == Ok::<BuiltinAction, ArgumentBindingError>(BuiltinAction::SendContainerToLastWorkspace),
        BuiltinActionKind::MoveContainerToWorkspace => match usize_of(v, ParameterId::Index) {
            Err(e) => r == Err::<BuiltinAction, ArgumentBindingError>(e),
            Ok(x0) => r == Ok::<BuiltinAction, ArgumentBindingError>(BuiltinAction::MoveContainerToWorkspace { index: WorkspaceIndex { value: x0 } }),
        },
        BuiltinActionKind::CycleMoveContainerToWorkspace => match cycle_of(v, ParameterId::Cycle) {
            Err(e) => r == Err::<BuiltinAction, ArgumentBindingError>(e),
            Ok(x0) => r == Ok::<BuiltinAction, ArgumentBindingError>(BuiltinAction::CycleMoveContainerToWorkspace { direction: x0 }),
        },
        BuiltinActionKind::SendContainerToWorkspace => match usize_of(v, ParameterId::Index) {
            Err(e) => r == Err::<BuiltinAction, ArgumentBindingError>(e),
            Ok(x0) => r == Ok::<BuiltinAction, ArgumentBindingError>(BuiltinAction::SendContainerToWorkspace { index: WorkspaceIndex { value: x0 } }),
        },
        BuiltinActionKind::CycleSendContainerToWorkspace => match cycle_of(v, ParameterId::Cycle) {
            Err(e) => r == Err::<BuiltinAction, ArgumentBindingError>(e),
            Ok(x0) => r == Ok::<BuiltinAction, ArgumentBindingError>(BuiltinAction::CycleSendContainerToWorkspace { direction: x0 }),
        },
        BuiltinActionKind::MoveContainerToMonitor => match usize_of(v, ParameterId::Index) {
            Err(e) => r == Err::<BuiltinAction, ArgumentBindingError>(e),
            Ok(x0) => r == Ok::<BuiltinAction, ArgumentBindingError>(BuiltinAction::MoveContainerToMonitor { index: MonitorIndex { value: x0 } }),
        },
        BuiltinActionKind::CycleMoveContainerToMonitor => match cycle_of(v, ParameterId::Cycle) {
            Err(e) => r == Err::<BuiltinAction, ArgumentBindingError>(e),
            Ok(x0) => r == Ok::<BuiltinAction, ArgumentBindingError>(BuiltinAction::CycleMoveContainerToMonitor { direction: x0 }),
        },
        BuiltinActionKind::SendContainerToMonitor => match usize_of(v, ParameterId::Index) {
            Err(e) => r == Err::<BuiltinAction, ArgumentBindingError>(e),
            Ok(x0) => r == Ok::<BuiltinAction, ArgumentBindingError>(BuiltinAction::SendContainerToMonitor { index: MonitorIndex { value: x0 } }),
        },
        BuiltinActionKind::CycleSendContainerToMonitor => match cycle_of(v, ParameterId::Cycle) {
            Err(e) => r == Err::<BuiltinAction, ArgumentBindingError>(e),
            Ok(x0) => r == Ok::<BuiltinAction, ArgumentBindingError>(BuiltinAction::CycleSendContainerToMonitor { direction: x0 }),
        },
        BuiltinActionKind::MoveContainerToMonitorWorkspace => match usize_of(v, ParameterId::Monitor) {
            Err(e) => r == Err::<BuiltinAction, ArgumentBindingError>(e),
            Ok(x0) => match usize_of(v, ParameterId::Index) {
                Err(e) => r == Err::<BuiltinAction, ArgumentBindingError>(e),
                Ok(x1) => r == Ok::<BuiltinAction, ArgumentBindingError>(BuiltinAction::MoveContainerToMonitorWorkspace { monitor: MonitorIndex { value: x0 }, workspace: WorkspaceIndex { value: x1 } }),
            },
        },
        BuiltinActionKind::SendContainerToMonitorWorkspace => match usize_of(v, ParameterId::Monitor) {
            Err(e) => r == Err::<BuiltinAction, ArgumentBindingError>(e),
            Ok(x0) => match usize_of(v, ParameterId::Index) {
                Err(e) => r == Err::<BuiltinAction, ArgumentBindingError>(e),
                Ok(x1) => r == Ok::<BuiltinAction, ArgumentBindingError>(BuiltinAction::SendContainerToMonitorWorkspace { monitor: MonitorIndex { value: x0 }, workspace: WorkspaceIndex { value: x1 } }),
            },
        },
        BuiltinActionKind::MoveWorkspaceToMonitor => match usize_of(v, ParameterId::Index) {
            Err(e) => r == Err::<BuiltinAction, ArgumentBindingError>(e),
            Ok(x0) => r == Ok::<BuiltinAction, ArgumentBindingError>(BuiltinAction::MoveWorkspaceToMonitor { index: MonitorIndex { value: x0 } }),
        },
        BuiltinActionKind::CycleMoveWorkspaceToMonitor => match cycle_of(v, ParameterId::Cycle) {
            Err(e) => r == Err::<BuiltinAction, ArgumentBindingError>(e),
            Ok(x0) => r == Ok::<BuiltinAction, ArgumentBindingError>(BuiltinAction::CycleMoveWorkspaceToMonitor { direction: x0 }),
        },
        BuiltinActionKind::SwapWorkspacesToMonitor => match usize_of(v, ParameterId::Index) {
            Err(e) => r == Err::<BuiltinAction, ArgumentBindingError>(e),
            Ok(x0) => r == Ok::<BuiltinAction, ArgumentBindingError>(BuiltinAction::SwapWorkspacesToMonitor { index: MonitorIndex { value: x0 } }),
        },
        BuiltinActionKind::PreselectDirection => match direction_of(v, ParameterId::Direction) {
            Err(e) => r == Err::<BuiltinAction, ArgumentBindingError>(e),
            Ok(x0) => r == Ok::<BuiltinAction, ArgumentBindingError>(BuiltinAction::PreselectDirection { direction: x0 }),
        },
        BuiltinActionKind::CancelPreselect => r == Ok::<BuiltinAction, ArgumentBindingError>(BuiltinAction::CancelPreselect),
        BuiltinActionKind::Retile => r == Ok::<BuiltinAction, ArgumentBindingError>(BuiltinAction::Retile),
        BuiltinActionKind::RetileWithResizeDimensions => r == Ok::<BuiltinAction, ArgumentBindingError>(BuiltinAction::RetileWithResizeDimensions),
        BuiltinActionKind::ManageFocusedWindow => r == Ok::<BuiltinAction, ArgumentBindingError>(BuiltinAction::ManageFocusedWindow),
        BuiltinActionKind::UnmanageFocusedWindow => r == Ok::<BuiltinAction, ArgumentBindingError>(BuiltinAction::UnmanageFocusedWindow),
        BuiltinActionKind::AdjustContainerPadding => match sizing_of(v, ParameterId::Sizing) {
            Err(e) => r == Err::<BuiltinAction, ArgumentBindingError>(e),
            Ok(x0) => match i32_of(v, ParameterId::Adjustment) {
                Err(e) => r == Err::<BuiltinAction, ArgumentBindingError>(e),
                Ok(x1) => r == Ok::<BuiltinAction, ArgumentBindingError>(BuiltinAction::AdjustContainerPadding { sizing: x0, adjustment: x1 }),
            },
        },
        BuiltinActionKind::AdjustWorkspacePadding => match sizing_of(v, ParameterId::Sizing) {
            Err(e) => r == Err::<BuiltinAction, ArgumentBindingError>(e),
            Ok(x0) => match i32_of(v, ParameterId::Adjustment) {
                Err(e) => r == Err::<BuiltinAction, ArgumentBindingError>(e),
                Ok(x1) => r == Ok::<BuiltinAction, ArgumentBindingError>(BuiltinAction::AdjustWorkspacePadding { sizing: x0, adjustment: x1 }),
            },
        },
        BuiltinActionKind::ToggleMouseFollowsFocus => r == Ok::<BuiltinAction, ArgumentBindingError>(BuiltinAction::ToggleMouseFollowsFocus),
        BuiltinActionKind::SetMouseFollowsFocus => match boolean_of(v, ParameterId::Enabled) {
            Err(e) => r == Err::<BuiltinAction, ArgumentBindingError>(e),
            Ok(x0) => r == Ok::<BuiltinAction, ArgumentBindingError>(BuiltinAction::SetMouseFollowsFocus { enabled: x0 }),
        },
        BuiltinActionKind::ToggleWindowContainerBehaviour => r == Ok::<BuiltinAction, ArgumentBindingError>(BuiltinAction::ToggleWindowContainerBehaviour),
        BuiltinActionKind::ToggleFloatOverride => r == Ok::<BuiltinAction, ArgumentBindingError>(BuiltinAction::ToggleFloatOverride),
        BuiltinActionKind::ToggleWorkspaceWindowContainerBehaviour => r == Ok::<BuiltinAction, ArgumentBindingError>(BuiltinAction::ToggleWorkspaceWindowContainerBehaviour),
        BuiltinActionKind::ToggleWorkspaceFloatOverride => r == Ok::<BuiltinAction, ArgumentBindingError>(BuiltinAction::ToggleWorkspaceFloatOverride),
        BuiltinActionKind::ToggleCrossMonitorMoveBehaviour => r == Ok::<BuiltinAction, ArgumentBindingError>(BuiltinAction::ToggleCrossMonitorMoveBehaviour),
        BuiltinActionKind::ToggleMonocleFocusBehaviour => r == Ok::<BuiltinAction, ArgumentBindingError>(BuiltinAction::ToggleMonocleFocusBehaviour),
        BuiltinActionKind::TogglePause => r == Ok::<BuiltinAction, ArgumentBindingError>(BuiltinAction::TogglePause),
        BuiltinActionKind::SetFocusedContainerPadding => match i32_of(v, ParameterId::Size) {
            Err(e) => r == Err::<BuiltinAction, ArgumentBindingError>(e),
            Ok(x0) => r == Ok::<BuiltinAction, ArgumentBindingError>(BuiltinAction::SetFocusedContainerPadding { size: x0 }),
        },
        BuiltinActionKind::SetFocusedWorkspacePadding => match i32_of(v, ParameterId::Size) {
            Err(e) => r == Err::<BuiltinAction, ArgumentBindingError>(e),
            Ok(x0) => r == Ok::<BuiltinAction, ArgumentBindingError>(BuiltinAction::SetFocusedWorkspacePadding { size: x0 }),
        },
        BuiltinActionKind::SetContainerPadding => match usize_of(v, ParameterId::Monitor) {
            Err(e) => r == Err::<BuiltinAction, ArgumentBindingError>(e),
            Ok(x0) => match usize_of(v, ParameterId::Index) {
                Err(e) => r == Err::<BuiltinAction, ArgumentBindingError>(e),
                Ok(x1) => match i32_of(v, ParameterId::Size) {
                    Err(e) => r == Err::<BuiltinAction, ArgumentBindingError>(e),
                    Ok(x2) => r == Ok::<BuiltinAction, ArgumentBindingError>(BuiltinAction::SetContainerPadding { monitor: MonitorIndex { value: x0 }, workspace: WorkspaceIndex { value: x1 }, size: x2 }),
                },
            },
        },
        BuiltinActionKind::SetWorkspacePadding => match usize_of(v, ParameterId::Monitor) {
            Err(e) => r == Err::<BuiltinAction, ArgumentBindingError>(e),
            Ok(x0) => match usize_of(v, ParameterId::Index) {
                Err(e) => r == Err::<BuiltinAction, ArgumentBindingError>(e),
                Ok(x1) => match i32_of(v, ParameterId::Size) {
                    Err(e) => r == Err::<BuiltinAction, ArgumentBindingError>(e),
                    Ok(x2) => r == Ok::<BuiltinAction, ArgumentBindingError>(BuiltinAction::SetWorkspacePadding { monitor: MonitorIndex { value: x0 }, workspace: WorkspaceIndex { value: x1 }, size: x2 }),
                },
            },
        },
        BuiltinActionKind::SetWorkspaceTiling => match usize_of(v, ParameterId::Monitor) {
            Err(e) => r == Err::<BuiltinAction, ArgumentBindingError>(e),
            Ok(x0) => match usize_of(v, ParameterId::Index) {
                Err(e) => r == Err::<BuiltinAction, ArgumentBindingError>(e),
                Ok(x1) => match boolean_of(v, ParameterId::Enabled) {
                    Err(e) => r == Err::<BuiltinAction, ArgumentBindingError>(e),
                    Ok(x2) => r == Ok::<BuiltinAction, ArgumentBindingError>(BuiltinAction::SetWorkspaceTiling { monitor: MonitorIndex { value: x0 }, workspace: WorkspaceIndex { value: x1 }, tile: x2 }),
                },
            },
        },
        BuiltinActionKind::SetMonitorWorkspaceLayout => match usize_of(v, ParameterId::Monitor) {
            Err(e) => r == Err::<BuiltinAction, ArgumentBindingError>(e),
            Ok(x0) => match usize_of(v, ParameterId::Index) {
                Err(e) => r == Err::<BuiltinAction, ArgumentBindingError>(e),
                Ok(x1) => match layout_of(v, ParameterId::Layout) {
                    Err(e) => r == Err::<BuiltinAction, ArgumentBindingError>(e),
                    Ok(x2) => r == Ok::<BuiltinAction, ArgumentBindingError>(BuiltinAction::SetMonitorWorkspaceLayout { monitor: MonitorIndex { value: x0 }, workspace: WorkspaceIndex { value: x1 }, layout: x2 }),
                },
            },
        },
        BuiltinActionKind::EnsureWorkspaces => match usize_of(v, ParameterId::Monitor) {
            Err(e) => r == Err::<BuiltinAction, ArgumentBindingError>(e),
            Ok(x0) => match usize_of(v, ParameterId::Count) {
                Err(e) => r == Err::<BuiltinAction, ArgumentBindingError>(e),
                Ok(x1) => r == Ok::<BuiltinAction, ArgumentBindingError>(BuiltinAction::EnsureWorkspaces { monitor: MonitorIndex { value: x0 }, count: x1 }),
            },
        },
        BuiltinActionKind::ClearWorkspaceLayoutRules => match usize_of(v, ParameterId::Monitor) {
            Err(e) => r == Err::<BuiltinAction, ArgumentBindingError>(e),
            Ok(x0) => match usize_of(v, ParameterId::Index) {
                Err(e) => r == Err::<BuiltinAction, ArgumentBindingError>(e),
                Ok(x1) => r == Ok::<BuiltinAction, ArgumentBindingError>(BuiltinAction::ClearWorkspaceLayoutRules { monitor: MonitorIndex { value: x0 }, workspace: WorkspaceIndex { value: x1 } }),
            },
        },
        BuiltinActionKind::SetScrollingColumns => match nonzero_usize_of(v, ParameterId::Columns) {
            Err(e) => r == Err::<BuiltinAction, ArgumentBindingError>(e),
            Ok(x0) => r == Ok::<BuiltinAction, ArgumentBindingError>(BuiltinAction::SetScrollingColumns { columns: x0 }),
        },
        BuiltinActionKind::LockContainer => match usize_of(v, ParameterId::Monitor) {
            Err(e) => r == Err::<BuiltinAction, ArgumentBindingError>(e),
            Ok(x0) => match usize_of(v, ParameterId::Index) {
                Err(e) => r == Err::<BuiltinAction, ArgumentBindingError>(e),
                Ok(x1) => match usize_of(v, ParameterId::Container) {
                    Err(e) => r == Err::<BuiltinAction, ArgumentBindingError>(e),
                    Ok(x2) => r == Ok::<BuiltinAction, ArgumentBindingError>(BuiltinAction::LockContainer { monitor: MonitorIndex { value: x0 }, workspace: WorkspaceIndex { value: x1 }, container: ContainerIndex { value: x2 } }),
                },
            },
        },
        BuiltinActionKind::UnlockContainer => match usize_of(v, ParameterId::Monitor) {
            Err(e) => r == Err::<BuiltinAction, ArgumentBindingError>(e),
            Ok(x0) => match usize_of(v, ParameterId::Index) {
                Err(e) => r == Err::<BuiltinAction, ArgumentBindingError>(e),
                Ok(x1) => match usize_of(v, ParameterId::Container) {
                    Err(e) => r == Err::<BuiltinAction, ArgumentBindingError>(e),
                    Ok(x2) => r == Ok::<BuiltinAction, ArgumentBindingError>(BuiltinAction::UnlockContainer { monitor: MonitorIndex { value: x0 }, workspace: WorkspaceIndex { value: x1 }, container: ContainerIndex { value: x2 } }),
                },
            },
        },
        BuiltinActionKind::ToggleTitleBars => r == Ok::<BuiltinAction, ArgumentBindingError>(BuiltinAction::ToggleTitleBars),
        BuiltinActionKind::EnforceWorkspaceRules => r == Ok::<BuiltinAction, ArgumentBindingError>(BuiltinAction::EnforceWorkspaceRules),
        BuiltinActionKind::AddSessionFloatRule => r == Ok::<BuiltinAction, ArgumentBindingError>(BuiltinAction::AddSessionFloatRule),
        BuiltinActionKind::ClearSessionFloatRules => r == Ok::<BuiltinAction, ArgumentBindingError>(BuiltinAction::ClearSessionFloatRules),
        BuiltinActionKind::ResizeWindowEdge => match direction_of(v, ParameterId::Direction) {
            Err(e) => r == Err::<BuiltinAction, ArgumentBindingError>(e),
            Ok(x0) => match pixels_of(v, ParameterId::Delta) {
                Err(e) => r == Err::<BuiltinAction, ArgumentBindingError>(e),
                Ok(x1) => r == Ok::<BuiltinAction, ArgumentBindingError>(BuiltinAction::ResizeWindowEdge { direction: x0, delta: x1 }),
            },
        },
        BuiltinActionKind::ResizeWindowEdgeByStep => match direction_of(v, ParameterId::Direction) {
            Err(e) => r == Err::<BuiltinAction, ArgumentBindingError>(e),
            Ok(x0) => match sizing_of(v, ParameterId::Sizing) {
                Err(e) => r == Err::<BuiltinAction, ArgumentBindingError>(e),
                Ok(x1) => r == Ok::<BuiltinAction, ArgumentBindingError>(BuiltinAction::ResizeWindowEdgeByStep { direction: x0, sizing: x1 }),
            },
        },
        BuiltinActionKind::SetWindowHidingBehaviour => match hiding_behaviour_of(v, ParameterId::Behaviour) {
            Err(e) => r == Err::<BuiltinAction, ArgumentBindingError>(e),
            Ok(x0) => r == Ok::<BuiltinAction, ArgumentBindingError>(BuiltinAction::SetWindowHidingBehaviour { behaviour: x0 }),
        },
        BuiltinActionKind::SetCrossMonitorMoveBehaviour => match move_behaviour_of(v, ParameterId::Behaviour) {
            Err(e) => r == Err::<BuiltinAction, ArgumentBindingError>(e),
            Ok(x0) => r == Ok::<BuiltinAction, ArgumentBindingError>(BuiltinAction::SetCrossMonitorMoveBehaviour { behaviour: x0 }),
        },
        BuiltinActionKind::SetMonocleFocusBehaviour => match monocle_behaviour_of(v, ParameterId::Behaviour) {
            Err(e) => r == Err::<BuiltinAction, ArgumentBindingError>(e),
            Ok(x0) => r == Ok::<BuiltinAction, ArgumentBindingError>(BuiltinAction::SetMonocleFocusBehaviour { behaviour: x0 }),
        },
        BuiltinActionKind::SetUnmanagedWindowOperationBehaviour => match operation_behaviour_of(v, ParameterId::Behaviour) {
            Err(e) => r == Err::<BuiltinAction, ArgumentBindingError>(e),
            Ok(x0) => r == Ok::<BuiltinAction, ArgumentBindingError>(BuiltinAction::SetUnmanagedWindowOperationBehaviour { behaviour: x0 }),
        },
        BuiltinActionKind::SetFocusFollowsMouse => match ffm_implementation_of(v, ParameterId::Implementation) {
            Err(e) => r == Err::<BuiltinAction, ArgumentBindingError>(e),
            Ok(x0) => match boolean_of(v, ParameterId::Enabled) {
                Err(e) => r == Err::<BuiltinAction, ArgumentBindingError>(e),
                Ok(x1) => r == Ok::<BuiltinAction, ArgumentBindingError>(BuiltinAction::SetFocusFollowsMouse { implementation: x0, enabled: x1 }),
            },
        },
        BuiltinActionKind::ToggleFocusFollowsMouse => match ffm_implementation_of(v, ParameterId::Implementation) {
            Err(e) => r == Err::<BuiltinAction, ArgumentBindingError>(e),
            Ok(x0) => r == Ok::<BuiltinAction, ArgumentBindingError>(BuiltinAction::ToggleFocusFollowsMouse { implementation: x0 }),
        },
        BuiltinActionKind::AddWorkspaceLayoutRule => match usize_of(v, ParameterId::Monitor) {
            Err(e) => r == Err::<BuiltinAction, ArgumentBindingError>(e),
            Ok(x0) => match usize_of(v, ParameterId::Index) {
                Err(e) => r == Err::<BuiltinAction, ArgumentBindingError>(e),
                Ok(x1) => match usize_of(v, ParameterId::AtCount) {
                    Err(e) => r == Err::<BuiltinAction, ArgumentBindingError>(e),
                    Ok(x2) => match layout_of(v, ParameterId::Layout) {
                        Err(e) => r == Err::<BuiltinAction, ArgumentBindingError>(e),
                        Ok(x3) => r == Ok::<BuiltinAction, ArgumentBindingError>(BuiltinAction::AddWorkspaceLayoutRule { monitor: MonitorIndex { value: x0 }, workspace: WorkspaceIndex { value: x1 }, at_container_count: x2, layout: x3 }),
                    },
                },
            },
        },
        BuiltinActionKind::FocusNamedWorkspace => match workspace_name_of(v, ParameterId::Name) {
            Err(e) => r == Err::<BuiltinAction, ArgumentBindingError>(e),
            Ok(x0) => r == Ok::<BuiltinAction, ArgumentBindingError>(BuiltinAction::FocusNamedWorkspace { name: x0 }),
        },
        BuiltinActionKind::MoveContainerToNamedWorkspace => match workspace_name_of(v, ParameterId::Name) {
            Err(e) => r == Err::<BuiltinAction, ArgumentBindingError>(e),
            Ok(x0) => r == Ok::<BuiltinAction, ArgumentBindingError>(BuiltinAction::MoveContainerToNamedWorkspace { name: x0 }),
        },
        BuiltinActionKind::SendContainerToNamedWorkspace => match workspace_name_of(v, ParameterId::Name) {
            Err(e) => r == Err::<BuiltinAction, ArgumentBindingError>(e),
            Ok(x0) => r == Ok::<BuiltinAction, ArgumentBindingError>(BuiltinAction::SendContainerToNamedWorkspace { name: x0 }),
        },
        BuiltinActionKind::SetNamedWorkspaceContainerPadding => match workspace_name_of(v, ParameterId::Name) {
            Err(e) => r == Err::<BuiltinAction, ArgumentBindingError>(e),
            Ok(x0) => match i32_of(v, ParameterId::Size) {
                Err(e) => r == Err::<BuiltinAction, ArgumentBindingError>(e),
                Ok(x1) => r == Ok::<BuiltinAction, ArgumentBindingError>(BuiltinAction::SetNamedWorkspaceContainerPadding { name: x0, size: x1 }),
            },
        },
        BuiltinActionKind::SetNamedWorkspacePadding => match workspace_name_of(v, ParameterId::Name) {
            Err(e) => r == Err::<BuiltinAction, ArgumentBindingError>(e),
            Ok(x0) => match i32_of(v, ParameterId::Size) {
                Err(e) => r == Err::<BuiltinAction, ArgumentBindingError>(e),
                Ok(x1) => r == Ok::<BuiltinAction, ArgumentBindingError>(BuiltinAction::SetNamedWorkspacePadding { name: x0, size: x1 }),
            },
        },
        BuiltinActionKind::SetNamedWorkspaceTiling => match workspace_name_of(v, ParameterId::Name) {
            Err(e) => r == Err::<BuiltinAction, ArgumentBindingError>(e),
            Ok(x0) => match boolean_of(v, ParameterId::Enabled) {
                Err(e) => r == Err::<BuiltinAction, ArgumentBindingError>(e),
                Ok(x1) => r == Ok::<BuiltinAction, ArgumentBindingError>(BuiltinAction::SetNamedWorkspaceTiling { name: x0, tile: x1 }),
            },
        },
        BuiltinActionKind::SetNamedWorkspaceLayout => match workspace_name_of(v, ParameterId::Name) {
            Err(e) => r == Err::<BuiltinAction, ArgumentBindingError>(e),
            Ok(x0) => match layout_of(v, ParameterId::Layout) {
                Err(e) => r == Err::<BuiltinAction, ArgumentBindingError>(e),
                Ok(x1) => r == Ok::<BuiltinAction, ArgumentBindingError>(BuiltinAction::SetNamedWorkspaceLayout { name: x0, layout: x1 }),
            },
        },
        BuiltinActionKind::SetNamedWorkspaceCustomLayout => match workspace_name_of(v, ParameterId::Name) {
            Err(e) => r == Err::<BuiltinAction, ArgumentBindingError>(e),
            Ok(x0) => match windows_path_of(v, ParameterId::Path) {
                Err(e) => r == Err::<BuiltinAction, ArgumentBindingError>(e),
                Ok(x1) => r matches Ok(BuiltinAction::SetNamedWorkspaceCustomLayout { name, path }) && name == x0 && path.units() == x1,
            },
        },
        BuiltinActionKind::AddNamedWorkspaceLayoutRule => match workspace_name_of(v, ParameterId::Name) {
            Err(e) => r == Err::<BuiltinAction, ArgumentBindingError>(e),
            Ok(x0) => match usize_of(v, ParameterId::AtCount) {
                Err(e) => r == Err::<BuiltinAction, ArgumentBindingError>(e),
                Ok(x1) => match layout_of(v, ParameterId::Layout) {
                    Err(e) => r == Err::<BuiltinAction, ArgumentBindingError>(e),
                    Ok(x2) => r == Ok::<BuiltinAction, ArgumentBindingError>(BuiltinAction::AddNamedWorkspaceLayoutRule { name: x0, at_container_count: x1, layout: x2 }),
                },
            },
        },
        BuiltinActionKind::AddNamedWorkspaceCustomLayoutRule => match workspace_name_of(v, ParameterId::Name) {
            Err(e) => r == Err::<BuiltinAction, ArgumentBindingError>(e),
            Ok(x0) => match usize_of(v, ParameterId::AtCount) {
                Err(e) => r == Err::<BuiltinAction, ArgumentBindingError>(e),
                Ok(x1) => match windows_path_of(v, ParameterId::Path) {
                    Err(e) => r == Err::<BuiltinAction, ArgumentBindingError>(e),
                    Ok(x2) => r matches Ok(BuiltinAction::AddNamedWorkspaceCustomLayoutRule { name, at_container_count, path }) && name == x0 && at_container_count == x1 && path.units() == x2,
                },
            },
        },
        BuiltinActionKind::ClearNamedWorkspaceLayoutRules => match workspace_name_of(v, ParameterId::Name) {
            Err(e) => r == Err::<BuiltinAction, ArgumentBindingError>(e),
            Ok(x0) => r == Ok::<BuiltinAction, ArgumentBindingError>(BuiltinAction::ClearNamedWorkspaceLayoutRules { name: x0 }),
        },
        BuiltinActionKind::EnsureNamedWorkspaces => match usize_of(v, ParameterId::Monitor) {
            Err(e) => r == Err::<BuiltinAction, ArgumentBindingError>(e),
            Ok(x0) => match names_of(v, ParameterId::Names) {
                Err(e) => r == Err::<BuiltinAction, ArgumentBindingError>(e),
                Ok(x1) => r matches Ok(BuiltinAction::EnsureNamedWorkspaces { monitor, names }) && monitor == MonitorIndex { value: x0 } && names@ == x1,
            },
        },
        BuiltinActionKind::SetWorkspaceName => match usize_of(v, ParameterId::Monitor) {
            Err(e) => r == Err::<BuiltinAction, ArgumentBindingError>(e),
            Ok(x0) => match usize_of(v, ParameterId::Index) {
                Err(e) => r == Err::<BuiltinAction, ArgumentBindingError>(e),
                Ok(x1) => match workspace_name_of(v, ParameterId::Name) {
                    Err(e) => r == Err::<BuiltinAction, ArgumentBindingError>(e),
                    Ok(x2) => r == Ok::<BuiltinAction, ArgumentBindingError>(BuiltinAction::SetWorkspaceName { monitor: MonitorIndex { value: x0 }, workspace: WorkspaceIndex { value: x1 }, name: x2 }),
                },
            },
        },
        BuiltinActionKind::SetLayoutRatios => match ratios_of(v, ParameterId::ColumnRatios) {
            Err(e) => r == Err::<BuiltinAction, ArgumentBindingError>(e),
            Ok(x0) => match ratios_of(v, ParameterId::RowRatios) {
                Err(e) => r == Err::<BuiltinAction, ArgumentBindingError>(e),
                Ok(x1) => r matches Ok(BuiltinAction::SetLayoutRatios { columns, rows }) && ratio_view(columns) == x0 && ratio_view(rows) == x1,
            },
        },
        BuiltinActionKind::SetCustomLayout => match windows_path_of(v, ParameterId::Path) {
            Err(e) => r == Err::<BuiltinAction, ArgumentBindingError>(e),
            Ok(x0) => r matches Ok(BuiltinAction::SetCustomLayout { path }) && path.units() == x0,
        },
        BuiltinActionKind::SetWorkspaceCustomLayout => match usize_of(v, ParameterId::Monitor) {
            Err(e) => r == Err::<BuiltinAction, ArgumentBindingError>(e),
            Ok(x0) => match usize_of(v, ParameterId::Index) {
                Err(e) => r == Err::<BuiltinAction, ArgumentBindingError>(e),
                Ok(x1) => match windows_path_of(v, ParameterId::Path) {
                    Err(e) => r == Err::<BuiltinAction, ArgumentBindingError>(e),
                    Ok(x2) => r matches Ok(BuiltinAction::SetWorkspaceCustomLayout { monitor, workspace, path }) && monitor == MonitorIndex { value: x0 } && workspace == WorkspaceIndex { value: x1 } && path.units() == x2,
                },
            },
        },
        BuiltinActionKind::AddWorkspaceCustomLayoutRule => match usize_of(v, ParameterId::Monitor) {
            Err(e) => r == Err::<BuiltinAction, ArgumentBindingError>(e),
            Ok(x0) => match usize_of(v, ParameterId::Index) {
                Err(e) => r == Err::<BuiltinAction, ArgumentBindingError>(e),
                Ok(x1) => match usize_of(v, ParameterId::AtCount) {
                    Err(e) => r == Err::<BuiltinAction, ArgumentBindingError>(e),
                    Ok(x2) => match windows_path_of(v, ParameterId::Path) {
                        Err(e) => r == Err::<BuiltinAction, ArgumentBindingError>(e),
                        Ok(x3) => r matches Ok(BuiltinAction::AddWorkspaceCustomLayoutRule { monitor, workspace, at_container_count, path }) && monitor == MonitorIndex { value: x0 } && workspace == WorkspaceIndex { value: x1 } && at_container_count == x2 && path.units() == x3,
                    },
                },
            },
        },
        BuiltinActionKind::EagerFocus => match text_of(v, ParameterId::Exe) {
            Err(e) => r == Err::<BuiltinAction, ArgumentBindingError>(e),
            Ok(x0) => r == Ok::<BuiltinAction, ArgumentBindingError>(BuiltinAction::EagerFocus { exe: x0 }),
        },
        BuiltinActionKind::RemoveTitleBar => match application_identifier_of(v, ParameterId::Identifier) {
            Err(e) => r == Err::<BuiltinAction, ArgumentBindingError>(e),
            Ok(x0) => match text_of(v, ParameterId::Exe) {
                Err(e) => r == Err::<BuiltinAction, ArgumentBindingError>(e),
                Ok(x1) => r == Ok::<BuiltinAction, ArgumentBindingError>(BuiltinAction::RemoveTitleBar { identifier: x0, id: x1 }),
            },
        },
        BuiltinActionKind::SetResizeStep => match resize_step_of(v, ParameterId::ResizeStep) {
            Err(e) => r == Err::<BuiltinAction, ArgumentBindingError>(e),
            Ok(x0) => r matches Ok(BuiltinAction::SetResizeStep { step }) && step.pixels() == x0,
        },
        BuiltinActionKind::SetTransparencyEnabled => match boolean_of(v, ParameterId::Enabled) {
            Err(e) => r == Err::<BuiltinAction, ArgumentBindingError>(e),
            Ok(x0) => r == Ok::<BuiltinAction, ArgumentBindingError>(BuiltinAction::SetTransparencyEnabled { enabled: x0 }),
        },
        BuiltinActionKind::ToggleTransparency => r == Ok::<BuiltinAction, ArgumentBindingError>(BuiltinAction::ToggleTransparency),
        BuiltinActionKind::SetTransparencyAlpha => match alpha_of(v, ParameterId::Alpha) {
            Err(e) => r == Err::<BuiltinAction, ArgumentBindingError>(e),
            Ok(x0) => r == Ok::<BuiltinAction, ArgumentBindingError>(BuiltinAction::SetTransparencyAlpha { alpha: x0 }),
        },
        BuiltinActionKind::SetBorderEnabled => match boolean_of(v, ParameterId::Enabled) {
            Err(e) => r == Err::<BuiltinAction, ArgumentBindingError>(e),
            Ok(x0) => r == Ok::<BuiltinAction, ArgumentBindingError>(BuiltinAction::SetBorderEnabled { enabled: x0 }),
        },
        BuiltinActionKind::SetBorderColour => match window_kind_of(v, ParameterId::WindowKind) {
            Err(e) => r == Err::<BuiltinAction, ArgumentBindingError>(e),
            Ok(x0) => match rgb_of(v) {
                Err(e) => r == Err::<BuiltinAction, ArgumentBindingError>(e),
                Ok(x1) => r == Ok::<BuiltinAction, ArgumentBindingError>(BuiltinAction::SetBorderColour { window_kind: x0, colour: x1 }),
            },
        },
        BuiltinActionKind::SetBorderWidth => match border_width_of(v, ParameterId::Width) {
            Err(e) => r == Err::<BuiltinAction, ArgumentBindingError>(e),
            Ok(x0) => r == Ok::<BuiltinAction, ArgumentBindingError>(BuiltinAction::SetBorderWidth { width: x0 }),
        },
        BuiltinActionKind::SetBorderOffset => match border_offset_of(v, ParameterId::Offset) {
            Err(e) => r == Err::<BuiltinAction, ArgumentBindingError>(e),
            Ok(x0) => r == Ok::<BuiltinAction, ArgumentBindingError>(BuiltinAction::SetBorderOffset { offset: x0 }),
        },
        BuiltinActionKind::SetBorderStyle => match border_style_of(v, ParameterId::Style) {
            Err(e) => r == Err::<BuiltinAction, ArgumentBindingError>(e),
            Ok(x0) => r == Ok::<BuiltinAction, ArgumentBindingError>(BuiltinAction::SetBorderStyle { style: x0 }),
        },
        BuiltinActionKind::SetBorderImplementation => match border_implementation_of(v, ParameterId::Implementation) {
            Err(e) => r == Err::<BuiltinAction, ArgumentBindingError>(e),
            Ok(x0) => r == Ok::<BuiltinAction, ArgumentBindingError>(BuiltinAction::SetBorderImplementation { implementation: x0 }),
        },
    }
}

/// The kinds that binding part 1 handles; the parts divide the proof.
spec fn in_part_1(kind: BuiltinActionKind) -> bool {
    matches!(kind, BuiltinActionKind::FocusWindow | BuiltinActionKind::MoveWindow | BuiltinActionKind::ResizeWindow | BuiltinActionKind::ResizeWindowByStep | BuiltinActionKind::SetWorkspaceLayout | BuiltinActionKind::ToggleWindowFloat | BuiltinActionKind::CycleFocusWindow | BuiltinActionKind::CycleMoveWindow | BuiltinActionKind::ToggleWindowMonocle | BuiltinActionKind::ToggleWindowMaximize | BuiltinActionKind::ToggleContainerLock | BuiltinActionKind::StackWindow | BuiltinActionKind::UnstackWindow | BuiltinActionKind::StackAll | BuiltinActionKind::UnstackAll | BuiltinActionKind::CycleStack)
}

/// The kinds that binding part 2 handles; the parts divide the proof.
spec fn in_part_2(kind: BuiltinActionKind) -> bool {
    matches!(kind, BuiltinActionKind::CycleStackIndex | BuiltinActionKind::FocusStackWindow | BuiltinActionKind::FocusWorkspace | BuiltinActionKind::CycleFocusWorkspace | BuiltinActionKind::CycleFocusEmptyWorkspace | BuiltinActionKind::FocusLastWorkspace | BuiltinActionKind::CloseWorkspace | BuiltinActionKind::FocusMonitor | BuiltinActionKind::CycleFocusMonitor | BuiltinActionKind::FocusMonitorAtCursor | BuiltinActionKind::FocusWorkspaceOnAllMonitors | BuiltinActionKind::FocusMonitorWorkspace | BuiltinActionKind::CloseWindow | BuiltinActionKind::MinimizeWindow | BuiltinActionKind::ForceFocus | BuiltinActionKind::PromoteContainer)
}

/// The kinds that binding part 3 handles; the parts divide the proof.
spec fn in_part_3(kind: BuiltinActionKind) -> bool {
    matches!(kind, BuiltinActionKind::PromoteContainerSwap | BuiltinActionKind::PromoteFocus | BuiltinActionKind::PromoteWindow | BuiltinActionKind::NewWorkspace | BuiltinActionKind::ToggleTiling | BuiltinActionKind::CycleLayout | BuiltinActionKind::FlipLayout | BuiltinActionKind::ToggleWorkspaceLayer | BuiltinActionKind::MoveContainerToLastWorkspace | BuiltinActionKind::SendContainerToLastWorkspace | BuiltinActionKind::MoveContainerToWorkspace | BuiltinActionKind::CycleMoveContainerToWorkspace | BuiltinActionKind::SendContainerToWorkspace | BuiltinActionKind::CycleSendContainerToWorkspace | BuiltinActionKind::MoveContainerToMonitor | BuiltinActionKind::CycleMoveContainerToMonitor)
}

/// The kinds that binding part 4 handles; the parts divide the proof.
spec fn in_part_4(kind: BuiltinActionKind) -> bool {
    matches!(kind, BuiltinActionKind::SendContainerToMonitor | BuiltinActionKind::CycleSendContainerToMonitor | BuiltinActionKind::MoveContainerToMonitorWorkspace | BuiltinActionKind::SendContainerToMonitorWorkspace | BuiltinActionKind::MoveWorkspaceToMonitor | BuiltinActionKind::CycleMoveWorkspaceToMonitor | BuiltinActionKind::SwapWorkspacesToMonitor | BuiltinActionKind::PreselectDirection | BuiltinActionKind::CancelPreselect | BuiltinActionKind::Retile | BuiltinActionKind::RetileWithResizeDimensions | BuiltinActionKind::ManageFocusedWindow | BuiltinActionKind::UnmanageFocusedWindow | BuiltinActionKind::AdjustContainerPadding | BuiltinActionKind::AdjustWorkspacePadding | BuiltinActionKind::ToggleMouseFollowsFocus)
}

/// The kinds that binding part 5 handles; the parts divide the proof.
spec fn in_part_5(kind: BuiltinActionKind) -> bool {
    matches!(kind, BuiltinActionKind::SetMouseFollowsFocus | BuiltinActionKind::ToggleWindowContainerBehaviour | BuiltinActionKind::ToggleFloatOverride | BuiltinActionKind::ToggleWorkspaceWindowContainerBehaviour | BuiltinActionKind::ToggleWorkspaceFloatOverride | BuiltinActionKind::ToggleCrossMonitorMoveBehaviour | BuiltinActionKind::ToggleMonocleFocusBehaviour | BuiltinActionKind::TogglePause | BuiltinActionKind::SetFocusedContainerPadding | BuiltinActionKind::SetFocusedWorkspacePadding | BuiltinActionKind::SetContainerPadding | BuiltinActionKind::SetWorkspacePadding | BuiltinActionKind::SetWorkspaceTiling | BuiltinActionKind::SetMonitorWorkspaceLayout | BuiltinActionKind::EnsureWorkspaces | BuiltinActionKind::ClearWorkspaceLayoutRules)
}

/// The kinds that binding part 6 handles; the parts divide the proof.
spec fn in_part_6(kind: BuiltinActionKind) -> bool {
    matches!(kind, BuiltinActionKind::SetScrollingColumns | BuiltinActionKind::LockContainer | BuiltinActionKind::UnlockContainer | BuiltinActionKind::ToggleTitleBars | BuiltinActionKind::EnforceWorkspaceRules | BuiltinActionKind::AddSessionFloatRule | BuiltinActionKind::ClearSessionFloatRules | BuiltinActionKind::ResizeWindowEdge | BuiltinActionKind::ResizeWindowEdgeByStep | BuiltinActionKind::SetWindowHidingBehaviour | BuiltinActionKind::SetCrossMonitorMoveBehaviour | BuiltinActionKind::SetMonocleFocusBehaviour | BuiltinActionKind::SetUnmanagedWindowOperationBehaviour | BuiltinActionKind::SetFocusFollowsMouse | BuiltinActionKind::ToggleFocusFollowsMouse | BuiltinActionKind::AddWorkspaceLayoutRule)
}

/// The kinds that binding part 7 handles; the parts divide the proof.
spec fn in_part_7(kind: BuiltinActionKind) -> bool {
    matches!(kind, BuiltinActionKind::FocusNamedWorkspace | BuiltinActionKind::MoveContainerToNamedWorkspace | BuiltinActionKind::SendContainerToNamedWorkspace | BuiltinActionKind::SetNamedWorkspaceContainerPadding | BuiltinActionKind::SetNamedWorkspacePadding | BuiltinActionKind::SetNamedWorkspaceTiling | BuiltinActionKind::SetNamedWorkspaceLayout | BuiltinActionKind::SetNamedWorkspaceCustomLayout | BuiltinActionKind::AddNamedWorkspaceLayoutRule | BuiltinActionKind::AddNamedWorkspaceCustomLayoutRule | BuiltinActionKind::ClearNamedWorkspaceLayoutRules | BuiltinActionKind::EnsureNamedWorkspaces | BuiltinActionKind::SetWorkspaceName | BuiltinActionKind::SetLayoutRatios | BuiltinActionKind::SetCustomLayout | BuiltinActionKind::SetWorkspaceCustomLayout)
}

/// The kinds that binding part 8 handles; the parts divide the proof.
spec fn in_part_8(kind: BuiltinActionKind) -> bool {
    matches!(kind, BuiltinActionKind::AddWorkspaceCustomLayoutRule | BuiltinActionKind::EagerFocus | BuiltinActionKind::RemoveTitleBar | BuiltinActionKind::SetResizeStep | BuiltinActionKind::SetTransparencyEnabled | BuiltinActionKind::ToggleTransparency | BuiltinActionKind::SetTransparencyAlpha | BuiltinActionKind::SetBorderEnabled | BuiltinActionKind::SetBorderColour | BuiltinActionKind::SetBorderWidth | BuiltinActionKind::SetBorderOffset | BuiltinActionKind::SetBorderStyle | BuiltinActionKind::SetBorderImplementation)
}

/// Binds the kinds of part 1.
#[verifier::rlimit(100)]
#[verifier::spinoff_prover]
fn bind_part_1(kind: BuiltinActionKind, args: &ValidatedArguments) -> (r: Result<
    BuiltinAction,
    ArgumentBindingError,
>)
    requires
        in_part_1(kind),
    ensures
        binding_of(kind, args.arguments(), r),
{
    match kind {
        BuiltinActionKind::FocusWindow => {
            let x0 = match args.direction(ParameterId::DIRECTION) {
                Ok(x) => x,
                Err(e) => {
                    return Err(e);
                },
            };
            Ok(BuiltinAction::FocusWindow { direction: x0 })
        },
        BuiltinActionKind::MoveWindow => {
            let x0 = match args.direction(ParameterId::DIRECTION) {
                Ok(x) => x,
                Err(e) => {
                    return Err(e);
                },
            };
            Ok(BuiltinAction::MoveWindow { direction: x0 })
        },
        BuiltinActionKind::ResizeWindow => {
            let x0 = match args.axis(ParameterId::AXIS) {
                Ok(x) => x,
                Err(e) => {
                    return Err(e);
                },
            };
            let x1 = match args.pixels(ParameterId::DELTA) {
                Ok(x) => x,
                Err(e) => {
                    return Err(e);
                },
            };
            Ok(BuiltinAction::ResizeWindow { axis: x0, delta: x1 })
        },
        BuiltinActionKind::ResizeWindowByStep => {
            let x0 = match args.axis(ParameterId::AXIS) {
                Ok(x) => x,
                Err(e) => {
                    return Err(e);
                },
            };
            let x1 = match args.sizing(ParameterId::SIZING) {
                Ok(x) => x,
                Err(e) => {
                    return Err(e);
                },
            };
            Ok(BuiltinAction::ResizeWindowByStep { axis: x0, sizing: x1 })
        },
        BuiltinActionKind::SetWorkspaceLayout => {
            let x0 = match args.workspace_selector(ParameterId::WORKSPACE) {
                Ok(x) => x,
                Err(e) => {
                    return Err(e);
                },
            };
            let x1 = match args.layout(ParameterId::LAYOUT) {
                Ok(x) => x,
                Err(e) => {
                    return Err(e);
                },
            };
            Ok(BuiltinAction::SetWorkspaceLayout { workspace: x0, layout: x1 })
        },
        BuiltinActionKind::ToggleWindowFloat => {
            let x0 = match args.window_selector(ParameterId::WINDOW) {
                Ok(x) => x,
                Err(e) => {
                    return Err(e);
                },
            };
            Ok(BuiltinAction::ToggleWindowFloat { window: x0 })
        },
        BuiltinActionKind::CycleFocusWindow => {
            let x0 = match args.cycle(ParameterId::CYCLE) {
                Ok(x) => x,
                Err(e) => {
                    return Err(e);
                },
            };
            Ok(BuiltinAction::CycleFocusWindow { direction: x0 })
        },
        BuiltinActionKind::CycleMoveWindow => {
            let x0 = match args.cycle(ParameterId::CYCLE) {
                Ok(x) => x,
                Err(e) => {
                    return Err(e);
                },
            };
            Ok(BuiltinAction::CycleMoveWindow { direction: x0 })
        },
        BuiltinActionKind::ToggleWindowMonocle => {
            let x0 = match args.window_selector(ParameterId::WINDOW) {
                Ok(x) => x,
                Err(e) => {
                    return Err(e);
                },
            };
            Ok(BuiltinAction::ToggleWindowMonocle { window: x0 })
        },
        BuiltinActionKind::ToggleWindowMaximize => {
            let x0 = match args.window_selector(ParameterId::WINDOW) {
                Ok(x) => x,
                Err(e) => {
                    return Err(e);
                },
            };
            Ok(BuiltinAction::ToggleWindowMaximize { window: x0 })
        },
        BuiltinActionKind::ToggleContainerLock => {
            let x0 = match args.window_selector(ParameterId::WINDOW) {
                Ok(x) => x,
                Err(e) => {
                    return Err(e);
                },
            };
            Ok(BuiltinAction::ToggleContainerLock { window: x0 })
        },
        BuiltinActionKind::StackWindow => {
            let x0 = match args.direction(ParameterId::DIRECTION) {
                Ok(x) => x,
                Err(e) => {
                    return Err(e);
                },
            };
            Ok(BuiltinAction::StackWindow { direction: x0 })
        },
        BuiltinActionKind::UnstackWindow => {
            let x0 = match args.window_selector(ParameterId::WINDOW) {
                Ok(x) => x,
                Err(e) => {
                    return Err(e);
                },
            };
            Ok(BuiltinAction::UnstackWindow { window: x0 })
        },
        BuiltinActionKind::StackAll => Ok(BuiltinAction::StackAll),
        BuiltinActionKind::UnstackAll => Ok(BuiltinAction::UnstackAll),
        BuiltinActionKind::CycleStack => {
            let x0 = match args.cycle(ParameterId::CYCLE) {
                Ok(x) => x,
                Err(e) => {
                    return Err(e);
                },
            };
            Ok(BuiltinAction::CycleStack { direction: x0 })
        },
        _ => vstd::pervasive::unreached(),
    }
}

/// Binds the kinds of part 2.
#[verifier::rlimit(100)]
#[verifier::spinoff_prover]
fn bind_part_2(kind: BuiltinActionKind, args: &ValidatedArguments) -> (r: Result<
    BuiltinAction,
    ArgumentBindingError,
>)
    requires
        in_part_2(kind),
    ensures
        binding_of(kind, args.arguments(), r),
{
    match kind {
        BuiltinActionKind::CycleStackIndex => {
            let x0 = match args.cycle(ParameterId::CYCLE) {
                Ok(x) => x,
                Err(e) => {
                    return Err(e);
                },
            };
            Ok(BuiltinAction::CycleStackIndex { direction: x0 })
        },
        BuiltinActionKind::FocusStackWindow => {
            let x0 = match args.usize(ParameterId::INDEX) {
                Ok(x) => x,
                Err(e) => {
                    return Err(e);
                },
            };
            Ok(BuiltinAction::FocusStackWindow { index: StackIndex::new(x0) })
        },
        BuiltinActionKind::FocusWorkspace => {
            let x0 = match args.usize(ParameterId::INDEX) {
                Ok(x) => x,
                Err(e) => {
                    return Err(e);
                },
            };
            Ok(BuiltinAction::FocusWorkspace { index: WorkspaceIndex::new(x0) })
        },
        BuiltinActionKind::CycleFocusWorkspace => {
            let x0 = match args.cycle(ParameterId::CYCLE) {
                Ok(x) => x,
                Err(e) => {
                    return Err(e);
                },
            };
            Ok(BuiltinAction::CycleFocusWorkspace { direction: x0 })
        },
        BuiltinActionKind::CycleFocusEmptyWorkspace => {
            let x0 = match args.cycle(ParameterId::CYCLE) {
                Ok(x) => x,
                Err(e) => {
                    return Err(e);
                },
            };
            Ok(BuiltinAction::CycleFocusEmptyWorkspace { direction: x0 })
        },
        BuiltinActionKind::FocusLastWorkspace => Ok(BuiltinAction::FocusLastWorkspace),
        BuiltinActionKind::CloseWorkspace => Ok(BuiltinAction::CloseWorkspace),
        BuiltinActionKind::FocusMonitor => {
            let x0 = match args.usize(ParameterId::INDEX) {
                Ok(x) => x,
                Err(e) => {
                    return Err(e);
                },
            };
            Ok(BuiltinAction::FocusMonitor { index: MonitorIndex::new(x0) })
        },
        BuiltinActionKind::CycleFocusMonitor => {
            let x0 = match args.cycle(ParameterId::CYCLE) {
                Ok(x) => x,
                Err(e) => {
                    return Err(e);
                },
            };
            Ok(BuiltinAction::CycleFocusMonitor { direction: x0 })
        },
        BuiltinActionKind::FocusMonitorAtCursor => Ok(BuiltinAction::FocusMonitorAtCursor),
        BuiltinActionKind::FocusWorkspaceOnAllMonitors => {
            let x0 = match args.usize(ParameterId::INDEX) {
                Ok(x) => x,
                Err(e) => {
                    return Err(e);
                },
            };
            Ok(BuiltinAction::FocusWorkspaceOnAllMonitors { index: WorkspaceIndex::new(x0) })
        },
        BuiltinActionKind::FocusMonitorWorkspace => {
            let x0 = match args.usize(ParameterId::MONITOR) {
                Ok(x) => x,
                Err(e) => {
                    return Err(e);
                },
            };
            let x1 = match args.usize(ParameterId::INDEX) {
                Ok(x) => x,
                Err(e) => {
                    return Err(e);
                },
            };
            Ok(BuiltinAction::FocusMonitorWorkspace { monitor: MonitorIndex::new(x0), workspace: WorkspaceIndex::new(x1) })
        },
        BuiltinActionKind::CloseWindow => {
            let x0 = match args.window_selector(ParameterId::WINDOW) {
                Ok(x) => x,
                Err(e) => {
                    return Err(e);
                },
            };
            Ok(BuiltinAction::CloseWindow { window: x0 })
        },
        BuiltinActionKind::MinimizeWindow => {
            let x0 = match args.window_selector(ParameterId::WINDOW) {
                Ok(x) => x,
                Err(e) => {
                    return Err(e);
                },
            };
            Ok(BuiltinAction::MinimizeWindow { window: x0 })
        },
        BuiltinActionKind::ForceFocus => {
            let x0 = match args.window_selector(ParameterId::WINDOW) {
                Ok(x) => x,
                Err(e) => {
                    return Err(e);
                },
            };
            Ok(BuiltinAction::ForceFocus { window: x0 })
        },
        BuiltinActionKind::PromoteContainer => Ok(BuiltinAction::PromoteContainer),
        _ => vstd::pervasive::unreached(),
    }
}

/// Binds the kinds of part 3.
#[verifier::rlimit(100)]
#[verifier::spinoff_prover]
fn bind_part_3(kind: BuiltinActionKind, args: &ValidatedArguments) -> (r: Result<
    BuiltinAction,
    ArgumentBindingError,
>)
    requires
        in_part_3(kind),
    ensures
        binding_of(kind, args.arguments(), r),
{
    match kind {
        BuiltinActionKind::PromoteContainerSwap => Ok(BuiltinAction::PromoteContainerSwap),
        BuiltinActionKind::PromoteFocus => Ok(BuiltinAction::PromoteFocus),
        BuiltinActionKind::PromoteWindow => {
            let x0 = match args.direction(ParameterId::DIRECTION) {
                Ok(x) => x,
                Err(e) => {
                    return Err(e);
                },
            };
            Ok(BuiltinAction::PromoteWindow { direction: x0 })
        },
        BuiltinActionKind::NewWorkspace => Ok(BuiltinAction::NewWorkspace),
        BuiltinActionKind::ToggleTiling => Ok(BuiltinAction::ToggleTiling),
        BuiltinActionKind::CycleLayout => {
            let x0 = match args.cycle(ParameterId::CYCLE) {
                Ok(x) => x,
                Err(e) => {
                    return Err(e);
                },
            };
            Ok(BuiltinAction::CycleLayout { direction: x0 })
        },
        BuiltinActionKind::FlipLayout => {
            let x0 = match args.axis(ParameterId::AXIS) {
                Ok(x) => x,
                Err(e) => {
                    return Err(e);
                },
            };
            Ok(BuiltinAction::FlipLayout { axis: x0 })
        },
        BuiltinActionKind::ToggleWorkspaceLayer => Ok(BuiltinAction::ToggleWorkspaceLayer),
        BuiltinActionKind::MoveContainerToLastWorkspace => Ok(BuiltinAction::MoveContainerToLastWorkspace),
        BuiltinActionKind::SendContainerToLastWorkspace => Ok(BuiltinAction::SendContainerToLastWorkspace),
        BuiltinActionKind::MoveContainerToWorkspace => {
            let x0 = match args.usize(ParameterId::INDEX) {
                Ok(x) => x,
                Err(e) => {
                    return Err(e);
                },
            };
            Ok(BuiltinAction::MoveContainerToWorkspace { index: WorkspaceIndex::new(x0) })
        },
        BuiltinActionKind::CycleMoveContainerToWorkspace => {
            let x0 = match args.cycle(ParameterId::CYCLE) {
                Ok(x) => x,
                Err(e) => {
                    return Err(e);
                },
            };
            Ok(BuiltinAction::CycleMoveContainerToWorkspace { direction: x0 })
        },
        BuiltinActionKind::SendContainerToWorkspace => {
            let x0 = match args.usize(ParameterId::INDEX) {
                Ok(x) => x,
                Err(e) => {
                    return Err(e);
                },
            };
            Ok(BuiltinAction::SendContainerToWorkspace { index: WorkspaceIndex::new(x0) })
        },
        BuiltinActionKind::CycleSendContainerToWorkspace => {
            let x0 = match args.cycle(ParameterId::CYCLE) {
                Ok(x) => x,
                Err(e) => {
                    return Err(e);
                },
            };
            Ok(BuiltinAction::CycleSendContainerToWorkspace { direction: x0 })
        },
        BuiltinActionKind::MoveContainerToMonitor => {
            let x0 = match args.usize(ParameterId::INDEX) {
                Ok(x) => x,
                Err(e) => {
                    return Err(e);
                },
            };
            Ok(BuiltinAction::MoveContainerToMonitor { index: MonitorIndex::new(x0) })
        },
        BuiltinActionKind::CycleMoveContainerToMonitor => {
            let x0 = match args.cycle(ParameterId::CYCLE) {
                Ok(x) => x,
                Err(e) => {
                    return Err(e);
                },
            };
            Ok(BuiltinAction::CycleMoveContainerToMonitor { direction: x0 })
        },
        _ => vstd::pervasive::unreached(),
    }
}

/// Binds the kinds of part 4.
#[verifier::rlimit(100)]
#[verifier::spinoff_prover]
fn bind_part_4(kind: BuiltinActionKind, args: &ValidatedArguments) -> (r: Result<
    BuiltinAction,
    ArgumentBindingError,
>)
    requires
        in_part_4(kind),
    ensures
        binding_of(kind, args.arguments(), r),
{
    match kind {
        BuiltinActionKind::SendContainerToMonitor => {
            let x0 = match args.usize(ParameterId::INDEX) {
                Ok(x) => x,
                Err(e) => {
                    return Err(e);
                },
            };
            Ok(BuiltinAction::SendContainerToMonitor { index: MonitorIndex::new(x0) })
        },
        BuiltinActionKind::CycleSendContainerToMonitor => {
            let x0 = match args.cycle(ParameterId::CYCLE) {
                Ok(x) => x,
                Err(e) => {
                    return Err(e);
                },
            };
            Ok(BuiltinAction::CycleSendContainerToMonitor { direction: x0 })
        },
        BuiltinActionKind::MoveContainerToMonitorWorkspace => {
            let x0 = match args.usize(ParameterId::MONITOR) {
                Ok(x) => x,
                Err(e) => {
                    return Err(e);
                },
            };
            let x1 = match args.usize(ParameterId::INDEX) {
                Ok(x) => x,
                Err(e) => {
                    return Err(e);
                },
            };
            Ok(BuiltinAction::MoveContainerToMonitorWorkspace { monitor: MonitorIndex::new(x0), workspace: WorkspaceIndex::new(x1) })
        },
        BuiltinActionKind::SendContainerToMonitorWorkspace => {
            let x0 = match args.usize(ParameterId::MONITOR) {
                Ok(x) => x,
                Err(e) => {
                    return Err(e);
                },
            };
            let x1 = match args.usize(ParameterId::INDEX) {
                Ok(x) => x,
                Err(e) => {
                    return Err(e);
                },
            };
            Ok(BuiltinAction::SendContainerToMonitorWorkspace { monitor: MonitorIndex::new(x0), workspace: WorkspaceIndex::new(x1) })
        },
        BuiltinActionKind::MoveWorkspaceToMonitor => {
            let x0 = match args.usize(ParameterId::INDEX) {
                Ok(x) => x,
                Err(e) => {
                    return Err(e);
                },
            };
            Ok(BuiltinAction::MoveWorkspaceToMonitor { index: MonitorIndex::new(x0) })
        },
        BuiltinActionKind::CycleMoveWorkspaceToMonitor => {
            let x0 = match args.cycle(ParameterId::CYCLE) {
                Ok(x) => x,
                Err(e) => {
                    return Err(e);
                },
            };
            Ok(BuiltinAction::CycleMoveWorkspaceToMonitor { direction: x0 })
        },
        BuiltinActionKind::SwapWorkspacesToMonitor => {
            let x0 = match args.usize(ParameterId::INDEX) {
                Ok(x) => x,
                Err(e) => {
                    return Err(e);
                },
            };
            Ok(BuiltinAction::SwapWorkspacesToMonitor { index: MonitorIndex::new(x0) })
        },
        BuiltinActionKind::PreselectDirection => {
            let x0 = match args.direction(ParameterId::DIRECTION) {
                Ok(x) => x,
                Err(e) => {
                    return Err(e);
                },
            };
            Ok(BuiltinAction::PreselectDirection { direction: x0 })
        },
        BuiltinActionKind::CancelPreselect => Ok(BuiltinAction::CancelPreselect),
        BuiltinActionKind::Retile => Ok(BuiltinAction::Retile),
        BuiltinActionKind::RetileWithResizeDimensions => Ok(BuiltinAction::RetileWithResizeDimensions),
        BuiltinActionKind::ManageFocusedWindow => Ok(BuiltinAction::ManageFocusedWindow),
        BuiltinActionKind::UnmanageFocusedWindow => Ok(BuiltinAction::UnmanageFocusedWindow),
        BuiltinActionKind::AdjustContainerPadding => {
            let x0 = match args.sizing(ParameterId::SIZING) {
                Ok(x) => x,
                Err(e) => {
                    return Err(e);
                },
            };
            let x1 = match args.i32(ParameterId::ADJUSTMENT) {
                Ok(x) => x,
                Err(e) => {
                    return Err(e);
                },
            };
            Ok(BuiltinAction::AdjustContainerPadding { sizing: x0, adjustment: x1 })
        },
        BuiltinActionKind::AdjustWorkspacePadding => {
            let x0 = match args.sizing(ParameterId::SIZING) {
                Ok(x) => x,
                Err(e) => {
                    return Err(e);
                },
            };
            let x1 = match args.i32(ParameterId::ADJUSTMENT) {
                Ok(x) => x,
                Err(e) => {
                    return Err(e);
                },
            };
            Ok(BuiltinAction::AdjustWorkspacePadding { sizing: x0, adjustment: x1 })
        },
        BuiltinActionKind::ToggleMouseFollowsFocus => Ok(BuiltinAction::ToggleMouseFollowsFocus),
        _ => vstd::pervasive::unreached(),
    }
}

/// Binds the kinds of part 5.
#[verifier::rlimit(100)]
#[verifier::spinoff_prover]
fn bind_part_5(kind: BuiltinActionKind, args: &ValidatedArguments) -> (r: Result<
    BuiltinAction,
    ArgumentBindingError,
>)
    requires
        in_part_5(kind),
    ensures
        binding_of(kind, args.arguments(), r),
{
    match kind {
        BuiltinActionKind::SetMouseFollowsFocus => {
            let x0 = match args.boolean(ParameterId::ENABLED) {
                Ok(x) => x,
                Err(e) => {
                    return Err(e);
                },
            };
            Ok(BuiltinAction::SetMouseFollowsFocus { enabled: x0 })
        },
        BuiltinActionKind::ToggleWindowContainerBehaviour => Ok(BuiltinAction::ToggleWindowContainerBehaviour),
        BuiltinActionKind::ToggleFloatOverride => Ok(BuiltinAction::ToggleFloatOverride),
        BuiltinActionKind::ToggleWorkspaceWindowContainerBehaviour => Ok(BuiltinAction::ToggleWorkspaceWindowContainerBehaviour),
        BuiltinActionKind::ToggleWorkspaceFloatOverride => Ok(BuiltinAction::ToggleWorkspaceFloatOverride),
        BuiltinActionKind::ToggleCrossMonitorMoveBehaviour => Ok(BuiltinAction::ToggleCrossMonitorMoveBehaviour),
        BuiltinActionKind::ToggleMonocleFocusBehaviour => Ok(BuiltinAction::ToggleMonocleFocusBehaviour),
        BuiltinActionKind::TogglePause => Ok(BuiltinAction::TogglePause),
        BuiltinActionKind::SetFocusedContainerPadding => {
            let x0 = match args.i32(ParameterId::SIZE) {
                Ok(x) => x,
                Err(e) => {
                    return Err(e);
                },
            };
            Ok(BuiltinAction::SetFocusedContainerPadding { size: x0 })
        },
        BuiltinActionKind::SetFocusedWorkspacePadding => {
            let x0 = match args.i32(ParameterId::SIZE) {
                Ok(x) => x,
                Err(e) => {
                    return Err(e);
                },
            };
            Ok(BuiltinAction::SetFocusedWorkspacePadding { size: x0 })
        },
        BuiltinActionKind::SetContainerPadding => {
            let x0 = match args.usize(ParameterId::MONITOR) {
                Ok(x) => x,
                Err(e) => {
                    return Err(e);
                },
            };
            let x1 = match args.usize(ParameterId::INDEX) {
                Ok(x) => x,
                Err(e) => {
                    return Err(e);
                },
            };
            let x2 = match args.i32(ParameterId::SIZE) {
                Ok(x) => x,
                Err(e) => {
                    return Err(e);
                },
            };
            Ok(BuiltinAction::SetContainerPadding { monitor: MonitorIndex::new(x0), workspace: WorkspaceIndex::new(x1), size: x2 })
        },
        BuiltinActionKind::SetWorkspacePadding => {
            let x0 = match args.usize(ParameterId::MONITOR) {
                Ok(x) => x,
                Err(e) => {
                    return Err(e);
                },
            };
            let x1 = match args.usize(ParameterId::INDEX) {
                Ok(x) => x,
                Err(e) => {
                    return Err(e);
                },
            };
            let x2 = match args.i32(ParameterId::SIZE) {
                Ok(x) => x,
                Err(e) => {
                    return Err(e);
                },
            };
            Ok(BuiltinAction::SetWorkspacePadding { monitor: MonitorIndex::new(x0), workspace: WorkspaceIndex::new(x1), size: x2 })
        },
        BuiltinActionKind::SetWorkspaceTiling => {
            let x0 = match args.usize(ParameterId::MONITOR) {
                Ok(x) => x,
                Err(e) => {
                    return Err(e);
                },
            };
            let x1 = match args.usize(ParameterId::INDEX) {
                Ok(x) => x,
                Err(e) => {
                    return Err(e);
                },
            };
            let x2 = match args.boolean(ParameterId::ENABLED) {
                Ok(x) => x,
                Err(e) => {
                    return Err(e);
                },
            };
            Ok(BuiltinAction::SetWorkspaceTiling { monitor: MonitorIndex::new(x0), workspace: WorkspaceIndex::new(x1), tile: x2 })
        },
        BuiltinActionKind::SetMonitorWorkspaceLayout => {
            let x0 = match args.usize(ParameterId::MONITOR) {
                Ok(x) => x,
                Err(e) => {
                    return Err(e);
                },
            };
            let x1 = match args.usize(ParameterId::INDEX) {
                Ok(x) => x,
                Err(e) => {
                    return Err(e);
                },
            };
            let x2 = match args.layout(ParameterId::LAYOUT) {
                Ok(x) => x,
                Err(e) => {
                    return Err(e);
                },
            };
            Ok(BuiltinAction::SetMonitorWorkspaceLayout { monitor: MonitorIndex::new(x0), workspace: WorkspaceIndex::new(x1), layout: x2 })
        },
        BuiltinActionKind::EnsureWorkspaces => {
            let x0 = match args.usize(ParameterId::MONITOR) {
                Ok(x) => x,
                Err(e) => {
                    return Err(e);
                },
            };
            let x1 = match args.usize(ParameterId::COUNT) {
                Ok(x) => x,
                Err(e) => {
                    return Err(e);
                },
            };
            Ok(BuiltinAction::EnsureWorkspaces { monitor: MonitorIndex::new(x0), count: x1 })
        },
        BuiltinActionKind::ClearWorkspaceLayoutRules => {
            let x0 = match args.usize(ParameterId::MONITOR) {
                Ok(x) => x,
                Err(e) => {
                    return Err(e);
                },
            };
            let x1 = match args.usize(ParameterId::INDEX) {
                Ok(x) => x,
                Err(e) => {
                    return Err(e);
                },
            };
            Ok(BuiltinAction::ClearWorkspaceLayoutRules { monitor: MonitorIndex::new(x0), workspace: WorkspaceIndex::new(x1) })
        },
        _ => vstd::pervasive::unreached(),
    }
}

/// Binds the kinds of part 6.
#[verifier::rlimit(100)]
#[verifier::spinoff_prover]
fn bind_part_6(kind: BuiltinActionKind, args: &ValidatedArguments) -> (r: Result<
    BuiltinAction,
    ArgumentBindingError,
>)
    requires
        in_part_6(kind),
    ensures
        binding_of(kind, args.arguments(), r),
{
    match kind {
        BuiltinActionKind::SetScrollingColumns => {
            let x0 = match args.nonzero_usize(ParameterId::COLUMNS) {
                Ok(x) => x,
                Err(e) => {
                    return Err(e);
                },
            };
            Ok(BuiltinAction::SetScrollingColumns { columns: x0 })
        },
        BuiltinActionKind::LockContainer => {
            let x0 = match args.usize(ParameterId::MONITOR) {
                Ok(x) => x,
                Err(e) => {
                    return Err(e);
                },
            };
            let x1 = match args.usize(ParameterId::INDEX) {
                Ok(x) => x,
                Err(e) => {
                    return Err(e);
                },
            };
            let x2 = match args.usize(ParameterId::CONTAINER) {
                Ok(x) => x,
                Err(e) => {
                    return Err(e);
                },
            };
            Ok(BuiltinAction::LockContainer { monitor: MonitorIndex::new(x0), workspace: WorkspaceIndex::new(x1), container: ContainerIndex::new(x2) })
        },
        BuiltinActionKind::UnlockContainer => {
            let x0 = match args.usize(ParameterId::MONITOR) {
                Ok(x) => x,
                Err(e) => {
                    return Err(e);
                },
            };
            let x1 = match args.usize(ParameterId::INDEX) {
                Ok(x) => x,
                Err(e) => {
                    return Err(e);
                },
            };
            let x2 = match args.usize(ParameterId::CONTAINER) {
                Ok(x) => x,
                Err(e) => {
                    return Err(e);
                },
            };
            Ok(BuiltinAction::UnlockContainer { monitor: MonitorIndex::new(x0), workspace: WorkspaceIndex::new(x1), container: ContainerIndex::new(x2) })
        },
        BuiltinActionKind::ToggleTitleBars => Ok(BuiltinAction::ToggleTitleBars),
        BuiltinActionKind::EnforceWorkspaceRules => Ok(BuiltinAction::EnforceWorkspaceRules),
        BuiltinActionKind::AddSessionFloatRule => Ok(BuiltinAction::AddSessionFloatRule),
        BuiltinActionKind::ClearSessionFloatRules => Ok(BuiltinAction::ClearSessionFloatRules),
        BuiltinActionKind::ResizeWindowEdge => {
            let x0 = match args.direction(ParameterId::DIRECTION) {
                Ok(x) => x,
                Err(e) => {
                    return Err(e);
                },
            };
            let x1 = match args.pixels(ParameterId::DELTA) {
                Ok(x) => x,
                Err(e) => {
                    return Err(e);
                },
            };
            Ok(BuiltinAction::ResizeWindowEdge { direction: x0, delta: x1 })
        },
        BuiltinActionKind::ResizeWindowEdgeByStep => {
            let x0 = match args.direction(ParameterId::DIRECTION) {
                Ok(x) => x,
                Err(e) => {
                    return Err(e);
                },
            };
            let x1 = match args.sizing(ParameterId::SIZING) {
                Ok(x) => x,
                Err(e) => {
                    return Err(e);
                },
            };
            Ok(BuiltinAction::ResizeWindowEdgeByStep { direction: x0, sizing: x1 })
        },
        BuiltinActionKind::SetWindowHidingBehaviour => {
            let x0 = match args.hiding_behaviour(ParameterId::BEHAVIOUR) {
                Ok(x) => x,
                Err(e) => {
                    return Err(e);
                },
            };
            Ok(BuiltinAction::SetWindowHidingBehaviour { behaviour: x0 })
        },
        BuiltinActionKind::SetCrossMonitorMoveBehaviour => {
            let x0 = match args.move_behaviour(ParameterId::BEHAVIOUR) {
                Ok(x) => x,
                Err(e) => {
                    return Err(e);
                },
            };
            Ok(BuiltinAction::SetCrossMonitorMoveBehaviour { behaviour: x0 })
        },
        BuiltinActionKind::SetMonocleFocusBehaviour => {
            let x0 = match args.monocle_behaviour(ParameterId::BEHAVIOUR) {
                Ok(x) => x,
                Err(e) => {
                    return Err(e);
                },
            };
            Ok(BuiltinAction::SetMonocleFocusBehaviour { behaviour: x0 })
        },
        BuiltinActionKind::SetUnmanagedWindowOperationBehaviour => {
            let x0 = match args.operation_behaviour(ParameterId::BEHAVIOUR) {
                Ok(x) => x,
                Err(e) => {
                    return Err(e);
                },
            };
            Ok(BuiltinAction::SetUnmanagedWindowOperationBehaviour { behaviour: x0 })
        },
        BuiltinActionKind::SetFocusFollowsMouse => {
            let x0 = match args.ffm_implementation(ParameterId::IMPLEMENTATION) {
                Ok(x) => x,
                Err(e) => {
                    return Err(e);
                },
            };
            let x1 = match args.boolean(ParameterId::ENABLED) {
                Ok(x) => x,
                Err(e) => {
                    return Err(e);
                },
            };
            Ok(BuiltinAction::SetFocusFollowsMouse { implementation: x0, enabled: x1 })
        },
        BuiltinActionKind::ToggleFocusFollowsMouse => {
            let x0 = match args.ffm_implementation(ParameterId::IMPLEMENTATION) {
                Ok(x) => x,
                Err(e) => {
                    return Err(e);
                },
            };
            Ok(BuiltinAction::ToggleFocusFollowsMouse { implementation: x0 })
        },
        BuiltinActionKind::AddWorkspaceLayoutRule => {
            let x0 = match args.usize(ParameterId::MONITOR) {
                Ok(x) => x,
                Err(e) => {
                    return Err(e);
                },
            };
            let x1 = match args.usize(ParameterId::INDEX) {
                Ok(x) => x,
                Err(e) => {
                    return Err(e);
                },
            };
            let x2 = match args.usize(ParameterId::AT_COUNT) {
                Ok(x) => x,
                Err(e) => {
                    return Err(e);
                },
            };
            let x3 = match args.layout(ParameterId::LAYOUT) {
                Ok(x) => x,
                Err(e) => {
                    return Err(e);
                },
            };
            Ok(BuiltinAction::AddWorkspaceLayoutRule { monitor: MonitorIndex::new(x0), workspace: WorkspaceIndex::new(x1), at_container_count: x2, layout: x3 })
        },
        _ => vstd::pervasive::unreached(),
    }
}

/// Binds the kinds of part 7.
#[verifier::rlimit(100)]
#[verifier::spinoff_prover]
fn bind_part_7(kind: BuiltinActionKind, args: &ValidatedArguments) -> (r: Result<
    BuiltinAction,
    ArgumentBindingError,
>)
    requires
        in_part_7(kind),
    ensures
        binding_of(kind, args.arguments(), r),
{
    match kind {
        BuiltinActionKind::FocusNamedWorkspace => {
            let x0 = match args.workspace_name(ParameterId::NAME) {
                Ok(x) => x,
                Err(e) => {
                    return Err(e);
                },
            };
            Ok(BuiltinAction::FocusNamedWorkspace { name: x0 })
        },
        BuiltinActionKind::MoveContainerToNamedWorkspace => {
            let x0 = match args.workspace_name(ParameterId::NAME) {
                Ok(x) => x,
                Err(e) => {
                    return Err(e);
                },
            };
            Ok(BuiltinAction::MoveContainerToNamedWorkspace { name: x0 })
        },
        BuiltinActionKind::SendContainerToNamedWorkspace => {
            let x0 = match args.workspace_name(ParameterId::NAME) {
                Ok(x) => x,
                Err(e) => {
                    return Err(e);
                },
            };
            Ok(BuiltinAction::SendContainerToNamedWorkspace { name: x0 })
        },
        BuiltinActionKind::SetNamedWorkspaceContainerPadding => {
            let x0 = match args.workspace_name(ParameterId::NAME) {
                Ok(x) => x,
                Err(e) => {
                    return Err(e);
                },
            };
            let x1 = match args.i32(ParameterId::SIZE) {
                Ok(x) => x,
                Err(e) => {
                    return Err(e);
                },
            };
            Ok(BuiltinAction::SetNamedWorkspaceContainerPadding { name: x0, size: x1 })
        },
        BuiltinActionKind::SetNamedWorkspacePadding => {
            let x0 = match args.workspace_name(ParameterId::NAME) {
                Ok(x) => x,
                Err(e) => {
                    return Err(e);
                },
            };
            let x1 = match args.i32(ParameterId::SIZE) {
                Ok(x) => x,
                Err(e) => {
                    return Err(e);
                },
            };
            Ok(BuiltinAction::SetNamedWorkspacePadding { name: x0, size: x1 })
        },
        BuiltinActionKind::SetNamedWorkspaceTiling => {
            let x0 = match args.workspace_name(ParameterId::NAME) {
                Ok(x) => x,
                Err(e) => {
                    return Err(e);
                },
            };
            let x1 = match args.boolean(ParameterId::ENABLED) {
                Ok(x) => x,
                Err(e) => {
                    return Err(e);
                },
            };
            Ok(BuiltinAction::SetNamedWorkspaceTiling { name: x0, tile: x1 })
        },
        BuiltinActionKind::SetNamedWorkspaceLayout => {
            let x0 = match args.workspace_name(ParameterId::NAME) {
                Ok(x) => x,
                Err(e) => {
                    return Err(e);
                },
            };
            let x1 = match args.layout(ParameterId::LAYOUT) {
                Ok(x) => x,
                Err(e) => {
                    return Err(e);
                },
            };
            Ok(BuiltinAction::SetNamedWorkspaceLayout { name: x0, layout: x1 })
        },
        BuiltinActionKind::SetNamedWorkspaceCustomLayout => {
            let x0 = match args.workspace_name(ParameterId::NAME) {
                Ok(x) => x,
                Err(e) => {
                    return Err(e);
                },
            };
            let x1 = match args.windows_path(ParameterId::PATH) {
                Ok(x) => x,
                Err(e) => {
                    return Err(e);
                },
            };
            Ok(BuiltinAction::SetNamedWorkspaceCustomLayout { name: x0, path: x1 })
        },
        BuiltinActionKind::AddNamedWorkspaceLayoutRule => {
            let x0 = match args.workspace_name(ParameterId::NAME) {
                Ok(x) => x,
                Err(e) => {
                    return Err(e);
                },
            };
            let x1 = match args.usize(ParameterId::AT_COUNT) {
                Ok(x) => x,
                Err(e) => {
                    return Err(e);
                },
            };
            let x2 = match args.layout(ParameterId::LAYOUT) {
                Ok(x) => x,
                Err(e) => {
                    return Err(e);
                },
            };
            Ok(BuiltinAction::AddNamedWorkspaceLayoutRule { name: x0, at_container_count: x1, layout: x2 })
        },
        BuiltinActionKind::AddNamedWorkspaceCustomLayoutRule => {
            let x0 = match args.workspace_name(ParameterId::NAME) {
                Ok(x) => x,
                Err(e) => {
                    return Err(e);
                },
            };
            let x1 = match args.usize(ParameterId::AT_COUNT) {
                Ok(x) => x,
                Err(e) => {
                    return Err(e);
                },
            };
            let x2 = match args.windows_path(ParameterId::PATH) {
                Ok(x) => x,
                Err(e) => {
                    return Err(e);
                },
            };
            Ok(BuiltinAction::AddNamedWorkspaceCustomLayoutRule { name: x0, at_container_count: x1, path: x2 })
        },
        BuiltinActionKind::ClearNamedWorkspaceLayoutRules => {
            let x0 = match args.workspace_name(ParameterId::NAME) {
                Ok(x) => x,
                Err(e) => {
                    return Err(e);
                },
            };
            Ok(BuiltinAction::ClearNamedWorkspaceLayoutRules { name: x0 })
        },
        BuiltinActionKind::EnsureNamedWorkspaces => {
            let x0 = match args.usize(ParameterId::MONITOR) {
                Ok(x) => x,
                Err(e) => {
                    return Err(e);
                },
            };
            let x1 = match args.workspace_names(ParameterId::NAMES) {
                Ok(x) => x,
                Err(e) => {
                    return Err(e);
                },
            };
            Ok(BuiltinAction::EnsureNamedWorkspaces { monitor: MonitorIndex::new(x0), names: x1 })
        },
        BuiltinActionKind::SetWorkspaceName => {
            let x0 = match args.usize(ParameterId::MONITOR) {
                Ok(x) => x,
                Err(e) => {
                    return Err(e);
                },
            };
            let x1 = match args.usize(ParameterId::INDEX) {
                Ok(x) => x,
                Err(e) => {
                    return Err(e);
                },
            };
            let x2 = match args.workspace_name(ParameterId::NAME) {
                Ok(x) => x,
                Err(e) => {
                    return Err(e);
                },
            };
            Ok(BuiltinAction::SetWorkspaceName { monitor: MonitorIndex::new(x0), workspace: WorkspaceIndex::new(x1), name: x2 })
        },
        BuiltinActionKind::SetLayoutRatios => {
            let x0 = match args.ratios(ParameterId::COLUMN_RATIOS) {
                Ok(x) => x,
                Err(e) => {
                    return Err(e);
                },
            };
            let x1 = match args.ratios(ParameterId::ROW_RATIOS) {
                Ok(x) => x,
                Err(e) => {
                    return Err(e);
                },
            };
            Ok(BuiltinAction::SetLayoutRatios { columns: x0, rows: x1 })
        },
        BuiltinActionKind::SetCustomLayout => {
            let x0 = match args.windows_path(ParameterId::PATH) {
                Ok(x) => x,
                Err(e) => {
                    return Err(e);
                },
            };
            Ok(BuiltinAction::SetCustomLayout { path: x0 })
        },
        BuiltinActionKind::SetWorkspaceCustomLayout => {
            let x0 = match args.usize(ParameterId::MONITOR) {
                Ok(x) => x,
                Err(e) => {
                    return Err(e);
                },
            };
            let x1 = match args.usize(ParameterId::INDEX) {
                Ok(x) => x,
                Err(e) => {
                    return Err(e);
                },
            };
            let x2 = match args.windows_path(ParameterId::PATH) {
                Ok(x) => x,
                Err(e) => {
                    return Err(e);
                },
            };
            Ok(BuiltinAction::SetWorkspaceCustomLayout { monitor: MonitorIndex::new(x0), workspace: WorkspaceIndex::new(x1), path: x2 })
        },
        _ => vstd::pervasive::unreached(),
    }
}

/// Binds the kinds of part 8.
#[verifier::rlimit(100)]
#[verifier::spinoff_prover]
fn bind_part_8(kind: BuiltinActionKind, args: &ValidatedArguments) -> (r: Result<
    BuiltinAction,
    ArgumentBindingError,
>)
    requires
        in_part_8(kind),
    ensures
        binding_of(kind, args.arguments(), r),
{
    match kind {
        BuiltinActionKind::AddWorkspaceCustomLayoutRule => {
            let x0 = match args.usize(ParameterId::MONITOR) {
                Ok(x) => x,
                Err(e) => {
                    return Err(e);
                },
            };
            let x1 = match args.usize(ParameterId::INDEX) {
                Ok(x) => x,
                Err(e) => {
                    return Err(e);
                },
            };
            let x2 = match args.usize(ParameterId::AT_COUNT) {
                Ok(x) => x,
                Err(e) => {
                    return Err(e);
                },
            };
            let x3 = match args.windows_path(ParameterId::PATH) {
                Ok(x) => x,
                Err(e) => {
                    return Err(e);
                },
            };
            Ok(BuiltinAction::AddWorkspaceCustomLayoutRule { monitor: MonitorIndex::new(x0), workspace: WorkspaceIndex::new(x1), at_container_count: x2, path: x3 })
        },
        BuiltinActionKind::EagerFocus => {
            let x0 = match args.text(ParameterId::EXE) {
                Ok(x) => x,
                Err(e) => {
                    return Err(e);
                },
            };
            Ok(BuiltinAction::EagerFocus { exe: x0 })
        },
        BuiltinActionKind::RemoveTitleBar => {
            let x0 = match args.application_identifier(ParameterId::IDENTIFIER) {
                Ok(x) => x,
                Err(e) => {
                    return Err(e);
                },
            };
            let x1 = match args.text(ParameterId::EXE) {
                Ok(x) => x,
                Err(e) => {
                    return Err(e);
                },
            };
            Ok(BuiltinAction::RemoveTitleBar { identifier: x0, id: x1 })
        },
        BuiltinActionKind::SetResizeStep => {
            let x0 = match args.resize_step(ParameterId::RESIZE_STEP) {
                Ok(x) => x,
                Err(e) => {
                    return Err(e);
                },
            };
            Ok(BuiltinAction::SetResizeStep { step: x0 })
        },
        BuiltinActionKind::SetTransparencyEnabled => {
            let x0 = match args.boolean(ParameterId::ENABLED) {
                Ok(x) => x,
                Err(e) => {
                    return Err(e);
                },
            };
            Ok(BuiltinAction::SetTransparencyEnabled { enabled: x0 })
        },
        BuiltinActionKind::ToggleTransparency => Ok(BuiltinAction::ToggleTransparency),
        BuiltinActionKind::SetTransparencyAlpha => {
            let x0 = match args.alpha(ParameterId::ALPHA) {
                Ok(x) => x,
                Err(e) => {
                    return Err(e);
                },
            };
            Ok(BuiltinAction::SetTransparencyAlpha { alpha: x0 })
        },
        BuiltinActionKind::SetBorderEnabled => {
            let x0 = match args.boolean(ParameterId::ENABLED) {
                Ok(x) => x,
                Err(e) => {
                    return Err(e);
                },
            };
            Ok(BuiltinAction::SetBorderEnabled { enabled: x0 })
        },
        BuiltinActionKind::SetBorderColour => {
            let x0 = match args.window_kind(ParameterId::WINDOW_KIND) {
                Ok(x) => x,
                Err(e) => {
                    return Err(e);
                },
            };
            let x1 = match args.rgb() {
                Ok(x) => x,
                Err(e) => {
                    return Err(e);
                },
            };
            Ok(BuiltinAction::SetBorderColour { window_kind: x0, colour: x1 })
        },
        BuiltinActionKind::SetBorderWidth => {
            let x0 = match args.border_width(ParameterId::WIDTH) {
                Ok(x) => x,
                Err(e) => {
                    return Err(e);
                },
            };
            Ok(BuiltinAction::SetBorderWidth { width: x0 })
        },
        BuiltinActionKind::SetBorderOffset => {
            let x0 = match args.border_offset(ParameterId::OFFSET) {
                Ok(x) => x,
                Err(e) => {
                    return Err(e);
                },
            };
            Ok(BuiltinAction::SetBorderOffset { offset: x0 })
        },
        BuiltinActionKind::SetBorderStyle => {
            let x0 = match args.border_style(ParameterId::STYLE) {
                Ok(x) => x,
                Err(e) => {
                    return Err(e);
                },
            };
            Ok(BuiltinAction::SetBorderStyle { style: x0 })
        },
        BuiltinActionKind::SetBorderImplementation => {
            let x0 = match args.border_implementation(ParameterId::IMPLEMENTATION) {
                Ok(x) => x,
                Err(e) => {
                    return Err(e);
                },
            };
            Ok(BuiltinAction::SetBorderImplementation { implementation: x0 })
        },
        _ => vstd::pervasive::unreached(),
    }
}

/// Builds the action of `kind` from arguments that fit its definition.
pub fn bind_builtin(kind: BuiltinActionKind, args: &ValidatedArguments) -> (r: Result<
    BuiltinAction,
    ArgumentBindingError,
>)
    ensures
        binding_of(kind, args.arguments(), r),
{
    match kind {
        BuiltinActionKind::FocusWindow | BuiltinActionKind::MoveWindow | BuiltinActionKind::ResizeWindow | BuiltinActionKind::ResizeWindowByStep | BuiltinActionKind::SetWorkspaceLayout | BuiltinActionKind::ToggleWindowFloat | BuiltinActionKind::CycleFocusWindow | BuiltinActionKind::CycleMoveWindow | BuiltinActionKind::ToggleWindowMonocle | BuiltinActionKind::ToggleWindowMaximize | BuiltinActionKind::ToggleContainerLock | BuiltinActionKind::StackWindow | BuiltinActionKind::UnstackWindow | BuiltinActionKind::StackAll | BuiltinActionKind::UnstackAll | BuiltinActionKind::CycleStack => bind_part_1(kind, args),
        BuiltinActionKind::CycleStackIndex | BuiltinActionKind::FocusStackWindow | BuiltinActionKind::FocusWorkspace | BuiltinActionKind::CycleFocusWorkspace | BuiltinActionKind::CycleFocusEmptyWorkspace | BuiltinActionKind::FocusLastWorkspace | BuiltinActionKind::CloseWorkspace | BuiltinActionKind::FocusMonitor | BuiltinActionKind::CycleFocusMonitor | BuiltinActionKind::FocusMonitorAtCursor | BuiltinActionKind::FocusWorkspaceOnAllMonitors | BuiltinActionKind::FocusMonitorWorkspace | BuiltinActionKind::CloseWindow | BuiltinActionKind::MinimizeWindow | BuiltinActionKind::ForceFocus | BuiltinActionKind::PromoteContainer => bind_part_2(kind, args),
        BuiltinActionKind::PromoteContainerSwap | BuiltinActionKind::PromoteFocus | BuiltinActionKind::PromoteWindow | BuiltinActionKind::NewWorkspace | BuiltinActionKind::ToggleTiling | BuiltinActionKind::CycleLayout | BuiltinActionKind::FlipLayout | BuiltinActionKind::ToggleWorkspaceLayer | BuiltinActionKind::MoveContainerToLastWorkspace | BuiltinActionKind::SendContainerToLastWorkspace | BuiltinActionKind::MoveContainerToWorkspace | BuiltinActionKind::CycleMoveContainerToWorkspace | BuiltinActionKind::SendContainerToWorkspace | BuiltinActionKind::CycleSendContainerToWorkspace | BuiltinActionKind::MoveContainerToMonitor | BuiltinActionKind::CycleMoveContainerToMonitor => bind_part_3(kind, args),
        BuiltinActionKind::SendContainerToMonitor | BuiltinActionKind::CycleSendContainerToMonitor | BuiltinActionKind::MoveContainerToMonitorWorkspace | BuiltinActionKind::SendContainerToMonitorWorkspace | BuiltinActionKind::MoveWorkspaceToMonitor | BuiltinActionKind::CycleMoveWorkspaceToMonitor | BuiltinActionKind::SwapWorkspacesToMonitor | BuiltinActionKind::PreselectDirection | BuiltinActionKind::CancelPreselect | BuiltinActionKind::Retile | BuiltinActionKind::RetileWithResizeDimensions | BuiltinActionKind::ManageFocusedWindow | BuiltinActionKind::UnmanageFocusedWindow | BuiltinActionKind::AdjustContainerPadding | BuiltinActionKind::AdjustWorkspacePadding | BuiltinActionKind::ToggleMouseFollowsFocus => bind_part_4(kind, args),
        BuiltinActionKind::SetMouseFollowsFocus | BuiltinActionKind::ToggleWindowContainerBehaviour | BuiltinActionKind::ToggleFloatOverride | BuiltinActionKind::ToggleWorkspaceWindowContainerBehaviour | BuiltinActionKind::ToggleWorkspaceFloatOverride | BuiltinActionKind::ToggleCrossMonitorMoveBehaviour | BuiltinActionKind::ToggleMonocleFocusBehaviour | BuiltinActionKind::TogglePause | BuiltinActionKind::SetFocusedContainerPadding | BuiltinActionKind::SetFocusedWorkspacePadding | BuiltinActionKind::SetContainerPadding | BuiltinActionKind::SetWorkspacePadding | BuiltinActionKind::SetWorkspaceTiling | BuiltinActionKind::SetMonitorWorkspaceLayout | BuiltinActionKind::EnsureWorkspaces | BuiltinActionKind::ClearWorkspaceLayoutRules => bind_part_5(kind, args),
        BuiltinActionKind::SetScrollingColumns | BuiltinActionKind::LockContainer | BuiltinActionKind::UnlockContainer | BuiltinActionKind::ToggleTitleBars | BuiltinActionKind::EnforceWorkspaceRules | BuiltinActionKind::AddSessionFloatRule | BuiltinActionKind::ClearSessionFloatRules | BuiltinActionKind::ResizeWindowEdge | BuiltinActionKind::ResizeWindowEdgeByStep | BuiltinActionKind::SetWindowHidingBehaviour | BuiltinActionKind::SetCrossMonitorMoveBehaviour | BuiltinActionKind::SetMonocleFocusBehaviour | BuiltinActionKind::SetUnmanagedWindowOperationBehaviour | BuiltinActionKind::SetFocusFollowsMouse | BuiltinActionKind::ToggleFocusFollowsMouse | BuiltinActionKind::AddWorkspaceLayoutRule => bind_part_6(kind, args),
        BuiltinActionKind::FocusNamedWorkspace | BuiltinActionKind::MoveContainerToNamedWorkspace | BuiltinActionKind::SendContainerToNamedWorkspace | BuiltinActionKind::SetNamedWorkspaceContainerPadding | BuiltinActionKind::SetNamedWorkspacePadding | BuiltinActionKind::SetNamedWorkspaceTiling | BuiltinActionKind::SetNamedWorkspaceLayout | BuiltinActionKind::SetNamedWorkspaceCustomLayout | BuiltinActionKind::AddNamedWorkspaceLayoutRule | BuiltinActionKind::AddNamedWorkspaceCustomLayoutRule | BuiltinActionKind::ClearNamedWorkspaceLayoutRules | BuiltinActionKind::EnsureNamedWorkspaces | BuiltinActionKind::SetWorkspaceName | BuiltinActionKind::SetLayoutRatios | BuiltinActionKind::SetCustomLayout | BuiltinActionKind::SetWorkspaceCustomLayout => bind_part_7(kind, args),
        BuiltinActionKind::AddWorkspaceCustomLayoutRule | BuiltinActionKind::EagerFocus | BuiltinActionKind::RemoveTitleBar | BuiltinActionKind::SetResizeStep | BuiltinActionKind::SetTransparencyEnabled | BuiltinActionKind::ToggleTransparency | BuiltinActionKind::SetTransparencyAlpha | BuiltinActionKind::SetBorderEnabled | BuiltinActionKind::SetBorderColour | BuiltinActionKind::SetBorderWidth | BuiltinActionKind::SetBorderOffset | BuiltinActionKind::SetBorderStyle | BuiltinActionKind::SetBorderImplementation => bind_part_8(kind, args),
    }
}

/// Binding keeps the kind, for the kinds of part 1.
#[verifier::rlimit(100)]
#[verifier::spinoff_prover]
proof fn lemma_part_1_keeps_the_kind(
    kind: BuiltinActionKind,
    v: Seq<(String, ActionArgument)>,
    r: Result<BuiltinAction, ArgumentBindingError>,
)
    requires
        in_part_1(kind),
        binding_of(kind, v, r),
    ensures
        r matches Ok(action) ==> action.kind_spec() == kind,
{
}

/// Binding keeps the kind, for the kinds of part 2.
#[verifier::rlimit(100)]
#[verifier::spinoff_prover]
proof fn lemma_part_2_keeps_the_kind(
    kind: BuiltinActionKind,
    v: Seq<(String, ActionArgument)>,
    r: Result<BuiltinAction, ArgumentBindingError>,
)
    requires
        in_part_2(kind),
        binding_of(kind, v, r),
    ensures
        r matches Ok(action) ==> action.kind_spec() == kind,
{
}

/// Binding keeps the kind, for the kinds of part 3.
#[verifier::rlimit(100)]
#[verifier::spinoff_prover]
proof fn lemma_part_3_keeps_the_kind(
    kind: BuiltinActionKind,
    v: Seq<(String, ActionArgument)>,
    r: Result<BuiltinAction, ArgumentBindingError>,
)
    requires
        in_part_3(kind),
        binding_of(kind, v, r),
    ensures
        r matches Ok(action) ==> action.kind_spec() == kind,
{
}

/// Binding keeps the kind, for the kinds of part 4.
#[verifier::rlimit(100)]
#[verifier::spinoff_prover]
proof fn lemma_part_4_keeps_the_kind(
    kind: BuiltinActionKind,
    v: Seq<(String, ActionArgument)>,
    r: Result<BuiltinAction, ArgumentBindingError>,
)
    requires
        in_part_4(kind),
        binding_of(kind, v, r),
    ensures
        r matches Ok(action) ==> action.kind_spec() == kind,
{
}

/// Binding keeps the kind, for the kinds of part 5.
#[verifier::rlimit(100)]
#[verifier::spinoff_prover]
proof fn lemma_part_5_keeps_the_kind(
    kind: BuiltinActionKind,
    v: Seq<(String, ActionArgument)>,
    r: Result<BuiltinAction, ArgumentBindingError>,
)
    requires
        in_part_5(kind),
        binding_of(kind, v, r),
    ensures
        r matches Ok(action) ==> action.kind_spec() == kind,
{
}

/// Binding keeps the kind, for the kinds of part 6.
#[verifier::rlimit(100)]
#[verifier::spinoff_prover]
proof fn lemma_part_6_keeps_the_kind(
    kind: BuiltinActionKind,
    v: Seq<(String, ActionArgument)>,
    r: Result<BuiltinAction, ArgumentBindingError>,
)
    requires
        in_part_6(kind),
        binding_of(kind, v, r),
    ensures
        r matches Ok(action) ==> action.kind_spec() == kind,
{
}

/// Binding keeps the kind, for the kinds of part 7.
#[verifier::rlimit(100)]
#[verifier::spinoff_prover]
proof fn lemma_part_7_keeps_the_kind(
    kind: BuiltinActionKind,
    v: Seq<(String, ActionArgument)>,
    r: Result<BuiltinAction, ArgumentBindingError>,
)
    requires
        in_part_7(kind),
        binding_of(kind, v, r),
    ensures
        r matches Ok(action) ==> action.kind_spec() == kind,
{
}

/// Binding keeps the kind, for the kinds of part 8.
#[verifier::rlimit(100)]
#[verifier::spinoff_prover]
proof fn lemma_part_8_keeps_the_kind(
    kind: BuiltinActionKind,
    v: Seq<(String, ActionArgument)>,
    r: Result<BuiltinAction, ArgumentBindingError>,
)
    requires
        in_part_8(kind),
        binding_of(kind, v, r),
    ensures
        r matches Ok(action) ==> action.kind_spec() == kind,
{
}

/// Binding builds an action of the kind it was asked for.
pub proof fn lemma_binding_keeps_the_kind(
    kind: BuiltinActionKind,
    v: Seq<(String, ActionArgument)>,
    r: Result<BuiltinAction, ArgumentBindingError>,
)
    requires
        binding_of(kind, v, r),
    ensures
        r matches Ok(action) ==> action.kind_spec() == kind,
{
    if in_part_1(kind) {
        lemma_part_1_keeps_the_kind(kind, v, r);
    } else if in_part_2(kind) {
        lemma_part_2_keeps_the_kind(kind, v, r);
    } else if in_part_3(kind) {
        lemma_part_3_keeps_the_kind(kind, v, r);
    } else if in_part_4(kind) {
        lemma_part_4_keeps_the_kind(kind, v, r);
    } else if in_part_5(kind) {
        lemma_part_5_keeps_the_kind(kind, v, r);
    } else if in_part_6(kind) {
        lemma_part_6_keeps_the_kind(kind, v, r);
    } else if in_part_7(kind) {
        lemma_part_7_keeps_the_kind(kind, v, r);
    } else {
        lemma_part_8_keeps_the_kind(kind, v, r);
    }
}


/// Whether an action carries the arguments under the parameters its fields
/// are named for: its monitor is the `monitor` argument, the workspace it
/// addresses and any single position are the `index` argument, a container
/// is the `container` argument, and every other field is the argument of the
/// parameter of that meaning (direction, cycle, axis, sizing, layout, size,
/// switch, behaviour, border and transparency settings, selectors, names).
pub open spec fn fields_read_from_parameters(v: Seq<(String, ActionArgument)>, a: BuiltinAction) -> bool {
    &&& monitor_field(a) matches Some(m) ==> usize_of(v, ParameterId::Monitor) == Ok::<
        usize,
        ArgumentBindingError,
    >(m.value)
    &&& workspace_field(a) matches Some(w) ==> usize_of(v, ParameterId::Index) == Ok::<
        usize,
        ArgumentBindingError,
    >(w.value)
    &&& index_field(a) matches Some(i) ==> usize_of(v, ParameterId::Index) == Ok::<
        usize,
        ArgumentBindingError,
    >(i)
    &&& container_field(a) matches Some(c) ==> usize_of(v, ParameterId::Container) == Ok::<
        usize,
        ArgumentBindingError,
    >(c)
    &&& adjustment_field(a) matches Some(x) ==> i32_of(v, ParameterId::Adjustment) == Ok::<_, ArgumentBindingError>(x)
    &&& alpha_field(a) matches Some(x) ==> alpha_of(v, ParameterId::Alpha) == Ok::<_, ArgumentBindingError>(x)
    &&& at_container_count_field(a) matches Some(x) ==> usize_of(v, ParameterId::AtCount) == Ok::<_, ArgumentBindingError>(x)
    &&& axis_field(a) matches Some(x) ==> axis_of(v, ParameterId::Axis) == Ok::<_, ArgumentBindingError>(x)
    &&& hiding_behaviour_field(a) matches Some(x) ==> hiding_behaviour_of(v, ParameterId::Behaviour) == Ok::<_, ArgumentBindingError>(x)
    &&& monocle_behaviour_field(a) matches Some(x) ==> monocle_behaviour_of(v, ParameterId::Behaviour) == Ok::<_, ArgumentBindingError>(x)
    &&& move_behaviour_field(a) matches Some(x) ==> move_behaviour_of(v, ParameterId::Behaviour) == Ok::<_, ArgumentBindingError>(x)
    &&& operation_behaviour_field(a) matches Some(x) ==> operation_behaviour_of(v, ParameterId::Behaviour) == Ok::<_, ArgumentBindingError>(x)
    &&& colour_field(a) matches Some(x) ==> rgb_of(v) == Ok::<_, ArgumentBindingError>(x)
    &&& count_field(a) matches Some(x) ==> usize_of(v, ParameterId::Count) == Ok::<_, ArgumentBindingError>(x)
    &&& delta_field(a) matches Some(x) ==> pixels_of(v, ParameterId::Delta) == Ok::<_, ArgumentBindingError>(x)
    &&& cycle_field(a) matches Some(x) ==> cycle_of(v, ParameterId::Cycle) == Ok::<_, ArgumentBindingError>(x)
    &&& direction_field(a) matches Some(x) ==> direction_of(v, ParameterId::Direction) == Ok::<_, ArgumentBindingError>(x)
    &&& enabled_field(a) matches Some(x) ==> boolean_of(v, ParameterId::Enabled) == Ok::<_, ArgumentBindingError>(x)
    &&& tile_field(a) matches Some(x) ==> boolean_of(v, ParameterId::Enabled) == Ok::<_, ArgumentBindingError>(x)
    &&& border_implementation_field(a) matches Some(x) ==> border_implementation_of(v, ParameterId::Implementation) == Ok::<_, ArgumentBindingError>(x)
    &&& ffm_implementation_field(a) matches Some(x) ==> ffm_implementation_of(v, ParameterId::Implementation) == Ok::<_, ArgumentBindingError>(x)
    &&& layout_field(a) matches Some(x) ==> layout_of(v, ParameterId::Layout) == Ok::<_, ArgumentBindingError>(x)
    &&& offset_field(a) matches Some(x) ==> border_offset_of(v, ParameterId::Offset) == Ok::<_, ArgumentBindingError>(x)
    &&& width_field(a) matches Some(x) ==> border_width_of(v, ParameterId::Width) == Ok::<_, ArgumentBindingError>(x)
    &&& style_field(a) matches Some(x) ==> border_style_of(v, ParameterId::Style) == Ok::<_, ArgumentBindingError>(x)
    &&& step_field(a) matches Some(x) ==> (resize_step_of(v, ParameterId::ResizeStep) matches Ok(p) && p == x.pixels())
    &&& size_field(a) matches Some(x) ==> i32_of(v, ParameterId::Size) == Ok::<_, ArgumentBindingError>(x)
    &&& sizing_field(a) matches Some(x) ==> sizing_of(v, ParameterId::Sizing) == Ok::<_, ArgumentBindingError>(x)
    &&& window_field(a) matches Some(x) ==> window_selector_of(v, ParameterId::Window) == Ok::<_, ArgumentBindingError>(x)
    &&& window_kind_field(a) matches Some(x) ==> window_kind_of(v, ParameterId::WindowKind) == Ok::<_, ArgumentBindingError>(x)
    &&& workspace_selector_field(a) matches Some(x) ==> workspace_selector_of(v, ParameterId::Workspace) == Ok::<_, ArgumentBindingError>(x)
    &&& name_field(a) matches Some(x) ==> workspace_name_of(v, ParameterId::Name) == Ok::<_, ArgumentBindingError>(x)
    &&& path_field(a) matches Some(p) ==> (windows_path_of(v, ParameterId::Path) matches Ok(u) && u
        == p.units())
}

/// Binding reads each field from its parameter, for the kinds of part 1.
#[verifier::rlimit(100)]
#[verifier::spinoff_prover]
proof fn lemma_part_1_reads_its_parameters(
    kind: BuiltinActionKind,
    v: Seq<(String, ActionArgument)>,
    a: BuiltinAction,
)
    requires
        in_part_1(kind),
        binding_of(kind, v, Ok(a)),
    ensures
        fields_read_from_parameters(v, a),
{
}

/// Binding reads each field from its parameter, for the kinds of part 2.
#[verifier::rlimit(100)]
#[verifier::spinoff_prover]
proof fn lemma_part_2_reads_its_parameters(
    kind: BuiltinActionKind,
    v: Seq<(String, ActionArgument)>,
    a: BuiltinAction,
)
    requires
        in_part_2(kind),
        binding_of(kind, v, Ok(a)),
    ensures
        fields_read_from_parameters(v, a),
{
}

/// Binding reads each field from its parameter, for the kinds of part 3.
#[verifier::rlimit(100)]
#[verifier::spinoff_prover]
proof fn lemma_part_3_reads_its_parameters(
    kind: BuiltinActionKind,
    v: Seq<(String, ActionArgument)>,
    a: BuiltinAction,
)
    requires
        in_part_3(kind),
        binding_of(kind, v, Ok(a)),
    ensures
        fields_read_from_parameters(v, a),
{
}

/// Binding reads each field from its parameter, for the kinds of part 4.
#[verifier::rlimit(100)]
#[verifier::spinoff_prover]
proof fn lemma_part_4_reads_its_parameters(
    kind: BuiltinActionKind,
    v: Seq<(String, ActionArgument)>,
    a: BuiltinAction,
)
    requires
        in_part_4(kind),
        binding_of(kind, v, Ok(a)),
    ensures
        fields_read_from_parameters(v, a),
{
}

/// Binding reads each field from its parameter, for the kinds of part 5.
#[verifier::rlimit(100)]
#[verifier::spinoff_prover]
proof fn lemma_part_5_reads_its_parameters(
    kind: BuiltinActionKind,
    v: Seq<(String, ActionArgument)>,
    a: BuiltinAction,
)
    requires
        in_part_5(kind),
        binding_of(kind, v, Ok(a)),
    ensures
        fields_read_from_parameters(v, a),
{
}

/// Binding reads each field from its parameter, for the kinds of part 6.
#[verifier::rlimit(100)]
#[verifier::spinoff_prover]
proof fn lemma_part_6_reads_its_parameters(
    kind: BuiltinActionKind,
    v: Seq<(String, ActionArgument)>,
    a: BuiltinAction,
)
    requires
        in_part_6(kind),
        binding_of(kind, v, Ok(a)),
    ensures
        fields_read_from_parameters(v, a),
{
}

/// Binding reads each field from its parameter, for the kinds of part 7.
#[verifier::rlimit(100)]
#[verifier::spinoff_prover]
proof fn lemma_part_7_reads_its_parameters(
    kind: BuiltinActionKind,
    v: Seq<(String, ActionArgument)>,
    a: BuiltinAction,
)
    requires
        in_part_7(kind),
        binding_of(kind, v, Ok(a)),
    ensures
        fields_read_from_parameters(v, a),
{
}

/// Binding reads each field from its parameter, for the kinds of part 8.
#[verifier::rlimit(100)]
#[verifier::spinoff_prover]
proof fn lemma_part_8_reads_its_parameters(
    kind: BuiltinActionKind,
    v: Seq<(String, ActionArgument)>,
    a: BuiltinAction,
)
    requires
        in_part_8(kind),
        binding_of(kind, v, Ok(a)),
    ensures
        fields_read_from_parameters(v, a),
{
}

/// A bound action carries each argument in the field named for its
/// parameter: a monitor from `monitor`, a workspace or single position from
/// `index`, a container from `container`.
pub proof fn lemma_binding_reads_each_field_from_its_parameter(
    kind: BuiltinActionKind,
    v: Seq<(String, ActionArgument)>,
    a: BuiltinAction,
)
    requires
        binding_of(kind, v, Ok(a)),
    ensures
        fields_read_from_parameters(v, a),
{
    if in_part_1(kind) {
        lemma_part_1_reads_its_parameters(kind, v, a);
    } else if in_part_2(kind) {
        lemma_part_2_reads_its_parameters(kind, v, a);
    } else if in_part_3(kind) {
        lemma_part_3_reads_its_parameters(kind, v, a);
    } else if in_part_4(kind) {
        lemma_part_4_reads_its_parameters(kind, v, a);
    } else if in_part_5(kind) {
        lemma_part_5_reads_its_parameters(kind, v, a);
    } else if in_part_6(kind) {
        lemma_part_6_reads_its_parameters(kind, v, a);
    } else if in_part_7(kind) {
        lemma_part_7_reads_its_parameters(kind, v, a);
    } else {
        lemma_part_8_reads_its_parameters(kind, v, a);
    }
}

/// Why an invocation does not fit the catalog it was made against.
#[derive(Clone, Copy, Debug, PartialEq, Eq)]
pub enum InvocationRejection {
    /// The manager restarted since the catalog was read.
    StaleEpoch,
    StaleState { current: StateStamp },
    StaleCatalog { current: StateStamp },
    /// The catalog offers no such action in that schema version.
    StaleOffer,
    Unauthorized,
    Unavailable(Unavailability),
}

/// Whether an invocation was made against the current run, state and catalog:
/// a different run is stale whatever else differs, then the state is
/// checked, then the catalog.
pub open spec fn identity_problem(
    current_state: StateStamp,
    current_catalog: StateStamp,
    expected_state: StateStamp,
    offered_catalog: StateStamp,
) -> Option<InvocationRejection> {
    if expected_state.epoch.bytes() != current_state.epoch.bytes() || offered_catalog.epoch.bytes()
        != current_catalog.epoch.bytes() {
        Some(InvocationRejection::StaleEpoch)
    } else if expected_state != current_state {
        Some(InvocationRejection::StaleState { current: current_state })
    } else if offered_catalog != current_catalog {
        Some(InvocationRejection::StaleCatalog { current: current_catalog })
    } else {
        None
    }
}

/// Whether an offer is the action of that id in that schema version.
pub open spec fn offers_action(offer: ActionOffer, action: ActionId, schema_version: u16) -> bool {
    offer.definition.id == action && offer.definition.schema_version.value == schema_version
}

/// The index of the first offer at or after `start` of an action in a
/// schema version.
pub open spec fn offer_from(offers: Seq<ActionOffer>, action: ActionId, schema_version: u16, start: int) -> Option<int>
    decreases offers.len() - start,
{
    if start < 0 || start >= offers.len() {
        None
    } else if offers_action(offers[start], action, schema_version) {
        Some(start)
    } else {
        offer_from(offers, action, schema_version, start + 1)
    }
}

/// The index of the first offer of an action in a schema version.
pub open spec fn offer_for(offers: Seq<ActionOffer>, action: ActionId, schema_version: u16) -> Option<int> {
    offer_from(offers, action, schema_version, 0)
}

/// What an offer's availability makes of an invocation of it.
pub open spec fn availability_problem(availability: ActionAvailability) -> Option<InvocationRejection> {
    match availability {
        ActionAvailability::Available => None,
        ActionAvailability::Unavailable(Unavailability::Unauthorized) => Some(
            InvocationRejection::Unauthorized,
        ),
        ActionAvailability::Unavailable(reason) => Some(InvocationRejection::Unavailable(reason)),
    }
}

/// The kind an invocation names, or why it does not fit the catalog.
pub open spec fn invocation_check(
    current_state: StateStamp,
    current_catalog: StateStamp,
    offers: Seq<ActionOffer>,
    expected_state: StateStamp,
    offered_catalog: StateStamp,
    action: ActionId,
    schema_version: u16,
) -> Result<BuiltinActionKind, InvocationRejection> {
    match identity_problem(current_state, current_catalog, expected_state, offered_catalog) {
        Some(rejection) => Err(rejection),
        None => match offer_for(offers, action, schema_version) {
            None => Err(InvocationRejection::StaleOffer),
            Some(i) => match availability_problem(offers[i].availability) {
                Some(rejection) => Err(rejection),
                None => Ok(offers[i].definition.kind),
            },
        },
    }
}

/// Checks an invocation's identity against the current state and catalog,
/// finds the offer of the action it names, and checks that the offer is
/// available; gives the kind of the action. Whether the invocation's copy of
/// the action's contract matches the offer's is the caller's to check, on
/// the wire forms.
pub fn check_invocation(
    current_state: StateStamp,
    current_catalog: StateStamp,
    offers: &Vec<ActionOffer>,
    expected_state: StateStamp,
    offered_catalog: StateStamp,
    action: ActionId,
    schema_version: u16,
) -> (r: Result<BuiltinActionKind, InvocationRejection>)
    ensures
        r == invocation_check(
            current_state,
            current_catalog,
            offers@,
            expected_state,
            offered_catalog,
            action,
            schema_version,
        ),
{
    proof {
        lemma_stamp_equality(expected_state, current_state);
        lemma_stamp_equality(offered_catalog, current_catalog);
    }
    if !(expected_state.epoch == current_state.epoch) || !(offered_catalog.epoch
        == current_catalog.epoch) {
        return Err(InvocationRejection::StaleEpoch);
    }
    if !(expected_state == current_state) {
        return Err(InvocationRejection::StaleState { current: current_state });
    }
    if !(offered_catalog == current_catalog) {
        return Err(InvocationRejection::StaleCatalog { current: current_catalog });
    }
    let mut i: usize = 0;
    while i < offers.len()
        invariant
            0 <= i <= offers@.len(),
            identity_problem(current_state, current_catalog, expected_state, offered_catalog)
                is None,
            offer_for(offers@, action, schema_version) == offer_from(
                offers@,
                action,
                schema_version,
                i as int,
            ),
        decreases offers.len() - i,
    {
        if offers[i].definition.id == action && offers[i].definition.schema_version.value
            == schema_version {
            assert(offers_action(offers@[i as int], action, schema_version));
            return match offers[i].availability {
                ActionAvailability::Available => Ok(offers[i].definition.kind),
                ActionAvailability::Unavailable(Unavailability::Unauthorized) => Err(
                    InvocationRejection::Unauthorized,
                ),
                ActionAvailability::Unavailable(reason) => Err(
                    InvocationRejection::Unavailable(reason),
                ),
            };
        }
        i = i + 1;
    }
    Err(InvocationRejection::StaleOffer)
}

/// Why an argument for a parameter with live choices was refused.
#[derive(Clone, Copy, Debug, PartialEq, Eq, Structural)]
pub enum DynamicChoiceRejection {
    /// A list was given where one of the offered values belongs.
    InvalidArguments,
    /// The value is not among the choices offered.
    StaleOffer,
}

/// The word a direction is offered and chosen under.
pub open spec fn direction_text(direction: OperationDirection) -> Seq<char> {
    match direction {
        OperationDirection::Left => "left"@,
        OperationDirection::Right => "right"@,
        OperationDirection::Up => "up"@,
        OperationDirection::Down => "down"@,
    }
}

fn direction_word(direction: OperationDirection) -> (r: &'static str)
    ensures
        r@ == direction_text(direction),
{
    match direction {
        OperationDirection::Left => "left",
        OperationDirection::Right => "right",
        OperationDirection::Up => "up",
        OperationDirection::Down => "down",
    }
}

/// Whether an argument value is the given offered choice: a direction as a
/// choice of its word, a workspace name as text.
pub open spec fn is_offered_value(choice: DynamicParameterChoice, value: ArgumentScalar) -> bool {
    match (choice, value) {
        (DynamicParameterChoice::Direction(d), ArgumentScalar::Choice(s)) => s@ == direction_text(d),
        (DynamicParameterChoice::WorkspaceName(n), ArgumentScalar::Text(s)) => s@ == n.text(),
        _ => false,
    }
}

pub open spec fn is_among(choices: Seq<DynamicParameterChoice>, value: ArgumentScalar) -> bool {
    exists|i: int| 0 <= i < choices.len() && is_offered_value(#[trigger] choices[i], value)
}

/// What an offered group of live choices makes of the arguments.
pub open spec fn group_problem(group: DynamicParameterChoices, values: Seq<(String, ActionArgument)>) -> Option<
    DynamicChoiceRejection,
> {
    match argument_of(values, group.parameter) {
        None => None,
        Some(ActionArgument::Scalars(_)) => Some(DynamicChoiceRejection::InvalidArguments),
        Some(ActionArgument::Scalar(v)) => if is_among(group.choices@, v) {
            None
        } else {
            Some(DynamicChoiceRejection::StaleOffer)
        },
    }
}

/// The problem of the first group of live choices, in offer order, that has one.
pub open spec fn dynamic_choice_problem(
    groups: Seq<DynamicParameterChoices>,
    values: Seq<(String, ActionArgument)>,
) -> Option<DynamicChoiceRejection>
    decreases groups.len(),
{
    if groups.len() == 0 {
        None
    } else {
        match group_problem(groups[0], values) {
            Some(e) => Some(e),
            None => dynamic_choice_problem(groups.drop_first(), values),
        }
    }
}

fn offered(choices: &Vec<DynamicParameterChoice>, value: &ArgumentScalar) -> (r: bool)
    ensures
        r == is_among(choices@, *value),
{
    let mut i: usize = 0;
    while i < choices.len()
        invariant
            0 <= i <= choices@.len(),
            forall|j: int| 0 <= j < i ==> !is_offered_value(#[trigger] choices@[j], *value),
        decreases choices.len() - i,
    {
        let hit = match (&choices[i], value) {
            (DynamicParameterChoice::Direction(d), ArgumentScalar::Choice(s)) => same_text(
                s.as_str(),
                direction_word(*d),
            ),
            (DynamicParameterChoice::WorkspaceName(n), ArgumentScalar::Text(s)) => same_text(
                s.as_str(),
                n.as_str(),
            ),
            _ => false,
        };
        if hit {
            return true;
        }
        i = i + 1;
    }
    false
}

/// Checks the arguments for parameters whose values an offer lists live: a
/// single value that is among the offered choices, or none at all.
pub fn validate_dynamic_choices(offer: &ActionOffer, arguments: &ActionArguments) -> (r: Result<
    (),
    DynamicChoiceRejection,
>)
    ensures
        match dynamic_choice_problem(offer.dynamic_choices@, arguments@) {
            Some(e) => r == Err::<(), DynamicChoiceRejection>(e),
            None => r == Ok::<(), DynamicChoiceRejection>(()),
        },
{
    let groups = &offer.dynamic_choices;
    let mut i: usize = 0;
    proof {
        assert(groups@.skip(0) =~= groups@);
    }
    while i < groups.len()
        invariant
            groups@ == offer.dynamic_choices@,
            0 <= i <= groups@.len(),
            dynamic_choice_problem(groups@, arguments@) == dynamic_choice_problem(
                groups@.skip(i as int),
                arguments@,
            ),
        decreases groups.len() - i,
    {
        proof {
            assert(groups@.skip(i as int).drop_first() =~= groups@.skip(i + 1));
            assert(groups@.skip(i as int)[0] == groups@[i as int]);
        }
        let group = &groups[i];
        match find(&arguments.values, group.parameter) {
            None => {},
            Some(ActionArgument::Scalars(_)) => {
                return Err(DynamicChoiceRejection::InvalidArguments);
            },
            Some(ActionArgument::Scalar(value)) => {
                if !offered(&group.choices, value) {
                    return Err(DynamicChoiceRejection::StaleOffer);
                }
            },
        }
        i = i + 1;
    }
    proof {
        assert(groups@.skip(i as int).len() == 0);
    }
    Ok(())
}

/// Checks invocation arguments against the definition of `kind` and builds
/// the action they describe.
pub fn bind_arguments(kind: BuiltinActionKind, arguments: &ActionArguments) -> (r: Result<
    BuiltinAction,
    ArgumentBindingError,
>)
    ensures
        match validation_of(parameters_of(kind), arguments@) {
            Some(e) => r == Err::<BuiltinAction, ArgumentBindingError>(e),
            None => binding_of(kind, arguments@, r),
        },
{
    let definition = kind.definition();
    let args = match ValidatedArguments::new(&definition, arguments) {
        Ok(args) => args,
        Err(e) => {
            return Err(e);
        },
    };
    bind_builtin(kind, &args)
}

} // verus!
