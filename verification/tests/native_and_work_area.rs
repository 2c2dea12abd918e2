use komorebi::action::builtin_action::BuiltinActionKind;
use komorebi::action::builtin_action::Pixels;
use komorebi::action::configuration::ConfigurationSnapshot;
use komorebi::action::id::ActionId;
use komorebi::action::id::ParameterId;
use komorebi::action::id::WindowId;
use komorebi::action::index::MonitorIndex;
use komorebi::action::index::WorkspaceIndex;
use komorebi::action::index::WorkspaceLocation;
use komorebi::action::native_plan::border_switch;
use komorebi::action::native_plan::resize_call;
use komorebi::action::native_plan::BorderSwitch;
use komorebi::action::offer::offers;
use komorebi::action::offer::ActionAuthority;
use komorebi::action::offer::ActionAvailability;
use komorebi::action::offer::ActionGrants;
use komorebi::action::offer::ActionOffer;
use komorebi::action::offer::ActionSnapshot;
use komorebi::action::offer::Unavailability;
use komorebi::action::work_area::MonitorWorkArea;
use komorebi::action::work_area::WorkAreaChange;
use komorebi::action::work_area::WorkAreaConfiguration;
use komorebi::action::work_area::WorkAreaEffect;
use komorebi::action::work_area::WorkAreaResult;
use komorebi::action::work_area::WorkspaceWorkArea;
use komorebi::adapters::action_invocation::check_invocation;
use komorebi::adapters::action_invocation::InvocationRejection;
use komorebi::manager_types::Axis;
use komorebi::manager_types::BorderImplementation;
use komorebi::manager_types::DefaultLayout;
use komorebi::manager_types::DirectionSet;
use komorebi::manager_types::OperationDirection;
use komorebi::manager_types::Sizing;
use komorebi::stamp::ManagerEpoch;
use komorebi::stamp::Revision;
use komorebi::stamp::StateStamp;
use komorebi::work_area_offset::WorkAreaOffset;

fn stamp_in(epoch: u8, revision: u64) -> StateStamp {
    StateStamp::new(
        ManagerEpoch::new([epoch; 16]).expect("test epoch is non-nil"),
        Revision::try_from(revision).expect("test revision is nonzero"),
    )
}

fn snapshot(paused: bool) -> ActionSnapshot {
    ActionSnapshot {
        state: stamp_in(1, 3),
        paused,
        focused_window: Some(WindowId::new(1)),
        directional_targets: DirectionSet::single(OperationDirection::Left),
        current_layout: DefaultLayout::BSP,
        configuration: ConfigurationSnapshot::default(),
        focused_window_floating: false,
        named_workspaces: Vec::new(),
        bindings: Vec::new(),
    }
}

fn catalog(paused: bool) -> Vec<ActionOffer> {
    offers(
        &snapshot(paused),
        &ActionAuthority {
            grants: ActionGrants::all(),
        },
    )
}

fn two_monitors() -> WorkAreaConfiguration {
    let mut configuration = WorkAreaConfiguration::new();
    configuration.monitors.push(MonitorWorkArea {
        offset: None,
        workspaces: vec![
            WorkspaceWorkArea {
                offset: None,
                window_based: false,
            },
            WorkspaceWorkArea {
                offset: None,
                window_based: true,
            },
        ],
    });
    configuration.monitors.push(MonitorWorkArea {
        offset: None,
        workspaces: Vec::new(),
    });
    configuration
}

fn location(monitor: usize, workspace: usize) -> WorkspaceLocation {
    WorkspaceLocation::new(MonitorIndex::new(monitor), WorkspaceIndex::new(workspace))
}

#[test]
fn a_positive_delta_grows_and_a_negative_one_shrinks() {
    let grow = resize_call(Axis::Horizontal, Pixels::new(40).unwrap());
    assert_eq!(grow.axis, Axis::Horizontal);
    assert_eq!(grow.sizing, Sizing::Increase);
    assert_eq!(grow.pixels, 40);
    let shrink = resize_call(Axis::Vertical, Pixels::new(-25).unwrap());
    assert_eq!(shrink.axis, Axis::Vertical);
    assert_eq!(shrink.sizing, Sizing::Decrease);
    assert_eq!(shrink.pixels, 25);
}

#[test]
fn the_smallest_delta_keeps_its_wrapped_magnitude() {
    let call = resize_call(Axis::Horizontal, Pixels::new(i32::MIN).unwrap());
    assert_eq!(call.sizing, Sizing::Decrease);
    assert_eq!(call.pixels, i32::MIN);
}

#[test]
fn switching_borders_asks_each_implementation_for_its_own_call() {
    assert_eq!(
        border_switch(false, BorderImplementation::Komorebi),
        BorderSwitch::DestroyAllBorders
    );
    assert_eq!(
        border_switch(false, BorderImplementation::Windows),
        BorderSwitch::RemoveAllAccents
    );
    assert_eq!(
        border_switch(true, BorderImplementation::Komorebi),
        BorderSwitch::NotifyBorders
    );
    assert_eq!(border_switch(true, BorderImplementation::Windows), BorderSwitch::Nothing);
}

#[test]
fn work_area_targets_must_be_configured() {
    let configuration = two_monitors();
    let offset = WorkAreaOffset::new(1, 2, 3, 4);
    let global = WorkAreaChange::SetGlobalWorkAreaOffset { offset };
    assert_eq!(configuration.resolve(None, global), Ok(global));
    let unknown_monitor = WorkAreaChange::SetMonitorWorkAreaOffset {
        monitor: MonitorIndex::new(2),
        offset,
    };
    assert_eq!(
        configuration.resolve(None, unknown_monitor),
        Err(Unavailability::UnknownMonitor)
    );
    let unknown_workspace = WorkAreaChange::SetWorkspaceWorkAreaOffset {
        monitor: MonitorIndex::new(1),
        workspace: WorkspaceIndex::new(0),
        offset,
    };
    assert_eq!(
        configuration.resolve(None, unknown_workspace),
        Err(Unavailability::UnknownWorkspace)
    );
    let workspace_on_unknown_monitor = WorkAreaChange::SetWorkspaceWorkAreaOffset {
        monitor: MonitorIndex::new(5),
        workspace: WorkspaceIndex::new(0),
        offset,
    };
    assert_eq!(
        configuration.resolve(None, workspace_on_unknown_monitor),
        Err(Unavailability::UnknownMonitor)
    );
    let toggle = WorkAreaChange::ToggleWindowBasedWorkAreaOffset;
    assert_eq!(
        configuration.resolve(None, toggle),
        Err(Unavailability::NoFocusedWorkspace)
    );
    assert_eq!(
        configuration.resolve(Some(location(1, 0)), toggle),
        Err(Unavailability::NoFocusedWorkspace)
    );
    assert_eq!(configuration.resolve(Some(location(0, 1)), toggle), Ok(toggle));
}

#[test]
fn offsets_land_on_their_target_and_nowhere_else() {
    let mut configuration = two_monitors();
    let offset = WorkAreaOffset::new(10, 0, 10, 0);
    let change = WorkAreaChange::SetWorkspaceWorkAreaOffset {
        monitor: MonitorIndex::new(0),
        workspace: WorkspaceIndex::new(1),
        offset,
    };
    configuration.apply(None, change);
    assert_eq!(
        configuration.workspace(MonitorIndex::new(0), WorkspaceIndex::new(1)),
        Some(WorkspaceWorkArea {
            offset: Some(offset),
            window_based: true,
        })
    );
    assert_eq!(
        configuration.workspace(MonitorIndex::new(0), WorkspaceIndex::new(0)),
        Some(WorkspaceWorkArea {
            offset: None,
            window_based: false,
        })
    );
    assert_eq!(configuration.global, None);
    assert_eq!(
        configuration.logical_result(None, change),
        WorkAreaResult::WorkspaceWorkAreaOffsetSet
    );
    assert_eq!(
        configuration.effect(None, change),
        WorkAreaEffect::SetWorkspaceWorkAreaOffset {
            location: location(0, 1),
            offset,
        }
    );
    let monitor = WorkAreaChange::SetMonitorWorkAreaOffset {
        monitor: MonitorIndex::new(1),
        offset,
    };
    configuration.apply(None, monitor);
    assert_eq!(configuration.monitors[1].offset, Some(offset));
    assert_eq!(configuration.monitors[0].offset, None);
    let global = WorkAreaChange::SetGlobalWorkAreaOffset { offset };
    configuration.apply(None, global);
    assert_eq!(configuration.global, Some(offset));
}

#[test]
fn toggling_the_window_based_offset_twice_restores_it() {
    let mut configuration = two_monitors();
    let focused = Some(location(0, 0));
    let toggle = WorkAreaChange::ToggleWindowBasedWorkAreaOffset;
    configuration.apply(focused, toggle);
    assert_eq!(
        configuration.logical_result(focused, toggle),
        WorkAreaResult::WindowBasedWorkAreaOffsetToggled { enabled: true }
    );
    assert_eq!(
        configuration.effect(focused, toggle),
        WorkAreaEffect::SetWindowBasedWorkAreaOffset {
            location: location(0, 0),
            enabled: true,
        }
    );
    configuration.apply(focused, toggle);
    assert_eq!(
        configuration.workspace(MonitorIndex::new(0), WorkspaceIndex::new(0)),
        Some(WorkspaceWorkArea {
            offset: None,
            window_based: false,
        })
    );
}

#[test]
fn an_invocation_against_the_current_catalog_names_its_kind() {
    let offers = catalog(false);
    let current = stamp_in(1, 3);
    let focus = ActionId::FOCUS_WINDOW;
    assert_eq!(
        check_invocation(current, current, &offers, current, current, focus, 1),
        Ok(BuiltinActionKind::FocusWindow)
    );
}

#[test]
fn stale_invocations_say_which_identity_moved() {
    let offers = catalog(false);
    let current = stamp_in(1, 3);
    let focus = ActionId::FOCUS_WINDOW;
    assert_eq!(
        check_invocation(current, current, &offers, stamp_in(2, 3), current, focus, 1),
        Err(InvocationRejection::StaleEpoch)
    );
    assert_eq!(
        check_invocation(current, current, &offers, stamp_in(1, 2), current, focus, 1),
        Err(InvocationRejection::StaleState { current })
    );
    assert_eq!(
        check_invocation(current, current, &offers, current, stamp_in(1, 2), focus, 1),
        Err(InvocationRejection::StaleCatalog { current })
    );
    assert_eq!(
        check_invocation(current, current, &offers, current, current, focus, 2),
        Err(InvocationRejection::StaleOffer)
    );
    assert_eq!(
        check_invocation(current, current, &Vec::new(), current, current, focus, 1),
        Err(InvocationRejection::StaleOffer)
    );
}

#[test]
fn an_unavailable_offer_refuses_its_invocation_with_the_reason() {
    let paused = catalog(true);
    let current = stamp_in(1, 3);
    let paused_reason = paused
        .iter()
        .find(|offer| offer.definition.kind == BuiltinActionKind::FocusWindow)
        .map(|offer| offer.availability);
    assert_eq!(
        paused_reason,
        Some(ActionAvailability::Unavailable(Unavailability::ManagerPaused))
    );
    assert_eq!(
        check_invocation(current, current, &paused, current, current, ActionId::FOCUS_WINDOW, 1),
        Err(InvocationRejection::Unavailable(Unavailability::ManagerPaused))
    );
    let none = offers(
        &snapshot(false),
        &ActionAuthority {
            grants: ActionGrants::none(),
        },
    );
    assert_eq!(
        check_invocation(current, current, &none, current, current, ActionId::FOCUS_WINDOW, 1),
        Err(InvocationRejection::Unauthorized)
    );
}

#[test]
fn parameter_wire_names_are_distinct() {
    let ids = ParameterId::all();
    let mut names: Vec<&str> = ids.iter().map(|id| id.as_str()).collect();
    let count = names.len();
    names.sort_unstable();
    names.dedup();
    assert_eq!(names.len(), count);
    assert_eq!(ParameterId::COLUMN_RATIOS.as_str(), "column-ratios");
    assert_eq!(ParameterId::AT_COUNT.as_str(), "at-count");
    assert_eq!(ParameterId::DIRECTION.as_str(), "direction");
}
