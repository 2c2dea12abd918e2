use komorebi::action::builtin_action::BuiltinActionKind;
use komorebi::action::builtin_action::Pixels;
use komorebi::action::builtin_action::PixelsError;
use komorebi::action::definition::layout_name;
use komorebi::action::definition::UndoPolicy;
use komorebi::action::id::ActionId;
use komorebi::action::id::ActionSchemaVersion;
use komorebi::action::id::ConfirmationToken;
use komorebi::adapters::socket_message::adapt_action;
use komorebi::adapters::socket_message::SocketActionAdapterError;
use komorebi::adapters::socket_message::SocketMessage;
use komorebi::border_geometry::BorderOffset;
use komorebi::border_geometry::BorderWidth;
use komorebi::manager_types::DefaultLayout;
use komorebi::resize_step::ResizeStep;
use komorebi::resize_step::ResizeStepError;
use komorebi::subscriber::SubscriberName;
use komorebi::subscriber::SubscriberNameError;
use komorebi::transparency_alpha::TransparencyAlpha;
use komorebi::transparency_alpha::TransparencyAlphaError;
use komorebi::work_area_offset::Rect;
use komorebi::work_area_offset::WorkAreaOffset;

#[test]
fn every_kind_has_one_stable_id() {
    let mut ids: Vec<_> = BuiltinActionKind::all()
        .iter()
        .map(|kind| kind.id().as_str())
        .collect();
    ids.sort_unstable();
    ids.dedup();
    assert_eq!(ids.len(), BuiltinActionKind::all().len());
}

#[test]
fn pixel_delta_rejects_zero() {
    assert_eq!(Pixels::new(0), Err(PixelsError::Zero));
    assert_eq!(Pixels::new(24).unwrap().get(), 24);
    assert_eq!(Pixels::new(-8).unwrap().get(), -8);
}

#[test]
fn every_kind_has_one_definition_and_matching_id() {
    for kind in BuiltinActionKind::all() {
        let definition = kind.definition();
        assert_eq!(definition.kind, kind);
        assert_eq!(definition.id, kind.id());
        assert_eq!(definition.schema_version, ActionSchemaVersion::v1());
        assert_eq!(
            definition.undo,
            UndoPolicy::NotSupported,
            "{kind:?} must not advertise undo until it captures an executable inverse"
        );
    }
}

#[test]
fn every_built_in_layout_has_a_stable_projection() {
    let names = [
        layout_name(DefaultLayout::BSP),
        layout_name(DefaultLayout::Columns),
        layout_name(DefaultLayout::Rows),
        layout_name(DefaultLayout::VerticalStack),
        layout_name(DefaultLayout::HorizontalStack),
        layout_name(DefaultLayout::UltrawideVerticalStack),
        layout_name(DefaultLayout::Grid),
        layout_name(DefaultLayout::RightMainVerticalStack),
        layout_name(DefaultLayout::Scrolling),
    ];
    assert_eq!(names.len(), 9);
    let mut unique = names.to_vec();
    unique.sort_unstable();
    unique.dedup();
    assert_eq!(unique.len(), 9);
}

#[test]
fn confirmation_token_does_not_print_its_secret() {
    let token = ConfirmationToken::from_bytes([7; 16]);
    assert_eq!(token.debug_text(), "ConfirmationToken([redacted])");
}

#[test]
fn action_ids_are_stable_leaves() {
    assert_eq!(ActionId::FOCUS_WINDOW.as_str(), "focus-window");
    assert_eq!(ActionId::MOVE_WINDOW.as_str(), "move-window");
    assert_eq!(ActionId::RESIZE_WINDOW.as_str(), "resize-window");
    assert_eq!(ActionId::SET_WORKSPACE_LAYOUT.as_str(), "set-workspace-layout");
    assert_eq!(ActionId::TOGGLE_WINDOW_FLOAT.as_str(), "toggle-window-float");
    assert_eq!(ActionId::CYCLE_FOCUS_WINDOW.as_str(), "cycle-focus-window");
    assert_eq!(ActionId::CYCLE_MOVE_WINDOW.as_str(), "cycle-move-window");
    assert_eq!(ActionId::TOGGLE_WINDOW_MONOCLE.as_str(), "toggle-window-monocle");
    assert_eq!(ActionId::TOGGLE_WINDOW_MAXIMIZE.as_str(), "toggle-window-maximize");
    assert_eq!(ActionId::TOGGLE_CONTAINER_LOCK.as_str(), "toggle-container-lock");
    assert_eq!(ActionId::STACK_WINDOW.as_str(), "stack-window");
    assert_eq!(ActionId::UNSTACK_WINDOW.as_str(), "unstack-window");
    assert_eq!(ActionId::STACK_ALL.as_str(), "stack-all");
    assert_eq!(ActionId::UNSTACK_ALL.as_str(), "unstack-all");
    assert_eq!(ActionId::CYCLE_STACK.as_str(), "cycle-stack");
    assert_eq!(ActionId::CYCLE_STACK_INDEX.as_str(), "cycle-stack-index");
    assert_eq!(ActionId::FOCUS_STACK_WINDOW.as_str(), "focus-stack-window");
    assert_eq!(ActionId::FOCUS_WORKSPACE.as_str(), "focus-workspace");
    assert_eq!(ActionId::CYCLE_FOCUS_WORKSPACE.as_str(), "cycle-focus-workspace");
    assert_eq!(
        ActionId::CYCLE_FOCUS_EMPTY_WORKSPACE.as_str(),
        "cycle-focus-empty-workspace"
    );
    assert_eq!(ActionId::FOCUS_LAST_WORKSPACE.as_str(), "focus-last-workspace");
    assert_eq!(ActionId::CLOSE_WORKSPACE.as_str(), "close-workspace");
    assert_eq!(ActionId::FOCUS_MONITOR.as_str(), "focus-monitor");
    assert_eq!(ActionId::CYCLE_FOCUS_MONITOR.as_str(), "cycle-focus-monitor");
    assert_eq!(ActionId::FOCUS_MONITOR_AT_CURSOR.as_str(), "focus-monitor-at-cursor");
    assert_eq!(
        ActionId::FOCUS_WORKSPACE_ON_ALL_MONITORS.as_str(),
        "focus-workspace-on-all-monitors"
    );
    assert_eq!(ActionId::FOCUS_MONITOR_WORKSPACE.as_str(), "focus-monitor-workspace");
    assert_eq!(ActionId::CLOSE_WINDOW.as_str(), "close-window");
    assert_eq!(ActionId::MINIMIZE_WINDOW.as_str(), "minimize-window");
    assert_eq!(ActionId::FORCE_FOCUS.as_str(), "force-focus");
    assert_eq!(ActionId::PROMOTE_CONTAINER.as_str(), "promote-container");
    assert_eq!(ActionId::PROMOTE_CONTAINER_SWAP.as_str(), "promote-container-swap");
    assert_eq!(ActionId::PROMOTE_FOCUS.as_str(), "promote-focus");
    assert_eq!(ActionId::PROMOTE_WINDOW.as_str(), "promote-window");
    assert_eq!(ActionId::NEW_WORKSPACE.as_str(), "new-workspace");
    assert_eq!(ActionId::TOGGLE_TILING.as_str(), "toggle-tiling");
    assert_eq!(ActionId::CYCLE_LAYOUT.as_str(), "cycle-layout");
    assert_eq!(ActionId::FLIP_LAYOUT.as_str(), "flip-layout");
    assert_eq!(ActionId::TOGGLE_WORKSPACE_LAYER.as_str(), "toggle-workspace-layer");
}

#[test]
fn adapter_separates_non_actions_from_invalid_actions() {
    assert_eq!(adapt_action(&SocketMessage::State), Ok(None));
    assert_eq!(
        adapt_action(&SocketMessage::FocusNamedWorkspace(String::new())),
        Err(SocketActionAdapterError::InvalidParameters)
    );
    assert_eq!(
        adapt_action(&SocketMessage::ResizeDelta(0)),
        Err(SocketActionAdapterError::InvalidParameters)
    );
    assert_eq!(
        adapt_action(&SocketMessage::ResizeDelta(-1)),
        Err(SocketActionAdapterError::InvalidParameters)
    );
}

#[test]
fn signed_geometry_preserves_the_existing_renderer_domain() {
    assert_eq!("-50".parse::<BorderWidth>().map(BorderWidth::get), Ok(-50));
    assert_eq!("50".parse::<BorderOffset>().map(BorderOffset::get), Ok(50));
    assert_eq!(BorderWidth::default_width().get(), 8);
    assert_eq!(BorderOffset::default_offset().get(), -1);
}

#[test]
fn resize_step_excludes_zero_negative_and_unrepresentable_values() {
    assert_eq!(ResizeStep::new(50).map(ResizeStep::get), Ok(50));
    assert_eq!(ResizeStep::new(0), Err(ResizeStepError::NonPositive(0)));
    assert_eq!(ResizeStep::new(-1), Err(ResizeStepError::NonPositive(-1)));
    assert_eq!(
        "2147483648".parse::<ResizeStep>(),
        Err(ResizeStepError::InvalidInteger)
    );
}

#[test]
fn accepts_legacy_bar_and_test_socket_names() {
    for name in [
        "komorebi-bar-forest",
        "komorebi-test-4d3c2b1a-0e9f-4a67-8c15-abcdef012345.sock",
        "status_bar",
    ] {
        assert_eq!(SubscriberName::parse(name).unwrap().as_str(), name);
    }
}

fn parse_err(raw: &str) -> SubscriberNameError {
    SubscriberName::parse(raw).expect_err("name should be rejected")
}

#[test]
fn rejects_absolute_rooted_parent_device_ads_and_mixed_separators() {
    assert_eq!(parse_err(r"C:\Windows\win.ini"), SubscriberNameError::ForbiddenCharacter);
    assert_eq!(parse_err(r"\Windows\win.ini"), SubscriberNameError::ForbiddenCharacter);
    assert_eq!(parse_err("../secrets"), SubscriberNameError::ForbiddenCharacter);
    assert_eq!(parse_err(r"..\secrets"), SubscriberNameError::ForbiddenCharacter);
    assert_eq!(parse_err("foo/bar"), SubscriberNameError::ForbiddenCharacter);
    assert_eq!(parse_err(r"foo\bar"), SubscriberNameError::ForbiddenCharacter);
    assert_eq!(parse_err(r"\\.\pipe\komorebi"), SubscriberNameError::ForbiddenCharacter);
    assert_eq!(parse_err(r"\\?\C:\Windows\win.ini"), SubscriberNameError::ForbiddenCharacter);
    assert_eq!(parse_err("socket:stream"), SubscriberNameError::ForbiddenCharacter);
    assert_eq!(parse_err("socket:stream:$DATA"), SubscriberNameError::ForbiddenCharacter);
    assert_eq!(parse_err(""), SubscriberNameError::Empty);
    assert_eq!(parse_err("."), SubscriberNameError::ForbiddenCharacter);
    assert_eq!(parse_err(".."), SubscriberNameError::ForbiddenCharacter);
    assert_eq!(parse_err("NUL"), SubscriberNameError::ReservedDeviceName);
    assert_eq!(parse_err("con.txt"), SubscriberNameError::ReservedDeviceName);
    assert_eq!(
        parse_err(&"a".repeat(SubscriberName::MAX_LEN + 1)),
        SubscriberNameError::TooLong {
            len: SubscriberName::MAX_LEN + 1
        }
    );
}

#[test]
fn named_pipe_path_is_constructed_from_the_parsed_leaf() {
    let name = SubscriberName::parse("komorebi-bar").unwrap();
    assert_eq!(name.named_pipe_path(), r"\\.\pipe\komorebi-bar");
}

#[test]
fn alpha_preserves_the_full_byte_domain() {
    assert_eq!("0".parse::<TransparencyAlpha>().map(|value| value.get()), Ok(0));
    assert_eq!("255".parse::<TransparencyAlpha>().map(|value| value.get()), Ok(255));
    assert_eq!("256".parse::<TransparencyAlpha>(), Err(TransparencyAlphaError));
    assert_eq!("-1".parse::<TransparencyAlpha>(), Err(TransparencyAlphaError));
}

#[test]
fn native_rect_conversion_preserves_signed_edge_offsets() {
    let offset = WorkAreaOffset::new(-1, 2, -3, 4);
    assert_eq!(WorkAreaOffset::from(Rect::from(offset)), offset);
}
