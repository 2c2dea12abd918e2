use komorebi::action::builtin_action::BuiltinAction;
use komorebi::action::builtin_action::WindowSelector;
use komorebi::action::builtin_action::WorkspaceName;
use komorebi::action::builtin_action::WorkspaceSelector;
use komorebi::action::index::MonitorIndex;
use komorebi::action::index::WorkspaceIndex;
use komorebi::adapters::socket_message::classify;
use komorebi::adapters::socket_message::to_builtin_action;
use komorebi::adapters::socket_message::SocketMessage;
use komorebi::adapters::socket_message::SocketMessageClass;
use komorebi::manager_types::Axis;
use komorebi::manager_types::CycleDirection;
use komorebi::manager_types::DefaultLayout;
use komorebi::manager_types::MoveBehaviour;
use komorebi::manager_types::OperationDirection;
use komorebi::manager_types::Sizing;
use komorebi::resize_step::ResizeStep;
use komorebi::subscriber::SubscriberName;
use komorebi::transparency_alpha::TransparencyAlpha;

#[test]
fn socket_message_tests_migrated_socket_messages_become_the_same_builtin_action() {
    assert_eq!(
        to_builtin_action(&SocketMessage::FocusWindow(OperationDirection::Left)),
        Some(BuiltinAction::FocusWindow {
            direction: OperationDirection::Left,
        })
    );
    assert_eq!(
        classify(&SocketMessage::FocusWindow(OperationDirection::Left)),
        SocketMessageClass::Action
    );
    assert_eq!(
        to_builtin_action(&SocketMessage::MoveWindow(OperationDirection::Right)),
        Some(BuiltinAction::MoveWindow {
            direction: OperationDirection::Right,
        })
    );
    assert_eq!(
        to_builtin_action(&SocketMessage::ChangeLayout(DefaultLayout::Columns)),
        Some(BuiltinAction::SetWorkspaceLayout {
            workspace: WorkspaceSelector::FocusedAtExecution,
            layout: DefaultLayout::Columns,
        })
    );
    assert_eq!(
        to_builtin_action(&SocketMessage::ToggleFloat),
        Some(BuiltinAction::ToggleWindowFloat {
            window: WindowSelector::FocusedAtExecution,
        })
    );
    assert_eq!(
        to_builtin_action(&SocketMessage::ResizeWindowAxis(Axis::Horizontal, Sizing::Decrease)),
        Some(BuiltinAction::ResizeWindowByStep {
            axis: Axis::Horizontal,
            sizing: Sizing::Decrease,
        })
    );
    assert_eq!(
        to_builtin_action(&SocketMessage::ResizeDelta(37)),
        Some(BuiltinAction::SetResizeStep {
            step: ResizeStep::new(37).unwrap(),
        })
    );
    assert_eq!(
        to_builtin_action(&SocketMessage::Transparency(true)),
        Some(BuiltinAction::SetTransparencyEnabled { enabled: true })
    );
    assert_eq!(
        to_builtin_action(&SocketMessage::ToggleTransparency),
        Some(BuiltinAction::ToggleTransparency)
    );
    assert_eq!(
        to_builtin_action(&SocketMessage::TransparencyAlpha(177)),
        Some(BuiltinAction::SetTransparencyAlpha {
            alpha: TransparencyAlpha::new(177),
        })
    );
    assert_eq!(
        to_builtin_action(&SocketMessage::CycleFocusWindow(CycleDirection::Next)),
        Some(BuiltinAction::CycleFocusWindow {
            direction: CycleDirection::Next,
        })
    );
    assert_eq!(
        to_builtin_action(&SocketMessage::ToggleMonocle),
        Some(BuiltinAction::ToggleWindowMonocle {
            window: WindowSelector::FocusedAtExecution,
        })
    );
    assert_eq!(
        to_builtin_action(&SocketMessage::CycleFocusWorkspace(CycleDirection::Next)),
        Some(BuiltinAction::CycleFocusWorkspace {
            direction: CycleDirection::Next,
        })
    );
    assert_eq!(
        to_builtin_action(&SocketMessage::FocusMonitorNumber(2)),
        Some(BuiltinAction::FocusMonitor {
            index: MonitorIndex::new(2),
        })
    );
    assert_eq!(
        to_builtin_action(&SocketMessage::FocusWorkspaceNumbers(3)),
        Some(BuiltinAction::FocusWorkspaceOnAllMonitors {
            index: WorkspaceIndex::new(3),
        })
    );
    assert_eq!(classify(&SocketMessage::State), SocketMessageClass::Query);
    assert_eq!(
        classify(&SocketMessage::AddSubscriberSocket(
            SubscriberName::parse("komorebi-bar-forest").unwrap()
        )),
        SocketMessageClass::Subscription
    );
    assert_eq!(
        classify(&SocketMessage::Stop),
        SocketMessageClass::SchemaDebugAdmin
    );
    assert_eq!(
        to_builtin_action(&SocketMessage::ResizeWindowEdge(
            OperationDirection::Right,
            Sizing::Increase
        )),
        Some(BuiltinAction::ResizeWindowEdgeByStep {
            direction: OperationDirection::Right,
            sizing: Sizing::Increase,
        })
    );
    assert_eq!(
        to_builtin_action(&SocketMessage::FocusNamedWorkspace("chat".into())),
        Some(BuiltinAction::FocusNamedWorkspace {
            name: WorkspaceName::parse("chat").unwrap(),
        })
    );
    assert_eq!(
        to_builtin_action(&SocketMessage::FocusNamedWorkspace("".into())),
        None
    );
    assert_eq!(
        to_builtin_action(&SocketMessage::CrossMonitorMoveBehaviour(MoveBehaviour::Insert)),
        Some(BuiltinAction::SetCrossMonitorMoveBehaviour {
            behaviour: MoveBehaviour::Insert,
        })
    );
}

#[test]
fn socket_message_migrated_socket_messages_become_the_same_builtin_action() {
    assert_eq!(
        to_builtin_action(&SocketMessage::FocusWindow(OperationDirection::Left)),
        Some(BuiltinAction::FocusWindow {
            direction: OperationDirection::Left,
        })
    );
    assert_eq!(
        classify(&SocketMessage::FocusWindow(OperationDirection::Left)),
        SocketMessageClass::Action
    );
    assert_eq!(
        to_builtin_action(&SocketMessage::ChangeLayout(DefaultLayout::Columns)),
        Some(BuiltinAction::SetWorkspaceLayout {
            workspace: WorkspaceSelector::FocusedAtExecution,
            layout: DefaultLayout::Columns,
        })
    );
    assert_eq!(classify(&SocketMessage::State), SocketMessageClass::Query);
    assert_eq!(
        classify(&SocketMessage::AddSubscriberSocket(
            SubscriberName::parse("komorebi-bar-forest").unwrap()
        )),
        SocketMessageClass::Subscription
    );
    assert_eq!(
        classify(&SocketMessage::Stop),
        SocketMessageClass::SchemaDebugAdmin
    );
}

#[test]
fn queries_have_no_action() {
    assert_eq!(to_builtin_action(&SocketMessage::State), None);
    assert_eq!(to_builtin_action(&SocketMessage::Stop), None);
}

/// Reads the subscriber message of the wire format: a `type` tag and the
/// subscriber's name as `content`.
fn subscriber_message_from_json(text: &str) -> SocketMessage {
    let value: serde_json::Value = serde_json::from_str(text).unwrap();
    let tag = value.get("type").and_then(|t| t.as_str()).unwrap();
    let content = value.get("content").and_then(|c| c.as_str()).unwrap();
    match tag {
        "AddSubscriberSocket" => {
            SocketMessage::AddSubscriberSocket(SubscriberName::parse(content).unwrap())
        }
        other => panic!("not a subscriber message: {other}"),
    }
}

#[test]
fn socket_message_keeps_legacy_subscriber_names() {
    let message = r#"{"type":"AddSubscriberSocket","content":"komorebi-bar-forest"}"#;
    let parsed = subscriber_message_from_json(message);
    assert!(matches!(
        &parsed,
        SocketMessage::AddSubscriberSocket(name) if name.as_str() == "komorebi-bar-forest"
    ));
    assert_eq!(classify(&parsed), SocketMessageClass::Subscription);
}
