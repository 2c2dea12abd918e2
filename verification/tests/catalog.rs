use komorebi::action::builtin_action::BuiltinAction;
use komorebi::action::builtin_action::Pixels;
use komorebi::action::configuration::ConfigurationSnapshot;
use komorebi::action::id::WindowId;
use komorebi::action::invoke::ActionAdmission;
use komorebi::action::invoke::ActionPreparation;
use komorebi::action::invoke::ActionRejection;
use komorebi::action::invoke::CatalogState;
use komorebi::action::invoke::InvocationContext;
use komorebi::action::invoke::InvocationOrigin;
use komorebi::action::invoke::InvocationStatus;
use komorebi::action::invoke::InvokeAction;
use komorebi::action::invoke::ObservationChange;
use komorebi::action::invoke::PreparedCommitError;
use komorebi::action::offer::ActionGrants;
use komorebi::action::offer::ActionSnapshot;
use komorebi::action::offer::Unavailability;
use komorebi::adapters::socket_message::to_builtin_action;
use komorebi::adapters::socket_message::SocketMessage;
use komorebi::action::outcome::ActionResult;
use komorebi::action::outcome::EffectId;
use komorebi::action::outcome::NativeEffect;
use komorebi::action::outcome::NativeEffectFailure;
use komorebi::border_geometry::BorderOffset;
use komorebi::border_geometry::BorderWidth;
use komorebi::manager_types::Axis;
use komorebi::manager_types::BorderImplementation;
use komorebi::manager_types::BorderStyle;
use komorebi::manager_types::DefaultLayout;
use komorebi::manager_types::DirectionSet;
use komorebi::manager_types::OperationDirection;
use komorebi::manager_types::Rgb;
use komorebi::manager_types::Sizing;
use komorebi::manager_types::WindowKind;
use komorebi::resize_step::ResizeStep;
use komorebi::stamp::ActionContractError;
use komorebi::stamp::InvocationId;
use komorebi::stamp::InvocationNamespaceId;
use komorebi::stamp::InvocationSequence;
use komorebi::stamp::ManagerEpoch;
use komorebi::stamp::PrincipalId;
use komorebi::stamp::Revision;
use komorebi::stamp::StateStamp;
use komorebi::transparency_alpha::TransparencyAlpha;

const NOW: u64 = 1_000;

fn invocation(sequence: u64) -> InvocationId {
    InvocationId::new(
        InvocationNamespaceId::new([9; 16]).expect("test namespace is nonzero"),
        InvocationSequence::try_from(sequence).expect("test sequence is nonzero"),
    )
}

fn principal(byte: u8) -> PrincipalId {
    PrincipalId::new([byte; 32]).expect("test principal is nonzero")
}

fn stamp_in(epoch: u8, revision: u64) -> StateStamp {
    StateStamp::new(
        ManagerEpoch::new([epoch; 16]).expect("test epoch is non-nil"),
        Revision::try_from(revision).expect("test revision is nonzero"),
    )
}

fn stamp(revision: u64) -> StateStamp {
    stamp_in(1, revision)
}

fn live_snapshot() -> ActionSnapshot {
    ActionSnapshot {
        state: stamp(10),
        paused: false,
        focused_window: Some(WindowId::new(1)),
        directional_targets: DirectionSet::single(OperationDirection::Left),
        current_layout: DefaultLayout::BSP,
        configuration: ConfigurationSnapshot::default(),
        focused_window_floating: false,
        named_workspaces: Vec::new(),
        bindings: Vec::new(),
    }
}

fn live_state() -> CatalogState {
    CatalogState::new(live_snapshot())
}

fn context() -> InvocationContext {
    InvocationContext {
        principal: principal(1),
        origin: InvocationOrigin::Cli,
        grants: ActionGrants::all(),
    }
}

fn focus_left(id: InvocationId, state: StateStamp) -> InvokeAction {
    InvokeAction {
        invocation_id: id,
        expected_state: state,
        action: BuiltinAction::FocusWindow {
            direction: OperationDirection::Left,
        },
        confirmation: None,
    }
}

fn prepared(state: &CatalogState, request: InvokeAction) -> komorebi::action::invoke::PreparedAction {
    match state.prepare(request, &context(), NOW) {
        ActionPreparation::Prepared(prepared) => prepared,
        other => panic!("action should prepare, got {other:?}"),
    }
}

#[test]
fn stale_state_is_rejected() {
    let mut state = live_state();
    let admission = state.admit_invocation(focus_left(invocation(1), stamp_in(2, 10)), &context(), NOW);
    assert!(matches!(
        admission,
        ActionAdmission::Rejected(ActionRejection::StaleState { .. })
    ));
}

#[test]
fn exhausted_revision_rejects_without_mutating_logical_state() {
    let mut snapshot = live_snapshot();
    snapshot.state = stamp(u64::MAX);
    let mut state = CatalogState::new(snapshot);
    let invocation_id = invocation(2);

    let admission = state.admit_invocation(focus_left(invocation_id, stamp(u64::MAX)), &context(), NOW);

    assert!(matches!(
        admission,
        ActionAdmission::Rejected(ActionRejection::RevisionExhausted)
    ));
    assert_eq!(state.snapshot().state, stamp(u64::MAX));
    assert!(state.status(invocation_id).is_none());
}

#[test]
fn missing_neighbor_is_rejected_with_a_typed_reason() {
    let mut state = live_state();
    let admission = state.admit_invocation(
        InvokeAction {
            invocation_id: invocation(3),
            expected_state: stamp(10),
            action: BuiltinAction::FocusWindow {
                direction: OperationDirection::Right,
            },
            confirmation: None,
        },
        &context(),
        NOW,
    );
    assert!(matches!(
        admission,
        ActionAdmission::Rejected(ActionRejection::Unavailable(
            Unavailability::NoWindowInDirection
        ))
    ));
}

#[test]
fn one_invocation_id_commits_once() {
    let mut state = live_state();
    let id = invocation(4);
    let first = state.admit_invocation(focus_left(id, stamp(10)), &context(), NOW);
    let second = state.admit_invocation(focus_left(id, stamp(10)), &context(), NOW);
    match (first, second) {
        (
            ActionAdmission::Committed {
                state: first_state, ..
            },
            ActionAdmission::Committed {
                state: second_state,
                ..
            },
        ) => {
            assert_eq!(first_state, second_state);
            assert_eq!(first_state, stamp(11));
        }
        _ => panic!("both admissions should be the same commit"),
    }
}

#[test]
fn preparation_is_read_only_until_explicit_commit() {
    let mut state = live_state();
    let id = invocation(6);
    let before = state.snapshot().clone();
    let request = focus_left(id, before.state);

    let prepared = prepared(&state, request);

    assert_eq!(state.snapshot().state, before.state);
    assert_eq!(state.snapshot().paused, before.paused);
    assert!(state.status(id).is_none());
    assert_eq!(prepared.previous_state(), stamp(10));
    assert_eq!(prepared.committed_state(), stamp(11));

    let admission = state
        .commit_prepared(prepared)
        .expect("prepared transition should commit");
    assert!(matches!(
        admission,
        ActionAdmission::Committed { state, .. } if state == stamp(11)
    ));
    assert_eq!(state.snapshot().state, stamp(11));
}

#[test]
fn configured_resize_step_resolves_to_one_exact_effect() {
    let mut snapshot = live_snapshot();
    snapshot.configuration.resize_step = ResizeStep::new(73).expect("test step is positive");
    let state = CatalogState::new(snapshot);
    let request = InvokeAction {
        invocation_id: invocation(12),
        expected_state: stamp(10),
        action: BuiltinAction::ResizeWindowByStep {
            axis: Axis::Horizontal,
            sizing: Sizing::Decrease,
        },
        confirmation: None,
    };

    let prepared = prepared(&state, request);
    let expected = Pixels::new(-73).expect("resolved delta is nonzero");

    assert_eq!(
        *prepared.logical_result(),
        ActionResult::Resized {
            axis: Axis::Horizontal,
            delta: expected,
        }
    );
    let effects = prepared.effects();
    assert_eq!(effects.len(), 1);
    assert_eq!(effects[0].id, EffectId::new(0));
    assert!(matches!(
        effects[0].effect,
        NativeEffect::Resize { axis: Axis::Horizontal, delta } if delta == expected
    ));
}

#[test]
fn setting_resize_step_updates_the_snapshot_and_plans_one_exact_effect() {
    let mut state = live_state();
    let step = ResizeStep::new(91).expect("test resize step is positive");
    let request = InvokeAction {
        invocation_id: invocation(13),
        expected_state: stamp(10),
        action: BuiltinAction::SetResizeStep { step },
        confirmation: None,
    };

    let prepared = prepared(&state, request);

    assert_eq!(*prepared.logical_result(), ActionResult::ResizeStepSet { step });
    let effects = prepared.effects();
    assert_eq!(effects.len(), 1);
    assert_eq!(effects[0].id, EffectId::new(0));
    assert!(matches!(effects[0].effect, NativeEffect::SetResizeStep { step: s } if s == step));

    state
        .commit_prepared(prepared)
        .expect("prepared resize-step transition should commit");
    assert_eq!(state.snapshot().configuration.resize_step, step);
}

#[test]
fn transparency_toggle_and_alpha_resolve_to_exact_configuration_effects() {
    let mut state = live_state();
    let toggle = InvokeAction {
        invocation_id: invocation(14),
        expected_state: stamp(10),
        action: BuiltinAction::ToggleTransparency,
        confirmation: None,
    };
    let prepared_toggle = prepared(&state, toggle);
    assert_eq!(
        *prepared_toggle.logical_result(),
        ActionResult::TransparencyToggled { enabled: true }
    );
    let effects = prepared_toggle.effects();
    assert_eq!(effects.len(), 1);
    assert_eq!(effects[0].id, EffectId::new(0));
    assert!(matches!(
        effects[0].effect,
        NativeEffect::SetTransparencyEnabled { enabled: true }
    ));
    state
        .commit_prepared(prepared_toggle)
        .expect("prepared transparency toggle should commit");
    assert!(state.snapshot().configuration.transparency.enabled);

    let alpha = TransparencyAlpha::new(177);
    let set_alpha = InvokeAction {
        invocation_id: invocation(15),
        expected_state: stamp(11),
        action: BuiltinAction::SetTransparencyAlpha { alpha },
        confirmation: None,
    };
    let prepared_alpha = prepared(&state, set_alpha);
    assert_eq!(
        *prepared_alpha.logical_result(),
        ActionResult::TransparencyAlphaSet { alpha }
    );
    let effects = prepared_alpha.effects();
    assert_eq!(effects.len(), 1);
    assert_eq!(effects[0].id, EffectId::new(0));
    assert!(matches!(
        effects[0].effect,
        NativeEffect::SetTransparencyAlpha { alpha: a } if a == alpha
    ));
    state
        .commit_prepared(prepared_alpha)
        .expect("prepared transparency alpha should commit");
    assert_eq!(state.snapshot().configuration.transparency.alpha, alpha);
}

#[test]
fn border_configuration_resolves_to_exact_typed_effects() {
    let colour = Rgb { r: 1, g: 2, b: 3 };
    let cases = [
        BuiltinAction::SetBorderWidth {
            width: BorderWidth::new(-50),
        },
        BuiltinAction::SetBorderOffset {
            offset: BorderOffset::new(50),
        },
        BuiltinAction::SetBorderStyle {
            style: BorderStyle::Rounded,
        },
        BuiltinAction::SetBorderImplementation {
            implementation: BorderImplementation::Windows,
        },
        BuiltinAction::SetBorderColour {
            window_kind: WindowKind::Stack,
            colour,
        },
    ];

    for action in cases {
        let state = live_state();
        let request = InvokeAction {
            invocation_id: invocation(16),
            expected_state: stamp(10),
            action: action.clone(),
            confirmation: None,
        };
        let prepared = prepared(&state, request);
        let effects = prepared.effects();
        assert_eq!(effects.len(), 1);
        assert_eq!(effects[0].id, EffectId::new(0));
        let exact = match (&action, &effects[0].effect) {
            (BuiltinAction::SetBorderWidth { width }, NativeEffect::SetBorderWidth { width: w }) => {
                width == w && w.get() == -50
            }
            (BuiltinAction::SetBorderOffset { offset }, NativeEffect::SetBorderOffset { offset: o }) => {
                offset == o && o.get() == 50
            }
            (BuiltinAction::SetBorderStyle { style }, NativeEffect::SetBorderStyle { style: s }) => {
                style == s && *s == BorderStyle::Rounded
            }
            (
                BuiltinAction::SetBorderImplementation { implementation },
                NativeEffect::SetBorderImplementation { implementation: i },
            ) => implementation == i && *i == BorderImplementation::Windows,
            (
                BuiltinAction::SetBorderColour { window_kind, colour: c },
                NativeEffect::SetBorderColour { window_kind: k, colour: e },
            ) => window_kind == k && *k == WindowKind::Stack && c == e && *e == colour,
            _ => false,
        };
        assert!(exact, "border configuration should plan its own exact effect");
    }
}

#[test]
fn prepared_transition_rejects_publication_after_state_advances() {
    let mut state = live_state();
    let first = prepared(&state, focus_left(invocation(7), stamp(10)));
    let second_id = invocation(8);
    let second = prepared(&state, focus_left(second_id, stamp(10)));

    state
        .commit_prepared(first)
        .expect("first transition should commit");
    assert!(matches!(
        state.commit_prepared(second),
        Err(PreparedCommitError::StateChanged { expected, actual })
            if expected == stamp(10) && actual == stamp(11)
    ));
    assert!(state.status(second_id).is_none());
}

#[test]
fn identical_observation_preserves_the_exact_revision() {
    let mut state = live_state();
    let observation = state.snapshot().clone();

    let change = state
        .reconcile_observation(observation)
        .expect("unchanged observation should reconcile");

    assert_eq!(change, ObservationChange::Unchanged { state: stamp(10) });
    assert_eq!(state.snapshot().state, stamp(10));
}

#[test]
fn manager_local_invocation_ids_are_namespaced_and_contiguous() {
    let mut state = live_state();

    let first = state
        .issue_local_invocation_id()
        .expect("first local identity should issue");
    let second = state
        .issue_local_invocation_id()
        .expect("second local identity should issue");

    assert_eq!(first.namespace(), second.namespace());
    assert_eq!(first.sequence().get(), 1);
    assert_eq!(second.sequence().get(), 2);
    assert_eq!(
        first.namespace().into_bytes(),
        stamp(10).epoch().into_bytes()
    );
}

#[test]
fn semantic_observation_change_advances_exactly_once() {
    let mut state = live_state();
    let mut observation = state.snapshot().clone();
    observation.paused = true;
    observation.state = stamp_in(2, 99);

    let change = state
        .reconcile_observation(observation.clone())
        .expect("changed observation should reconcile");

    assert_eq!(
        change,
        ObservationChange::Advanced {
            previous: stamp(10),
            current: stamp(11),
        }
    );
    assert!(state.snapshot().paused);
    assert_eq!(state.snapshot().state, stamp(11));
    assert_eq!(
        state
            .reconcile_observation(observation)
            .expect("repeated observation should reconcile"),
        ObservationChange::Unchanged { state: stamp(11) }
    );
}

#[test]
fn exhausted_observation_revision_does_not_mutate_catalog() {
    let mut snapshot = live_snapshot();
    snapshot.state = stamp(u64::MAX);
    let mut state = CatalogState::new(snapshot);
    let before = state.snapshot().clone();
    let mut observation = before.clone();
    observation.paused = true;

    let error = state
        .reconcile_observation(observation)
        .expect_err("exhausted revision must reject a semantic change");

    assert_eq!(error, ActionContractError::RevisionExhausted);
    assert_eq!(state.snapshot().state, before.state);
    assert_eq!(state.snapshot().paused, before.paused);
}

#[test]
fn injected_outcomes_produce_settled_degraded_superseded_and_reconcile() {
    let mut state = live_state();
    let id = invocation(5);
    let admission = state.admit_invocation(focus_left(id, stamp(10)), &context(), NOW);
    let ActionAdmission::Committed {
        state: committed_state,
        logical_result,
        ..
    } = admission
    else {
        panic!("expected commit");
    };
    state.settle(id, logical_result);
    assert!(matches!(
        state.status(id),
        Some(InvocationStatus::Settled { state: s, result }) if *s == committed_state && *result == logical_result
    ));
    state.degrade(
        id,
        vec![NativeEffectFailure {
            effect_id: EffectId::new(0),
            message: "injected failure".to_string(),
        }],
    );
    assert!(matches!(
        state.status(id),
        Some(InvocationStatus::Settled { .. })
    ));

    // A second committed invocation degrades from its committed status.
    let other = invocation(6);
    let ActionAdmission::Committed {
        state: other_state, ..
    } = state.admit_invocation(focus_left(other, committed_state), &context(), NOW)
    else {
        panic!("expected a second commit");
    };
    let failures = vec![
        NativeEffectFailure {
            effect_id: EffectId::new(0),
            message: "first injected failure".to_string(),
        },
        NativeEffectFailure {
            effect_id: EffectId::new(1),
            message: "second injected failure".to_string(),
        },
    ];
    state.degrade(other, failures.clone());
    assert!(matches!(
        state.status(other),
        Some(InvocationStatus::Degraded { state: s, failures: f }) if *s == other_state && *f == failures
    ));
    state.supersede(other, stamp(12));
    assert!(matches!(
        state.status(other),
        Some(InvocationStatus::Superseded { by_state }) if *by_state == stamp(12)
    ));
    state.reconcile_after_restart(other, other_state);
    assert!(matches!(
        state.status(other),
        Some(InvocationStatus::ReconcilingAfterRestart { state: s }) if *s == other_state
    ));
}

#[test]
fn socket_message_tests_socket_focus_admits_as_the_same_catalog_action() {
    let message = SocketMessage::FocusWindow(OperationDirection::Left);
    let action = to_builtin_action(&message).expect("focus-window is migrated");
    let mut snapshot = live_snapshot();
    snapshot.state = stamp(1);
    snapshot.focused_window = Some(WindowId::new(9));
    let mut state = CatalogState::new(snapshot);
    let admission = state.admit_invocation(
        InvokeAction {
            invocation_id: invocation(1),
            expected_state: stamp(1),
            action,
            confirmation: None,
        },
        &context(),
        NOW,
    );
    assert!(matches!(
        admission,
        ActionAdmission::Committed { state, .. } if state == stamp(2)
    ));
}

#[test]
fn ungranted_action_is_rejected_as_unauthorized() {
    let mut state = live_state();
    let admission = state.admit_invocation(
        focus_left(invocation(20), stamp(10)),
        &InvocationContext {
            principal: principal(1),
            origin: InvocationOrigin::Ipc,
            grants: ActionGrants::none(),
        },
        NOW,
    );
    assert!(matches!(
        admission,
        ActionAdmission::Rejected(ActionRejection::Unavailable(Unavailability::Unauthorized))
    ));
    assert_eq!(state.snapshot().state, stamp(10));
}

#[test]
fn paused_manager_rejects_focus_but_still_toggles_pause() {
    let mut snapshot = live_snapshot();
    snapshot.paused = true;
    let mut state = CatalogState::new(snapshot);
    let admission = state.admit_invocation(focus_left(invocation(21), stamp(10)), &context(), NOW);
    assert!(matches!(
        admission,
        ActionAdmission::Rejected(ActionRejection::Unavailable(Unavailability::ManagerPaused))
    ));
    let resume = state.admit_invocation(
        InvokeAction {
            invocation_id: invocation(22),
            expected_state: stamp(10),
            action: BuiltinAction::TogglePause,
            confirmation: None,
        },
        &context(),
        NOW,
    );
    assert!(matches!(
        resume,
        ActionAdmission::Committed { state, .. } if state == stamp(11)
    ));
    assert!(!state.snapshot().paused);
}
