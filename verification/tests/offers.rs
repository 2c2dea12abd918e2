use komorebi::action::builtin_action::BuiltinActionKind;
use komorebi::action::builtin_action::WorkspaceName;
use komorebi::action::configuration::ConfigurationSnapshot;
use komorebi::action::definition::ArgumentCardinality;
use komorebi::action::definition::ParameterDomain;
use komorebi::action::id::ActionId;
use komorebi::action::id::ParameterId;
use komorebi::action::id::WindowId;
use komorebi::action::index::MonitorIndex;
use komorebi::action::index::WorkspaceIndex;
use komorebi::action::offer::current_layout_name;
use komorebi::action::offer::offers;
use komorebi::action::offer::ActionAuthority;
use komorebi::action::offer::ActionAvailability;
use komorebi::action::offer::ActionCurrentValue;
use komorebi::action::offer::ActionGrants;
use komorebi::action::offer::ActionOffer;
use komorebi::action::offer::ActionSnapshot;
use komorebi::action::offer::BindingHint;
use komorebi::action::offer::DynamicParameterChoice;
use komorebi::action::offer::NamedWorkspaceTarget;
use komorebi::action::offer::Unavailability;
use komorebi::manager_types::DefaultLayout;
use komorebi::manager_types::DirectionSet;
use komorebi::manager_types::OperationDirection;
use komorebi::stamp::ManagerEpoch;
use komorebi::stamp::Revision;
use komorebi::stamp::StateStamp;
use komorebi::transparency_alpha::TransparencyAlpha;

fn stamp(revision: u64) -> StateStamp {
    StateStamp::new(
        ManagerEpoch::new([1; 16]).expect("test epoch is non-nil"),
        Revision::try_from(revision).expect("test revision is nonzero"),
    )
}

fn live_snapshot() -> ActionSnapshot {
    ActionSnapshot {
        state: stamp(3),
        paused: false,
        focused_window: Some(WindowId::new(1)),
        directional_targets: DirectionSet::single(OperationDirection::Left),
        current_layout: DefaultLayout::BSP,
        configuration: ConfigurationSnapshot::default(),
        focused_window_floating: false,
        named_workspaces: vec![NamedWorkspaceTarget {
            name: WorkspaceName::parse("chat").unwrap(),
            monitor: MonitorIndex::new(1),
            workspace: WorkspaceIndex::new(2),
        }],
        bindings: vec![BindingHint {
            action: ActionId::FOCUS_WINDOW,
            trigger: "alt+h".to_owned(),
        }],
    }
}

fn all_authority() -> ActionAuthority {
    ActionAuthority {
        grants: ActionGrants::all(),
    }
}

fn offer(snapshot: &ActionSnapshot, kind: BuiltinActionKind) -> ActionOffer {
    offers(snapshot, &all_authority())
        .into_iter()
        .find(|offer| offer.definition.kind == kind)
        .expect("every built-in kind has an offer")
}

#[test]
fn paused_manager_keeps_actions_discoverable_with_a_reason() {
    let mut snapshot = live_snapshot();
    snapshot.paused = true;
    let catalog = offers(&snapshot, &all_authority());
    assert_eq!(catalog.len(), BuiltinActionKind::all().len());
    assert!(catalog.iter().all(|offer| {
        if offer.definition.kind == BuiltinActionKind::TogglePause {
            offer.availability == ActionAvailability::Available
        } else {
            offer.availability == ActionAvailability::Unavailable(Unavailability::ManagerPaused)
        }
    }));
}

#[test]
fn missing_focus_is_explained_instead_of_hidden() {
    let mut snapshot = live_snapshot();
    snapshot.focused_window = None;
    assert_eq!(
        offer(&snapshot, BuiltinActionKind::FocusWindow).availability,
        ActionAvailability::Unavailable(Unavailability::NoFocusedWindow)
    );
}

#[test]
fn layout_offer_projects_the_current_built_in_layout() {
    let snapshot = live_snapshot();
    let layout = offer(&snapshot, BuiltinActionKind::SetWorkspaceLayout);
    assert_eq!(
        layout.current_value,
        Some(ActionCurrentValue::Layout(DefaultLayout::BSP))
    );
    assert_eq!(current_layout_name(&snapshot), "bsp");
    assert_eq!(layout.state, stamp(3));
}

#[test]
fn transparency_setters_expose_their_typed_current_values() {
    let mut snapshot = live_snapshot();
    snapshot.configuration.transparency.enabled = true;
    snapshot.configuration.transparency.alpha = TransparencyAlpha::new(177);

    assert_eq!(
        offer(&snapshot, BuiltinActionKind::SetTransparencyEnabled).current_value,
        Some(ActionCurrentValue::TransparencyEnabled(true))
    );
    assert_eq!(
        offer(&snapshot, BuiltinActionKind::SetTransparencyAlpha).current_value,
        Some(ActionCurrentValue::TransparencyAlpha(TransparencyAlpha::new(177)))
    );
}

#[test]
fn directional_choices_expose_only_live_targets() {
    let focus = offer(&live_snapshot(), BuiltinActionKind::FocusWindow);
    assert_eq!(focus.dynamic_choices.len(), 1);
    assert_eq!(focus.dynamic_choices[0].parameter, ParameterId::DIRECTION);
    assert_eq!(
        focus.dynamic_choices[0].choices,
        vec![DynamicParameterChoice::Direction(OperationDirection::Left)]
    );
}

#[test]
fn named_workspace_choices_are_typed_action_arguments() {
    let focus = offer(&live_snapshot(), BuiltinActionKind::FocusNamedWorkspace);
    assert_eq!(focus.dynamic_choices.len(), 1);
    assert_eq!(focus.dynamic_choices[0].parameter, ParameterId::NAME);
    assert_eq!(
        focus.dynamic_choices[0].choices,
        vec![DynamicParameterChoice::WorkspaceName(
            WorkspaceName::parse("chat").unwrap()
        )]
    );
}

#[test]
fn promote_window_is_unavailable_without_a_directional_target() {
    let mut snapshot = live_snapshot();
    snapshot.directional_targets = DirectionSet::empty();
    assert_eq!(
        offer(&snapshot, BuiltinActionKind::PromoteWindow).availability,
        ActionAvailability::Unavailable(Unavailability::NoWindowInDirection)
    );
}

#[test]
fn an_empty_named_workspace_domain_is_explained() {
    let mut snapshot = live_snapshot();
    snapshot.named_workspaces.clear();
    let offer = offer(&snapshot, BuiltinActionKind::FocusNamedWorkspace);
    assert_eq!(
        offer.availability,
        ActionAvailability::Unavailable(Unavailability::UnknownWorkspace)
    );
    assert!(offer.dynamic_choices.is_empty());
}

#[test]
fn every_dynamic_choice_matches_a_declared_parameter_domain() {
    for offer in offers(&live_snapshot(), &all_authority()) {
        for dynamic in offer.dynamic_choices {
            let parameter = offer
                .definition
                .parameters
                .iter()
                .find(|parameter| parameter.id == dynamic.parameter)
                .expect("dynamic choices reference a declared parameter");
            assert!(dynamic.choices.iter().all(|choice| matches!(
                (parameter.domain, choice),
                (ParameterDomain::Direction, DynamicParameterChoice::Direction(_))
                    | (ParameterDomain::Name, DynamicParameterChoice::WorkspaceName(_))
            )));
        }
    }
}

#[test]
fn collection_cardinality_is_part_of_the_parameter_contract() {
    let ensure_names = BuiltinActionKind::EnsureNamedWorkspaces.definition();
    assert!(ensure_names.parameters.iter().any(|parameter| {
        parameter.id == ParameterId::NAMES
            && parameter.cardinality() == ArgumentCardinality::RequiredList
    }));

    let ratios = BuiltinActionKind::SetLayoutRatios.definition();
    assert_eq!(ratios.parameters.len(), 2);
    assert!(ratios.parameters.iter().all(|parameter| {
        matches!(
            parameter.id,
            ParameterId::COLUMN_RATIOS | ParameterId::ROW_RATIOS
        ) && parameter.cardinality() == ArgumentCardinality::OptionalList
    }));
}

#[test]
fn ungranted_offers_are_unauthorized_and_bindings_are_attached() {
    let snapshot = live_snapshot();
    let authority = ActionAuthority {
        grants: ActionGrants::of_kinds(vec![BuiltinActionKind::FocusWindow]),
    };
    for offer in offers(&snapshot, &authority) {
        if offer.definition.kind == BuiltinActionKind::FocusWindow {
            assert_eq!(offer.availability, ActionAvailability::Available);
            assert_eq!(offer.bindings.len(), 1);
            assert_eq!(offer.bindings[0].trigger, "alt+h");
        } else {
            assert_eq!(
                offer.availability,
                ActionAvailability::Unavailable(Unavailability::Unauthorized)
            );
            assert!(offer.bindings.is_empty());
        }
    }
}
