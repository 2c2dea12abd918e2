use komorebi::action::builtin_action::BuiltinAction;
use komorebi::action::builtin_action::BuiltinActionKind;
use komorebi::action::builtin_action::LayoutRatio;
use komorebi::action::definition::ArgumentCardinality;
use komorebi::action::definition::ParameterDomain;
use komorebi::action::id::ParameterId;
use komorebi::action::path::WindowsPathError;
use komorebi::adapters::action_invocation::arguments::ActionArgument;
use komorebi::adapters::action_invocation::arguments::ActionArguments;
use komorebi::adapters::action_invocation::arguments::ArgumentBindingError;
use komorebi::adapters::action_invocation::arguments::ArgumentScalar;
use komorebi::adapters::action_invocation::arguments::FixedDecimal;
use komorebi::adapters::action_invocation::arguments::ScalarKind;
use komorebi::adapters::action_invocation::bind_arguments;
use komorebi::adapters::action_invocation::validate_dynamic_choices;
use komorebi::adapters::action_invocation::DynamicChoiceRejection;
use komorebi::action::builtin_action::WorkspaceName;
use komorebi::action::configuration::ConfigurationSnapshot;
use komorebi::action::id::WindowId;
use komorebi::action::index::MonitorIndex;
use komorebi::action::index::WorkspaceIndex;
use komorebi::action::offer::offers;
use komorebi::action::offer::ActionAuthority;
use komorebi::action::offer::ActionGrants;
use komorebi::action::offer::ActionOffer;
use komorebi::action::offer::ActionSnapshot;
use komorebi::action::offer::NamedWorkspaceTarget;
use komorebi::manager_types::DefaultLayout;
use komorebi::manager_types::DirectionSet;
use komorebi::stamp::ManagerEpoch;
use komorebi::manager_types::OperationDirection;

fn path_units() -> Vec<u16> {
    vec![b'C' as u16, b':' as u16, b'\\' as u16, 0xD800, b'x' as u16]
}

fn choice(text: &str) -> ArgumentScalar {
    ArgumentScalar::Choice(text.to_owned())
}

fn scalar(kind: BuiltinActionKind, domain: ParameterDomain) -> ArgumentScalar {
    match domain {
        ParameterDomain::Direction => choice("left"),
        ParameterDomain::Axis => choice("horizontal"),
        ParameterDomain::Pixels | ParameterDomain::Adjustment | ParameterDomain::Size | ParameterDomain::ResizeStep => ArgumentScalar::Signed(1),
        ParameterDomain::WorkspaceSelector | ParameterDomain::WindowSelector => {
            ArgumentScalar::Selector("focused-at-execution".to_owned())
        }
        ParameterDomain::Layout => choice("bsp"),
        ParameterDomain::Cycle => choice("next"),
        ParameterDomain::Index | ParameterDomain::Count | ParameterDomain::Columns | ParameterDomain::AtCount => ArgumentScalar::Unsigned(1),
        ParameterDomain::Sizing => choice("increase"),
        ParameterDomain::Flag => ArgumentScalar::Bool(true),
        ParameterDomain::Name | ParameterDomain::Exe => ArgumentScalar::Text("dev".to_owned()),
        ParameterDomain::Path => ArgumentScalar::WindowsPath(path_units()),
        ParameterDomain::Behaviour => choice(match kind {
            BuiltinActionKind::SetWindowHidingBehaviour => "cloak",
            BuiltinActionKind::SetCrossMonitorMoveBehaviour => "swap",
            BuiltinActionKind::SetMonocleFocusBehaviour => "cycle",
            BuiltinActionKind::SetUnmanagedWindowOperationBehaviour => "op",
            _ => panic!("unexpected behaviour domain"),
        }),
        ParameterDomain::Implementation | ParameterDomain::BorderImplementation => choice("komorebi"),
        ParameterDomain::Identifier => choice("exe"),
        ParameterDomain::Ratios => ArgumentScalar::Decimal(FixedDecimal::new(1, 1).unwrap()),
        ParameterDomain::Alpha | ParameterDomain::ColourChannel => ArgumentScalar::Unsigned(200),
        ParameterDomain::BorderWidth | ParameterDomain::BorderOffset => ArgumentScalar::Signed(-3),
        ParameterDomain::BorderStyle => choice("rounded"),
        ParameterDomain::WindowKind => choice("stack"),
        other => panic!("no test value for {other:?}"),
    }
}

fn valid_arguments(kind: BuiltinActionKind) -> ActionArguments {
    let mut values = Vec::new();
    for parameter in kind.definition().parameters {
        let argument = match parameter.cardinality {
            ArgumentCardinality::RequiredScalar => {
                ActionArgument::Scalar(scalar(kind, parameter.domain))
            }
            ArgumentCardinality::RequiredList => {
                ActionArgument::Scalars(vec![scalar(kind, parameter.domain)])
            }
            ArgumentCardinality::OptionalScalar | ArgumentCardinality::OptionalList => continue,
        };
        values.push((parameter.id.as_str().to_owned(), argument));
    }
    ActionArguments::new(values)
}

fn one(key: &str, argument: ActionArgument) -> ActionArguments {
    ActionArguments::new(vec![(key.to_owned(), argument)])
}

#[test]
fn every_advertised_builtin_binds_to_its_closed_manager_variant() {
    for kind in BuiltinActionKind::all() {
        let bound = bind_arguments(kind, &valid_arguments(kind))
            .unwrap_or_else(|error| panic!("{kind:?} did not bind: {error:?}"));
        assert_eq!(bound.kind(), kind);
    }
}

#[test]
fn exact_cardinality_and_unknown_arguments_fail_closed() {
    let listed = one(
        "direction",
        ActionArgument::Scalars(vec![choice("left")]),
    );
    assert_eq!(
        bind_arguments(BuiltinActionKind::FocusWindow, &listed),
        Err(ArgumentBindingError::WrongCardinality {
            parameter: ParameterId::DIRECTION,
            expected: ArgumentCardinality::RequiredScalar,
        })
    );

    let surprise = one("surprise", ActionArgument::Scalar(ArgumentScalar::Bool(true)));
    assert_eq!(
        bind_arguments(BuiltinActionKind::TogglePause, &surprise),
        Err(ArgumentBindingError::Unexpected("surprise".to_owned()))
    );
}

#[test]
fn transparency_alpha_rejects_unsigned_values_outside_the_byte_domain() {
    let arguments = one("alpha", ActionArgument::Scalar(ArgumentScalar::Unsigned(256)));
    assert_eq!(
        bind_arguments(BuiltinActionKind::SetTransparencyAlpha, &arguments),
        Err(ArgumentBindingError::OutsideU8 {
            parameter: ParameterId::ALPHA
        })
    );
}

#[test]
fn wtf16_paths_reach_the_typed_action_without_repair() {
    let bound = bind_arguments(
        BuiltinActionKind::SetCustomLayout,
        &valid_arguments(BuiltinActionKind::SetCustomLayout),
    )
    .unwrap();
    let BuiltinAction::SetCustomLayout { path } = bound else {
        panic!("custom layout bound to wrong action");
    };
    assert_eq!(path.as_units(), &path_units()[..]);
}

fn ratios(coefficients: &[i64]) -> ActionArgument {
    ActionArgument::Scalars(
        coefficients
            .iter()
            .map(|coefficient| ArgumentScalar::Decimal(FixedDecimal::new(*coefficient, 2).unwrap()))
            .collect(),
    )
}

#[test]
fn layout_ratios_are_accepted_exactly_or_rejected() {
    let valid = one("column-ratios", ratios(&[25, 25]));
    let bound = bind_arguments(BuiltinActionKind::SetLayoutRatios, &valid).unwrap();
    let quarter = LayoutRatio {
        units: 250_000_000_000_000_000,
    };
    assert!(matches!(
        bound,
        BuiltinAction::SetLayoutRatios {
            columns: Some(ref ratios),
            rows: None,
        } if ratios == &[quarter, quarter]
    ));

    for coefficients in [&[5_i64][..], &[60_i64, 50][..], &[10_i64; 6][..]] {
        let invalid = one("column-ratios", ratios(coefficients));
        assert_eq!(
            bind_arguments(BuiltinActionKind::SetLayoutRatios, &invalid),
            Err(ArgumentBindingError::InvalidRatio {
                parameter: ParameterId::COLUMN_RATIOS
            })
        );
    }
}

#[test]
fn ratio_bounds_are_inclusive_and_the_sum_stays_below_one() {
    let bounds = one("row-ratios", ratios(&[10, 90]));
    assert_eq!(
        bind_arguments(BuiltinActionKind::SetLayoutRatios, &bounds),
        Err(ArgumentBindingError::InvalidRatio {
            parameter: ParameterId::ROW_RATIOS
        })
    );
    let edges = one("row-ratios", ratios(&[10, 89]));
    let bound = bind_arguments(BuiltinActionKind::SetLayoutRatios, &edges).unwrap();
    assert!(matches!(
        bound,
        BuiltinAction::SetLayoutRatios { columns: None, rows: Some(ref r) }
            if r == &[
                LayoutRatio { units: 100_000_000_000_000_000 },
                LayoutRatio { units: 890_000_000_000_000_000 },
            ]
    ));
    let wrong = one(
        "row-ratios",
        ActionArgument::Scalars(vec![ArgumentScalar::Unsigned(1)]),
    );
    assert_eq!(
        bind_arguments(BuiltinActionKind::SetLayoutRatios, &wrong),
        Err(ArgumentBindingError::WrongScalar {
            parameter: ParameterId::ROW_RATIOS,
            expected: ScalarKind::Decimal,
        })
    );
    assert!(FixedDecimal::new(1, 19).is_none());
}

#[test]
fn missing_and_mistyped_arguments_are_named() {
    assert_eq!(
        bind_arguments(BuiltinActionKind::FocusWindow, &ActionArguments::new(Vec::new())),
        Err(ArgumentBindingError::Missing(ParameterId::DIRECTION))
    );
    let mistyped = one("direction", ActionArgument::Scalar(ArgumentScalar::Bool(true)));
    assert_eq!(
        bind_arguments(BuiltinActionKind::FocusWindow, &mistyped),
        Err(ArgumentBindingError::WrongScalar {
            parameter: ParameterId::DIRECTION,
            expected: ScalarKind::Choice,
        })
    );
    let unknown = one("direction", ActionArgument::Scalar(choice("diagonal")));
    assert_eq!(
        bind_arguments(BuiltinActionKind::FocusWindow, &unknown),
        Err(ArgumentBindingError::UnknownChoice {
            parameter: ParameterId::DIRECTION,
            value: "diagonal".to_owned(),
        })
    );
    let right = one("direction", ActionArgument::Scalar(choice("right")));
    assert_eq!(
        bind_arguments(BuiltinActionKind::FocusWindow, &right),
        Ok(BuiltinAction::FocusWindow {
            direction: OperationDirection::Right
        })
    );
}

#[test]
fn numeric_and_text_domains_are_checked() {
    let zero_columns = one("columns", ActionArgument::Scalar(ArgumentScalar::Unsigned(0)));
    assert_eq!(
        bind_arguments(BuiltinActionKind::SetScrollingColumns, &zero_columns),
        Err(ArgumentBindingError::Zero {
            parameter: ParameterId::COLUMNS
        })
    );
    let wide = one("size", ActionArgument::Scalar(ArgumentScalar::Signed(1 << 40)));
    assert_eq!(
        bind_arguments(BuiltinActionKind::SetFocusedContainerPadding, &wide),
        Err(ArgumentBindingError::OutsideI32 {
            parameter: ParameterId::SIZE
        })
    );
    let empty = one("name", ActionArgument::Scalar(ArgumentScalar::Text(String::new())));
    assert_eq!(
        bind_arguments(BuiltinActionKind::FocusNamedWorkspace, &empty),
        Err(ArgumentBindingError::EmptyText {
            parameter: ParameterId::NAME
        })
    );
    let step = one("resize-step", ActionArgument::Scalar(ArgumentScalar::Signed(0)));
    assert_eq!(
        bind_arguments(BuiltinActionKind::SetResizeStep, &step),
        Err(ArgumentBindingError::NonPositive {
            parameter: ParameterId::RESIZE_STEP
        })
    );
    let nul = one(
        "path",
        ActionArgument::Scalar(ArgumentScalar::WindowsPath(vec![b'a' as u16, 0])),
    );
    assert_eq!(
        bind_arguments(BuiltinActionKind::SetCustomLayout, &nul),
        Err(ArgumentBindingError::WindowsPath {
            parameter: ParameterId::PATH,
            source: WindowsPathError::InteriorNul,
        })
    );
}

fn live_offer(kind: BuiltinActionKind) -> ActionOffer {
    let mut snapshot = ActionSnapshot::empty(ManagerEpoch::new([7; 16]).unwrap());
    snapshot.focused_window = Some(WindowId::new(42));
    snapshot.directional_targets = DirectionSet::single(OperationDirection::Left);
    snapshot.current_layout = DefaultLayout::BSP;
    snapshot.configuration = ConfigurationSnapshot::default();
    snapshot.named_workspaces.push(NamedWorkspaceTarget {
        name: WorkspaceName::parse("dev").unwrap(),
        monitor: MonitorIndex::new(0),
        workspace: WorkspaceIndex::new(0),
    });
    offers(
        &snapshot,
        &ActionAuthority {
            grants: ActionGrants::all(),
        },
    )
    .into_iter()
    .find(|offer| offer.definition.kind == kind)
    .expect("every kind has an offer")
}

#[test]
fn outdated_dynamic_choices_are_stale_offers() {
    let focus = live_offer(BuiltinActionKind::FocusWindow);
    let left = one("direction", ActionArgument::Scalar(choice("left")));
    assert_eq!(validate_dynamic_choices(&focus, &left), Ok(()));
    let right = one("direction", ActionArgument::Scalar(choice("right")));
    assert_eq!(
        validate_dynamic_choices(&focus, &right),
        Err(DynamicChoiceRejection::StaleOffer)
    );
    let diagonal = one("direction", ActionArgument::Scalar(choice("diagonal")));
    assert_eq!(
        validate_dynamic_choices(&focus, &diagonal),
        Err(DynamicChoiceRejection::StaleOffer)
    );
    let listed = one("direction", ActionArgument::Scalars(vec![choice("left")]));
    assert_eq!(
        validate_dynamic_choices(&focus, &listed),
        Err(DynamicChoiceRejection::InvalidArguments)
    );

    let named = live_offer(BuiltinActionKind::FocusNamedWorkspace);
    let dev = one("name", ActionArgument::Scalar(ArgumentScalar::Text("dev".to_owned())));
    assert_eq!(validate_dynamic_choices(&named, &dev), Ok(()));
    let chat = one("name", ActionArgument::Scalar(ArgumentScalar::Text("chat".to_owned())));
    assert_eq!(
        validate_dynamic_choices(&named, &chat),
        Err(DynamicChoiceRejection::StaleOffer)
    );
    assert_eq!(
        validate_dynamic_choices(&named, &ActionArguments::new(Vec::new())),
        Ok(())
    );
}
