use komorebi::action::builtin_action::BuiltinAction;
use komorebi::action::confirmation::ConfirmationError;
use komorebi::action::confirmation::ConfirmationLedger;
use komorebi::action::definition::UndoPolicy;
use komorebi::action::id::ConfirmationToken;
use komorebi::action::id::UndoToken;
use komorebi::action::path::WindowsPath;
use komorebi::action::undo::UndoError;
use komorebi::action::undo::UndoLedger;
use komorebi::manager_types::OperationDirection;
use komorebi::stamp::ManagerEpoch;
use komorebi::stamp::PrincipalId;
use komorebi::stamp::Revision;
use komorebi::stamp::StateStamp;

fn test_principal(byte: u8) -> PrincipalId {
    PrincipalId::new([byte; 32]).expect("test principal is nonzero")
}

fn stamp_in(epoch: u8, revision: u64) -> StateStamp {
    StateStamp::new(
        ManagerEpoch::new([epoch; 16]).expect("test epoch is non-nil"),
        Revision::try_from(revision).expect("test revision is nonzero"),
    )
}

fn stamp(revision: u64) -> StateStamp {
    stamp_in(1, revision)
}

fn focus_left() -> BuiltinAction {
    BuiltinAction::FocusWindow {
        direction: OperationDirection::Left,
    }
}

fn focus_right() -> BuiltinAction {
    BuiltinAction::FocusWindow {
        direction: OperationDirection::Right,
    }
}

#[test]
fn confirmation_rejects_changed_args_principal_state_expiry_and_replay() {
    let mut ledger = ConfirmationLedger::new();
    let token = ConfirmationToken::from_bytes([9; 16]);
    let principal = test_principal(7);
    let state = stamp(4);
    let now: u64 = 5_000;
    ledger.issue(token, principal, &focus_left(), state, now + 30);

    assert_eq!(
        ledger.consume(token, test_principal(8), &focus_left(), state, now),
        Err(ConfirmationError::PrincipalMismatch)
    );
    assert_eq!(
        ledger.consume(token, principal, &focus_right(), state, now),
        Err(ConfirmationError::ArgumentMismatch)
    );
    assert_eq!(
        ledger.consume(token, principal, &focus_left(), stamp(5), now),
        Err(ConfirmationError::StateMismatch)
    );
    assert_eq!(
        ledger.consume(token, principal, &focus_left(), stamp_in(2, 4), now),
        Err(ConfirmationError::StateMismatch)
    );
    assert_eq!(
        ledger.consume(token, principal, &focus_left(), state, now + 31),
        Err(ConfirmationError::Expired)
    );
    ledger
        .consume(token, principal, &focus_left(), state, now)
        .unwrap();
    assert_eq!(
        ledger.consume(token, principal, &focus_left(), state, now),
        Err(ConfirmationError::Replay)
    );
}

#[test]
fn validation_is_read_only_until_the_proof_is_consumed() {
    let now: u64 = 5_000;
    let token = ConfirmationToken::issue();
    let action = focus_left();
    let principal = test_principal(3);
    let state = stamp(4);
    let mut ledger = ConfirmationLedger::new();
    ledger.issue(token, principal, &action, state, now + 1);

    let first = ledger
        .validate(token, principal, &action, state, now)
        .expect("confirmation should validate");
    let second = ledger
        .validate(token, principal, &action, state, now)
        .expect("validation must not consume the challenge");
    assert_eq!(first, second);
    ledger
        .consume_validated(first)
        .expect("validated proof should consume once");
    assert_eq!(
        ledger.consume_validated(second),
        Err(ConfirmationError::Replay)
    );
}

#[test]
fn confirmation_preserves_wtf16_path_arguments() {
    let units = vec![b'C' as u16, b':' as u16, b'\\' as u16, 0xD800, b'x' as u16];
    let action = BuiltinAction::SetCustomLayout {
        path: WindowsPath::new(units).unwrap(),
    };
    let mut ledger = ConfirmationLedger::new();
    let token = ConfirmationToken::from_bytes([3; 16]);
    let principal = test_principal(11);
    let state = stamp(7);
    let now: u64 = 5_000;
    ledger.issue(token, principal, &action, state, now + 30);

    assert_eq!(ledger.consume(token, principal, &action, state, now), Ok(()));
}

#[test]
fn an_unknown_confirmation_is_refused() {
    let mut ledger = ConfirmationLedger::new();
    assert_eq!(
        ledger.consume(
            ConfirmationToken::from_bytes([5; 16]),
            test_principal(1),
            &focus_left(),
            stamp(1),
            0
        ),
        Err(ConfirmationError::Unknown)
    );
}

#[test]
fn undo_records_are_issued_only_for_declared_policies() {
    let mut ledger = UndoLedger::new();
    assert_eq!(ledger.issue(UndoPolicy::NotSupported), Err(UndoError::Unsupported));
    let record = ledger.issue(UndoPolicy::PriorManagerIntent).unwrap();
    ledger.consume(record.token).unwrap();
    assert_eq!(ledger.consume(record.token), Err(UndoError::Consumed));
    assert_eq!(ledger.consume(UndoToken::new()), Err(UndoError::Unknown));
}
