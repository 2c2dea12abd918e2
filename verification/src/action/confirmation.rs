//! The ledger of confirmation challenges: a token confirms one exact action,
//! by one principal, on one state, before a deadline, and only once.

use vstd::prelude::*;
use crate::action::builtin_action::BuiltinAction;
use crate::action::builtin_action::lemma_same_action_equivalence;
use crate::action::builtin_action::same_action;
use crate::action::id::ActionId;
use crate::action::id::ConfirmationToken;
use crate::stamp::PrincipalId;
use crate::stamp::StateStamp;
use crate::stamp::bytes_equal;
use crate::stamp::lemma_principal_equality;
use crate::stamp::lemma_stamp_equality;

verus! {

#[derive(Clone, Copy, Debug, PartialEq, Eq, Structural)]
pub enum ConfirmationError {
    Unknown,
    Replay,
    Expired,
    PrincipalMismatch,
    ActionMismatch,
    ArgumentMismatch,
    StateMismatch,
}

/// A challenge as it was issued. Times are ticks of one monotonic clock.
#[derive(Clone, Debug)]
pub struct IssuedConfirmation {
    pub key: [u8; 16],
    pub principal: PrincipalId,
    pub action_id: ActionId,
    pub action: BuiltinAction,
    pub state: StateStamp,
    pub expires_at: u64,
    pub consumed: bool,
}

/// Proof that a challenge was valid when it was checked.
#[derive(Clone, Copy, Debug, PartialEq, Eq)]
pub struct ValidatedConfirmation {
    key: [u8; 16],
}

impl ValidatedConfirmation {
    pub closed spec fn key(self) -> [u8; 16] {
        self.key
    }
}

/// The latest challenge issued under a key.
pub open spec fn latest_issued(entries: Seq<IssuedConfirmation>, key: [u8; 16]) -> Option<
    IssuedConfirmation,
>
    decreases entries.len(),
{
    if entries.len() == 0 {
        None
    } else if entries.last().key == key {
        Some(entries.last())
    } else {
        latest_issued(entries.drop_last(), key)
    }
}

/// What checking a challenge gives: the first failed condition in the order
/// unknown, used, expired, principal, action, arguments, state.
pub open spec fn validation(
    entry: Option<IssuedConfirmation>,
    principal: PrincipalId,
    action: BuiltinAction,
    state: StateStamp,
    now: u64,
) -> Result<(), ConfirmationError> {
    match entry {
        None => Err(ConfirmationError::Unknown),
        Some(issued) => if issued.consumed {
            Err(ConfirmationError::Replay)
        } else if now >= issued.expires_at {
            Err(ConfirmationError::Expired)
        } else if issued.principal != principal {
            Err(ConfirmationError::PrincipalMismatch)
        } else if issued.action_id != action.kind_spec().id_spec() {
            Err(ConfirmationError::ActionMismatch)
        } else if !same_action(issued.action, action) {
            Err(ConfirmationError::ArgumentMismatch)
        } else if issued.state != state {
            Err(ConfirmationError::StateMismatch)
        } else {
            Ok(())
        },
    }
}

#[derive(Clone, Debug)]
pub struct ConfirmationLedger {
    issued: Vec<IssuedConfirmation>,
}

/// Marking the latest challenge under a key as used changes no other key.
proof fn lemma_mark_latest(entries: Seq<IssuedConfirmation>, i: int, key: [u8; 16], other: [u8; 16])
    requires
        0 <= i < entries.len(),
        entries[i].key == key,
        forall|j: int| i < j < entries.len() ==> entries[j].key != key,
    ensures
        latest_issued(entries.update(i, IssuedConfirmation { consumed: true, ..entries[i] }), other)
            == if other == key {
            Some(IssuedConfirmation { consumed: true, ..entries[i] })
        } else {
            latest_issued(entries, other)
        },
    decreases entries.len(),
{
    let updated = entries.update(i, IssuedConfirmation { consumed: true, ..entries[i] });
    if i == entries.len() - 1 {
        assert(updated.drop_last() =~= entries.drop_last());
    } else {
        assert(updated.drop_last() =~= entries.drop_last().update(
            i,
            IssuedConfirmation { consumed: true, ..entries[i] },
        ));
        lemma_mark_latest(entries.drop_last(), i, key, other);
    }
}

impl ConfirmationLedger {
    /// The challenge currently issued under a key.
    pub closed spec fn lookup(self, key: [u8; 16]) -> Option<IssuedConfirmation> {
        latest_issued(self.issued@, key)
    }

    pub fn new() -> (ledger: Self)
        ensures
            forall|key: [u8; 16]| ledger.lookup(key) is None,
    {
        ConfirmationLedger { issued: Vec::new() }
    }

    /// Issues a challenge for an action; a token issued again replaces its
    /// earlier challenge.
    pub fn issue(
        &mut self,
        token: ConfirmationToken,
        principal: PrincipalId,
        action: &BuiltinAction,
        state: StateStamp,
        expires_at: u64,
    )
        ensures
            final(self).lookup(token.bytes) matches Some(issued) && issued.principal == principal
                && issued.action_id == action.kind_spec().id_spec() && same_action(
                issued.action,
                *action,
            ) && issued.state == state && issued.expires_at == expires_at && !issued.consumed,
            forall|key: [u8; 16]| key != token.bytes ==> final(self).lookup(key) == old(self).lookup(key),
    {
        let copy = action.duplicate();
        proof {
            lemma_same_action_equivalence(*action, copy, copy);
        }
        let entry = IssuedConfirmation {
            key: *token.as_bytes(),
            principal,
            action_id: action.kind().id(),
            action: copy,
            state,
            expires_at,
            consumed: false,
        };
        self.issued.push(entry);
        proof {
            assert(self.issued@.drop_last() =~= old(self).issued@);
        }
    }

    fn position(&self, key: &[u8; 16]) -> (r: Option<usize>)
        ensures
            r is None ==> self.lookup(*key) is None,
            r matches Some(i) ==> i < self.issued@.len() && self.issued@[i as int].key == *key
                && (forall|j: int| i < j < self.issued@.len() ==> self.issued@[j].key != *key)
                && self.lookup(*key) == Some(self.issued@[i as int]),
    {
        let mut n: usize = self.issued.len();
        proof {
            assert(self.issued@.take(n as int) =~= self.issued@);
        }
        while n > 0
            invariant
                0 <= n <= self.issued@.len(),
                forall|j: int| n <= j < self.issued@.len() ==> self.issued@[j].key != *key,
                latest_issued(self.issued@, *key) == latest_issued(self.issued@.take(n as int), *key),
            decreases n,
        {
            proof {
                assert(self.issued@.take(n as int).drop_last() =~= self.issued@.take(n - 1));
            }
            if bytes_equal(&self.issued[n - 1].key, key) {
                return Some(n - 1);
            }
            n = n - 1;
        }
        None
    }

    /// Checks a challenge without using it.
    pub fn validate(
        &self,
        token: ConfirmationToken,
        principal: PrincipalId,
        action: &BuiltinAction,
        state: StateStamp,
        now: u64,
    ) -> (r: Result<ValidatedConfirmation, ConfirmationError>)
        ensures
            validation(self.lookup(token.bytes), principal, *action, state, now) matches Err(e)
                ==> r == Err::<ValidatedConfirmation, ConfirmationError>(e),
            validation(self.lookup(token.bytes), principal, *action, state, now) is Ok ==> (r matches Ok(
                v,
            ) && v.key() == token.bytes),
    {
        let key = *token.as_bytes();
        let i = match self.position(&key) {
            Some(i) => i,
            None => {
                return Err(ConfirmationError::Unknown);
            },
        };
        let issued = &self.issued[i];
        if issued.consumed {
            return Err(ConfirmationError::Replay);
        }
        if now >= issued.expires_at {
            return Err(ConfirmationError::Expired);
        }
        proof {
            lemma_principal_equality(issued.principal, principal);
        }
        if !(issued.principal == principal) {
            return Err(ConfirmationError::PrincipalMismatch);
        }
        if issued.action_id != action.kind().id() {
            return Err(ConfirmationError::ActionMismatch);
        }
        if !issued.action.same_arguments(action) {
            return Err(ConfirmationError::ArgumentMismatch);
        }
        proof {
            lemma_stamp_equality(issued.state, state);
        }
        if !(issued.state == state) {
            return Err(ConfirmationError::StateMismatch);
        }
        Ok(ValidatedConfirmation { key })
    }

    /// Uses a validated challenge, once.
    pub fn consume_validated(&mut self, validated: ValidatedConfirmation) -> (r: Result<
        (),
        ConfirmationError,
    >)
        ensures
            old(self).lookup(validated.key()) is None ==> r == Err::<(), ConfirmationError>(
                ConfirmationError::Unknown,
            ) && *final(self) == *old(self),
            old(self).lookup(validated.key()) matches Some(issued) ==> (issued.consumed ==> r
                == Err::<(), ConfirmationError>(ConfirmationError::Replay) && *final(self)
                == *old(self)),
            old(self).lookup(validated.key()) matches Some(issued) ==> (!issued.consumed ==> r
                == Ok::<(), ConfirmationError>(()) && final(self).lookup(validated.key()) == Some(
                IssuedConfirmation { consumed: true, ..issued },
            )),
            forall|key: [u8; 16]|
                key != validated.key() ==> final(self).lookup(key) == old(self).lookup(key),
    {
        let i = match self.position(&validated.key) {
            Some(i) => i,
            None => {
                return Err(ConfirmationError::Unknown);
            },
        };
        if self.issued[i].consumed {
            return Err(ConfirmationError::Replay);
        }
        let mut entry = self.issued.remove(i);
        entry.consumed = true;
        self.issued.insert(i, entry);
        proof {
            assert(self.issued@ =~= old(self).issued@.update(
                i as int,
                IssuedConfirmation { consumed: true, ..old(self).issued@[i as int] },
            ));
            assert forall|key: [u8; 16]| #![auto]
                final(self).lookup(key) == if key == validated.key() {
                    Some(IssuedConfirmation { consumed: true, ..old(self).issued@[i as int] })
                } else {
                    old(self).lookup(key)
                } by {
                lemma_mark_latest(old(self).issued@, i as int, validated.key(), key);
            }
        }
        Ok(())
    }

    /// Checks a challenge and uses it.
    pub fn consume(
        &mut self,
        token: ConfirmationToken,
        principal: PrincipalId,
        action: &BuiltinAction,
        state: StateStamp,
        now: u64,
    ) -> (r: Result<(), ConfirmationError>)
        ensures
            validation(old(self).lookup(token.bytes), principal, *action, state, now) matches Err(e)
                ==> r == Err::<(), ConfirmationError>(e) && *final(self) == *old(self),
            validation(old(self).lookup(token.bytes), principal, *action, state, now) is Ok ==> (r
                == Ok::<(), ConfirmationError>(()) && (final(self).lookup(token.bytes) matches Some(
                issued,
            ) && issued.consumed)),
            forall|key: [u8; 16]| key != token.bytes ==> final(self).lookup(key) == old(self).lookup(key),
    {
        let validated = match self.validate(token, principal, action, state, now) {
            Ok(validated) => validated,
            Err(error) => {
                return Err(error);
            },
        };
        self.consume_validated(validated)
    }
}

/// A challenge that was used is refused as a replay, whatever is presented.
pub proof fn lemma_used_challenges_are_replays(
    issued: IssuedConfirmation,
    principal: PrincipalId,
    action: BuiltinAction,
    state: StateStamp,
    now: u64,
)
    requires
        issued.consumed,
    ensures
        validation(Some(issued), principal, action, state, now) == Err::<(), ConfirmationError>(
            ConfirmationError::Replay,
        ),
{
}

/// A fresh challenge is accepted for exactly the action it was issued for,
/// by its principal, on its state, before its deadline.
pub proof fn lemma_issued_challenge_accepts_its_action(
    issued: IssuedConfirmation,
    action: BuiltinAction,
    now: u64,
)
    requires
        !issued.consumed,
        now < issued.expires_at,
        issued.action_id == issued.action.kind_spec().id_spec(),
        same_action(issued.action, action),
    ensures
        validation(Some(issued), issued.principal, action, issued.state, now) == Ok::<
            (),
            ConfirmationError,
        >(()),
{
    lemma_same_action_equivalence(issued.action, action, action);
}

} // verus!
