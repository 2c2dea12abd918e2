//! The ledger of undo records: a record is issued only for an action that
//! declares an undo policy, and its token is used at most once.

use vstd::prelude::*;
use crate::action::definition::UndoPolicy;
use crate::action::id::UndoToken;
use crate::stamp::bytes_equal;

verus! {

#[derive(Clone, Copy, Debug, PartialEq, Eq, Structural)]
pub enum UndoError {
    Unsupported,
    Consumed,
    Unknown,
}

#[derive(Clone, Copy, Debug, PartialEq, Eq)]
pub struct UndoRecord {
    pub token: UndoToken,
    pub policy: UndoPolicy,
}

#[derive(Clone, Debug)]
pub struct UndoLedger {
    issued: Vec<UndoToken>,
    consumed: Vec<UndoToken>,
}

fn holds(tokens: &Vec<UndoToken>, token: &UndoToken) -> (r: bool)
    ensures
        r == tokens@.contains(*token),
{
    let mut i: usize = 0;
    while i < tokens.len()
        invariant
            0 <= i <= tokens@.len(),
            forall|j: int| 0 <= j < i ==> tokens@[j] != *token,
        decreases tokens.len() - i,
    {
        if bytes_equal(&tokens[i].bytes, &token.bytes) {
            proof {
                assert(tokens@[i as int] == *token);
            }
            return true;
        }
        i = i + 1;
    }
    false
}

impl UndoLedger {
    /// The tokens of the records issued so far.
    pub closed spec fn issued_tokens(self) -> Set<UndoToken> {
        self.issued@.to_set()
    }

    /// The tokens used so far.
    pub closed spec fn consumed_tokens(self) -> Set<UndoToken> {
        self.consumed@.to_set()
    }

    pub fn new() -> (ledger: Self)
        ensures
            ledger.issued_tokens().is_empty(),
            ledger.consumed_tokens().is_empty(),
    {
        let ledger = UndoLedger { issued: Vec::new(), consumed: Vec::new() };
        proof {
            assert(ledger.issued_tokens() =~= Set::empty());
            assert(ledger.consumed_tokens() =~= Set::empty());
        }
        ledger
    }

    /// Issues a record with a fresh token, for a policy that supports undo.
    pub fn issue(&mut self, policy: UndoPolicy) -> (r: Result<UndoRecord, UndoError>)
        ensures
            policy == UndoPolicy::NotSupported <==> r == Err::<UndoRecord, UndoError>(
                UndoError::Unsupported,
            ),
            policy == UndoPolicy::NotSupported ==> final(self).issued_tokens() == old(self).issued_tokens(),
            r matches Ok(record) ==> record.policy == policy && final(self).issued_tokens() == old(self).issued_tokens().insert(record.token),
            final(self).consumed_tokens() == old(self).consumed_tokens(),
    {
        match policy {
            UndoPolicy::NotSupported => Err(UndoError::Unsupported),
            UndoPolicy::PriorManagerIntent | UndoPolicy::ExactCapturedState => {
                let token = UndoToken::new();
                self.issued.push(token);
                proof {
                    broadcast use vstd::seq_lib::group_seq_properties;

                    assert(self.issued@.to_set() =~= old(self).issued@.to_set().insert(token));
                }
                Ok(UndoRecord { token, policy })
            },
        }
    }

    /// Uses a token, once.
    pub fn consume(&mut self, token: UndoToken) -> (r: Result<(), UndoError>)
        ensures
            old(self).consumed_tokens().contains(token) ==> r == Err::<(), UndoError>(
                UndoError::Consumed,
            ),
            !old(self).consumed_tokens().contains(token) && !old(self).issued_tokens().contains(token)
                ==> r == Err::<(), UndoError>(UndoError::Unknown),
            !old(self).consumed_tokens().contains(token) && old(self).issued_tokens().contains(token)
                ==> r == Ok::<(), UndoError>(()),
            r is Ok ==> final(self).consumed_tokens() == old(self).consumed_tokens().insert(token),
            r is Err ==> final(self).consumed_tokens() == old(self).consumed_tokens(),
            final(self).issued_tokens() == old(self).issued_tokens(),
    {
        proof {
            broadcast use vstd::seq_lib::group_seq_properties;
        }
        if holds(&self.consumed, &token) {
            return Err(UndoError::Consumed);
        }
        if !holds(&self.issued, &token) {
            return Err(UndoError::Unknown);
        }
        self.consumed.push(token);
        proof {
            assert(self.consumed@.to_set() =~= old(self).consumed@.to_set().insert(token));
        }
        Ok(())
    }
}

} // verus!
