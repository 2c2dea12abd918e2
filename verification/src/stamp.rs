//! Identities and revisions shared with clients: the manager's epoch, the
//! revision of its observable state, and the identities of invocations and
//! principals.

use vstd::prelude::*;

verus! {

/// Compares two byte arrays of one length.
pub fn bytes_equal<const N: usize>(a: &[u8; N], b: &[u8; N]) -> (r: bool)
    ensures
        r == (*a == *b),
{
    let mut i: usize = 0;
    while i < N
        invariant
            0 <= i <= N,
            a@.len() == N,
            b@.len() == N,
            forall|j: int| 0 <= j < i ==> a[j] == b[j],
        decreases N - i,
    {
        if a[i] != b[i] {
            return false;
        }
        i = i + 1;
    }
    proof {
        broadcast use vstd::array::group_array_axioms;

        assert(*a =~= *b);
    }
    true
}

/// Whether every byte of the array is zero.
pub open spec fn all_zero<const N: usize>(bytes: [u8; N]) -> bool {
    forall|i: int| 0 <= i < N ==> bytes[i] == 0
}

pub fn is_all_zero<const N: usize>(bytes: &[u8; N]) -> (r: bool)
    ensures
        r == all_zero(*bytes),
{
    let mut i: usize = 0;
    while i < N
        invariant
            0 <= i <= N,
            bytes@.len() == N,
            forall|j: int| 0 <= j < i ==> bytes[j] == 0,
        decreases N - i,
    {
        if bytes[i] != 0 {
            return false;
        }
        i = i + 1;
    }
    true
}

/// Identifies one run of the manager: sixteen bytes that are not all zero.
#[derive(Clone, Copy, Debug, Hash)]
pub struct ManagerEpoch {
    bytes: [u8; 16],
}

#[derive(Clone, Copy, Debug, PartialEq, Eq, Structural)]
pub enum ManagerEpochError {
    Nil,
}

impl ManagerEpoch {
    pub closed spec fn bytes(self) -> [u8; 16] {
        self.bytes
    }

    #[verifier::type_invariant]
    closed spec fn not_nil(self) -> bool {
        !all_zero(self.bytes)
    }

    /// Accepts every epoch but the nil one.
    pub fn new(bytes: [u8; 16]) -> (r: Result<Self, ManagerEpochError>)
        ensures
            all_zero(bytes) <==> r == Err::<Self, ManagerEpochError>(ManagerEpochError::Nil),
            r matches Ok(epoch) ==> epoch.bytes() == bytes,
    {
        if is_all_zero(&bytes) {
            return Err(ManagerEpochError::Nil);
        }
        Ok(ManagerEpoch { bytes })
    }

    pub fn into_bytes(self) -> (r: [u8; 16])
        ensures
            r == self.bytes(),
            !all_zero(r),
    {
        proof {
            use_type_invariant(self);
        }
        self.bytes
    }
}

impl PartialEq for ManagerEpoch {
    fn eq(&self, other: &Self) -> (r: bool) {
        bytes_equal(&self.bytes, &other.bytes)
    }
}

impl vstd::std_specs::cmp::PartialEqSpecImpl for ManagerEpoch {
    open spec fn obeys_eq_spec() -> bool {
        true
    }

    open spec fn eq_spec(&self, other: &Self) -> bool {
        self.bytes() == other.bytes()
    }
}

impl Eq for ManagerEpoch {
}

/// The revision of the manager's observable state: a positive counter.
#[derive(Clone, Copy, Debug, PartialEq, Eq, Hash, PartialOrd, Ord, Structural)]
pub struct Revision {
    value: u64,
}

#[derive(Clone, Copy, Debug, PartialEq, Eq, Structural)]
pub enum RevisionError {
    Zero,
}

/// The revision of a state cannot be advanced any further.
#[derive(Clone, Copy, Debug, PartialEq, Eq, Structural)]
pub enum ActionContractError {
    RevisionExhausted,
}

impl Revision {
    pub closed spec fn value(self) -> u64 {
        self.value
    }

    /// The revision whose value is `value`; meaningful for a positive value.
    pub closed spec fn of_value(value: u64) -> Revision {
        Revision { value }
    }

    pub proof fn lemma_value_of(value: u64)
        ensures
            Self::of_value(value).value() == value,
    {
    }

    #[verifier::type_invariant]
    closed spec fn positive(self) -> bool {
        self.value > 0
    }

    /// The revision a manager starts at.
    pub fn first() -> (r: Self)
        ensures
            r.value() == 1,
    {
        Revision { value: 1 }
    }

    /// Accepts exactly the positive values.
    pub fn try_from(value: u64) -> (r: Result<Self, RevisionError>)
        ensures
            value == 0 <==> r == Err::<Self, RevisionError>(RevisionError::Zero),
            value > 0 ==> r == Ok::<Self, RevisionError>(Self::of_value(value)),
    {
        if value == 0 {
            return Err(RevisionError::Zero);
        }
        Ok(Revision { value })
    }

    pub fn get(self) -> (r: u64)
        ensures
            r == self.value(),
            r > 0,
    {
        proof {
            use_type_invariant(self);
        }
        self.value
    }

    /// The following revision, unless this one is the last.
    pub fn next(self) -> (r: Result<Self, ActionContractError>)
        ensures
            self.value() == u64::MAX <==> r == Err::<Self, ActionContractError>(
                ActionContractError::RevisionExhausted,
            ),
            self.value() == u64::MAX <==> r is Err,
            r matches Ok(next) ==> next.value() == self.value() + 1,
    {
        proof {
            use_type_invariant(self);
        }
        if self.value == u64::MAX {
            return Err(ActionContractError::RevisionExhausted);
        }
        Ok(Revision { value: self.value + 1 })
    }
}

/// Names one observable state of one manager run.
#[derive(Clone, Copy, Debug, Hash)]
pub struct StateStamp {
    pub epoch: ManagerEpoch,
    pub revision: Revision,
}

impl StateStamp {
    pub fn new(epoch: ManagerEpoch, revision: Revision) -> (r: Self)
        ensures
            r.epoch == epoch,
            r.revision == revision,
    {
        StateStamp { epoch, revision }
    }

    /// The first state of a manager run.
    pub fn initial(epoch: ManagerEpoch) -> (r: Self)
        ensures
            r.epoch == epoch,
            r.revision.value() == 1,
    {
        StateStamp { epoch, revision: Revision::first() }
    }

    pub fn epoch(self) -> (r: ManagerEpoch)
        ensures
            r == self.epoch,
    {
        self.epoch
    }

    pub fn revision(self) -> (r: Revision)
        ensures
            r == self.revision,
    {
        self.revision
    }

    /// The following state of the same run, unless its revision is the last.
    pub fn next(self) -> (r: Result<Self, ActionContractError>)
        ensures
            self.revision.value() == u64::MAX <==> r == Err::<Self, ActionContractError>(
                ActionContractError::RevisionExhausted,
            ),
            self.revision.value() == u64::MAX <==> r is Err,
            r matches Ok(next) ==> next.epoch == self.epoch && next.revision.value()
                == self.revision.value() + 1,
    {
        match self.revision.next() {
            Ok(revision) => Ok(StateStamp { epoch: self.epoch, revision }),
            Err(error) => Err(error),
        }
    }
}

impl PartialEq for StateStamp {
    fn eq(&self, other: &Self) -> (r: bool) {
        self.epoch == other.epoch && self.revision == other.revision
    }
}

impl vstd::std_specs::cmp::PartialEqSpecImpl for StateStamp {
    open spec fn obeys_eq_spec() -> bool {
        true
    }

    open spec fn eq_spec(&self, other: &Self) -> bool {
        self.epoch.bytes() == other.epoch.bytes() && self.revision == other.revision
    }
}

impl Eq for StateStamp {
}

/// Two stamps name the same state exactly when they are equal.
pub proof fn lemma_stamp_equality(a: StateStamp, b: StateStamp)
    ensures
        (a.epoch.bytes() == b.epoch.bytes() && a.revision == b.revision) <==> a == b,
{
    if a.epoch.bytes() == b.epoch.bytes() {
        assert(a.epoch == b.epoch);
    }
}

/// The following state is a different state of the same run.
pub proof fn lemma_next_state_differs(state: StateStamp, next: StateStamp)
    requires
        next.epoch == state.epoch,
        next.revision.value() == state.revision.value() + 1,
    ensures
        next != state,
{
}

#[derive(Clone, Copy, Debug, PartialEq, Eq, Structural)]
pub enum InvocationIdentityError {
    NilNamespace,
    ZeroSequence,
    SequenceExhausted,
}

/// The namespace an invocation identity is issued in: sixteen bytes that are
/// not all zero.
#[derive(Clone, Copy, Debug, Hash)]
pub struct InvocationNamespaceId {
    bytes: [u8; 16],
}

impl InvocationNamespaceId {
    pub closed spec fn bytes(self) -> [u8; 16] {
        self.bytes
    }

    #[verifier::type_invariant]
    closed spec fn not_nil(self) -> bool {
        !all_zero(self.bytes)
    }

    /// Accepts every namespace but the nil one.
    pub fn new(bytes: [u8; 16]) -> (r: Result<Self, InvocationIdentityError>)
        ensures
            all_zero(bytes) <==> r == Err::<Self, InvocationIdentityError>(
                InvocationIdentityError::NilNamespace,
            ),
            all_zero(bytes) <==> r is Err,
            r matches Ok(namespace) ==> namespace.bytes() == bytes,
    {
        if is_all_zero(&bytes) {
            return Err(InvocationIdentityError::NilNamespace);
        }
        Ok(InvocationNamespaceId { bytes })
    }

    pub fn into_bytes(self) -> (r: [u8; 16])
        ensures
            r == self.bytes(),
    {
        self.bytes
    }
}

impl PartialEq for InvocationNamespaceId {
    fn eq(&self, other: &Self) -> (r: bool) {
        bytes_equal(&self.bytes, &other.bytes)
    }
}

impl vstd::std_specs::cmp::PartialEqSpecImpl for InvocationNamespaceId {
    open spec fn obeys_eq_spec() -> bool {
        true
    }

    open spec fn eq_spec(&self, other: &Self) -> bool {
        self.bytes() == other.bytes()
    }
}

impl Eq for InvocationNamespaceId {
}

/// The position of an invocation in its namespace: a positive counter.
#[derive(Clone, Copy, Debug, PartialEq, Eq, Hash, Structural)]
pub struct InvocationSequence {
    value: u64,
}

impl InvocationSequence {
    pub closed spec fn value(self) -> u64 {
        self.value
    }

    #[verifier::type_invariant]
    closed spec fn positive(self) -> bool {
        self.value > 0
    }

    /// The first position of a namespace.
    pub fn first() -> (r: Self)
        ensures
            r.value() == 1,
    {
        InvocationSequence { value: 1 }
    }

    /// Accepts exactly the positive values.
    pub fn try_from(value: u64) -> (r: Result<Self, InvocationIdentityError>)
        ensures
            value == 0 <==> r == Err::<Self, InvocationIdentityError>(
                InvocationIdentityError::ZeroSequence,
            ),
            r matches Ok(sequence) ==> sequence.value() == value,
    {
        if value == 0 {
            return Err(InvocationIdentityError::ZeroSequence);
        }
        Ok(InvocationSequence { value })
    }

    pub fn get(self) -> (r: u64)
        ensures
            r == self.value(),
            r > 0,
    {
        proof {
            use_type_invariant(self);
        }
        self.value
    }

    /// The following position, unless this one is the last.
    pub fn next(self) -> (r: Result<Self, InvocationIdentityError>)
        ensures
            self.value() == u64::MAX <==> r == Err::<Self, InvocationIdentityError>(
                InvocationIdentityError::SequenceExhausted,
            ),
            self.value() == u64::MAX <==> r is Err,
            r matches Ok(next) ==> next.value() == self.value() + 1,
    {
        proof {
            use_type_invariant(self);
        }
        if self.value == u64::MAX {
            return Err(InvocationIdentityError::SequenceExhausted);
        }
        Ok(InvocationSequence { value: self.value + 1 })
    }
}

/// Identifies one invocation: a namespace and a position in it.
#[derive(Clone, Copy, Debug, Hash)]
pub struct InvocationId {
    pub namespace: InvocationNamespaceId,
    pub sequence: InvocationSequence,
}

impl InvocationId {
    pub fn new(namespace: InvocationNamespaceId, sequence: InvocationSequence) -> (r: Self)
        ensures
            r.namespace == namespace,
            r.sequence == sequence,
    {
        InvocationId { namespace, sequence }
    }

    pub fn namespace(self) -> (r: InvocationNamespaceId)
        ensures
            r == self.namespace,
    {
        self.namespace
    }

    pub fn sequence(self) -> (r: InvocationSequence)
        ensures
            r == self.sequence,
    {
        self.sequence
    }
}

impl PartialEq for InvocationId {
    fn eq(&self, other: &Self) -> (r: bool) {
        self.namespace == other.namespace && self.sequence == other.sequence
    }
}

impl vstd::std_specs::cmp::PartialEqSpecImpl for InvocationId {
    open spec fn obeys_eq_spec() -> bool {
        true
    }

    open spec fn eq_spec(&self, other: &Self) -> bool {
        self.namespace.bytes() == other.namespace.bytes() && self.sequence == other.sequence
    }
}

impl Eq for InvocationId {
}

/// Two invocation identities compare equal exactly when they are equal.
pub proof fn lemma_invocation_id_equality(a: InvocationId, b: InvocationId)
    ensures
        (a.namespace.bytes() == b.namespace.bytes() && a.sequence == b.sequence) <==> a == b,
{
    if a.namespace.bytes() == b.namespace.bytes() {
        assert(a.namespace == b.namespace);
    }
}

#[derive(Clone, Copy, Debug, PartialEq, Eq, Structural)]
pub enum PrincipalIdError {
    Nil,
}

/// Identifies who invokes: thirty-two bytes that are not all zero.
#[derive(Clone, Copy, Debug, Hash)]
pub struct PrincipalId {
    bytes: [u8; 32],
}

impl PrincipalId {
    pub closed spec fn bytes(self) -> [u8; 32] {
        self.bytes
    }

    #[verifier::type_invariant]
    closed spec fn not_nil(self) -> bool {
        !all_zero(self.bytes)
    }

    /// Accepts every principal but the nil one.
    pub fn new(bytes: [u8; 32]) -> (r: Result<Self, PrincipalIdError>)
        ensures
            all_zero(bytes) <==> r == Err::<Self, PrincipalIdError>(PrincipalIdError::Nil),
            r matches Ok(principal) ==> principal.bytes() == bytes,
    {
        if is_all_zero(&bytes) {
            return Err(PrincipalIdError::Nil);
        }
        Ok(PrincipalId { bytes })
    }
}

/// Two principals compare equal exactly when they are equal.
pub proof fn lemma_principal_equality(a: PrincipalId, b: PrincipalId)
    ensures
        a.bytes() == b.bytes() <==> a == b,
{
}

impl PartialEq for PrincipalId {
    fn eq(&self, other: &Self) -> (r: bool) {
        bytes_equal(&self.bytes, &other.bytes)
    }
}

impl vstd::std_specs::cmp::PartialEqSpecImpl for PrincipalId {
    open spec fn obeys_eq_spec() -> bool {
        true
    }

    open spec fn eq_spec(&self, other: &Self) -> bool {
        self.bytes() == other.bytes()
    }
}

impl Eq for PrincipalId {
}

} // verus!
