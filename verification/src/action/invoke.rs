//! The catalog state: the logical snapshot of the manager, the admissions of
//! invocations by their identities, their statuses, and the confirmation
//! ledger. Admitting an invocation checks it against the snapshot, advances
//! the revision by one, and records the outcome once.

use vstd::prelude::*;
use crate::action::builtin_action::BuiltinAction;
use crate::action::builtin_action::same_name_lists;
use crate::action::confirmation::ConfirmationError;
use crate::action::confirmation::ConfirmationLedger;
use crate::action::confirmation::ValidatedConfirmation;
use crate::action::confirmation::validation;
use crate::action::configuration::same_configuration;
use crate::action::configuration::same_configurations;
use crate::action::id::ConfirmationToken;
use crate::action::offer::ActionAuthority;
use crate::action::offer::ActionAvailability;
use crate::action::offer::ActionGrants;
use crate::action::offer::ActionSnapshot;
use crate::action::offer::BindingHint;
use crate::action::offer::NamedWorkspaceTarget;
use crate::action::offer::SnapshotView;
use crate::action::offer::Unavailability;
use crate::action::offer::availability;
use crate::action::offer::availability_of;
use crate::action::offer::policy;
use crate::action::outcome::ActionResult;
use crate::action::outcome::EffectId;
use crate::action::outcome::NativeEffectFailure;
use crate::action::outcome::PlannedEffect;
use crate::action::outcome::duplicate_plan;
use crate::action::outcome::same_plan;
use crate::action::transition::apply_logical;
use crate::action::transition::directional_gap;
use crate::action::transition::directional_gap_of;
use crate::action::transition::effect_of;
use crate::action::transition::effects;
use crate::action::transition::is_contextual;
use crate::action::transition::lemma_resolution_removes_context;
use crate::action::transition::logical_result;
use crate::action::transition::logical_result_of;
use crate::action::transition::logically_applied;
use crate::action::transition::resolve_contextual_inputs;
use crate::action::transition::resolved;
use crate::action::undo::UndoRecord;
use crate::stamp::ActionContractError;
use crate::stamp::InvocationId;
use crate::stamp::InvocationIdentityError;
use crate::stamp::InvocationNamespaceId;
use crate::stamp::InvocationSequence;
use crate::stamp::PrincipalId;
use crate::stamp::StateStamp;
use crate::stamp::lemma_invocation_id_equality;
use crate::stamp::lemma_stamp_equality;

verus! {

/// How a fresh observation of the manager related to the catalog's snapshot.
#[derive(Clone, Copy, Debug, PartialEq, Eq)]
pub enum ObservationChange {
    Unchanged { state: StateStamp },
    Advanced { previous: StateStamp, current: StateStamp },
}

#[derive(Clone, Copy, Debug, PartialEq, Eq, Structural)]
pub enum InvocationOrigin {
    Palette,
    Input,
    Cli,
    Ipc,
    Lua,
}

/// Who invokes, from where, with which grants.
#[derive(Clone, Debug)]
pub struct InvocationContext {
    pub principal: PrincipalId,
    pub origin: InvocationOrigin,
    pub grants: ActionGrants,
}

/// A request to run an action on an expected state.
#[derive(Clone)]
pub struct InvokeAction {
    pub invocation_id: InvocationId,
    pub expected_state: StateStamp,
    pub action: BuiltinAction,
    pub confirmation: Option<ConfirmationToken>,
}

/// Why an invocation was refused.
#[derive(Clone, Copy, Debug, PartialEq, Eq)]
pub enum ActionRejection {
    StaleState { expected: StateStamp, actual: StateStamp },
    RevisionExhausted,
    Unavailable(Unavailability),
    Confirmation(ConfirmationError),
}

/// What the catalog answered an invocation: refused, or committed with its
/// new state, result and planned effects.
#[derive(Clone, Debug)]
pub enum ActionAdmission {
    Rejected(ActionRejection),
    Committed {
        state: StateStamp,
        logical_result: ActionResult,
        undo: Option<UndoRecord>,
        effects: Vec<PlannedEffect>,
    },
}

/// Two admissions that say the same, plans compared effect by effect.
pub open spec fn same_admission(a: ActionAdmission, b: ActionAdmission) -> bool {
    match (a, b) {
        (ActionAdmission::Rejected(x), ActionAdmission::Rejected(y)) => x == y,
        (
            ActionAdmission::Committed { state: s1, logical_result: l1, undo: u1, effects: e1 },
            ActionAdmission::Committed { state: s2, logical_result: l2, undo: u2, effects: e2 },
        ) => s1 == s2 && l1 == l2 && u1 == u2 && same_plan(e1@, e2@),
        _ => false,
    }
}

impl ActionAdmission {
    pub fn duplicate(&self) -> (r: Self)
        ensures
            same_admission(*self, r),
    {
        match self {
            ActionAdmission::Rejected(rejection) => ActionAdmission::Rejected(*rejection),
            ActionAdmission::Committed { state, logical_result, undo, effects } => {
                ActionAdmission::Committed {
                    state: *state,
                    logical_result: *logical_result,
                    undo: *undo,
                    effects: duplicate_plan(effects),
                }
            },
        }
    }
}

/// An invocation that passed every check and awaits its commit.
#[derive(Debug)]
pub struct PreparedAction {
    invocation_id: InvocationId,
    previous_state: StateStamp,
    snapshot: ActionSnapshot,
    logical_result: ActionResult,
    undo: Option<UndoRecord>,
    effects: Vec<PlannedEffect>,
    confirmation: Option<ValidatedConfirmation>,
}

impl PreparedAction {
    pub closed spec fn invocation_id_spec(&self) -> InvocationId {
        self.invocation_id
    }

    pub closed spec fn previous_state_spec(&self) -> StateStamp {
        self.previous_state
    }

    /// The snapshot the action leads to.
    pub closed spec fn snapshot_spec(&self) -> SnapshotView {
        self.snapshot@
    }

    pub closed spec fn logical_result_spec(&self) -> ActionResult {
        self.logical_result
    }

    pub closed spec fn undo_spec(&self) -> Option<UndoRecord> {
        self.undo
    }

    pub closed spec fn effects_spec(&self) -> Seq<PlannedEffect> {
        self.effects@
    }

    pub closed spec fn confirmation_spec(&self) -> Option<ValidatedConfirmation> {
        self.confirmation
    }

    pub fn invocation_id(&self) -> (r: InvocationId)
        ensures
            r == self.invocation_id_spec(),
    {
        self.invocation_id
    }

    pub fn previous_state(&self) -> (r: StateStamp)
        ensures
            r == self.previous_state_spec(),
    {
        self.previous_state
    }

    pub fn committed_state(&self) -> (r: StateStamp)
        ensures
            r == self.snapshot_spec().0,
    {
        self.snapshot.state
    }

    pub fn logical_result(&self) -> (r: &ActionResult)
        ensures
            *r == self.logical_result_spec(),
    {
        &self.logical_result
    }

    pub fn effects(&self) -> (r: &[PlannedEffect])
        ensures
            r@ == self.effects_spec(),
    {
        self.effects.as_slice()
    }
}

/// What preparing an invocation gave: the answer recorded earlier, a
/// refusal, or an action ready to commit.
#[derive(Debug)]
pub enum ActionPreparation {
    Retained(ActionAdmission),
    Rejected { invocation_id: InvocationId, source: ActionRejection },
    Prepared(PreparedAction),
}

#[derive(Clone, Copy, Debug, PartialEq, Eq)]
pub enum PreparedCommitError {
    StateChanged { expected: StateStamp, actual: StateStamp },
    InvocationAlreadyRecorded,
    Confirmation(ConfirmationError),
}

/// Where an invocation stands after it was admitted.
#[derive(Clone, Debug)]
pub enum InvocationStatus {
    Committed { state: StateStamp },
    Converging { state: StateStamp, pending: usize },
    Settled { state: StateStamp, result: ActionResult },
    Degraded { state: StateStamp, failures: Vec<NativeEffectFailure> },
    Superseded { by_state: StateStamp },
    Cancelled,
    ReconcilingAfterRestart { state: StateStamp },
}

/// The latest entry recorded for an identity.
pub open spec fn latest_entry<V>(entries: Seq<(InvocationId, V)>, id: InvocationId) -> Option<V>
    decreases entries.len(),
{
    if entries.len() == 0 {
        None
    } else if entries.last().0 == id {
        Some(entries.last().1)
    } else {
        latest_entry(entries.drop_last(), id)
    }
}

fn find_latest<V>(entries: &Vec<(InvocationId, V)>, id: InvocationId) -> (r: Option<usize>)
    ensures
        r is None ==> latest_entry(entries@, id) is None,
        r matches Some(i) ==> i < entries@.len() && latest_entry(entries@, id) == Some(
            entries@[i as int].1,
        ),
{
    let mut n: usize = entries.len();
    proof {
        assert(entries@.take(n as int) =~= entries@);
    }
    while n > 0
        invariant
            0 <= n <= entries@.len(),
            latest_entry(entries@, id) == latest_entry(entries@.take(n as int), id),
        decreases n,
    {
        proof {
            assert(entries@.take(n as int).drop_last() =~= entries@.take(n - 1));
            lemma_invocation_id_equality(entries@[n - 1].0, id);
        }
        if entries[n - 1].0 == id {
            return Some(n - 1);
        }
        n = n - 1;
    }
    None
}

/// Two named workspaces with the same name at the same location.
pub open spec fn same_target(a: NamedWorkspaceTarget, b: NamedWorkspaceTarget) -> bool {
    a.name.text() == b.name.text() && a.monitor == b.monitor && a.workspace == b.workspace
}

/// Two lists of named workspaces with the same names at the same locations.
pub open spec fn same_target_list(a: Seq<NamedWorkspaceTarget>, b: Seq<NamedWorkspaceTarget>) -> bool {
    a.len() == b.len() && forall|i: int| 0 <= i < a.len() ==> #[trigger] same_target(a[i], b[i])
}

/// Two lists of bindings with the same actions and triggers.
pub open spec fn same_binding_list(a: Seq<BindingHint>, b: Seq<BindingHint>) -> bool {
    a.len() == b.len() && forall|i: int|
        0 <= i < a.len() ==> #[trigger] a[i].action == b[i].action && a[i].trigger@ == b[i].trigger@
}

/// Two snapshots that agree on everything but their state stamps, names,
/// triggers and configuration texts compared by their characters.
pub open spec fn same_observation(a: SnapshotView, b: SnapshotView) -> bool {
    &&& a.1 == b.1
    &&& a.2 == b.2
    &&& a.3 == b.3
    &&& a.4 == b.4
    &&& same_configuration(a.5, b.5)
    &&& a.6 == b.6
    &&& same_target_list(a.7, b.7)
    &&& same_binding_list(a.8, b.8)
}

fn same_targets(a: &Vec<NamedWorkspaceTarget>, b: &Vec<NamedWorkspaceTarget>) -> (r: bool)
    ensures
        r == same_target_list(a@, b@),
{
    if a.len() != b.len() {
        return false;
    }
    let mut i: usize = 0;
    while i < a.len()
        invariant
            a@.len() == b@.len(),
            0 <= i <= a@.len(),
            forall|j: int| 0 <= j < i ==> #[trigger] same_target(a@[j], b@[j]),
        decreases a.len() - i,
    {
        let same_name = a[i].name.same(&b[i].name);
        let same = same_name && a[i].monitor == b[i].monitor && a[i].workspace == b[i].workspace;
        if !same {
            proof {
                assert(!same_target(a@[i as int], b@[i as int]));
            }
            return false;
        }
        proof {
            assert(same_target(a@[i as int], b@[i as int]));
        }
        i = i + 1;
    }
    true
}

fn same_bindings(a: &Vec<BindingHint>, b: &Vec<BindingHint>) -> (r: bool)
    ensures
        r == same_binding_list(a@, b@),
{
    if a.len() != b.len() {
        return false;
    }
    let mut i: usize = 0;
    while i < a.len()
        invariant
            a@.len() == b@.len(),
            0 <= i <= a@.len(),
            forall|j: int|
                0 <= j < i ==> #[trigger] a@[j].action == b@[j].action && a@[j].trigger@
                    == b@[j].trigger@,
        decreases a.len() - i,
    {
        let same_trigger = a[i].trigger.eq(&b[i].trigger);
        let same = a[i].action == b[i].action && same_trigger;
        if !same {
            return false;
        }
        proof {
            assert(a@[i as int].trigger@ == b@[i as int].trigger@);
        }
        i = i + 1;
    }
    true
}

fn same_observations(a: &ActionSnapshot, b: &ActionSnapshot) -> (r: bool)
    ensures
        r == same_observation(a@, b@),
{
    let same_focus = match (a.focused_window, b.focused_window) {
        (Some(x), Some(y)) => x == y,
        (None, None) => true,
        _ => false,
    };
    a.paused == b.paused && same_focus && a.directional_targets
        == b.directional_targets && a.current_layout == b.current_layout && same_configurations(
        &a.configuration,
        &b.configuration,
    ) && a.focused_window_floating == b.focused_window_floating && same_targets(
        &a.named_workspaces,
        &b.named_workspaces,
    ) && same_bindings(&a.bindings, &b.bindings)
}

/// What checking a confirmation gives; no confirmation passes.
pub open spec fn confirmation_check(
    ledger: ConfirmationLedger,
    request: InvokeAction,
    context: InvocationContext,
    now: u64,
) -> Result<(), ConfirmationError> {
    match request.confirmation {
        Some(token) => validation(
            ledger.lookup(token.bytes),
            context.principal,
            request.action,
            request.expected_state,
            now,
        ),
        None => Ok(()),
    }
}

/// The first reason an invocation is refused before its action is resolved:
/// a stale expected state, a missing grant, a failed confirmation, or an
/// unavailable action.
pub open spec fn early_rejection(
    snapshot: SnapshotView,
    ledger: ConfirmationLedger,
    request: InvokeAction,
    context: InvocationContext,
    now: u64,
) -> Option<ActionRejection> {
    let kind = request.action.kind_spec();
    if request.expected_state != snapshot.0 {
        Some(ActionRejection::StaleState { expected: request.expected_state, actual: snapshot.0 })
    } else if !context.grants.granted(kind) {
        Some(ActionRejection::Unavailable(Unavailability::Unauthorized))
    } else if confirmation_check(ledger, request, context, now) is Err {
        Some(ActionRejection::Confirmation(confirmation_check(ledger, request, context, now)->Err_0))
    } else if availability_of(snapshot, context.grants, kind) is Unavailable {
        Some(ActionRejection::Unavailable(availability_of(snapshot, context.grants, kind)->0))
    } else {
        None
    }
}

/// The first reason a resolvable invocation is refused: an unknown
/// workspace name, no window in its direction, or no revision left.
pub open spec fn late_rejection(snapshot: SnapshotView, action: BuiltinAction) -> Option<ActionRejection> {
    match resolved(snapshot, action) {
        Err(reason) => Some(ActionRejection::Unavailable(reason)),
        Ok(runs) => match directional_gap_of(snapshot, runs) {
            Some(reason) => Some(ActionRejection::Unavailable(reason)),
            None => if snapshot.0.revision.value() == u64::MAX {
                Some(ActionRejection::RevisionExhausted)
            } else {
                None
            },
        },
    }
}

/// The first reason an invocation on a fresh identity is refused, checked in
/// the order: expected state, grant, confirmation, availability, named
/// workspace, direction, revision.
pub open spec fn rejection_of(
    snapshot: SnapshotView,
    ledger: ConfirmationLedger,
    request: InvokeAction,
    context: InvocationContext,
    now: u64,
) -> Option<ActionRejection> {
    match early_rejection(snapshot, ledger, request, context, now) {
        Some(rejection) => Some(rejection),
        None => late_rejection(snapshot, request.action),
    }
}

/// `after` is the snapshot an accepted invocation leads to: the next revision
/// of the same run, with the resolved action applied.
pub open spec fn is_next_snapshot(after: SnapshotView, before: SnapshotView, action: BuiltinAction) -> bool {
    &&& after.0.epoch == before.0.epoch
    &&& after.0.revision.value() == before.0.revision.value() + 1
    &&& after == logically_applied(
        (after.0, before.1, before.2, before.3, before.4, before.5, before.6, before.7, before.8),
        action,
    )
}

/// The plan of a resolved action on the snapshot it leads to: its one effect,
/// at position zero.
pub open spec fn is_plan_of(plan: Seq<PlannedEffect>, action: BuiltinAction, after: SnapshotView) -> bool {
    &&& plan.len() == 1
    &&& plan[0].id.ordinal_spec() == 0
    &&& effect_of(action, after) == Some(plan[0].effect)
}

#[derive(Clone, Debug)]
pub struct CatalogState {
    snapshot: ActionSnapshot,
    local_namespace: InvocationNamespaceId,
    next_local_sequence: InvocationSequence,
    invocations: Vec<(InvocationId, ActionAdmission)>,
    statuses: Vec<(InvocationId, InvocationStatus)>,
    confirmations: ConfirmationLedger,
}

impl CatalogState {
    /// The catalog's logical snapshot of the manager.
    pub closed spec fn snapshot_spec(&self) -> SnapshotView {
        self.snapshot@
    }

    /// The answer recorded for an invocation.
    pub closed spec fn admission_of(&self, id: InvocationId) -> Option<ActionAdmission> {
        latest_entry(self.invocations@, id)
    }

    /// The status recorded for an invocation.
    pub closed spec fn status_of(&self, id: InvocationId) -> Option<InvocationStatus> {
        latest_entry(self.statuses@, id)
    }

    pub closed spec fn ledger(&self) -> ConfirmationLedger {
        self.confirmations
    }

    pub closed spec fn local_namespace_spec(&self) -> InvocationNamespaceId {
        self.local_namespace
    }

    /// The position the next local invocation identity will have.
    pub closed spec fn next_local_sequence_spec(&self) -> InvocationSequence {
        self.next_local_sequence
    }

    /// A catalog over a snapshot, with nothing recorded yet.
    pub fn new(snapshot: ActionSnapshot) -> (c: Self)
        ensures
            c.snapshot_spec() == snapshot@,
            forall|id: InvocationId| c.admission_of(id) is None && c.status_of(id) is None,
            forall|key: [u8; 16]| c.ledger().lookup(key) is None,
            c.local_namespace_spec().bytes() == snapshot.state.epoch.bytes(),
            c.next_local_sequence_spec().value() == 1,
    {
        let local_namespace = match InvocationNamespaceId::new(snapshot.state.epoch.into_bytes()) {
            Ok(namespace) => namespace,
            Err(_) => vstd::pervasive::unreached(),
        };
        CatalogState {
            snapshot,
            local_namespace,
            next_local_sequence: InvocationSequence::first(),
            invocations: Vec::new(),
            statuses: Vec::new(),
            confirmations: ConfirmationLedger::new(),
        }
    }

    pub fn snapshot(&self) -> (r: &ActionSnapshot)
        ensures
            r@ == self.snapshot_spec(),
    {
        &self.snapshot
    }

    /// Takes a fresh observation of the manager. A semantic change advances
    /// the revision by one; no change keeps the snapshot and its state.
    pub fn reconcile_observation(&mut self, snapshot: ActionSnapshot) -> (r: Result<
        ObservationChange,
        ActionContractError,
    >)
        ensures
            same_observation(snapshot@, old(self).snapshot_spec()) ==> r == Ok::<
                ObservationChange,
                ActionContractError,
            >(ObservationChange::Unchanged { state: old(self).snapshot_spec().0 }) && *final(self)
                == *old(self),
            !same_observation(snapshot@, old(self).snapshot_spec())
                && old(self).snapshot_spec().0.revision.value() == u64::MAX ==> r == Err::<
                ObservationChange,
                ActionContractError,
            >(ActionContractError::RevisionExhausted) && *final(self) == *old(self),
            !same_observation(snapshot@, old(self).snapshot_spec())
                && old(self).snapshot_spec().0.revision.value() < u64::MAX ==> (r matches Ok(
                ObservationChange::Advanced { previous, current },
            ) && previous == old(self).snapshot_spec().0 && current == final(self).snapshot_spec().0
                && current.epoch == previous.epoch && current.revision.value()
                == previous.revision.value() + 1 && final(self).snapshot_spec() == (
                current,
                snapshot@.1,
                snapshot@.2,
                snapshot@.3,
                snapshot@.4,
                snapshot@.5,
                snapshot@.6,
                snapshot@.7,
                snapshot@.8,
            )),
            forall|id: InvocationId|
                final(self).admission_of(id) == old(self).admission_of(id) && final(self).status_of(
                    id,
                ) == old(self).status_of(id),
            final(self).ledger() == old(self).ledger(),
    {
        let previous = self.snapshot.state;
        if same_observations(&snapshot, &self.snapshot) {
            return Ok(ObservationChange::Unchanged { state: previous });
        }
        let current = match previous.next() {
            Ok(current) => current,
            Err(error) => {
                return Err(error);
            },
        };
        let mut snapshot = snapshot;
        snapshot.state = current;
        self.snapshot = snapshot;
        Ok(ObservationChange::Advanced { previous, current })
    }

    /// The status of an invocation.
    pub fn status(&self, id: InvocationId) -> (r: Option<&InvocationStatus>)
        ensures
            r matches Some(status) ==> self.status_of(id) == Some(*status),
            r is None ==> self.status_of(id) is None,
    {
        match find_latest(&self.statuses, id) {
            Some(i) => Some(&self.statuses[i].1),
            None => None,
        }
    }

    /// The confirmation ledger, to issue challenges in.
    pub fn confirmations_mut(&mut self) -> (r: &mut ConfirmationLedger)
        ensures
            *r == old(self).ledger(),
            final(self).ledger() == *final(r),
            final(self).snapshot_spec() == old(self).snapshot_spec(),
            forall|id: InvocationId|
                final(self).admission_of(id) == old(self).admission_of(id) && final(self).status_of(
                    id,
                ) == old(self).status_of(id),
            final(self).local_namespace_spec() == old(self).local_namespace_spec(),
            final(self).next_local_sequence_spec() == old(self).next_local_sequence_spec(),
    {
        &mut self.confirmations
    }

    /// Issues an identity for an invocation from inside the manager: the
    /// catalog's namespace and the next local position, which then advances.
    pub fn issue_local_invocation_id(&mut self) -> (r: Result<InvocationId, InvocationIdentityError>)
        ensures
            old(self).next_local_sequence_spec().value() == u64::MAX <==> r == Err::<
                InvocationId,
                InvocationIdentityError,
            >(InvocationIdentityError::SequenceExhausted),
            r is Err ==> *final(self) == *old(self),
            r matches Ok(id) ==> id.namespace == old(self).local_namespace_spec() && id.sequence
                == old(self).next_local_sequence_spec() && final(self).next_local_sequence_spec().value()
                == old(self).next_local_sequence_spec().value() + 1,
            final(self).snapshot_spec() == old(self).snapshot_spec(),
            forall|id: InvocationId|
                final(self).admission_of(id) == old(self).admission_of(id) && final(self).status_of(
                    id,
                ) == old(self).status_of(id),
            final(self).ledger() == old(self).ledger(),
            final(self).local_namespace_spec() == old(self).local_namespace_spec(),
    {
        let sequence = self.next_local_sequence;
        let next = match sequence.next() {
            Ok(next) => next,
            Err(error) => {
                return Err(error);
            },
        };
        self.next_local_sequence = next;
        Ok(InvocationId::new(self.local_namespace, sequence))
    }

    /// Checks an invocation without changing the catalog. An identity with a
    /// recorded answer gets that answer again; otherwise the invocation is
    /// refused for the first failed check, or prepared: the resolved action
    /// applied to the next revision, its logical result and its effect.
    pub fn prepare(&self, request: InvokeAction, context: &InvocationContext, now: u64) -> (r:
        ActionPreparation)
        ensures
            self.admission_of(request.invocation_id) matches Some(previous) ==> (r matches ActionPreparation::Retained(
                a,
            ) && same_admission(previous, a)),
            self.admission_of(request.invocation_id) is None ==> (rejection_of(
                self.snapshot_spec(),
                self.ledger(),
                request,
                *context,
                now,
            ) matches Some(rejection) ==> r == ActionPreparation::Rejected {
                invocation_id: request.invocation_id,
                source: rejection,
            }),
            self.admission_of(request.invocation_id) is None && rejection_of(
                self.snapshot_spec(),
                self.ledger(),
                request,
                *context,
                now,
            ) is None ==> (r matches ActionPreparation::Prepared(p) && p.invocation_id_spec()
                == request.invocation_id && p.previous_state_spec() == self.snapshot_spec().0
                && is_next_snapshot(
                p.snapshot_spec(),
                self.snapshot_spec(),
                resolved(self.snapshot_spec(), request.action)->Ok_0,
            ) && logical_result_of(
                resolved(self.snapshot_spec(), request.action)->Ok_0,
                p.snapshot_spec(),
            ) == Some(p.logical_result_spec()) && is_plan_of(
                p.effects_spec(),
                resolved(self.snapshot_spec(), request.action)->Ok_0,
                p.snapshot_spec(),
            ) && p.undo_spec() is None && (match request.confirmation {
                Some(token) => p.confirmation_spec() matches Some(v) && v.key() == token.bytes,
                None => p.confirmation_spec() is None,
            })),
    {
        let id = request.invocation_id;
        if let Some(i) = find_latest(&self.invocations, id) {
            return ActionPreparation::Retained(self.invocations[i].1.duplicate());
        }
        let confirmation = match self.admission_checks(&request, context, now) {
            Ok(confirmation) => confirmation,
            Err(rejection) => {
                return rejected(id, rejection);
            },
        };
        proof {
            lemma_resolution_removes_context(self.snapshot@, request.action);
        }
        let action = match resolve_contextual_inputs(&self.snapshot, request.action) {
            Ok(action) => action,
            Err(reason) => {
                return rejected(id, ActionRejection::Unavailable(reason));
            },
        };
        if let Some(reason) = directional_gap(&self.snapshot, &action) {
            return rejected(id, ActionRejection::Unavailable(reason));
        }
        let state = match self.snapshot.state.next() {
            Ok(state) => state,
            Err(_) => {
                return rejected(id, ActionRejection::RevisionExhausted);
            },
        };
        ActionPreparation::Prepared(self.planned(id, action, state, confirmation))
    }

    /// The checks made before the action is resolved, in order; passing them
    /// gives the validated confirmation, if one was presented.
    fn admission_checks(&self, request: &InvokeAction, context: &InvocationContext, now: u64) -> (r:
        Result<Option<ValidatedConfirmation>, ActionRejection>)
        ensures
            r matches Err(rejection) ==> early_rejection(
                self.snapshot_spec(),
                self.ledger(),
                *request,
                *context,
                now,
            ) == Some(rejection),
            r matches Ok(confirmation) ==> early_rejection(
                self.snapshot_spec(),
                self.ledger(),
                *request,
                *context,
                now,
            ) is None && (match request.confirmation {
                Some(token) => confirmation matches Some(v) && v.key() == token.bytes,
                None => confirmation is None,
            }),
    {
        proof {
            lemma_stamp_equality(request.expected_state, self.snapshot.state);
        }
        if !(request.expected_state == self.snapshot.state) {
            return Err(
                ActionRejection::StaleState {
                    expected: request.expected_state,
                    actual: self.snapshot.state,
                },
            );
        }
        let kind = request.action.kind();
        if !context.grants.contains(kind) {
            return Err(ActionRejection::Unavailable(Unavailability::Unauthorized));
        }
        let confirmation = match request.confirmation {
            Some(token) => match self.confirmations.validate(
                token,
                context.principal,
                &request.action,
                request.expected_state,
                now,
            ) {
                Ok(validated) => Some(validated),
                Err(error) => {
                    return Err(ActionRejection::Confirmation(error));
                },
            },
            None => None,
        };
        let authority = ActionAuthority { grants: context.grants.duplicate() };
        let available = availability(&self.snapshot, &authority, kind, policy(kind));
        if let ActionAvailability::Unavailable(reason) = available {
            return Err(ActionRejection::Unavailable(reason));
        }
        Ok(confirmation)
    }

    /// The prepared form of a resolved action that runs on the next state.
    fn planned(
        &self,
        id: InvocationId,
        action: BuiltinAction,
        state: StateStamp,
        confirmation: Option<ValidatedConfirmation>,
    ) -> (p: PreparedAction)
        requires
            !is_contextual(action),
            state.epoch == self.snapshot_spec().0.epoch,
            state.revision.value() == self.snapshot_spec().0.revision.value() + 1,
        ensures
            p.invocation_id_spec() == id,
            p.previous_state_spec() == self.snapshot_spec().0,
            is_next_snapshot(p.snapshot_spec(), self.snapshot_spec(), action),
            logical_result_of(action, p.snapshot_spec()) == Some(p.logical_result_spec()),
            is_plan_of(p.effects_spec(), action, p.snapshot_spec()),
            p.undo_spec() is None,
            p.confirmation_spec() == confirmation,
    {
        let mut snapshot = self.snapshot.duplicate();
        snapshot.state = state;
        apply_logical(&mut snapshot, &action);
        let result = logical_result(&action, &snapshot);
        let mut native = effects(action, &snapshot);
        let effect = native.remove(0);
        let mut plan: Vec<PlannedEffect> = Vec::new();
        plan.push(PlannedEffect { id: EffectId::new(0), effect });
        PreparedAction {
            invocation_id: id,
            previous_state: self.snapshot.state,
            snapshot,
            logical_result: result,
            undo: None,
            effects: plan,
            confirmation,
        }
    }

    /// Records an answer for an invocation and gives it back.
    fn store(&mut self, id: InvocationId, admission: ActionAdmission) -> (r: ActionAdmission)
        ensures
            r == admission,
            final(self).admission_of(id) matches Some(a) && same_admission(admission, a),
            forall|other: InvocationId|
                other != id ==> final(self).admission_of(other) == old(self).admission_of(other),
            forall|other: InvocationId| final(self).status_of(other) == old(self).status_of(other),
            final(self).snapshot_spec() == old(self).snapshot_spec(),
            final(self).ledger() == old(self).ledger(),
            final(self).local_namespace_spec() == old(self).local_namespace_spec(),
            final(self).next_local_sequence_spec() == old(self).next_local_sequence_spec(),
    {
        self.invocations.push((id, admission.duplicate()));
        proof {
            assert(self.invocations@.drop_last() =~= old(self).invocations@);
        }
        admission
    }

    /// Records a status for an invocation.
    fn record_status(&mut self, id: InvocationId, status: InvocationStatus)
        ensures
            final(self).status_of(id) == Some(status),
            forall|other: InvocationId|
                other != id ==> final(self).status_of(other) == old(self).status_of(other),
            forall|other: InvocationId| final(self).admission_of(other) == old(self).admission_of(other),
            final(self).snapshot_spec() == old(self).snapshot_spec(),
            final(self).ledger() == old(self).ledger(),
            final(self).local_namespace_spec() == old(self).local_namespace_spec(),
            final(self).next_local_sequence_spec() == old(self).next_local_sequence_spec(),
    {
        self.statuses.push((id, status));
        proof {
            assert(self.statuses@.drop_last() =~= old(self).statuses@);
        }
    }

    /// Commits a prepared action: its snapshot becomes the catalog's, its
    /// confirmation is used, and its answer and status are recorded. It is
    /// refused, with no change, when the invocation already has an answer,
    /// when the state moved since it was prepared, or when its confirmation
    /// is unknown or was used.
    pub fn commit_prepared(&mut self, prepared: PreparedAction) -> (r: Result<
        ActionAdmission,
        PreparedCommitError,
    >)
        ensures
            old(self).admission_of(prepared.invocation_id_spec()) is Some ==> r == Err::<
                ActionAdmission,
                PreparedCommitError,
            >(PreparedCommitError::InvocationAlreadyRecorded) && *final(self) == *old(self),
            old(self).admission_of(prepared.invocation_id_spec()) is None
                && prepared.previous_state_spec() != old(self).snapshot_spec().0 ==> r == Err::<
                ActionAdmission,
                PreparedCommitError,
            >(
                PreparedCommitError::StateChanged {
                    expected: prepared.previous_state_spec(),
                    actual: old(self).snapshot_spec().0,
                },
            ) && *final(self) == *old(self),
            old(self).admission_of(prepared.invocation_id_spec()) is None
                && prepared.previous_state_spec() == old(self).snapshot_spec().0 ==> (
            prepared.confirmation_spec() matches Some(v) ==> (old(self).ledger().lookup(v.key())
                is None ==> r == Err::<ActionAdmission, PreparedCommitError>(
                PreparedCommitError::Confirmation(ConfirmationError::Unknown),
            ) && *final(self) == *old(self))),
            old(self).admission_of(prepared.invocation_id_spec()) is None
                && prepared.previous_state_spec() == old(self).snapshot_spec().0 ==> (
            prepared.confirmation_spec() matches Some(v) ==> (old(self).ledger().lookup(v.key())
                matches Some(issued) ==> (issued.consumed ==> r == Err::<
                ActionAdmission,
                PreparedCommitError,
            >(PreparedCommitError::Confirmation(ConfirmationError::Replay)) && *final(self)
                == *old(self)))),
            r is Ok ==> old(self).admission_of(prepared.invocation_id_spec()) is None
                && prepared.previous_state_spec() == old(self).snapshot_spec().0,
            r == Err::<ActionAdmission, PreparedCommitError>(
                PreparedCommitError::InvocationAlreadyRecorded,
            ) ==> old(self).admission_of(prepared.invocation_id_spec()) is Some,
            r matches Err(PreparedCommitError::StateChanged { .. }) ==> prepared.previous_state_spec()
                != old(self).snapshot_spec().0,
            r matches Err(PreparedCommitError::Confirmation(_)) ==> (prepared.confirmation_spec() matches Some(
                v,
            ) && (old(self).ledger().lookup(v.key()) is None || old(self).ledger().lookup(
                v.key(),
            )->0.consumed)),
            r matches Ok(admission) ==> (admission matches ActionAdmission::Committed {
                state,
                logical_result,
                undo,
                effects,
            } && state == prepared.snapshot_spec().0 && logical_result
                == prepared.logical_result_spec() && undo == prepared.undo_spec() && effects@
                == prepared.effects_spec()),
            r matches Ok(admission) ==> (final(self).snapshot_spec() == prepared.snapshot_spec()
                && final(self).status_of(prepared.invocation_id_spec()) == Some(
                InvocationStatus::Committed { state: prepared.snapshot_spec().0 },
            ) && (final(self).admission_of(prepared.invocation_id_spec()) matches Some(a)
                && same_admission(admission, a))),
            r is Ok ==> forall|other: InvocationId|
                other != prepared.invocation_id_spec() ==> final(self).admission_of(other) == old(self).admission_of(other) && final(self).status_of(other) == old(self).status_of(other),
            r is Ok && prepared.confirmation_spec() is None ==> final(self).ledger() == old(self).ledger(),
            r is Ok ==> (prepared.confirmation_spec() matches Some(v) ==> (final(self).ledger().lookup(
                v.key(),
            ) matches Some(issued) && issued.consumed)),
            final(self).local_namespace_spec() == old(self).local_namespace_spec(),
            final(self).next_local_sequence_spec() == old(self).next_local_sequence_spec(),
    {
        if find_latest(&self.invocations, prepared.invocation_id).is_some() {
            return Err(PreparedCommitError::InvocationAlreadyRecorded);
        }
        proof {
            lemma_stamp_equality(self.snapshot.state, prepared.previous_state);
        }
        if !(self.snapshot.state == prepared.previous_state) {
            return Err(
                PreparedCommitError::StateChanged {
                    expected: prepared.previous_state,
                    actual: self.snapshot.state,
                },
            );
        }
        if let Some(confirmation) = prepared.confirmation {
            if let Err(error) = self.confirmations.consume_validated(confirmation) {
                return Err(PreparedCommitError::Confirmation(error));
            }
        }
        let id = prepared.invocation_id;
        let state = prepared.snapshot.state;
        self.snapshot = prepared.snapshot;
        let admission = ActionAdmission::Committed {
            state,
            logical_result: prepared.logical_result,
            undo: prepared.undo,
            effects: prepared.effects,
        };
        self.record_status(id, InvocationStatus::Committed { state });
        Ok(self.store(id, admission))
    }

    /// Admits an invocation once. A retried identity gets its recorded answer
    /// again and changes nothing; a fresh one is refused for the first failed
    /// check, or committed at the next revision with its result and planned
    /// effect, and its answer is recorded either way.
    pub fn admit_invocation(&mut self, request: InvokeAction, context: &InvocationContext, now: u64) -> (r:
        ActionAdmission)
        ensures
            old(self).admission_of(request.invocation_id) matches Some(previous) ==> same_admission(
                previous,
                r,
            ) && *final(self) == *old(self),
            old(self).admission_of(request.invocation_id) is None ==> (final(self).admission_of(
                request.invocation_id,
            ) matches Some(a) && same_admission(r, a)),
            old(self).admission_of(request.invocation_id) is None ==> (rejection_of(
                old(self).snapshot_spec(),
                old(self).ledger(),
                request,
                *context,
                now,
            ) matches Some(rejection) ==> r == ActionAdmission::Rejected(rejection)
                && final(self).snapshot_spec() == old(self).snapshot_spec() && final(self).ledger()
                == old(self).ledger() && final(self).status_of(request.invocation_id) == old(
                self,
            ).status_of(request.invocation_id)),
            old(self).admission_of(request.invocation_id) is None && rejection_of(
                old(self).snapshot_spec(),
                old(self).ledger(),
                request,
                *context,
                now,
            ) is None ==> (r matches ActionAdmission::Committed {
                state,
                logical_result,
                undo,
                effects,
            } && state == final(self).snapshot_spec().0 && is_next_snapshot(
                final(self).snapshot_spec(),
                old(self).snapshot_spec(),
                resolved(old(self).snapshot_spec(), request.action)->Ok_0,
            ) && logical_result_of(
                resolved(old(self).snapshot_spec(), request.action)->Ok_0,
                final(self).snapshot_spec(),
            ) == Some(logical_result) && is_plan_of(
                effects@,
                resolved(old(self).snapshot_spec(), request.action)->Ok_0,
                final(self).snapshot_spec(),
            ) && undo is None && final(self).status_of(request.invocation_id) == Some(
                InvocationStatus::Committed { state },
            )),
            forall|other: InvocationId|
                other != request.invocation_id ==> final(self).admission_of(other) == old(self).admission_of(other) && final(self).status_of(other) == old(self).status_of(other),
            final(self).local_namespace_spec() == old(self).local_namespace_spec(),
            final(self).next_local_sequence_spec() == old(self).next_local_sequence_spec(),
    {
        let id = request.invocation_id;
        match self.prepare(request, context, now) {
            ActionPreparation::Retained(previous) => previous,
            ActionPreparation::Rejected { invocation_id, source } => self.store(
                invocation_id,
                ActionAdmission::Rejected(source),
            ),
            ActionPreparation::Prepared(prepared) => {
                match self.commit_prepared(prepared) {
                    Ok(admission) => admission,
                    Err(PreparedCommitError::StateChanged { expected, actual }) => self.store(
                        id,
                        ActionAdmission::Rejected(ActionRejection::StaleState { expected, actual }),
                    ),
                    Err(PreparedCommitError::Confirmation(error)) => self.store(
                        id,
                        ActionAdmission::Rejected(ActionRejection::Confirmation(error)),
                    ),
                    Err(PreparedCommitError::InvocationAlreadyRecorded) => {
                        match find_latest(&self.invocations, id) {
                            Some(i) => self.invocations[i].1.duplicate(),
                            None => vstd::pervasive::unreached(),
                        }
                    },
                }
            },
        }
    }

    /// Marks a committed invocation as settled with its observed result;
    /// any other status is left as it is.
    pub fn settle(&mut self, id: InvocationId, result: ActionResult)
        ensures
            old(self).status_of(id) matches Some(InvocationStatus::Committed { state }) ==> final(self).status_of(id) == Some(InvocationStatus::Settled { state, result }),
            !(old(self).status_of(id) is Some && old(self).status_of(id)->0 is Committed)
                ==> *final(self) == *old(self),
            forall|other: InvocationId|
                other != id ==> final(self).status_of(other) == old(self).status_of(other),
            forall|other: InvocationId| final(self).admission_of(other) == old(self).admission_of(other),
            final(self).snapshot_spec() == old(self).snapshot_spec(),
            final(self).ledger() == old(self).ledger(),
    {
        let committed = match find_latest(&self.statuses, id) {
            Some(i) => match &self.statuses[i].1 {
                InvocationStatus::Committed { state } => Some(*state),
                _ => None,
            },
            None => None,
        };
        if let Some(state) = committed {
            self.record_status(id, InvocationStatus::Settled { state, result });
        }
    }

    /// Marks a committed invocation as degraded by the effects that failed;
    /// any other status is left as it is.
    pub fn degrade(&mut self, id: InvocationId, failures: Vec<NativeEffectFailure>)
        ensures
            old(self).status_of(id) matches Some(InvocationStatus::Committed { state }) ==> final(self).status_of(id) == Some(InvocationStatus::Degraded { state, failures }),
            !(old(self).status_of(id) is Some && old(self).status_of(id)->0 is Committed)
                ==> *final(self) == *old(self),
            forall|other: InvocationId|
                other != id ==> final(self).status_of(other) == old(self).status_of(other),
            forall|other: InvocationId| final(self).admission_of(other) == old(self).admission_of(other),
            final(self).snapshot_spec() == old(self).snapshot_spec(),
            final(self).ledger() == old(self).ledger(),
    {
        let committed = match find_latest(&self.statuses, id) {
            Some(i) => match &self.statuses[i].1 {
                InvocationStatus::Committed { state } => Some(*state),
                _ => None,
            },
            None => None,
        };
        if let Some(state) = committed {
            self.record_status(id, InvocationStatus::Degraded { state, failures });
        }
    }

    /// Records that a later state superseded an invocation.
    pub fn supersede(&mut self, id: InvocationId, by_state: StateStamp)
        ensures
            final(self).status_of(id) == Some(InvocationStatus::Superseded { by_state }),
            forall|other: InvocationId|
                other != id ==> final(self).status_of(other) == old(self).status_of(other),
            forall|other: InvocationId| final(self).admission_of(other) == old(self).admission_of(other),
            final(self).snapshot_spec() == old(self).snapshot_spec(),
            final(self).ledger() == old(self).ledger(),
    {
        self.record_status(id, InvocationStatus::Superseded { by_state });
    }

    /// Records that an invocation is being reconciled after a restart.
    pub fn reconcile_after_restart(&mut self, id: InvocationId, state: StateStamp)
        ensures
            final(self).status_of(id) == Some(InvocationStatus::ReconcilingAfterRestart { state }),
            forall|other: InvocationId|
                other != id ==> final(self).status_of(other) == old(self).status_of(other),
            forall|other: InvocationId| final(self).admission_of(other) == old(self).admission_of(other),
            final(self).snapshot_spec() == old(self).snapshot_spec(),
            final(self).ledger() == old(self).ledger(),
    {
        self.record_status(id, InvocationStatus::ReconcilingAfterRestart { state });
    }
}

fn rejected(invocation_id: InvocationId, source: ActionRejection) -> (r: ActionPreparation)
    ensures
        r == (ActionPreparation::Rejected { invocation_id, source }),
{
    ActionPreparation::Rejected { invocation_id, source }
}

} // verus!
