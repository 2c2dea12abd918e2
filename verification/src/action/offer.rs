//! What the catalog offers: for every built-in action its definition, whether
//! it can run now and why not, its current value and the live choices for its
//! parameters.

use vstd::prelude::*;
use crate::action::builtin_action::BuiltinAction;
use crate::action::builtin_action::BuiltinActionKind;
use crate::action::meaning::WorkspaceOperation;
use crate::action::meaning::action_transfer;
use crate::action::meaning::named_workspace;
use crate::action::meaning::workspace_operation;
use crate::action::builtin_action::WorkspaceName;
use crate::action::configuration::ConfigurationSnapshot;
use crate::action::definition::ActionDefinition;
use crate::action::definition::ParameterDomain;
use crate::action::definition::is_definition_of;
use crate::action::definition::parameters_of;
use crate::action::definition::layout_name;
use crate::action::definition::layout_name_spec;
use crate::action::id::ActionId;
use crate::action::id::ParameterId;
use crate::action::id::WindowId;
use crate::action::index::MonitorIndex;
use crate::action::index::WorkspaceIndex;
use crate::manager_types::DefaultLayout;
use crate::manager_types::DirectionSet;
use crate::manager_types::OperationDirection;
use crate::stamp::ManagerEpoch;
use crate::stamp::Revision;
use crate::stamp::StateStamp;
use crate::transparency_alpha::TransparencyAlpha;

verus! {

/// A workspace that can be addressed by its name.
#[derive(Clone, Debug, PartialEq, Eq)]
pub struct NamedWorkspaceTarget {
    pub name: WorkspaceName,
    pub monitor: MonitorIndex,
    pub workspace: WorkspaceIndex,
}

impl NamedWorkspaceTarget {
    pub fn duplicate(&self) -> (r: Self)
        ensures
            r == *self,
    {
        NamedWorkspaceTarget {
            name: self.name.duplicate(),
            monitor: self.monitor,
            workspace: self.workspace,
        }
    }
}

/// A key binding that triggers an action.
#[derive(Clone, Debug, PartialEq, Eq)]
pub struct BindingHint {
    pub action: ActionId,
    pub trigger: String,
}

impl BindingHint {
    pub fn duplicate(&self) -> (r: Self)
        ensures
            r == *self,
    {
        BindingHint { action: self.action, trigger: self.trigger.clone() }
    }
}

/// What the catalog knows of the manager when it offers and admits actions.
#[derive(Clone, Debug)]
pub struct ActionSnapshot {
    pub state: StateStamp,
    pub paused: bool,
    pub focused_window: Option<WindowId>,
    pub directional_targets: DirectionSet,
    pub current_layout: DefaultLayout,
    pub configuration: ConfigurationSnapshot,
    pub focused_window_floating: bool,
    pub named_workspaces: Vec<NamedWorkspaceTarget>,
    pub bindings: Vec<BindingHint>,
}

/// A snapshot as a value: its fields in declaration order, the two lists by
/// their contents.
pub type SnapshotView = (
    StateStamp,
    bool,
    Option<WindowId>,
    DirectionSet,
    DefaultLayout,
    ConfigurationSnapshot,
    bool,
    Seq<NamedWorkspaceTarget>,
    Seq<BindingHint>,
);

impl View for ActionSnapshot {
    type V = SnapshotView;

    open spec fn view(&self) -> SnapshotView {
        (
            self.state,
            self.paused,
            self.focused_window,
            self.directional_targets,
            self.current_layout,
            self.configuration,
            self.focused_window_floating,
            self.named_workspaces@,
            self.bindings@,
        )
    }
}

/// The monitor and workspace of the first target named `name`.
pub open spec fn workspace_named(targets: Seq<NamedWorkspaceTarget>, name: Seq<char>) -> Option<
    (MonitorIndex, WorkspaceIndex),
>
    decreases targets.len(),
{
    if targets.len() == 0 {
        None
    } else if targets[0].name.text() == name {
        Some((targets[0].monitor, targets[0].workspace))
    } else {
        workspace_named(targets.drop_first(), name)
    }
}

pub fn duplicate_targets(targets: &Vec<NamedWorkspaceTarget>) -> (r: Vec<NamedWorkspaceTarget>)
    ensures
        r@ == targets@,
{
    let mut r: Vec<NamedWorkspaceTarget> = Vec::new();
    let mut i: usize = 0;
    while i < targets.len()
        invariant
            0 <= i <= targets@.len(),
            r@ == targets@.take(i as int),
        decreases targets.len() - i,
    {
        r.push(targets[i].duplicate());
        i = i + 1;
        proof {
            assert(r@ =~= targets@.take(i as int));
        }
    }
    proof {
        assert(targets@.take(i as int) =~= targets@);
    }
    r
}

pub fn duplicate_bindings(bindings: &Vec<BindingHint>) -> (r: Vec<BindingHint>)
    ensures
        r@ == bindings@,
{
    let mut r: Vec<BindingHint> = Vec::new();
    let mut i: usize = 0;
    while i < bindings.len()
        invariant
            0 <= i <= bindings@.len(),
            r@ == bindings@.take(i as int),
        decreases bindings.len() - i,
    {
        r.push(bindings[i].duplicate());
        i = i + 1;
        proof {
            assert(r@ =~= bindings@.take(i as int));
        }
    }
    proof {
        assert(bindings@.take(i as int) =~= bindings@);
    }
    r
}

impl ActionSnapshot {
    /// The snapshot of a manager that has just started: nothing focused, no
    /// neighbours, the default layout and configuration, no names and no
    /// bindings.
    pub fn empty(manager_epoch: ManagerEpoch) -> (s: Self)
        ensures
            s.state.epoch == manager_epoch,
            s.state.revision.value() == 1,
            !s.paused,
            s.focused_window is None,
            forall|d: OperationDirection| !s.directional_targets.has(d),
            s.current_layout == DefaultLayout::BSP,
            !s.focused_window_floating,
            s.named_workspaces@.len() == 0,
            s.bindings@.len() == 0,
    {
        ActionSnapshot {
            state: StateStamp::initial(manager_epoch),
            paused: false,
            focused_window: None,
            directional_targets: DirectionSet::empty(),
            current_layout: DefaultLayout::BSP,
            configuration: ConfigurationSnapshot::default(),
            focused_window_floating: false,
            named_workspaces: Vec::new(),
            bindings: Vec::new(),
        }
    }

    /// The location of the first workspace with this name.
    pub fn workspace_by_name(&self, name: &WorkspaceName) -> (r: Option<
        (MonitorIndex, WorkspaceIndex),
    >)
        ensures
            r == workspace_named(self.named_workspaces@, name.text()),
    {
        let targets = &self.named_workspaces;
        let mut i: usize = 0;
        proof {
            assert(targets@.skip(0) =~= targets@);
        }
        while i < targets.len()
            invariant
                targets@ == self.named_workspaces@,
                0 <= i <= targets@.len(),
                workspace_named(targets@, name.text()) == workspace_named(
                    targets@.skip(i as int),
                    name.text(),
                ),
            decreases targets.len() - i,
        {
            let target = &targets[i];
            proof {
                assert(targets@.skip(i as int)[0] == targets@[i as int]);
                assert(targets@.skip(i as int).drop_first() =~= targets@.skip(i + 1));
            }
            if target.name.same(name) {
                proof {
                    assert(targets@.skip(i as int).len() > 0);
                    assert(workspace_named(targets@.skip(i as int), name.text()) == Some(
                        (target.monitor, target.workspace),
                    ));
                }
                return Some((target.monitor, target.workspace));
            }
            i = i + 1;
        }
        proof {
            assert(targets@.skip(i as int).len() == 0);
        }
        None
    }

    /// A copy of this snapshot.
    pub fn duplicate(&self) -> (r: Self)
        ensures
            r@ == self@,
    {
        ActionSnapshot {
            state: self.state,
            paused: self.paused,
            focused_window: self.focused_window,
            directional_targets: self.directional_targets,
            current_layout: self.current_layout,
            configuration: self.configuration.duplicate(),
            focused_window_floating: self.focused_window_floating,
            named_workspaces: duplicate_targets(&self.named_workspaces),
            bindings: duplicate_bindings(&self.bindings),
        }
    }
}

/// The kinds of action a caller may invoke, at a revision of the grants.
#[derive(Clone, Debug)]
pub struct ActionGrants {
    revision: Revision,
    kinds: Vec<BuiltinActionKind>,
}

impl ActionGrants {
    pub closed spec fn granted(self, kind: BuiltinActionKind) -> bool {
        self.kinds@.contains(kind)
    }

    pub closed spec fn revision_spec(self) -> Revision {
        self.revision
    }

    /// Grants every built-in action.
    pub fn all() -> (g: Self)
        ensures
            forall|kind: BuiltinActionKind| g.granted(kind),
            g.revision_spec().value() == 1,
    {
        let g = ActionGrants { revision: Revision::first(), kinds: BuiltinActionKind::all() };
        proof {
            assert forall|kind: BuiltinActionKind| g.granted(kind) by {
                BuiltinActionKind::lemma_all_holds(kind);
            }
        }
        g
    }

    /// Grants nothing.
    pub fn none() -> (g: Self)
        ensures
            forall|kind: BuiltinActionKind| !g.granted(kind),
            g.revision_spec().value() == 1,
    {
        ActionGrants { revision: Revision::first(), kinds: Vec::new() }
    }

    /// Grants exactly the listed kinds.
    pub fn of_kinds(kinds: Vec<BuiltinActionKind>) -> (g: Self)
        ensures
            forall|kind: BuiltinActionKind| g.granted(kind) <==> kinds@.contains(kind),
            g.revision_spec().value() == 1,
    {
        ActionGrants { revision: Revision::first(), kinds }
    }

    pub fn revision(&self) -> (r: Revision)
        ensures
            r == self.revision_spec(),
    {
        self.revision
    }

    pub fn contains(&self, kind: BuiltinActionKind) -> (r: bool)
        ensures
            r == self.granted(kind),
    {
        let mut i: usize = 0;
        while i < self.kinds.len()
            invariant
                0 <= i <= self.kinds@.len(),
                forall|j: int| 0 <= j < i ==> self.kinds@[j] != kind,
            decreases self.kinds.len() - i,
        {
            if self.kinds[i] == kind {
                return true;
            }
            i = i + 1;
        }
        false
    }

    pub fn duplicate(&self) -> (r: Self)
        ensures
            forall|kind: BuiltinActionKind| r.granted(kind) <==> self.granted(kind),
            r.revision_spec() == self.revision_spec(),
    {
        let mut kinds: Vec<BuiltinActionKind> = Vec::new();
        let mut i: usize = 0;
        while i < self.kinds.len()
            invariant
                0 <= i <= self.kinds@.len(),
                kinds@ == self.kinds@.take(i as int),
            decreases self.kinds.len() - i,
        {
            kinds.push(self.kinds[i]);
            i = i + 1;
            proof {
                assert(kinds@ =~= self.kinds@.take(i as int));
            }
        }
        proof {
            assert(self.kinds@.take(i as int) =~= self.kinds@);
        }
        ActionGrants { revision: self.revision, kinds }
    }
}

#[derive(Clone, Debug)]
pub struct ActionAuthority {
    pub grants: ActionGrants,
}

/// Why an action cannot run now.
#[derive(Clone, Copy, Debug, PartialEq, Eq, Structural)]
pub enum Unavailability {
    ManagerPaused,
    NoFocusedWindow,
    NoWindowInDirection,
    Unauthorized,
    UnknownWorkspace,
    UnknownMonitor,
    NoFocusedWorkspace,
}

#[derive(Clone, Copy, Debug, PartialEq, Eq, Structural)]
pub enum ActionAvailability {
    Available,
    Unavailable(Unavailability),
}

/// The value an action would change, as it is now.
#[derive(Clone, Copy, Debug, PartialEq, Eq, Structural)]
pub enum ActionCurrentValue {
    Layout(DefaultLayout),
    Floating(bool),
    TransparencyEnabled(bool),
    TransparencyAlpha(TransparencyAlpha),
}

/// A live value that a parameter may take.
#[derive(Clone, Debug, PartialEq, Eq)]
pub enum DynamicParameterChoice {
    Direction(OperationDirection),
    WorkspaceName(WorkspaceName),
}

/// The live values of one parameter.
#[derive(Clone, Debug)]
pub struct DynamicParameterChoices {
    pub parameter: ParameterId,
    pub choices: Vec<DynamicParameterChoice>,
}

/// What an action needs of the focus before it can run.
#[derive(Clone, Copy, Debug, PartialEq, Eq, Structural)]
pub enum FocusRequirement {
    NoRequirement,
    FocusedWindow,
    DirectionalTarget,
}

/// Where the live choices of an action's parameter come from.
#[derive(Clone, Copy, Debug, PartialEq, Eq, Structural)]
pub enum DynamicChoiceSource {
    NoChoices,
    DirectionalTarget,
    ExistingWorkspaceName,
}

/// Which current value an offer reports.
#[derive(Clone, Copy, Debug, PartialEq, Eq, Structural)]
pub enum CurrentValueSource {
    Absent,
    Layout,
    Floating,
    TransparencyEnabled,
    TransparencyAlpha,
}

/// How the catalog offers one kind of action.
#[derive(Clone, Copy, Debug, PartialEq, Eq, Structural)]
pub struct OfferPolicy {
    pub focus: FocusRequirement,
    pub choices: DynamicChoiceSource,
    pub current_value: CurrentValueSource,
}

/// The offer policy of each kind of action.
pub open spec fn policy_of(kind: BuiltinActionKind) -> OfferPolicy {
    match kind {
        BuiltinActionKind::FocusWindow | BuiltinActionKind::MoveWindow |
        BuiltinActionKind::PromoteWindow => OfferPolicy {
            focus: FocusRequirement::DirectionalTarget,
            choices: DynamicChoiceSource::DirectionalTarget,
            current_value: CurrentValueSource::Absent,
        },
        BuiltinActionKind::ResizeWindow | BuiltinActionKind::ResizeWindowByStep |
        BuiltinActionKind::CycleFocusWindow | BuiltinActionKind::CycleMoveWindow |
        BuiltinActionKind::ToggleWindowMonocle | BuiltinActionKind::ToggleWindowMaximize |
        BuiltinActionKind::ToggleContainerLock | BuiltinActionKind::StackWindow |
        BuiltinActionKind::UnstackWindow | BuiltinActionKind::CycleStack |
        BuiltinActionKind::CycleStackIndex | BuiltinActionKind::FocusStackWindow |
        BuiltinActionKind::CloseWindow | BuiltinActionKind::MinimizeWindow |
        BuiltinActionKind::ForceFocus | BuiltinActionKind::PromoteContainer |
        BuiltinActionKind::PromoteContainerSwap | BuiltinActionKind::PromoteFocus |
        BuiltinActionKind::MoveContainerToLastWorkspace |
        BuiltinActionKind::SendContainerToLastWorkspace |
        BuiltinActionKind::MoveContainerToWorkspace |
        BuiltinActionKind::CycleMoveContainerToWorkspace |
        BuiltinActionKind::SendContainerToWorkspace |
        BuiltinActionKind::CycleSendContainerToWorkspace |
        BuiltinActionKind::MoveContainerToMonitor |
        BuiltinActionKind::CycleMoveContainerToMonitor |
        BuiltinActionKind::SendContainerToMonitor |
        BuiltinActionKind::CycleSendContainerToMonitor |
        BuiltinActionKind::MoveContainerToMonitorWorkspace |
        BuiltinActionKind::SendContainerToMonitorWorkspace |
        BuiltinActionKind::PreselectDirection | BuiltinActionKind::UnmanageFocusedWindow |
        BuiltinActionKind::AddSessionFloatRule | BuiltinActionKind::ResizeWindowEdge |
        BuiltinActionKind::ResizeWindowEdgeByStep | BuiltinActionKind::EagerFocus => OfferPolicy {
            focus: FocusRequirement::FocusedWindow,
            choices: DynamicChoiceSource::NoChoices,
            current_value: CurrentValueSource::Absent,
        },
        BuiltinActionKind::SetWorkspaceLayout => OfferPolicy {
            focus: FocusRequirement::NoRequirement,
            choices: DynamicChoiceSource::NoChoices,
            current_value: CurrentValueSource::Layout,
        },
        BuiltinActionKind::ToggleWindowFloat => OfferPolicy {
            focus: FocusRequirement::FocusedWindow,
            choices: DynamicChoiceSource::NoChoices,
            current_value: CurrentValueSource::Floating,
        },
        BuiltinActionKind::StackAll | BuiltinActionKind::UnstackAll |
        BuiltinActionKind::FocusWorkspace | BuiltinActionKind::CycleFocusWorkspace |
        BuiltinActionKind::CycleFocusEmptyWorkspace | BuiltinActionKind::FocusLastWorkspace |
        BuiltinActionKind::CloseWorkspace | BuiltinActionKind::FocusMonitor |
        BuiltinActionKind::CycleFocusMonitor | BuiltinActionKind::FocusMonitorAtCursor |
        BuiltinActionKind::FocusWorkspaceOnAllMonitors |
        BuiltinActionKind::FocusMonitorWorkspace | BuiltinActionKind::NewWorkspace |
        BuiltinActionKind::ToggleTiling | BuiltinActionKind::CycleLayout |
        BuiltinActionKind::FlipLayout | BuiltinActionKind::ToggleWorkspaceLayer |
        BuiltinActionKind::MoveWorkspaceToMonitor |
        BuiltinActionKind::CycleMoveWorkspaceToMonitor |
        BuiltinActionKind::SwapWorkspacesToMonitor | BuiltinActionKind::CancelPreselect |
        BuiltinActionKind::Retile | BuiltinActionKind::RetileWithResizeDimensions |
        BuiltinActionKind::ManageFocusedWindow | BuiltinActionKind::AdjustContainerPadding |
        BuiltinActionKind::AdjustWorkspacePadding |
        BuiltinActionKind::ToggleMouseFollowsFocus | BuiltinActionKind::SetMouseFollowsFocus |
        BuiltinActionKind::ToggleWindowContainerBehaviour |
        BuiltinActionKind::ToggleFloatOverride |
        BuiltinActionKind::ToggleWorkspaceWindowContainerBehaviour |
        BuiltinActionKind::ToggleWorkspaceFloatOverride |
        BuiltinActionKind::ToggleCrossMonitorMoveBehaviour |
        BuiltinActionKind::ToggleMonocleFocusBehaviour | BuiltinActionKind::TogglePause |
        BuiltinActionKind::SetFocusedContainerPadding |
        BuiltinActionKind::SetFocusedWorkspacePadding |
        BuiltinActionKind::SetContainerPadding | BuiltinActionKind::SetWorkspacePadding |
        BuiltinActionKind::SetWorkspaceTiling | BuiltinActionKind::SetMonitorWorkspaceLayout |
        BuiltinActionKind::EnsureWorkspaces | BuiltinActionKind::ClearWorkspaceLayoutRules |
        BuiltinActionKind::SetScrollingColumns | BuiltinActionKind::LockContainer |
        BuiltinActionKind::UnlockContainer | BuiltinActionKind::ToggleTitleBars |
        BuiltinActionKind::EnforceWorkspaceRules | BuiltinActionKind::ClearSessionFloatRules |
        BuiltinActionKind::SetWindowHidingBehaviour |
        BuiltinActionKind::SetCrossMonitorMoveBehaviour |
        BuiltinActionKind::SetMonocleFocusBehaviour |
        BuiltinActionKind::SetUnmanagedWindowOperationBehaviour |
        BuiltinActionKind::SetFocusFollowsMouse | BuiltinActionKind::ToggleFocusFollowsMouse |
        BuiltinActionKind::AddWorkspaceLayoutRule | BuiltinActionKind::EnsureNamedWorkspaces |
        BuiltinActionKind::SetWorkspaceName | BuiltinActionKind::SetLayoutRatios |
        BuiltinActionKind::SetCustomLayout | BuiltinActionKind::SetWorkspaceCustomLayout |
        BuiltinActionKind::AddWorkspaceCustomLayoutRule | BuiltinActionKind::RemoveTitleBar |
        BuiltinActionKind::SetResizeStep | BuiltinActionKind::ToggleTransparency |
        BuiltinActionKind::SetBorderEnabled | BuiltinActionKind::SetBorderColour |
        BuiltinActionKind::SetBorderWidth | BuiltinActionKind::SetBorderOffset |
        BuiltinActionKind::SetBorderStyle | BuiltinActionKind::SetBorderImplementation => OfferPolicy {
            focus: FocusRequirement::NoRequirement,
            choices: DynamicChoiceSource::NoChoices,
            current_value: CurrentValueSource::Absent,
        },
        BuiltinActionKind::FocusNamedWorkspace |
        BuiltinActionKind::SetNamedWorkspaceContainerPadding |
        BuiltinActionKind::SetNamedWorkspacePadding |
        BuiltinActionKind::SetNamedWorkspaceTiling |
        BuiltinActionKind::SetNamedWorkspaceLayout |
        BuiltinActionKind::SetNamedWorkspaceCustomLayout |
        BuiltinActionKind::AddNamedWorkspaceLayoutRule |
        BuiltinActionKind::AddNamedWorkspaceCustomLayoutRule |
        BuiltinActionKind::ClearNamedWorkspaceLayoutRules => OfferPolicy {
            focus: FocusRequirement::NoRequirement,
            choices: DynamicChoiceSource::ExistingWorkspaceName,
            current_value: CurrentValueSource::Absent,
        },
        BuiltinActionKind::MoveContainerToNamedWorkspace |
        BuiltinActionKind::SendContainerToNamedWorkspace => OfferPolicy {
            focus: FocusRequirement::FocusedWindow,
            choices: DynamicChoiceSource::ExistingWorkspaceName,
            current_value: CurrentValueSource::Absent,
        },
        BuiltinActionKind::SetTransparencyEnabled => OfferPolicy {
            focus: FocusRequirement::NoRequirement,
            choices: DynamicChoiceSource::NoChoices,
            current_value: CurrentValueSource::TransparencyEnabled,
        },
        BuiltinActionKind::SetTransparencyAlpha => OfferPolicy {
            focus: FocusRequirement::NoRequirement,
            choices: DynamicChoiceSource::NoChoices,
            current_value: CurrentValueSource::TransparencyAlpha,
        },
    }
}

pub fn policy(kind: BuiltinActionKind) -> (p: OfferPolicy)
    ensures
        p == policy_of(kind),
{
    match kind {
        BuiltinActionKind::FocusWindow | BuiltinActionKind::MoveWindow |
        BuiltinActionKind::PromoteWindow => OfferPolicy {
            focus: FocusRequirement::DirectionalTarget,
            choices: DynamicChoiceSource::DirectionalTarget,
            current_value: CurrentValueSource::Absent,
        },
        BuiltinActionKind::ResizeWindow | BuiltinActionKind::ResizeWindowByStep |
        BuiltinActionKind::CycleFocusWindow | BuiltinActionKind::CycleMoveWindow |
        BuiltinActionKind::ToggleWindowMonocle | BuiltinActionKind::ToggleWindowMaximize |
        BuiltinActionKind::ToggleContainerLock | BuiltinActionKind::StackWindow |
        BuiltinActionKind::UnstackWindow | BuiltinActionKind::CycleStack |
        BuiltinActionKind::CycleStackIndex | BuiltinActionKind::FocusStackWindow |
        BuiltinActionKind::CloseWindow | BuiltinActionKind::MinimizeWindow |
        BuiltinActionKind::ForceFocus | BuiltinActionKind::PromoteContainer |
        BuiltinActionKind::PromoteContainerSwap | BuiltinActionKind::PromoteFocus |
        BuiltinActionKind::MoveContainerToLastWorkspace |
        BuiltinActionKind::SendContainerToLastWorkspace |
        BuiltinActionKind::MoveContainerToWorkspace |
        BuiltinActionKind::CycleMoveContainerToWorkspace |
        BuiltinActionKind::SendContainerToWorkspace |
        BuiltinActionKind::CycleSendContainerToWorkspace |
        BuiltinActionKind::MoveContainerToMonitor |
        BuiltinActionKind::CycleMoveContainerToMonitor |
        BuiltinActionKind::SendContainerToMonitor |
        BuiltinActionKind::CycleSendContainerToMonitor |
        BuiltinActionKind::MoveContainerToMonitorWorkspace |
        BuiltinActionKind::SendContainerToMonitorWorkspace |
        BuiltinActionKind::PreselectDirection | BuiltinActionKind::UnmanageFocusedWindow |
        BuiltinActionKind::AddSessionFloatRule | BuiltinActionKind::ResizeWindowEdge |
        BuiltinActionKind::ResizeWindowEdgeByStep | BuiltinActionKind::EagerFocus => OfferPolicy {
            focus: FocusRequirement::FocusedWindow,
            choices: DynamicChoiceSource::NoChoices,
            current_value: CurrentValueSource::Absent,
        },
        BuiltinActionKind::SetWorkspaceLayout => OfferPolicy {
            focus: FocusRequirement::NoRequirement,
            choices: DynamicChoiceSource::NoChoices,
            current_value: CurrentValueSource::Layout,
        },
        BuiltinActionKind::ToggleWindowFloat => OfferPolicy {
            focus: FocusRequirement::FocusedWindow,
            choices: DynamicChoiceSource::NoChoices,
            current_value: CurrentValueSource::Floating,
        },
        BuiltinActionKind::StackAll | BuiltinActionKind::UnstackAll |
        BuiltinActionKind::FocusWorkspace | BuiltinActionKind::CycleFocusWorkspace |
        BuiltinActionKind::CycleFocusEmptyWorkspace | BuiltinActionKind::FocusLastWorkspace |
        BuiltinActionKind::CloseWorkspace | BuiltinActionKind::FocusMonitor |
        BuiltinActionKind::CycleFocusMonitor | BuiltinActionKind::FocusMonitorAtCursor |
        BuiltinActionKind::FocusWorkspaceOnAllMonitors |
        BuiltinActionKind::FocusMonitorWorkspace | BuiltinActionKind::NewWorkspace |
        BuiltinActionKind::ToggleTiling | BuiltinActionKind::CycleLayout |
        BuiltinActionKind::FlipLayout | BuiltinActionKind::ToggleWorkspaceLayer |
        BuiltinActionKind::MoveWorkspaceToMonitor |
        BuiltinActionKind::CycleMoveWorkspaceToMonitor |
        BuiltinActionKind::SwapWorkspacesToMonitor | BuiltinActionKind::CancelPreselect |
        BuiltinActionKind::Retile | BuiltinActionKind::RetileWithResizeDimensions |
        BuiltinActionKind::ManageFocusedWindow | BuiltinActionKind::AdjustContainerPadding |
        BuiltinActionKind::AdjustWorkspacePadding |
        BuiltinActionKind::ToggleMouseFollowsFocus | BuiltinActionKind::SetMouseFollowsFocus |
        BuiltinActionKind::ToggleWindowContainerBehaviour |
        BuiltinActionKind::ToggleFloatOverride |
        BuiltinActionKind::ToggleWorkspaceWindowContainerBehaviour |
        BuiltinActionKind::ToggleWorkspaceFloatOverride |
        BuiltinActionKind::ToggleCrossMonitorMoveBehaviour |
        BuiltinActionKind::ToggleMonocleFocusBehaviour | BuiltinActionKind::TogglePause |
        BuiltinActionKind::SetFocusedContainerPadding |
        BuiltinActionKind::SetFocusedWorkspacePadding |
        BuiltinActionKind::SetContainerPadding | BuiltinActionKind::SetWorkspacePadding |
        BuiltinActionKind::SetWorkspaceTiling | BuiltinActionKind::SetMonitorWorkspaceLayout |
        BuiltinActionKind::EnsureWorkspaces | BuiltinActionKind::ClearWorkspaceLayoutRules |
        BuiltinActionKind::SetScrollingColumns | BuiltinActionKind::LockContainer |
        BuiltinActionKind::UnlockContainer | BuiltinActionKind::ToggleTitleBars |
        BuiltinActionKind::EnforceWorkspaceRules | BuiltinActionKind::ClearSessionFloatRules |
        BuiltinActionKind::SetWindowHidingBehaviour |
        BuiltinActionKind::SetCrossMonitorMoveBehaviour |
        BuiltinActionKind::SetMonocleFocusBehaviour |
        BuiltinActionKind::SetUnmanagedWindowOperationBehaviour |
        BuiltinActionKind::SetFocusFollowsMouse | BuiltinActionKind::ToggleFocusFollowsMouse |
        BuiltinActionKind::AddWorkspaceLayoutRule | BuiltinActionKind::EnsureNamedWorkspaces |
        BuiltinActionKind::SetWorkspaceName | BuiltinActionKind::SetLayoutRatios |
        BuiltinActionKind::SetCustomLayout | BuiltinActionKind::SetWorkspaceCustomLayout |
        BuiltinActionKind::AddWorkspaceCustomLayoutRule | BuiltinActionKind::RemoveTitleBar |
        BuiltinActionKind::SetResizeStep | BuiltinActionKind::ToggleTransparency |
        BuiltinActionKind::SetBorderEnabled | BuiltinActionKind::SetBorderColour |
        BuiltinActionKind::SetBorderWidth | BuiltinActionKind::SetBorderOffset |
        BuiltinActionKind::SetBorderStyle | BuiltinActionKind::SetBorderImplementation => OfferPolicy {
            focus: FocusRequirement::NoRequirement,
            choices: DynamicChoiceSource::NoChoices,
            current_value: CurrentValueSource::Absent,
        },
        BuiltinActionKind::FocusNamedWorkspace |
        BuiltinActionKind::SetNamedWorkspaceContainerPadding |
        BuiltinActionKind::SetNamedWorkspacePadding |
        BuiltinActionKind::SetNamedWorkspaceTiling |
        BuiltinActionKind::SetNamedWorkspaceLayout |
        BuiltinActionKind::SetNamedWorkspaceCustomLayout |
        BuiltinActionKind::AddNamedWorkspaceLayoutRule |
        BuiltinActionKind::AddNamedWorkspaceCustomLayoutRule |
        BuiltinActionKind::ClearNamedWorkspaceLayoutRules => OfferPolicy {
            focus: FocusRequirement::NoRequirement,
            choices: DynamicChoiceSource::ExistingWorkspaceName,
            current_value: CurrentValueSource::Absent,
        },
        BuiltinActionKind::MoveContainerToNamedWorkspace |
        BuiltinActionKind::SendContainerToNamedWorkspace => OfferPolicy {
            focus: FocusRequirement::FocusedWindow,
            choices: DynamicChoiceSource::ExistingWorkspaceName,
            current_value: CurrentValueSource::Absent,
        },
        BuiltinActionKind::SetTransparencyEnabled => OfferPolicy {
            focus: FocusRequirement::NoRequirement,
            choices: DynamicChoiceSource::NoChoices,
            current_value: CurrentValueSource::TransparencyEnabled,
        },
        BuiltinActionKind::SetTransparencyAlpha => OfferPolicy {
            focus: FocusRequirement::NoRequirement,
            choices: DynamicChoiceSource::NoChoices,
            current_value: CurrentValueSource::TransparencyAlpha,
        },
    }
}

/// What is missing for a focus requirement, if anything.
pub open spec fn focus_gap(snapshot: SnapshotView, focus: FocusRequirement) -> Option<Unavailability> {
    match focus {
        FocusRequirement::NoRequirement => None,
        FocusRequirement::FocusedWindow => if snapshot.2 is None {
            Some(Unavailability::NoFocusedWindow)
        } else {
            None
        },
        FocusRequirement::DirectionalTarget => if snapshot.2 is None {
            Some(Unavailability::NoFocusedWindow)
        } else if snapshot.3.is_empty_set() {
            Some(Unavailability::NoWindowInDirection)
        } else {
            None
        },
    }
}

/// Whether an action of a kind can run on a snapshot under some grants, and
/// if not, the first reason in the order: not granted, paused (pausing itself
/// is exempt), missing focus, no named workspace to choose.
pub open spec fn availability_of(
    snapshot: SnapshotView,
    grants: ActionGrants,
    kind: BuiltinActionKind,
) -> ActionAvailability {
    if !grants.granted(kind) {
        ActionAvailability::Unavailable(Unavailability::Unauthorized)
    } else if kind == BuiltinActionKind::TogglePause {
        ActionAvailability::Available
    } else if snapshot.1 {
        ActionAvailability::Unavailable(Unavailability::ManagerPaused)
    } else if focus_gap(snapshot, policy_of(kind).focus) is Some {
        ActionAvailability::Unavailable(focus_gap(snapshot, policy_of(kind).focus)->0)
    } else if policy_of(kind).choices == DynamicChoiceSource::ExistingWorkspaceName
        && snapshot.7.len() == 0 {
        ActionAvailability::Unavailable(Unavailability::UnknownWorkspace)
    } else {
        ActionAvailability::Available
    }
}

fn focus_availability(snapshot: &ActionSnapshot, focus: FocusRequirement) -> (r: Option<
    Unavailability,
>)
    ensures
        r == focus_gap(snapshot@, focus),
{
    match focus {
        FocusRequirement::NoRequirement => None,
        FocusRequirement::FocusedWindow => if snapshot.focused_window.is_some() {
            None
        } else {
            Some(Unavailability::NoFocusedWindow)
        },
        FocusRequirement::DirectionalTarget => if snapshot.focused_window.is_none() {
            Some(Unavailability::NoFocusedWindow)
        } else if snapshot.directional_targets.is_empty() {
            Some(Unavailability::NoWindowInDirection)
        } else {
            None
        },
    }
}

pub fn availability(
    snapshot: &ActionSnapshot,
    authority: &ActionAuthority,
    kind: BuiltinActionKind,
    policy: OfferPolicy,
) -> (r: ActionAvailability)
    requires
        policy == policy_of(kind),
    ensures
        r == availability_of(snapshot@, authority.grants, kind),
{
    if !authority.grants.contains(kind) {
        return ActionAvailability::Unavailable(Unavailability::Unauthorized);
    }
    if kind == BuiltinActionKind::TogglePause {
        return ActionAvailability::Available;
    }
    if snapshot.paused {
        return ActionAvailability::Unavailable(Unavailability::ManagerPaused);
    }
    if let Some(reason) = focus_availability(snapshot, policy.focus) {
        return ActionAvailability::Unavailable(reason);
    }
    if policy.choices == DynamicChoiceSource::ExistingWorkspaceName
        && snapshot.named_workspaces.len() == 0 {
        return ActionAvailability::Unavailable(Unavailability::UnknownWorkspace);
    }
    ActionAvailability::Available
}

/// The current value an offer reports.
pub open spec fn current_value_of(snapshot: SnapshotView, source: CurrentValueSource) -> Option<
    ActionCurrentValue,
> {
    match source {
        CurrentValueSource::Layout => Some(ActionCurrentValue::Layout(snapshot.4)),
        CurrentValueSource::Floating => Some(ActionCurrentValue::Floating(snapshot.6)),
        CurrentValueSource::TransparencyEnabled => Some(
            ActionCurrentValue::TransparencyEnabled(snapshot.5.transparency.enabled),
        ),
        CurrentValueSource::TransparencyAlpha => Some(
            ActionCurrentValue::TransparencyAlpha(snapshot.5.transparency.alpha),
        ),
        CurrentValueSource::Absent => None,
    }
}

pub fn current_value(snapshot: &ActionSnapshot, source: CurrentValueSource) -> (r: Option<
    ActionCurrentValue,
>)
    ensures
        r == current_value_of(snapshot@, source),
{
    match source {
        CurrentValueSource::Layout => Some(ActionCurrentValue::Layout(snapshot.current_layout)),
        CurrentValueSource::Floating => Some(
            ActionCurrentValue::Floating(snapshot.focused_window_floating),
        ),
        CurrentValueSource::TransparencyEnabled => Some(
            ActionCurrentValue::TransparencyEnabled(snapshot.configuration.transparency.enabled),
        ),
        CurrentValueSource::TransparencyAlpha => Some(
            ActionCurrentValue::TransparencyAlpha(snapshot.configuration.transparency.alpha),
        ),
        CurrentValueSource::Absent => None,
    }
}

/// The names of the targets, as choices, in order.
pub open spec fn name_choices(targets: Seq<NamedWorkspaceTarget>) -> Seq<DynamicParameterChoice> {
    targets.map_values(|t: NamedWorkspaceTarget| DynamicParameterChoice::WorkspaceName(t.name))
}

/// The directions with a neighbour, as choices, in the order left, right, up,
/// down.
pub open spec fn direction_choices(targets: DirectionSet) -> Seq<DynamicParameterChoice> {
    targets.members().map_values(|d: OperationDirection| DynamicParameterChoice::Direction(d))
}

/// The parameter and the live choices a source yields, before empty lists are
/// dropped.
pub open spec fn choices_of(snapshot: SnapshotView, source: DynamicChoiceSource) -> Option<
    (ParameterId, Seq<DynamicParameterChoice>),
> {
    match source {
        DynamicChoiceSource::DirectionalTarget => Some(
            (ParameterId::Direction, direction_choices(snapshot.3)),
        ),
        DynamicChoiceSource::ExistingWorkspaceName => Some(
            (ParameterId::Name, name_choices(snapshot.7)),
        ),
        DynamicChoiceSource::NoChoices => None,
    }
}

/// `r` lists the live choices of a source: one entry when it yields a
/// nonempty list, none otherwise.
pub open spec fn are_dynamic_choices(
    r: Seq<DynamicParameterChoices>,
    snapshot: SnapshotView,
    source: DynamicChoiceSource,
) -> bool {
    match choices_of(snapshot, source) {
        Some((parameter, choices)) => if choices.len() > 0 {
            r.len() == 1 && r[0].parameter == parameter && r[0].choices@ == choices
        } else {
            r.len() == 0
        },
        None => r.len() == 0,
    }
}

fn directional_targets(snapshot: &ActionSnapshot) -> (r: Vec<DynamicParameterChoice>)
    ensures
        r@ == direction_choices(snapshot.directional_targets),
{
    let directions = snapshot.directional_targets.to_vec();
    let mut r: Vec<DynamicParameterChoice> = Vec::new();
    let mut i: usize = 0;
    while i < directions.len()
        invariant
            directions@ == snapshot.directional_targets.members(),
            0 <= i <= directions@.len(),
            r@ == directions@.take(i as int).map_values(
                |d: OperationDirection| DynamicParameterChoice::Direction(d),
            ),
        decreases directions.len() - i,
    {
        r.push(DynamicParameterChoice::Direction(directions[i]));
        i = i + 1;
        proof {
            assert(r@ =~= directions@.take(i as int).map_values(
                |d: OperationDirection| DynamicParameterChoice::Direction(d),
            ));
        }
    }
    proof {
        assert(directions@.take(i as int) =~= directions@);
    }
    r
}

fn workspace_name_choices(snapshot: &ActionSnapshot) -> (r: Vec<DynamicParameterChoice>)
    ensures
        r@ == name_choices(snapshot.named_workspaces@),
{
    let targets = &snapshot.named_workspaces;
    let mut r: Vec<DynamicParameterChoice> = Vec::new();
    let mut i: usize = 0;
    while i < targets.len()
        invariant
            0 <= i <= targets@.len(),
            r@ == name_choices(targets@.take(i as int)),
        decreases targets.len() - i,
    {
        r.push(DynamicParameterChoice::WorkspaceName(targets[i].name.duplicate()));
        i = i + 1;
        proof {
            assert(r@ =~= name_choices(targets@.take(i as int)));
        }
    }
    proof {
        assert(targets@.take(i as int) =~= targets@);
    }
    r
}

pub fn dynamic_choices(snapshot: &ActionSnapshot, source: DynamicChoiceSource) -> (r: Vec<
    DynamicParameterChoices,
>)
    ensures
        are_dynamic_choices(r@, snapshot@, source),
{
    let choices = match source {
        DynamicChoiceSource::DirectionalTarget => DynamicParameterChoices {
            parameter: ParameterId::DIRECTION,
            choices: directional_targets(snapshot),
        },
        DynamicChoiceSource::ExistingWorkspaceName => DynamicParameterChoices {
            parameter: ParameterId::NAME,
            choices: workspace_name_choices(snapshot),
        },
        DynamicChoiceSource::NoChoices => {
            return Vec::new();
        },
    };
    if choices.choices.len() == 0 {
        return Vec::new();
    }
    let mut r: Vec<DynamicParameterChoices> = Vec::new();
    r.push(choices);
    r
}

/// The bindings of one action, in order.
pub open spec fn bindings_for(hints: Seq<BindingHint>, action: ActionId) -> Seq<BindingHint>
    decreases hints.len(),
{
    if hints.len() == 0 {
        Seq::empty()
    } else if hints.last().action == action {
        bindings_for(hints.drop_last(), action).push(hints.last())
    } else {
        bindings_for(hints.drop_last(), action)
    }
}

fn action_bindings(snapshot: &ActionSnapshot, action: ActionId) -> (r: Vec<BindingHint>)
    ensures
        r@ == bindings_for(snapshot.bindings@, action),
{
    let hints = &snapshot.bindings;
    let mut r: Vec<BindingHint> = Vec::new();
    let mut i: usize = 0;
    while i < hints.len()
        invariant
            0 <= i <= hints@.len(),
            r@ == bindings_for(hints@.take(i as int), action),
        decreases hints.len() - i,
    {
        proof {
            assert(hints@.take(i + 1).drop_last() =~= hints@.take(i as int));
        }
        if hints[i].action == action {
            r.push(hints[i].duplicate());
        }
        i = i + 1;
    }
    proof {
        assert(hints@.take(i as int) =~= hints@);
    }
    r
}

/// An action as the catalog offers it.
#[derive(Clone, Debug)]
pub struct ActionOffer {
    pub definition: ActionDefinition,
    pub state: StateStamp,
    pub availability: ActionAvailability,
    pub current_value: Option<ActionCurrentValue>,
    pub dynamic_choices: Vec<DynamicParameterChoices>,
    pub bindings: Vec<BindingHint>,
}

/// `o` is the offer of `kind` on `snapshot` under `grants`.
pub open spec fn is_offer_of(
    o: ActionOffer,
    snapshot: SnapshotView,
    grants: ActionGrants,
    kind: BuiltinActionKind,
) -> bool {
    &&& is_definition_of(o.definition, kind)
    &&& o.state == snapshot.0
    &&& o.availability == availability_of(snapshot, grants, kind)
    &&& o.current_value == current_value_of(snapshot, policy_of(kind).current_value)
    &&& are_dynamic_choices(o.dynamic_choices@, snapshot, policy_of(kind).choices)
    &&& o.bindings@ == bindings_for(snapshot.8, kind.id_spec())
}

fn offer_kind(snapshot: &ActionSnapshot, authority: &ActionAuthority, kind: BuiltinActionKind) -> (o:
    ActionOffer)
    ensures
        is_offer_of(o, snapshot@, authority.grants, kind),
{
    let definition = kind.definition();
    let policy = policy(kind);
    let bindings = action_bindings(snapshot, definition.id);
    ActionOffer {
        definition,
        state: snapshot.state,
        availability: availability(snapshot, authority, kind, policy),
        current_value: current_value(snapshot, policy.current_value),
        dynamic_choices: dynamic_choices(snapshot, policy.choices),
        bindings,
    }
}

/// One offer for every built-in action, in the order of
/// `BuiltinActionKind::all`.
pub fn offers(snapshot: &ActionSnapshot, authority: &ActionAuthority) -> (r: Vec<ActionOffer>)
    ensures
        r@.len() == BuiltinActionKind::all_spec().len(),
        forall|i: int|
            0 <= i < r@.len() ==> is_offer_of(
                #[trigger] r@[i],
                snapshot@,
                authority.grants,
                BuiltinActionKind::all_spec()[i],
            ),
{
    let kinds = BuiltinActionKind::all();
    let mut r: Vec<ActionOffer> = Vec::new();
    let mut i: usize = 0;
    while i < kinds.len()
        invariant
            kinds@ == BuiltinActionKind::all_spec(),
            0 <= i <= kinds@.len(),
            r@.len() == i,
            forall|j: int|
                0 <= j < i ==> is_offer_of(#[trigger] r@[j], snapshot@, authority.grants, kinds@[j]),
        decreases kinds.len() - i,
    {
        r.push(offer_kind(snapshot, authority, kinds[i]));
        i = i + 1;
    }
    r
}

/// Whether the focused window has a neighbour in a direction.
pub fn neighbor_in(snapshot: &ActionSnapshot, direction: OperationDirection) -> (r: bool)
    ensures
        r == snapshot.directional_targets.has(direction),
{
    snapshot.directional_targets.contains(direction)
}

/// The stable name of the snapshot's current layout.
pub fn current_layout_name(snapshot: &ActionSnapshot) -> (r: &'static str)
    ensures
        r@ == layout_name_spec(snapshot.current_layout),
{
    layout_name(snapshot.current_layout)
}

/// A paused manager keeps every granted action on offer, explained as paused,
/// except pausing itself, which stays available.
pub proof fn lemma_paused_manager_explains_its_offers(
    snapshot: SnapshotView,
    grants: ActionGrants,
    kind: BuiltinActionKind,
)
    requires
        snapshot.1,
        grants.granted(kind),
    ensures
        kind == BuiltinActionKind::TogglePause ==> availability_of(snapshot, grants, kind)
            == ActionAvailability::Available,
        kind != BuiltinActionKind::TogglePause ==> availability_of(snapshot, grants, kind)
            == ActionAvailability::Unavailable(Unavailability::ManagerPaused),
{
}

/// An action that was not granted is offered as unauthorized, whatever the
/// state of the manager.
pub proof fn lemma_ungranted_actions_are_unauthorized(
    snapshot: SnapshotView,
    grants: ActionGrants,
    kind: BuiltinActionKind,
)
    requires
        !grants.granted(kind),
    ensures
        availability_of(snapshot, grants, kind) == ActionAvailability::Unavailable(
            Unavailability::Unauthorized,
        ),
{
}

/// The action declares a parameter with this identifier and domain.
pub open spec fn declares_parameter(
    kind: BuiltinActionKind,
    id: ParameterId,
    domain: ParameterDomain,
) -> bool {
    exists|i: int|
        0 <= i < parameters_of(kind).len() && #[trigger] parameters_of(kind)[i].id == id
            && parameters_of(kind)[i].domain == domain
}

/// Every live choice an offer lists belongs to a parameter that the action's
/// definition declares, with the domain of that choice: directions to a
/// direction parameter, workspace names to a name parameter.
pub proof fn lemma_dynamic_choices_match_declared_domains(kind: BuiltinActionKind)
    ensures
        policy_of(kind).choices == DynamicChoiceSource::DirectionalTarget ==> declares_parameter(
            kind,
            ParameterId::Direction,
            ParameterDomain::Direction,
        ),
        policy_of(kind).choices == DynamicChoiceSource::ExistingWorkspaceName
            ==> declares_parameter(kind, ParameterId::Name, ParameterDomain::Name),
{
    match kind {
        BuiltinActionKind::FocusWindow => assert(parameters_of(kind)[0].id == ParameterId::Direction),
        BuiltinActionKind::MoveWindow => assert(parameters_of(kind)[0].id == ParameterId::Direction),
        BuiltinActionKind::PromoteWindow => assert(parameters_of(kind)[0].id == ParameterId::Direction),
        BuiltinActionKind::FocusNamedWorkspace => assert(parameters_of(kind)[0].id == ParameterId::Name),
        BuiltinActionKind::MoveContainerToNamedWorkspace => assert(parameters_of(kind)[0].id == ParameterId::Name),
        BuiltinActionKind::SendContainerToNamedWorkspace => assert(parameters_of(kind)[0].id == ParameterId::Name),
        BuiltinActionKind::SetNamedWorkspaceContainerPadding => assert(parameters_of(kind)[0].id == ParameterId::Name),
        BuiltinActionKind::SetNamedWorkspacePadding => assert(parameters_of(kind)[0].id == ParameterId::Name),
        BuiltinActionKind::SetNamedWorkspaceTiling => assert(parameters_of(kind)[0].id == ParameterId::Name),
        BuiltinActionKind::SetNamedWorkspaceLayout => assert(parameters_of(kind)[0].id == ParameterId::Name),
        BuiltinActionKind::SetNamedWorkspaceCustomLayout => assert(parameters_of(kind)[0].id == ParameterId::Name),
        BuiltinActionKind::AddNamedWorkspaceLayoutRule => assert(parameters_of(kind)[0].id == ParameterId::Name),
        BuiltinActionKind::AddNamedWorkspaceCustomLayoutRule => assert(parameters_of(kind)[0].id == ParameterId::Name),
        BuiltinActionKind::ClearNamedWorkspaceLayoutRules => assert(parameters_of(kind)[0].id == ParameterId::Name),
        _ => {},
    }
}


/// Whether an action of a kind takes a window to act on.
pub open spec fn takes_window_selector(kind: BuiltinActionKind) -> bool {
    exists|i: int|
        0 <= i < parameters_of(kind).len() && (#[trigger] parameters_of(kind)[i]).domain
            == ParameterDomain::WindowSelector
}

/// An action on a chosen window needs a focused window: where none is
/// focused, it is offered as unavailable for that reason (once it is granted
/// and the manager runs).
pub proof fn lemma_window_actions_need_a_focused_window(
    snapshot: SnapshotView,
    grants: ActionGrants,
    kind: BuiltinActionKind,
)
    requires
        takes_window_selector(kind),
    ensures
        policy_of(kind).focus != FocusRequirement::NoRequirement,
        grants.granted(kind) && !snapshot.1 && snapshot.2 is None ==> availability_of(
            snapshot,
            grants,
            kind,
        ) == ActionAvailability::Unavailable(Unavailability::NoFocusedWindow),
{
    let i = choose|i: int|
        0 <= i < parameters_of(kind).len() && (#[trigger] parameters_of(kind)[i]).domain
            == ParameterDomain::WindowSelector;
    assert(parameters_of(kind)[i].domain == ParameterDomain::WindowSelector);
}

/// Moving or sending the focused container, to an addressed or a named
/// workspace or to a monitor, needs a focused window: where none is focused,
/// the action is offered as unavailable for that reason.
pub proof fn lemma_container_transfers_need_a_focused_window(
    snapshot: SnapshotView,
    grants: ActionGrants,
    action: BuiltinAction,
)
    requires
        action_transfer(action) is Some || workspace_operation(action) == Some(
            WorkspaceOperation::MoveContainer,
        ) || workspace_operation(action) == Some(WorkspaceOperation::SendContainer),
    ensures
        policy_of(action.kind_spec()).focus != FocusRequirement::NoRequirement,
        grants.granted(action.kind_spec()) && !snapshot.1 && snapshot.2 is None ==> availability_of(
            snapshot,
            grants,
            action.kind_spec(),
        ) == ActionAvailability::Unavailable(Unavailability::NoFocusedWindow),
{
}


/// An action that chooses a workspace by its name offers the names of the
/// existing workspaces as its choices, and no other action does; an action on
/// the neighbour in a direction needs such a neighbour and offers the
/// directions that have one.
pub proof fn lemma_choices_follow_what_the_action_chooses(action: BuiltinAction)
    ensures
        named_workspace(action) is Some <==> policy_of(action.kind_spec()).choices
            == DynamicChoiceSource::ExistingWorkspaceName,
        action is FocusWindow || action is MoveWindow || action is PromoteWindow ==> policy_of(
            action.kind_spec(),
        ).focus == FocusRequirement::DirectionalTarget && policy_of(action.kind_spec()).choices
            == DynamicChoiceSource::DirectionalTarget,
{
}

/// An offer reports as its current value the value its action sets: the
/// layout, the floating of the focused window, transparency on or off, and
/// the transparency alpha; every other offer reports none.
pub proof fn lemma_offers_report_the_value_they_set(kind: BuiltinActionKind)
    ensures
        (policy_of(kind).current_value == CurrentValueSource::Layout) == (kind
            == BuiltinActionKind::SetWorkspaceLayout),
        (policy_of(kind).current_value == CurrentValueSource::Floating) == (kind
            == BuiltinActionKind::ToggleWindowFloat),
        (policy_of(kind).current_value == CurrentValueSource::TransparencyEnabled) == (kind
            == BuiltinActionKind::SetTransparencyEnabled),
        (policy_of(kind).current_value == CurrentValueSource::TransparencyAlpha) == (kind
            == BuiltinActionKind::SetTransparencyAlpha),
{
}

} // verus!
