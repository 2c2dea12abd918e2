//! The closed set of built-in actions and the argument types they carry.

use vstd::prelude::*;
use crate::action::id::ActionId;
use crate::action::id::lemma_action_id_texts_distinct;
use crate::action::index::ContainerIndex;
use crate::action::index::MonitorIndex;
use crate::action::index::StackIndex;
use crate::action::index::WorkspaceIndex;
use crate::action::path::WindowsPath;
use crate::border_geometry::BorderOffset;
use crate::border_geometry::BorderWidth;
use crate::manager_types::ApplicationIdentifier;
use crate::manager_types::Axis;
use crate::manager_types::BorderImplementation;
use crate::manager_types::BorderStyle;
use crate::manager_types::CycleDirection;
use crate::manager_types::DefaultLayout;
use crate::manager_types::FocusFollowsMouseImplementation;
use crate::manager_types::HidingBehaviour;
use crate::manager_types::MonocleFocusBehaviour;
use crate::manager_types::MoveBehaviour;
use crate::manager_types::OperationBehaviour;
use crate::manager_types::OperationDirection;
use crate::manager_types::Rgb;
use crate::manager_types::Sizing;
use crate::manager_types::WindowKind;
use crate::resize_step::ResizeStep;
use crate::transparency_alpha::TransparencyAlpha;

verus! {

#[derive(Clone, Copy, Debug, PartialEq, Eq, Hash, Structural)]
pub enum WorkspaceSelector {
    FocusedAtExecution,
}

#[derive(Clone, Copy, Debug, PartialEq, Eq, Hash, Structural)]
pub enum WindowSelector {
    FocusedAtExecution,
}

/// A nonzero signed pixel delta.
#[derive(Clone, Copy, Debug, PartialEq, Eq, Hash, Structural)]
pub struct Pixels {
    value: i32,
}

#[derive(Clone, Copy, Debug, PartialEq, Eq, Structural)]
pub enum PixelsError {
    Zero,
}

impl Pixels {
    pub closed spec fn amount(self) -> i32 {
        self.value
    }

    /// The delta of `amount` pixels; meaningful only for a nonzero amount.
    pub closed spec fn of_amount(amount: i32) -> Pixels {
        Pixels { value: amount }
    }

    pub proof fn lemma_amount_of(amount: i32)
        ensures
            Self::of_amount(amount).amount() == amount,
    {
    }

    #[verifier::type_invariant]
    closed spec fn nonzero(self) -> bool {
        self.value != 0
    }

    /// Accepts exactly the nonzero deltas.
    pub fn new(value: i32) -> (r: Result<Self, PixelsError>)
        ensures
            value == 0 <==> r == Err::<Self, PixelsError>(PixelsError::Zero),
            value != 0 ==> r == Ok::<Self, PixelsError>(Self::of_amount(value)),
    {
        if value == 0 {
            return Err(PixelsError::Zero);
        }
        Ok(Pixels { value })
    }

    pub fn get(self) -> (r: i32)
        ensures
            r == self.amount(),
            r != 0,
    {
        proof {
            use_type_invariant(self);
        }
        self.value
    }

    /// The configured resize step, as a growth or a shrink.
    pub fn from_resize_step(step: ResizeStep, sizing: Sizing) -> (r: Self)
        ensures
            r == resize_step_delta(step, sizing),
    {
        match sizing {
            Sizing::Increase => Pixels { value: step.get() },
            Sizing::Decrease => Pixels { value: step.negative() },
        }
    }
}

/// The signed delta of one configured resize step.
pub open spec fn resize_step_delta(step: ResizeStep, sizing: Sizing) -> Pixels {
    match sizing {
        Sizing::Increase => Pixels::of_amount(step.pixels() as i32),
        Sizing::Decrease => Pixels::of_amount((-step.pixels()) as i32),
    }
}

/// A nonempty workspace name.
#[derive(Clone, Debug, PartialEq, Eq, Hash)]
pub struct WorkspaceName {
    name: String,
}

#[derive(Clone, Copy, Debug, PartialEq, Eq, Structural)]
pub enum WorkspaceNameError {
    Empty,
}

impl WorkspaceName {
    pub closed spec fn text(&self) -> Seq<char> {
        self.name@
    }

    pub fn parse(raw: &str) -> (r: Result<Self, WorkspaceNameError>)
        ensures
            raw@.len() == 0 ==> r == Err::<Self, WorkspaceNameError>(WorkspaceNameError::Empty),
            raw@.len() != 0 ==> (r matches Ok(name) && name.text() == raw@),
    {
        if raw.is_empty() {
            return Err(WorkspaceNameError::Empty);
        }
        Ok(WorkspaceName { name: raw.to_owned() })
    }

    /// The name that holds exactly this text; meaningful for nonempty text.
    pub closed spec fn of_string(name: String) -> WorkspaceName {
        WorkspaceName { name }
    }

    pub proof fn lemma_text_of_string(name: String)
        ensures
            Self::of_string(name).text() == name@,
    {
    }

    /// Accepts exactly the nonempty texts, keeping the text itself.
    pub fn from_string(raw: String) -> (r: Result<Self, WorkspaceNameError>)
        ensures
            raw@.len() == 0 ==> r == Err::<Self, WorkspaceNameError>(WorkspaceNameError::Empty),
            raw@.len() != 0 ==> r == Ok::<Self, WorkspaceNameError>(Self::of_string(raw)),
    {
        if raw.as_str().is_empty() {
            return Err(WorkspaceNameError::Empty);
        }
        Ok(WorkspaceName { name: raw })
    }

    pub fn as_str(&self) -> (r: &str)
        ensures
            r@ == self.text(),
    {
        self.name.as_str()
    }

    pub fn into_string(self) -> (r: String)
        ensures
            r@ == self.text(),
    {
        self.name
    }

    pub fn duplicate(&self) -> (r: Self)
        ensures
            r == *self,
    {
        WorkspaceName { name: self.name.clone() }
    }

    pub fn same(&self, other: &Self) -> (r: bool)
        ensures
            r == (self.text() == other.text()),
    {
        self.name == other.name
    }
}

pub open spec fn names_text(names: Seq<WorkspaceName>) -> Seq<Seq<char>> {
    names.map_values(|n: WorkspaceName| n.text())
}

/// Two lists of names that hold the same texts in the same order.
#[verifier::opaque]
pub open spec fn same_name_lists(a: Seq<WorkspaceName>, b: Seq<WorkspaceName>) -> bool {
    names_text(a) == names_text(b)
}

pub fn same_names(a: &Vec<WorkspaceName>, b: &Vec<WorkspaceName>) -> (r: bool)
    ensures
        r == same_name_lists(a@, b@),
{
    reveal(same_name_lists);
    if a.len() != b.len() {
        proof {
            assert(names_text(a@).len() != names_text(b@).len());
        }
        return false;
    }
    let mut i: usize = 0;
    while i < a.len()
        invariant
            a@.len() == b@.len(),
            0 <= i <= a@.len(),
            forall|j: int| 0 <= j < i ==> a@[j].text() == b@[j].text(),
        decreases a.len() - i,
    {
        if !a[i].same(&b[i]) {
            proof {
                reveal(same_name_lists);
                assert(names_text(a@)[i as int] != names_text(b@)[i as int]);
            }
            return false;
        }
        i = i + 1;
    }
    proof {
        assert(names_text(a@) =~= names_text(b@));
    }
    true
}

pub fn duplicate_names(a: &Vec<WorkspaceName>) -> (r: Vec<WorkspaceName>)
    ensures
        r@ == a@,
{
    let mut r: Vec<WorkspaceName> = Vec::new();
    let mut i: usize = 0;
    while i < a.len()
        invariant
            0 <= i <= a@.len(),
            r@ == a@.take(i as int),
        decreases a.len() - i,
    {
        r.push(a[i].duplicate());
        i = i + 1;
        proof {
            assert(r@ =~= a@.take(i as int));
        }
    }
    proof {
        assert(a@.take(i as int) =~= a@);
    }
    r
}

/// A layout ratio in millionths of a millionth of a millionth: `units / 10^18`.
#[derive(Clone, Copy, Debug, PartialEq, Eq, Hash, Structural)]
pub struct LayoutRatio {
    pub units: u64,
}

#[verifier::opaque]
pub open spec fn same_ratios(a: Option<Vec<LayoutRatio>>, b: Option<Vec<LayoutRatio>>) -> bool {
    match (a, b) {
        (Some(x), Some(y)) => x@ == y@,
        (None, None) => true,
        _ => false,
    }
}

fn same_ratio_vec(a: &Vec<LayoutRatio>, b: &Vec<LayoutRatio>) -> (r: bool)
    ensures
        r == (a@ == b@),
{
    if a.len() != b.len() {
        return false;
    }
    let mut i: usize = 0;
    while i < a.len()
        invariant
            a@.len() == b@.len(),
            0 <= i <= a@.len(),
            forall|j: int| 0 <= j < i ==> a@[j] == b@[j],
        decreases a.len() - i,
    {
        if a[i] != b[i] {
            return false;
        }
        i = i + 1;
    }
    proof {
        assert(a@ =~= b@);
    }
    true
}

pub fn same_ratio_lists(a: &Option<Vec<LayoutRatio>>, b: &Option<Vec<LayoutRatio>>) -> (r: bool)
    ensures
        r == same_ratios(*a, *b),
{
    reveal(same_ratios);
    match (a, b) {
        (Some(x), Some(y)) => same_ratio_vec(x, y),
        (None, None) => true,
        _ => false,
    }
}

pub fn duplicate_ratio_vec(a: &Vec<LayoutRatio>) -> (r: Vec<LayoutRatio>)
    ensures
        r@ == a@,
{
    let mut r: Vec<LayoutRatio> = Vec::new();
    let mut i: usize = 0;
    while i < a.len()
        invariant
            0 <= i <= a@.len(),
            r@ == a@.take(i as int),
        decreases a.len() - i,
    {
        r.push(a[i]);
        i = i + 1;
        proof {
            assert(r@ =~= a@.take(i as int));
        }
    }
    proof {
        assert(a@.take(i as int) =~= a@);
    }
    r
}

pub fn duplicate_ratio_lists(a: &Option<Vec<LayoutRatio>>) -> (r: Option<Vec<LayoutRatio>>)
    ensures
        same_ratios(*a, r),
{
    reveal(same_ratios);
    match a {
        Some(x) => Some(duplicate_ratio_vec(x)),
        None => None,
    }
}

/// The kinds of built-in action, one per action definition.
#[derive(Clone, Copy, Debug, PartialEq, Eq, Hash, Structural)]
pub enum BuiltinActionKind {
    FocusWindow,
    MoveWindow,
    ResizeWindow,
    ResizeWindowByStep,
    SetWorkspaceLayout,
    ToggleWindowFloat,
    CycleFocusWindow,
    CycleMoveWindow,
    ToggleWindowMonocle,
    ToggleWindowMaximize,
    ToggleContainerLock,
    StackWindow,
    UnstackWindow,
    StackAll,
    UnstackAll,
    CycleStack,
    CycleStackIndex,
    FocusStackWindow,
    FocusWorkspace,
    CycleFocusWorkspace,
    CycleFocusEmptyWorkspace,
    FocusLastWorkspace,
    CloseWorkspace,
    FocusMonitor,
    CycleFocusMonitor,
    FocusMonitorAtCursor,
    FocusWorkspaceOnAllMonitors,
    FocusMonitorWorkspace,
    CloseWindow,
    MinimizeWindow,
    ForceFocus,
    PromoteContainer,
    PromoteContainerSwap,
    PromoteFocus,
    PromoteWindow,
    NewWorkspace,
    ToggleTiling,
    CycleLayout,
    FlipLayout,
    ToggleWorkspaceLayer,
    MoveContainerToLastWorkspace,
    SendContainerToLastWorkspace,
    MoveContainerToWorkspace,
    CycleMoveContainerToWorkspace,
    SendContainerToWorkspace,
    CycleSendContainerToWorkspace,
    MoveContainerToMonitor,
    CycleMoveContainerToMonitor,
    SendContainerToMonitor,
    CycleSendContainerToMonitor,
    MoveContainerToMonitorWorkspace,
    SendContainerToMonitorWorkspace,
    MoveWorkspaceToMonitor,
    CycleMoveWorkspaceToMonitor,
    SwapWorkspacesToMonitor,
    PreselectDirection,
    CancelPreselect,
    Retile,
    RetileWithResizeDimensions,
    ManageFocusedWindow,
    UnmanageFocusedWindow,
    AdjustContainerPadding,
    AdjustWorkspacePadding,
    ToggleMouseFollowsFocus,
    SetMouseFollowsFocus,
    ToggleWindowContainerBehaviour,
    ToggleFloatOverride,
    ToggleWorkspaceWindowContainerBehaviour,
    ToggleWorkspaceFloatOverride,
    ToggleCrossMonitorMoveBehaviour,
    ToggleMonocleFocusBehaviour,
    TogglePause,
    SetFocusedContainerPadding,
    SetFocusedWorkspacePadding,
    SetContainerPadding,
    SetWorkspacePadding,
    SetWorkspaceTiling,
    SetMonitorWorkspaceLayout,
    EnsureWorkspaces,
    ClearWorkspaceLayoutRules,
    SetScrollingColumns,
    LockContainer,
    UnlockContainer,
    ToggleTitleBars,
    EnforceWorkspaceRules,
    AddSessionFloatRule,
    ClearSessionFloatRules,
    ResizeWindowEdge,
    ResizeWindowEdgeByStep,
    SetWindowHidingBehaviour,
    SetCrossMonitorMoveBehaviour,
    SetMonocleFocusBehaviour,
    SetUnmanagedWindowOperationBehaviour,
    SetFocusFollowsMouse,
    ToggleFocusFollowsMouse,
    AddWorkspaceLayoutRule,
    FocusNamedWorkspace,
    MoveContainerToNamedWorkspace,
    SendContainerToNamedWorkspace,
    SetNamedWorkspaceContainerPadding,
    SetNamedWorkspacePadding,
    SetNamedWorkspaceTiling,
    SetNamedWorkspaceLayout,
    SetNamedWorkspaceCustomLayout,
    AddNamedWorkspaceLayoutRule,
    AddNamedWorkspaceCustomLayoutRule,
    ClearNamedWorkspaceLayoutRules,
    EnsureNamedWorkspaces,
    SetWorkspaceName,
    SetLayoutRatios,
    SetCustomLayout,
    SetWorkspaceCustomLayout,
    AddWorkspaceCustomLayoutRule,
    EagerFocus,
    RemoveTitleBar,
    SetResizeStep,
    SetTransparencyEnabled,
    ToggleTransparency,
    SetTransparencyAlpha,
    SetBorderEnabled,
    SetBorderColour,
    SetBorderWidth,
    SetBorderOffset,
    SetBorderStyle,
    SetBorderImplementation,
}

impl BuiltinActionKind {
    pub open spec fn all_spec() -> Seq<BuiltinActionKind> {
        seq![
            BuiltinActionKind::FocusWindow,
            BuiltinActionKind::MoveWindow,
            BuiltinActionKind::ResizeWindow,
            BuiltinActionKind::ResizeWindowByStep,
            BuiltinActionKind::SetWorkspaceLayout,
            BuiltinActionKind::ToggleWindowFloat,
            BuiltinActionKind::CycleFocusWindow,
            BuiltinActionKind::CycleMoveWindow,
            BuiltinActionKind::ToggleWindowMonocle,
            BuiltinActionKind::ToggleWindowMaximize,
            BuiltinActionKind::ToggleContainerLock,
            BuiltinActionKind::StackWindow,
            BuiltinActionKind::UnstackWindow,
            BuiltinActionKind::StackAll,
            BuiltinActionKind::UnstackAll,
            BuiltinActionKind::CycleStack,
            BuiltinActionKind::CycleStackIndex,
            BuiltinActionKind::FocusStackWindow,
            BuiltinActionKind::FocusWorkspace,
            BuiltinActionKind::CycleFocusWorkspace,
            BuiltinActionKind::CycleFocusEmptyWorkspace,
            BuiltinActionKind::FocusLastWorkspace,
            BuiltinActionKind::CloseWorkspace,
            BuiltinActionKind::FocusMonitor,
            BuiltinActionKind::CycleFocusMonitor,
            BuiltinActionKind::FocusMonitorAtCursor,
            BuiltinActionKind::FocusWorkspaceOnAllMonitors,
            BuiltinActionKind::FocusMonitorWorkspace,
            BuiltinActionKind::CloseWindow,
            BuiltinActionKind::MinimizeWindow,
            BuiltinActionKind::ForceFocus,
            BuiltinActionKind::PromoteContainer,
            BuiltinActionKind::PromoteContainerSwap,
            BuiltinActionKind::PromoteFocus,
            BuiltinActionKind::PromoteWindow,
            BuiltinActionKind::NewWorkspace,
            BuiltinActionKind::ToggleTiling,
            BuiltinActionKind::CycleLayout,
            BuiltinActionKind::FlipLayout,
            BuiltinActionKind::ToggleWorkspaceLayer,
            BuiltinActionKind::MoveContainerToLastWorkspace,
            BuiltinActionKind::SendContainerToLastWorkspace,
            BuiltinActionKind::MoveContainerToWorkspace,
            BuiltinActionKind::CycleMoveContainerToWorkspace,
            BuiltinActionKind::SendContainerToWorkspace,
            BuiltinActionKind::CycleSendContainerToWorkspace,
            BuiltinActionKind::MoveContainerToMonitor,
            BuiltinActionKind::CycleMoveContainerToMonitor,
            BuiltinActionKind::SendContainerToMonitor,
            BuiltinActionKind::CycleSendContainerToMonitor,
            BuiltinActionKind::MoveContainerToMonitorWorkspace,
            BuiltinActionKind::SendContainerToMonitorWorkspace,
            BuiltinActionKind::MoveWorkspaceToMonitor,
            BuiltinActionKind::CycleMoveWorkspaceToMonitor,
            BuiltinActionKind::SwapWorkspacesToMonitor,
            BuiltinActionKind::PreselectDirection,
            BuiltinActionKind::CancelPreselect,
            BuiltinActionKind::Retile,
            BuiltinActionKind::RetileWithResizeDimensions,
            BuiltinActionKind::ManageFocusedWindow,
            BuiltinActionKind::UnmanageFocusedWindow,
            BuiltinActionKind::AdjustContainerPadding,
            BuiltinActionKind::AdjustWorkspacePadding,
            BuiltinActionKind::ToggleMouseFollowsFocus,
            BuiltinActionKind::SetMouseFollowsFocus,
            BuiltinActionKind::ToggleWindowContainerBehaviour,
            BuiltinActionKind::ToggleFloatOverride,
            BuiltinActionKind::ToggleWorkspaceWindowContainerBehaviour,
            BuiltinActionKind::ToggleWorkspaceFloatOverride,
            BuiltinActionKind::ToggleCrossMonitorMoveBehaviour,
            BuiltinActionKind::ToggleMonocleFocusBehaviour,
            BuiltinActionKind::TogglePause,
            BuiltinActionKind::SetFocusedContainerPadding,
            BuiltinActionKind::SetFocusedWorkspacePadding,
            BuiltinActionKind::SetContainerPadding,
            BuiltinActionKind::SetWorkspacePadding,
            BuiltinActionKind::SetWorkspaceTiling,
            BuiltinActionKind::SetMonitorWorkspaceLayout,
            BuiltinActionKind::EnsureWorkspaces,
            BuiltinActionKind::ClearWorkspaceLayoutRules,
            BuiltinActionKind::SetScrollingColumns,
            BuiltinActionKind::LockContainer,
            BuiltinActionKind::UnlockContainer,
            BuiltinActionKind::ToggleTitleBars,
            BuiltinActionKind::EnforceWorkspaceRules,
            BuiltinActionKind::AddSessionFloatRule,
            BuiltinActionKind::ClearSessionFloatRules,
            BuiltinActionKind::ResizeWindowEdge,
            BuiltinActionKind::ResizeWindowEdgeByStep,
            BuiltinActionKind::SetWindowHidingBehaviour,
            BuiltinActionKind::SetCrossMonitorMoveBehaviour,
            BuiltinActionKind::SetMonocleFocusBehaviour,
            BuiltinActionKind::SetUnmanagedWindowOperationBehaviour,
            BuiltinActionKind::SetFocusFollowsMouse,
            BuiltinActionKind::ToggleFocusFollowsMouse,
            BuiltinActionKind::AddWorkspaceLayoutRule,
            BuiltinActionKind::FocusNamedWorkspace,
            BuiltinActionKind::MoveContainerToNamedWorkspace,
            BuiltinActionKind::SendContainerToNamedWorkspace,
            BuiltinActionKind::SetNamedWorkspaceContainerPadding,
            BuiltinActionKind::SetNamedWorkspacePadding,
            BuiltinActionKind::SetNamedWorkspaceTiling,
            BuiltinActionKind::SetNamedWorkspaceLayout,
            BuiltinActionKind::SetNamedWorkspaceCustomLayout,
            BuiltinActionKind::AddNamedWorkspaceLayoutRule,
            BuiltinActionKind::AddNamedWorkspaceCustomLayoutRule,
            BuiltinActionKind::ClearNamedWorkspaceLayoutRules,
            BuiltinActionKind::EnsureNamedWorkspaces,
            BuiltinActionKind::SetWorkspaceName,
            BuiltinActionKind::SetLayoutRatios,
            BuiltinActionKind::SetCustomLayout,
            BuiltinActionKind::SetWorkspaceCustomLayout,
            BuiltinActionKind::AddWorkspaceCustomLayoutRule,
            BuiltinActionKind::EagerFocus,
            BuiltinActionKind::RemoveTitleBar,
            BuiltinActionKind::SetResizeStep,
            BuiltinActionKind::SetTransparencyEnabled,
            BuiltinActionKind::ToggleTransparency,
            BuiltinActionKind::SetTransparencyAlpha,
            BuiltinActionKind::SetBorderEnabled,
            BuiltinActionKind::SetBorderColour,
            BuiltinActionKind::SetBorderWidth,
            BuiltinActionKind::SetBorderOffset,
            BuiltinActionKind::SetBorderStyle,
            BuiltinActionKind::SetBorderImplementation,
        ]
    }

    /// Every kind, once each, in catalog order.
    /// Every kind is listed in `all_spec`, and the list has no repeats.
    pub proof fn lemma_all_holds(kind: BuiltinActionKind)
        ensures
            Self::all_spec().contains(kind),
            Self::all_spec().len() == 125,
    {
        match kind {
            BuiltinActionKind::FocusWindow => assert(Self::all_spec()[0] == kind),
            BuiltinActionKind::MoveWindow => assert(Self::all_spec()[1] == kind),
            BuiltinActionKind::ResizeWindow => assert(Self::all_spec()[2] == kind),
            BuiltinActionKind::ResizeWindowByStep => assert(Self::all_spec()[3] == kind),
            BuiltinActionKind::SetWorkspaceLayout => assert(Self::all_spec()[4] == kind),
            BuiltinActionKind::ToggleWindowFloat => assert(Self::all_spec()[5] == kind),
            BuiltinActionKind::CycleFocusWindow => assert(Self::all_spec()[6] == kind),
            BuiltinActionKind::CycleMoveWindow => assert(Self::all_spec()[7] == kind),
            BuiltinActionKind::ToggleWindowMonocle => assert(Self::all_spec()[8] == kind),
            BuiltinActionKind::ToggleWindowMaximize => assert(Self::all_spec()[9] == kind),
            BuiltinActionKind::ToggleContainerLock => assert(Self::all_spec()[10] == kind),
            BuiltinActionKind::StackWindow => assert(Self::all_spec()[11] == kind),
            BuiltinActionKind::UnstackWindow => assert(Self::all_spec()[12] == kind),
            BuiltinActionKind::StackAll => assert(Self::all_spec()[13] == kind),
            BuiltinActionKind::UnstackAll => assert(Self::all_spec()[14] == kind),
            BuiltinActionKind::CycleStack => assert(Self::all_spec()[15] == kind),
            BuiltinActionKind::CycleStackIndex => assert(Self::all_spec()[16] == kind),
            BuiltinActionKind::FocusStackWindow => assert(Self::all_spec()[17] == kind),
            BuiltinActionKind::FocusWorkspace => assert(Self::all_spec()[18] == kind),
            BuiltinActionKind::CycleFocusWorkspace => assert(Self::all_spec()[19] == kind),
            BuiltinActionKind::CycleFocusEmptyWorkspace => assert(Self::all_spec()[20] == kind),
            BuiltinActionKind::FocusLastWorkspace => assert(Self::all_spec()[21] == kind),
            BuiltinActionKind::CloseWorkspace => assert(Self::all_spec()[22] == kind),
            BuiltinActionKind::FocusMonitor => assert(Self::all_spec()[23] == kind),
            BuiltinActionKind::CycleFocusMonitor => assert(Self::all_spec()[24] == kind),
            BuiltinActionKind::FocusMonitorAtCursor => assert(Self::all_spec()[25] == kind),
            BuiltinActionKind::FocusWorkspaceOnAllMonitors => assert(Self::all_spec()[26] == kind),
            BuiltinActionKind::FocusMonitorWorkspace => assert(Self::all_spec()[27] == kind),
            BuiltinActionKind::CloseWindow => assert(Self::all_spec()[28] == kind),
            BuiltinActionKind::MinimizeWindow => assert(Self::all_spec()[29] == kind),
            BuiltinActionKind::ForceFocus => assert(Self::all_spec()[30] == kind),
            BuiltinActionKind::PromoteContainer => assert(Self::all_spec()[31] == kind),
            BuiltinActionKind::PromoteContainerSwap => assert(Self::all_spec()[32] == kind),
            BuiltinActionKind::PromoteFocus => assert(Self::all_spec()[33] == kind),
            BuiltinActionKind::PromoteWindow => assert(Self::all_spec()[34] == kind),
            BuiltinActionKind::NewWorkspace => assert(Self::all_spec()[35] == kind),
            BuiltinActionKind::ToggleTiling => assert(Self::all_spec()[36] == kind),
            BuiltinActionKind::CycleLayout => assert(Self::all_spec()[37] == kind),
            BuiltinActionKind::FlipLayout => assert(Self::all_spec()[38] == kind),
            BuiltinActionKind::ToggleWorkspaceLayer => assert(Self::all_spec()[39] == kind),
            BuiltinActionKind::MoveContainerToLastWorkspace => assert(Self::all_spec()[40] == kind),
            BuiltinActionKind::SendContainerToLastWorkspace => assert(Self::all_spec()[41] == kind),
            BuiltinActionKind::MoveContainerToWorkspace => assert(Self::all_spec()[42] == kind),
            BuiltinActionKind::CycleMoveContainerToWorkspace => assert(Self::all_spec()[43] == kind),
            BuiltinActionKind::SendContainerToWorkspace => assert(Self::all_spec()[44] == kind),
            BuiltinActionKind::CycleSendContainerToWorkspace => assert(Self::all_spec()[45] == kind),
            BuiltinActionKind::MoveContainerToMonitor => assert(Self::all_spec()[46] == kind),
            BuiltinActionKind::CycleMoveContainerToMonitor => assert(Self::all_spec()[47] == kind),
            BuiltinActionKind::SendContainerToMonitor => assert(Self::all_spec()[48] == kind),
            BuiltinActionKind::CycleSendContainerToMonitor => assert(Self::all_spec()[49] == kind),
            BuiltinActionKind::MoveContainerToMonitorWorkspace => assert(Self::all_spec()[50] == kind),
            BuiltinActionKind::SendContainerToMonitorWorkspace => assert(Self::all_spec()[51] == kind),
            BuiltinActionKind::MoveWorkspaceToMonitor => assert(Self::all_spec()[52] == kind),
            BuiltinActionKind::CycleMoveWorkspaceToMonitor => assert(Self::all_spec()[53] == kind),
            BuiltinActionKind::SwapWorkspacesToMonitor => assert(Self::all_spec()[54] == kind),
            BuiltinActionKind::PreselectDirection => assert(Self::all_spec()[55] == kind),
            BuiltinActionKind::CancelPreselect => assert(Self::all_spec()[56] == kind),
            BuiltinActionKind::Retile => assert(Self::all_spec()[57] == kind),
            BuiltinActionKind::RetileWithResizeDimensions => assert(Self::all_spec()[58] == kind),
            BuiltinActionKind::ManageFocusedWindow => assert(Self::all_spec()[59] == kind),
            BuiltinActionKind::UnmanageFocusedWindow => assert(Self::all_spec()[60] == kind),
            BuiltinActionKind::AdjustContainerPadding => assert(Self::all_spec()[61] == kind),
            BuiltinActionKind::AdjustWorkspacePadding => assert(Self::all_spec()[62] == kind),
            BuiltinActionKind::ToggleMouseFollowsFocus => assert(Self::all_spec()[63] == kind),
            BuiltinActionKind::SetMouseFollowsFocus => assert(Self::all_spec()[64] == kind),
            BuiltinActionKind::ToggleWindowContainerBehaviour => assert(Self::all_spec()[65] == kind),
            BuiltinActionKind::ToggleFloatOverride => assert(Self::all_spec()[66] == kind),
            BuiltinActionKind::ToggleWorkspaceWindowContainerBehaviour => assert(Self::all_spec()[67] == kind),
            BuiltinActionKind::ToggleWorkspaceFloatOverride => assert(Self::all_spec()[68] == kind),
            BuiltinActionKind::ToggleCrossMonitorMoveBehaviour => assert(Self::all_spec()[69] == kind),
            BuiltinActionKind::ToggleMonocleFocusBehaviour => assert(Self::all_spec()[70] == kind),
            BuiltinActionKind::TogglePause => assert(Self::all_spec()[71] == kind),
            BuiltinActionKind::SetFocusedContainerPadding => assert(Self::all_spec()[72] == kind),
            BuiltinActionKind::SetFocusedWorkspacePadding => assert(Self::all_spec()[73] == kind),
            BuiltinActionKind::SetContainerPadding => assert(Self::all_spec()[74] == kind),
            BuiltinActionKind::SetWorkspacePadding => assert(Self::all_spec()[75] == kind),
            BuiltinActionKind::SetWorkspaceTiling => assert(Self::all_spec()[76] == kind),
            BuiltinActionKind::SetMonitorWorkspaceLayout => assert(Self::all_spec()[77] == kind),
            BuiltinActionKind::EnsureWorkspaces => assert(Self::all_spec()[78] == kind),
            BuiltinActionKind::ClearWorkspaceLayoutRules => assert(Self::all_spec()[79] == kind),
            BuiltinActionKind::SetScrollingColumns => assert(Self::all_spec()[80] == kind),
            BuiltinActionKind::LockContainer => assert(Self::all_spec()[81] == kind),
            BuiltinActionKind::UnlockContainer => assert(Self::all_spec()[82] == kind),
            BuiltinActionKind::ToggleTitleBars => assert(Self::all_spec()[83] == kind),
            BuiltinActionKind::EnforceWorkspaceRules => assert(Self::all_spec()[84] == kind),
            BuiltinActionKind::AddSessionFloatRule => assert(Self::all_spec()[85] == kind),
            BuiltinActionKind::ClearSessionFloatRules => assert(Self::all_spec()[86] == kind),
            BuiltinActionKind::ResizeWindowEdge => assert(Self::all_spec()[87] == kind),
            BuiltinActionKind::ResizeWindowEdgeByStep => assert(Self::all_spec()[88] == kind),
            BuiltinActionKind::SetWindowHidingBehaviour => assert(Self::all_spec()[89] == kind),
            BuiltinActionKind::SetCrossMonitorMoveBehaviour => assert(Self::all_spec()[90] == kind),
            BuiltinActionKind::SetMonocleFocusBehaviour => assert(Self::all_spec()[91] == kind),
            BuiltinActionKind::SetUnmanagedWindowOperationBehaviour => assert(Self::all_spec()[92] == kind),
            BuiltinActionKind::SetFocusFollowsMouse => assert(Self::all_spec()[93] == kind),
            BuiltinActionKind::ToggleFocusFollowsMouse => assert(Self::all_spec()[94] == kind),
            BuiltinActionKind::AddWorkspaceLayoutRule => assert(Self::all_spec()[95] == kind),
            BuiltinActionKind::FocusNamedWorkspace => assert(Self::all_spec()[96] == kind),
            BuiltinActionKind::MoveContainerToNamedWorkspace => assert(Self::all_spec()[97] == kind),
            BuiltinActionKind::SendContainerToNamedWorkspace => assert(Self::all_spec()[98] == kind),
            BuiltinActionKind::SetNamedWorkspaceContainerPadding => assert(Self::all_spec()[99] == kind),
            BuiltinActionKind::SetNamedWorkspacePadding => assert(Self::all_spec()[100] == kind),
            BuiltinActionKind::SetNamedWorkspaceTiling => assert(Self::all_spec()[101] == kind),
            BuiltinActionKind::SetNamedWorkspaceLayout => assert(Self::all_spec()[102] == kind),
            BuiltinActionKind::SetNamedWorkspaceCustomLayout => assert(Self::all_spec()[103] == kind),
            BuiltinActionKind::AddNamedWorkspaceLayoutRule => assert(Self::all_spec()[104] == kind),
            BuiltinActionKind::AddNamedWorkspaceCustomLayoutRule => assert(Self::all_spec()[105] == kind),
            BuiltinActionKind::ClearNamedWorkspaceLayoutRules => assert(Self::all_spec()[106] == kind),
            BuiltinActionKind::EnsureNamedWorkspaces => assert(Self::all_spec()[107] == kind),
            BuiltinActionKind::SetWorkspaceName => assert(Self::all_spec()[108] == kind),
            BuiltinActionKind::SetLayoutRatios => assert(Self::all_spec()[109] == kind),
            BuiltinActionKind::SetCustomLayout => assert(Self::all_spec()[110] == kind),
            BuiltinActionKind::SetWorkspaceCustomLayout => assert(Self::all_spec()[111] == kind),
            BuiltinActionKind::AddWorkspaceCustomLayoutRule => assert(Self::all_spec()[112] == kind),
            BuiltinActionKind::EagerFocus => assert(Self::all_spec()[113] == kind),
            BuiltinActionKind::RemoveTitleBar => assert(Self::all_spec()[114] == kind),
            BuiltinActionKind::SetResizeStep => assert(Self::all_spec()[115] == kind),
            BuiltinActionKind::SetTransparencyEnabled => assert(Self::all_spec()[116] == kind),
            BuiltinActionKind::ToggleTransparency => assert(Self::all_spec()[117] == kind),
            BuiltinActionKind::SetTransparencyAlpha => assert(Self::all_spec()[118] == kind),
            BuiltinActionKind::SetBorderEnabled => assert(Self::all_spec()[119] == kind),
            BuiltinActionKind::SetBorderColour => assert(Self::all_spec()[120] == kind),
            BuiltinActionKind::SetBorderWidth => assert(Self::all_spec()[121] == kind),
            BuiltinActionKind::SetBorderOffset => assert(Self::all_spec()[122] == kind),
            BuiltinActionKind::SetBorderStyle => assert(Self::all_spec()[123] == kind),
            BuiltinActionKind::SetBorderImplementation => assert(Self::all_spec()[124] == kind),
        }
    }

    pub fn all() -> (v: Vec<BuiltinActionKind>)
        ensures
            v@ == Self::all_spec(),
    {
        vec![
            BuiltinActionKind::FocusWindow,
            BuiltinActionKind::MoveWindow,
            BuiltinActionKind::ResizeWindow,
            BuiltinActionKind::ResizeWindowByStep,
            BuiltinActionKind::SetWorkspaceLayout,
            BuiltinActionKind::ToggleWindowFloat,
            BuiltinActionKind::CycleFocusWindow,
            BuiltinActionKind::CycleMoveWindow,
            BuiltinActionKind::ToggleWindowMonocle,
            BuiltinActionKind::ToggleWindowMaximize,
            BuiltinActionKind::ToggleContainerLock,
            BuiltinActionKind::StackWindow,
            BuiltinActionKind::UnstackWindow,
            BuiltinActionKind::StackAll,
            BuiltinActionKind::UnstackAll,
            BuiltinActionKind::CycleStack,
            BuiltinActionKind::CycleStackIndex,
            BuiltinActionKind::FocusStackWindow,
            BuiltinActionKind::FocusWorkspace,
            BuiltinActionKind::CycleFocusWorkspace,
            BuiltinActionKind::CycleFocusEmptyWorkspace,
            BuiltinActionKind::FocusLastWorkspace,
            BuiltinActionKind::CloseWorkspace,
            BuiltinActionKind::FocusMonitor,
            BuiltinActionKind::CycleFocusMonitor,
            BuiltinActionKind::FocusMonitorAtCursor,
            BuiltinActionKind::FocusWorkspaceOnAllMonitors,
            BuiltinActionKind::FocusMonitorWorkspace,
            BuiltinActionKind::CloseWindow,
            BuiltinActionKind::MinimizeWindow,
            BuiltinActionKind::ForceFocus,
            BuiltinActionKind::PromoteContainer,
            BuiltinActionKind::PromoteContainerSwap,
            BuiltinActionKind::PromoteFocus,
            BuiltinActionKind::PromoteWindow,
            BuiltinActionKind::NewWorkspace,
            BuiltinActionKind::ToggleTiling,
            BuiltinActionKind::CycleLayout,
            BuiltinActionKind::FlipLayout,
            BuiltinActionKind::ToggleWorkspaceLayer,
            BuiltinActionKind::MoveContainerToLastWorkspace,
            BuiltinActionKind::SendContainerToLastWorkspace,
            BuiltinActionKind::MoveContainerToWorkspace,
            BuiltinActionKind::CycleMoveContainerToWorkspace,
            BuiltinActionKind::SendContainerToWorkspace,
            BuiltinActionKind::CycleSendContainerToWorkspace,
            BuiltinActionKind::MoveContainerToMonitor,
            BuiltinActionKind::CycleMoveContainerToMonitor,
            BuiltinActionKind::SendContainerToMonitor,
            BuiltinActionKind::CycleSendContainerToMonitor,
            BuiltinActionKind::MoveContainerToMonitorWorkspace,
            BuiltinActionKind::SendContainerToMonitorWorkspace,
            BuiltinActionKind::MoveWorkspaceToMonitor,
            BuiltinActionKind::CycleMoveWorkspaceToMonitor,
            BuiltinActionKind::SwapWorkspacesToMonitor,
            BuiltinActionKind::PreselectDirection,
            BuiltinActionKind::CancelPreselect,
            BuiltinActionKind::Retile,
            BuiltinActionKind::RetileWithResizeDimensions,
            BuiltinActionKind::ManageFocusedWindow,
            BuiltinActionKind::UnmanageFocusedWindow,
            BuiltinActionKind::AdjustContainerPadding,
            BuiltinActionKind::AdjustWorkspacePadding,
            BuiltinActionKind::ToggleMouseFollowsFocus,
            BuiltinActionKind::SetMouseFollowsFocus,
            BuiltinActionKind::ToggleWindowContainerBehaviour,
            BuiltinActionKind::ToggleFloatOverride,
            BuiltinActionKind::ToggleWorkspaceWindowContainerBehaviour,
            BuiltinActionKind::ToggleWorkspaceFloatOverride,
            BuiltinActionKind::ToggleCrossMonitorMoveBehaviour,
            BuiltinActionKind::ToggleMonocleFocusBehaviour,
            BuiltinActionKind::TogglePause,
            BuiltinActionKind::SetFocusedContainerPadding,
            BuiltinActionKind::SetFocusedWorkspacePadding,
            BuiltinActionKind::SetContainerPadding,
            BuiltinActionKind::SetWorkspacePadding,
            BuiltinActionKind::SetWorkspaceTiling,
            BuiltinActionKind::SetMonitorWorkspaceLayout,
            BuiltinActionKind::EnsureWorkspaces,
            BuiltinActionKind::ClearWorkspaceLayoutRules,
            BuiltinActionKind::SetScrollingColumns,
            BuiltinActionKind::LockContainer,
            BuiltinActionKind::UnlockContainer,
            BuiltinActionKind::ToggleTitleBars,
            BuiltinActionKind::EnforceWorkspaceRules,
            BuiltinActionKind::AddSessionFloatRule,
            BuiltinActionKind::ClearSessionFloatRules,
            BuiltinActionKind::ResizeWindowEdge,
            BuiltinActionKind::ResizeWindowEdgeByStep,
            BuiltinActionKind::SetWindowHidingBehaviour,
            BuiltinActionKind::SetCrossMonitorMoveBehaviour,
            BuiltinActionKind::SetMonocleFocusBehaviour,
            BuiltinActionKind::SetUnmanagedWindowOperationBehaviour,
            BuiltinActionKind::SetFocusFollowsMouse,
            BuiltinActionKind::ToggleFocusFollowsMouse,
            BuiltinActionKind::AddWorkspaceLayoutRule,
            BuiltinActionKind::FocusNamedWorkspace,
            BuiltinActionKind::MoveContainerToNamedWorkspace,
            BuiltinActionKind::SendContainerToNamedWorkspace,
            BuiltinActionKind::SetNamedWorkspaceContainerPadding,
            BuiltinActionKind::SetNamedWorkspacePadding,
            BuiltinActionKind::SetNamedWorkspaceTiling,
            BuiltinActionKind::SetNamedWorkspaceLayout,
            BuiltinActionKind::SetNamedWorkspaceCustomLayout,
            BuiltinActionKind::AddNamedWorkspaceLayoutRule,
            BuiltinActionKind::AddNamedWorkspaceCustomLayoutRule,
            BuiltinActionKind::ClearNamedWorkspaceLayoutRules,
            BuiltinActionKind::EnsureNamedWorkspaces,
            BuiltinActionKind::SetWorkspaceName,
            BuiltinActionKind::SetLayoutRatios,
            BuiltinActionKind::SetCustomLayout,
            BuiltinActionKind::SetWorkspaceCustomLayout,
            BuiltinActionKind::AddWorkspaceCustomLayoutRule,
            BuiltinActionKind::EagerFocus,
            BuiltinActionKind::RemoveTitleBar,
            BuiltinActionKind::SetResizeStep,
            BuiltinActionKind::SetTransparencyEnabled,
            BuiltinActionKind::ToggleTransparency,
            BuiltinActionKind::SetTransparencyAlpha,
            BuiltinActionKind::SetBorderEnabled,
            BuiltinActionKind::SetBorderColour,
            BuiltinActionKind::SetBorderWidth,
            BuiltinActionKind::SetBorderOffset,
            BuiltinActionKind::SetBorderStyle,
            BuiltinActionKind::SetBorderImplementation,
        ]
    }

    pub open spec fn id_spec(self) -> ActionId {
        match self {
            BuiltinActionKind::FocusWindow => ActionId::FocusWindow,
            BuiltinActionKind::MoveWindow => ActionId::MoveWindow,
            BuiltinActionKind::ResizeWindow => ActionId::ResizeWindow,
            BuiltinActionKind::ResizeWindowByStep => ActionId::ResizeWindowByStep,
            BuiltinActionKind::SetWorkspaceLayout => ActionId::SetWorkspaceLayout,
            BuiltinActionKind::ToggleWindowFloat => ActionId::ToggleWindowFloat,
            BuiltinActionKind::CycleFocusWindow => ActionId::CycleFocusWindow,
            BuiltinActionKind::CycleMoveWindow => ActionId::CycleMoveWindow,
            BuiltinActionKind::ToggleWindowMonocle => ActionId::ToggleWindowMonocle,
            BuiltinActionKind::ToggleWindowMaximize => ActionId::ToggleWindowMaximize,
            BuiltinActionKind::ToggleContainerLock => ActionId::ToggleContainerLock,
            BuiltinActionKind::StackWindow => ActionId::StackWindow,
            BuiltinActionKind::UnstackWindow => ActionId::UnstackWindow,
            BuiltinActionKind::StackAll => ActionId::StackAll,
            BuiltinActionKind::UnstackAll => ActionId::UnstackAll,
            BuiltinActionKind::CycleStack => ActionId::CycleStack,
            BuiltinActionKind::CycleStackIndex => ActionId::CycleStackIndex,
            BuiltinActionKind::FocusStackWindow => ActionId::FocusStackWindow,
            BuiltinActionKind::FocusWorkspace => ActionId::FocusWorkspace,
            BuiltinActionKind::CycleFocusWorkspace => ActionId::CycleFocusWorkspace,
            BuiltinActionKind::CycleFocusEmptyWorkspace => ActionId::CycleFocusEmptyWorkspace,
            BuiltinActionKind::FocusLastWorkspace => ActionId::FocusLastWorkspace,
            BuiltinActionKind::CloseWorkspace => ActionId::CloseWorkspace,
            BuiltinActionKind::FocusMonitor => ActionId::FocusMonitor,
            BuiltinActionKind::CycleFocusMonitor => ActionId::CycleFocusMonitor,
            BuiltinActionKind::FocusMonitorAtCursor => ActionId::FocusMonitorAtCursor,
            BuiltinActionKind::FocusWorkspaceOnAllMonitors => ActionId::FocusWorkspaceOnAllMonitors,
            BuiltinActionKind::FocusMonitorWorkspace => ActionId::FocusMonitorWorkspace,
            BuiltinActionKind::CloseWindow => ActionId::CloseWindow,
            BuiltinActionKind::MinimizeWindow => ActionId::MinimizeWindow,
            BuiltinActionKind::ForceFocus => ActionId::ForceFocus,
            BuiltinActionKind::PromoteContainer => ActionId::PromoteContainer,
            BuiltinActionKind::PromoteContainerSwap => ActionId::PromoteContainerSwap,
            BuiltinActionKind::PromoteFocus => ActionId::PromoteFocus,
            BuiltinActionKind::PromoteWindow => ActionId::PromoteWindow,
            BuiltinActionKind::NewWorkspace => ActionId::NewWorkspace,
            BuiltinActionKind::ToggleTiling => ActionId::ToggleTiling,
            BuiltinActionKind::CycleLayout => ActionId::CycleLayout,
            BuiltinActionKind::FlipLayout => ActionId::FlipLayout,
            BuiltinActionKind::ToggleWorkspaceLayer => ActionId::ToggleWorkspaceLayer,
            BuiltinActionKind::MoveContainerToLastWorkspace => ActionId::MoveContainerToLastWorkspace,
            BuiltinActionKind::SendContainerToLastWorkspace => ActionId::SendContainerToLastWorkspace,
            BuiltinActionKind::MoveContainerToWorkspace => ActionId::MoveContainerToWorkspace,
            BuiltinActionKind::CycleMoveContainerToWorkspace => ActionId::CycleMoveContainerToWorkspace,
            BuiltinActionKind::SendContainerToWorkspace => ActionId::SendContainerToWorkspace,
            BuiltinActionKind::CycleSendContainerToWorkspace => ActionId::CycleSendContainerToWorkspace,
            BuiltinActionKind::MoveContainerToMonitor => ActionId::MoveContainerToMonitor,
            BuiltinActionKind::CycleMoveContainerToMonitor => ActionId::CycleMoveContainerToMonitor,
            BuiltinActionKind::SendContainerToMonitor => ActionId::SendContainerToMonitor,
            BuiltinActionKind::CycleSendContainerToMonitor => ActionId::CycleSendContainerToMonitor,
            BuiltinActionKind::MoveContainerToMonitorWorkspace => ActionId::MoveContainerToMonitorWorkspace,
            BuiltinActionKind::SendContainerToMonitorWorkspace => ActionId::SendContainerToMonitorWorkspace,
            BuiltinActionKind::MoveWorkspaceToMonitor => ActionId::MoveWorkspaceToMonitor,
            BuiltinActionKind::CycleMoveWorkspaceToMonitor => ActionId::CycleMoveWorkspaceToMonitor,
            BuiltinActionKind::SwapWorkspacesToMonitor => ActionId::SwapWorkspacesToMonitor,
            BuiltinActionKind::PreselectDirection => ActionId::PreselectDirection,
            BuiltinActionKind::CancelPreselect => ActionId::CancelPreselect,
            BuiltinActionKind::Retile => ActionId::Retile,
            BuiltinActionKind::RetileWithResizeDimensions => ActionId::RetileWithResizeDimensions,
            BuiltinActionKind::ManageFocusedWindow => ActionId::ManageFocusedWindow,
            BuiltinActionKind::UnmanageFocusedWindow => ActionId::UnmanageFocusedWindow,
            BuiltinActionKind::AdjustContainerPadding => ActionId::AdjustContainerPadding,
            BuiltinActionKind::AdjustWorkspacePadding => ActionId::AdjustWorkspacePadding,
            BuiltinActionKind::ToggleMouseFollowsFocus => ActionId::ToggleMouseFollowsFocus,
            BuiltinActionKind::SetMouseFollowsFocus => ActionId::SetMouseFollowsFocus,
            BuiltinActionKind::ToggleWindowContainerBehaviour => ActionId::ToggleWindowContainerBehaviour,
            BuiltinActionKind::ToggleFloatOverride => ActionId::ToggleFloatOverride,
            BuiltinActionKind::ToggleWorkspaceWindowContainerBehaviour => ActionId::ToggleWorkspaceWindowContainerBehaviour,
            BuiltinActionKind::ToggleWorkspaceFloatOverride => ActionId::ToggleWorkspaceFloatOverride,
            BuiltinActionKind::ToggleCrossMonitorMoveBehaviour => ActionId::ToggleCrossMonitorMoveBehaviour,
            BuiltinActionKind::ToggleMonocleFocusBehaviour => ActionId::ToggleMonocleFocusBehaviour,
            BuiltinActionKind::TogglePause => ActionId::TogglePause,
            BuiltinActionKind::SetFocusedContainerPadding => ActionId::SetFocusedContainerPadding,
            BuiltinActionKind::SetFocusedWorkspacePadding => ActionId::SetFocusedWorkspacePadding,
            BuiltinActionKind::SetContainerPadding => ActionId::SetContainerPadding,
            BuiltinActionKind::SetWorkspacePadding => ActionId::SetWorkspacePadding,
            BuiltinActionKind::SetWorkspaceTiling => ActionId::SetWorkspaceTiling,
            BuiltinActionKind::SetMonitorWorkspaceLayout => ActionId::SetMonitorWorkspaceLayout,
            BuiltinActionKind::EnsureWorkspaces => ActionId::EnsureWorkspaces,
            BuiltinActionKind::ClearWorkspaceLayoutRules => ActionId::ClearWorkspaceLayoutRules,
            BuiltinActionKind::SetScrollingColumns => ActionId::SetScrollingColumns,
            BuiltinActionKind::LockContainer => ActionId::LockContainer,
            BuiltinActionKind::UnlockContainer => ActionId::UnlockContainer,
            BuiltinActionKind::ToggleTitleBars => ActionId::ToggleTitleBars,
            BuiltinActionKind::EnforceWorkspaceRules => ActionId::EnforceWorkspaceRules,
            BuiltinActionKind::AddSessionFloatRule => ActionId::AddSessionFloatRule,
            BuiltinActionKind::ClearSessionFloatRules => ActionId::ClearSessionFloatRules,
            BuiltinActionKind::ResizeWindowEdge => ActionId::ResizeWindowEdge,
            BuiltinActionKind::ResizeWindowEdgeByStep => ActionId::ResizeWindowEdgeByStep,
            BuiltinActionKind::SetWindowHidingBehaviour => ActionId::SetWindowHidingBehaviour,
            BuiltinActionKind::SetCrossMonitorMoveBehaviour => ActionId::SetCrossMonitorMoveBehaviour,
            BuiltinActionKind::SetMonocleFocusBehaviour => ActionId::SetMonocleFocusBehaviour,
            BuiltinActionKind::SetUnmanagedWindowOperationBehaviour => ActionId::SetUnmanagedWindowOperationBehaviour,
            BuiltinActionKind::SetFocusFollowsMouse => ActionId::SetFocusFollowsMouse,
            BuiltinActionKind::ToggleFocusFollowsMouse => ActionId::ToggleFocusFollowsMouse,
            BuiltinActionKind::AddWorkspaceLayoutRule => ActionId::AddWorkspaceLayoutRule,
            BuiltinActionKind::FocusNamedWorkspace => ActionId::FocusNamedWorkspace,
            BuiltinActionKind::MoveContainerToNamedWorkspace => ActionId::MoveContainerToNamedWorkspace,
            BuiltinActionKind::SendContainerToNamedWorkspace => ActionId::SendContainerToNamedWorkspace,
            BuiltinActionKind::SetNamedWorkspaceContainerPadding => ActionId::SetNamedWorkspaceContainerPadding,
            BuiltinActionKind::SetNamedWorkspacePadding => ActionId::SetNamedWorkspacePadding,
            BuiltinActionKind::SetNamedWorkspaceTiling => ActionId::SetNamedWorkspaceTiling,
            BuiltinActionKind::SetNamedWorkspaceLayout => ActionId::SetNamedWorkspaceLayout,
            BuiltinActionKind::SetNamedWorkspaceCustomLayout => ActionId::SetNamedWorkspaceCustomLayout,
            BuiltinActionKind::AddNamedWorkspaceLayoutRule => ActionId::AddNamedWorkspaceLayoutRule,
            BuiltinActionKind::AddNamedWorkspaceCustomLayoutRule => ActionId::AddNamedWorkspaceCustomLayoutRule,
            BuiltinActionKind::ClearNamedWorkspaceLayoutRules => ActionId::ClearNamedWorkspaceLayoutRules,
            BuiltinActionKind::EnsureNamedWorkspaces => ActionId::EnsureNamedWorkspaces,
            BuiltinActionKind::SetWorkspaceName => ActionId::SetWorkspaceName,
            BuiltinActionKind::SetLayoutRatios => ActionId::SetLayoutRatios,
            BuiltinActionKind::SetCustomLayout => ActionId::SetCustomLayout,
            BuiltinActionKind::SetWorkspaceCustomLayout => ActionId::SetWorkspaceCustomLayout,
            BuiltinActionKind::AddWorkspaceCustomLayoutRule => ActionId::AddWorkspaceCustomLayoutRule,
            BuiltinActionKind::EagerFocus => ActionId::EagerFocus,
            BuiltinActionKind::RemoveTitleBar => ActionId::RemoveTitleBar,
            BuiltinActionKind::SetResizeStep => ActionId::SetResizeStep,
            BuiltinActionKind::SetTransparencyEnabled => ActionId::SetTransparencyEnabled,
            BuiltinActionKind::ToggleTransparency => ActionId::ToggleTransparency,
            BuiltinActionKind::SetTransparencyAlpha => ActionId::SetTransparencyAlpha,
            BuiltinActionKind::SetBorderEnabled => ActionId::SetBorderEnabled,
            BuiltinActionKind::SetBorderColour => ActionId::SetBorderColour,
            BuiltinActionKind::SetBorderWidth => ActionId::SetBorderWidth,
            BuiltinActionKind::SetBorderOffset => ActionId::SetBorderOffset,
            BuiltinActionKind::SetBorderStyle => ActionId::SetBorderStyle,
            BuiltinActionKind::SetBorderImplementation => ActionId::SetBorderImplementation,
        }
    }

    /// The stable identifier of this kind.
    pub fn id(self) -> (r: ActionId)
        ensures
            r == self.id_spec(),
    {
        match self {
            BuiltinActionKind::FocusWindow => ActionId::FocusWindow,
            BuiltinActionKind::MoveWindow => ActionId::MoveWindow,
            BuiltinActionKind::ResizeWindow => ActionId::ResizeWindow,
            BuiltinActionKind::ResizeWindowByStep => ActionId::ResizeWindowByStep,
            BuiltinActionKind::SetWorkspaceLayout => ActionId::SetWorkspaceLayout,
            BuiltinActionKind::ToggleWindowFloat => ActionId::ToggleWindowFloat,
            BuiltinActionKind::CycleFocusWindow => ActionId::CycleFocusWindow,
            BuiltinActionKind::CycleMoveWindow => ActionId::CycleMoveWindow,
            BuiltinActionKind::ToggleWindowMonocle => ActionId::ToggleWindowMonocle,
            BuiltinActionKind::ToggleWindowMaximize => ActionId::ToggleWindowMaximize,
            BuiltinActionKind::ToggleContainerLock => ActionId::ToggleContainerLock,
            BuiltinActionKind::StackWindow => ActionId::StackWindow,
            BuiltinActionKind::UnstackWindow => ActionId::UnstackWindow,
            BuiltinActionKind::StackAll => ActionId::StackAll,
            BuiltinActionKind::UnstackAll => ActionId::UnstackAll,
            BuiltinActionKind::CycleStack => ActionId::CycleStack,
            BuiltinActionKind::CycleStackIndex => ActionId::CycleStackIndex,
            BuiltinActionKind::FocusStackWindow => ActionId::FocusStackWindow,
            BuiltinActionKind::FocusWorkspace => ActionId::FocusWorkspace,
            BuiltinActionKind::CycleFocusWorkspace => ActionId::CycleFocusWorkspace,
            BuiltinActionKind::CycleFocusEmptyWorkspace => ActionId::CycleFocusEmptyWorkspace,
            BuiltinActionKind::FocusLastWorkspace => ActionId::FocusLastWorkspace,
            BuiltinActionKind::CloseWorkspace => ActionId::CloseWorkspace,
            BuiltinActionKind::FocusMonitor => ActionId::FocusMonitor,
            BuiltinActionKind::CycleFocusMonitor => ActionId::CycleFocusMonitor,
            BuiltinActionKind::FocusMonitorAtCursor => ActionId::FocusMonitorAtCursor,
            BuiltinActionKind::FocusWorkspaceOnAllMonitors => ActionId::FocusWorkspaceOnAllMonitors,
            BuiltinActionKind::FocusMonitorWorkspace => ActionId::FocusMonitorWorkspace,
            BuiltinActionKind::CloseWindow => ActionId::CloseWindow,
            BuiltinActionKind::MinimizeWindow => ActionId::MinimizeWindow,
            BuiltinActionKind::ForceFocus => ActionId::ForceFocus,
            BuiltinActionKind::PromoteContainer => ActionId::PromoteContainer,
            BuiltinActionKind::PromoteContainerSwap => ActionId::PromoteContainerSwap,
            BuiltinActionKind::PromoteFocus => ActionId::PromoteFocus,
            BuiltinActionKind::PromoteWindow => ActionId::PromoteWindow,
            BuiltinActionKind::NewWorkspace => ActionId::NewWorkspace,
            BuiltinActionKind::ToggleTiling => ActionId::ToggleTiling,
            BuiltinActionKind::CycleLayout => ActionId::CycleLayout,
            BuiltinActionKind::FlipLayout => ActionId::FlipLayout,
            BuiltinActionKind::ToggleWorkspaceLayer => ActionId::ToggleWorkspaceLayer,
            BuiltinActionKind::MoveContainerToLastWorkspace => ActionId::MoveContainerToLastWorkspace,
            BuiltinActionKind::SendContainerToLastWorkspace => ActionId::SendContainerToLastWorkspace,
            BuiltinActionKind::MoveContainerToWorkspace => ActionId::MoveContainerToWorkspace,
            BuiltinActionKind::CycleMoveContainerToWorkspace => ActionId::CycleMoveContainerToWorkspace,
            BuiltinActionKind::SendContainerToWorkspace => ActionId::SendContainerToWorkspace,
            BuiltinActionKind::CycleSendContainerToWorkspace => ActionId::CycleSendContainerToWorkspace,
            BuiltinActionKind::MoveContainerToMonitor => ActionId::MoveContainerToMonitor,
            BuiltinActionKind::CycleMoveContainerToMonitor => ActionId::CycleMoveContainerToMonitor,
            BuiltinActionKind::SendContainerToMonitor => ActionId::SendContainerToMonitor,
            BuiltinActionKind::CycleSendContainerToMonitor => ActionId::CycleSendContainerToMonitor,
            BuiltinActionKind::MoveContainerToMonitorWorkspace => ActionId::MoveContainerToMonitorWorkspace,
            BuiltinActionKind::SendContainerToMonitorWorkspace => ActionId::SendContainerToMonitorWorkspace,
            BuiltinActionKind::MoveWorkspaceToMonitor => ActionId::MoveWorkspaceToMonitor,
            BuiltinActionKind::CycleMoveWorkspaceToMonitor => ActionId::CycleMoveWorkspaceToMonitor,
            BuiltinActionKind::SwapWorkspacesToMonitor => ActionId::SwapWorkspacesToMonitor,
            BuiltinActionKind::PreselectDirection => ActionId::PreselectDirection,
            BuiltinActionKind::CancelPreselect => ActionId::CancelPreselect,
            BuiltinActionKind::Retile => ActionId::Retile,
            BuiltinActionKind::RetileWithResizeDimensions => ActionId::RetileWithResizeDimensions,
            BuiltinActionKind::ManageFocusedWindow => ActionId::ManageFocusedWindow,
            BuiltinActionKind::UnmanageFocusedWindow => ActionId::UnmanageFocusedWindow,
            BuiltinActionKind::AdjustContainerPadding => ActionId::AdjustContainerPadding,
            BuiltinActionKind::AdjustWorkspacePadding => ActionId::AdjustWorkspacePadding,
            BuiltinActionKind::ToggleMouseFollowsFocus => ActionId::ToggleMouseFollowsFocus,
            BuiltinActionKind::SetMouseFollowsFocus => ActionId::SetMouseFollowsFocus,
            BuiltinActionKind::ToggleWindowContainerBehaviour => ActionId::ToggleWindowContainerBehaviour,
            BuiltinActionKind::ToggleFloatOverride => ActionId::ToggleFloatOverride,
            BuiltinActionKind::ToggleWorkspaceWindowContainerBehaviour => ActionId::ToggleWorkspaceWindowContainerBehaviour,
            BuiltinActionKind::ToggleWorkspaceFloatOverride => ActionId::ToggleWorkspaceFloatOverride,
            BuiltinActionKind::ToggleCrossMonitorMoveBehaviour => ActionId::ToggleCrossMonitorMoveBehaviour,
            BuiltinActionKind::ToggleMonocleFocusBehaviour => ActionId::ToggleMonocleFocusBehaviour,
            BuiltinActionKind::TogglePause => ActionId::TogglePause,
            BuiltinActionKind::SetFocusedContainerPadding => ActionId::SetFocusedContainerPadding,
            BuiltinActionKind::SetFocusedWorkspacePadding => ActionId::SetFocusedWorkspacePadding,
            BuiltinActionKind::SetContainerPadding => ActionId::SetContainerPadding,
            BuiltinActionKind::SetWorkspacePadding => ActionId::SetWorkspacePadding,
            BuiltinActionKind::SetWorkspaceTiling => ActionId::SetWorkspaceTiling,
            BuiltinActionKind::SetMonitorWorkspaceLayout => ActionId::SetMonitorWorkspaceLayout,
            BuiltinActionKind::EnsureWorkspaces => ActionId::EnsureWorkspaces,
            BuiltinActionKind::ClearWorkspaceLayoutRules => ActionId::ClearWorkspaceLayoutRules,
            BuiltinActionKind::SetScrollingColumns => ActionId::SetScrollingColumns,
            BuiltinActionKind::LockContainer => ActionId::LockContainer,
            BuiltinActionKind::UnlockContainer => ActionId::UnlockContainer,
            BuiltinActionKind::ToggleTitleBars => ActionId::ToggleTitleBars,
            BuiltinActionKind::EnforceWorkspaceRules => ActionId::EnforceWorkspaceRules,
            BuiltinActionKind::AddSessionFloatRule => ActionId::AddSessionFloatRule,
            BuiltinActionKind::ClearSessionFloatRules => ActionId::ClearSessionFloatRules,
            BuiltinActionKind::ResizeWindowEdge => ActionId::ResizeWindowEdge,
            BuiltinActionKind::ResizeWindowEdgeByStep => ActionId::ResizeWindowEdgeByStep,
            BuiltinActionKind::SetWindowHidingBehaviour => ActionId::SetWindowHidingBehaviour,
            BuiltinActionKind::SetCrossMonitorMoveBehaviour => ActionId::SetCrossMonitorMoveBehaviour,
            BuiltinActionKind::SetMonocleFocusBehaviour => ActionId::SetMonocleFocusBehaviour,
            BuiltinActionKind::SetUnmanagedWindowOperationBehaviour => ActionId::SetUnmanagedWindowOperationBehaviour,
            BuiltinActionKind::SetFocusFollowsMouse => ActionId::SetFocusFollowsMouse,
            BuiltinActionKind::ToggleFocusFollowsMouse => ActionId::ToggleFocusFollowsMouse,
            BuiltinActionKind::AddWorkspaceLayoutRule => ActionId::AddWorkspaceLayoutRule,
            BuiltinActionKind::FocusNamedWorkspace => ActionId::FocusNamedWorkspace,
            BuiltinActionKind::MoveContainerToNamedWorkspace => ActionId::MoveContainerToNamedWorkspace,
            BuiltinActionKind::SendContainerToNamedWorkspace => ActionId::SendContainerToNamedWorkspace,
            BuiltinActionKind::SetNamedWorkspaceContainerPadding => ActionId::SetNamedWorkspaceContainerPadding,
            BuiltinActionKind::SetNamedWorkspacePadding => ActionId::SetNamedWorkspacePadding,
            BuiltinActionKind::SetNamedWorkspaceTiling => ActionId::SetNamedWorkspaceTiling,
            BuiltinActionKind::SetNamedWorkspaceLayout => ActionId::SetNamedWorkspaceLayout,
            BuiltinActionKind::SetNamedWorkspaceCustomLayout => ActionId::SetNamedWorkspaceCustomLayout,
            BuiltinActionKind::AddNamedWorkspaceLayoutRule => ActionId::AddNamedWorkspaceLayoutRule,
            BuiltinActionKind::AddNamedWorkspaceCustomLayoutRule => ActionId::AddNamedWorkspaceCustomLayoutRule,
            BuiltinActionKind::ClearNamedWorkspaceLayoutRules => ActionId::ClearNamedWorkspaceLayoutRules,
            BuiltinActionKind::EnsureNamedWorkspaces => ActionId::EnsureNamedWorkspaces,
            BuiltinActionKind::SetWorkspaceName => ActionId::SetWorkspaceName,
            BuiltinActionKind::SetLayoutRatios => ActionId::SetLayoutRatios,
            BuiltinActionKind::SetCustomLayout => ActionId::SetCustomLayout,
            BuiltinActionKind::SetWorkspaceCustomLayout => ActionId::SetWorkspaceCustomLayout,
            BuiltinActionKind::AddWorkspaceCustomLayoutRule => ActionId::AddWorkspaceCustomLayoutRule,
            BuiltinActionKind::EagerFocus => ActionId::EagerFocus,
            BuiltinActionKind::RemoveTitleBar => ActionId::RemoveTitleBar,
            BuiltinActionKind::SetResizeStep => ActionId::SetResizeStep,
            BuiltinActionKind::SetTransparencyEnabled => ActionId::SetTransparencyEnabled,
            BuiltinActionKind::ToggleTransparency => ActionId::ToggleTransparency,
            BuiltinActionKind::SetTransparencyAlpha => ActionId::SetTransparencyAlpha,
            BuiltinActionKind::SetBorderEnabled => ActionId::SetBorderEnabled,
            BuiltinActionKind::SetBorderColour => ActionId::SetBorderColour,
            BuiltinActionKind::SetBorderWidth => ActionId::SetBorderWidth,
            BuiltinActionKind::SetBorderOffset => ActionId::SetBorderOffset,
            BuiltinActionKind::SetBorderStyle => ActionId::SetBorderStyle,
            BuiltinActionKind::SetBorderImplementation => ActionId::SetBorderImplementation,
        }
    }
}

/// The kind whose identifier is `id`.
pub open spec fn kind_of_id(id: ActionId) -> BuiltinActionKind {
    match id {
        ActionId::FocusWindow => BuiltinActionKind::FocusWindow,
        ActionId::MoveWindow => BuiltinActionKind::MoveWindow,
        ActionId::ResizeWindow => BuiltinActionKind::ResizeWindow,
        ActionId::ResizeWindowByStep => BuiltinActionKind::ResizeWindowByStep,
        ActionId::SetWorkspaceLayout => BuiltinActionKind::SetWorkspaceLayout,
        ActionId::ToggleWindowFloat => BuiltinActionKind::ToggleWindowFloat,
        ActionId::CycleFocusWindow => BuiltinActionKind::CycleFocusWindow,
        ActionId::CycleMoveWindow => BuiltinActionKind::CycleMoveWindow,
        ActionId::ToggleWindowMonocle => BuiltinActionKind::ToggleWindowMonocle,
        ActionId::ToggleWindowMaximize => BuiltinActionKind::ToggleWindowMaximize,
        ActionId::ToggleContainerLock => BuiltinActionKind::ToggleContainerLock,
        ActionId::StackWindow => BuiltinActionKind::StackWindow,
        ActionId::UnstackWindow => BuiltinActionKind::UnstackWindow,
        ActionId::StackAll => BuiltinActionKind::StackAll,
        ActionId::UnstackAll => BuiltinActionKind::UnstackAll,
        ActionId::CycleStack => BuiltinActionKind::CycleStack,
        ActionId::CycleStackIndex => BuiltinActionKind::CycleStackIndex,
        ActionId::FocusStackWindow => BuiltinActionKind::FocusStackWindow,
        ActionId::FocusWorkspace => BuiltinActionKind::FocusWorkspace,
        ActionId::CycleFocusWorkspace => BuiltinActionKind::CycleFocusWorkspace,
        ActionId::CycleFocusEmptyWorkspace => BuiltinActionKind::CycleFocusEmptyWorkspace,
        ActionId::FocusLastWorkspace => BuiltinActionKind::FocusLastWorkspace,
        ActionId::CloseWorkspace => BuiltinActionKind::CloseWorkspace,
        ActionId::FocusMonitor => BuiltinActionKind::FocusMonitor,
        ActionId::CycleFocusMonitor => BuiltinActionKind::CycleFocusMonitor,
        ActionId::FocusMonitorAtCursor => BuiltinActionKind::FocusMonitorAtCursor,
        ActionId::FocusWorkspaceOnAllMonitors => BuiltinActionKind::FocusWorkspaceOnAllMonitors,
        ActionId::FocusMonitorWorkspace => BuiltinActionKind::FocusMonitorWorkspace,
        ActionId::CloseWindow => BuiltinActionKind::CloseWindow,
        ActionId::MinimizeWindow => BuiltinActionKind::MinimizeWindow,
        ActionId::ForceFocus => BuiltinActionKind::ForceFocus,
        ActionId::PromoteContainer => BuiltinActionKind::PromoteContainer,
        ActionId::PromoteContainerSwap => BuiltinActionKind::PromoteContainerSwap,
        ActionId::PromoteFocus => BuiltinActionKind::PromoteFocus,
        ActionId::PromoteWindow => BuiltinActionKind::PromoteWindow,
        ActionId::NewWorkspace => BuiltinActionKind::NewWorkspace,
        ActionId::ToggleTiling => BuiltinActionKind::ToggleTiling,
        ActionId::CycleLayout => BuiltinActionKind::CycleLayout,
        ActionId::FlipLayout => BuiltinActionKind::FlipLayout,
        ActionId::ToggleWorkspaceLayer => BuiltinActionKind::ToggleWorkspaceLayer,
        ActionId::MoveContainerToLastWorkspace => BuiltinActionKind::MoveContainerToLastWorkspace,
        ActionId::SendContainerToLastWorkspace => BuiltinActionKind::SendContainerToLastWorkspace,
        ActionId::MoveContainerToWorkspace => BuiltinActionKind::MoveContainerToWorkspace,
        ActionId::CycleMoveContainerToWorkspace => BuiltinActionKind::CycleMoveContainerToWorkspace,
        ActionId::SendContainerToWorkspace => BuiltinActionKind::SendContainerToWorkspace,
        ActionId::CycleSendContainerToWorkspace => BuiltinActionKind::CycleSendContainerToWorkspace,
        ActionId::MoveContainerToMonitor => BuiltinActionKind::MoveContainerToMonitor,
        ActionId::CycleMoveContainerToMonitor => BuiltinActionKind::CycleMoveContainerToMonitor,
        ActionId::SendContainerToMonitor => BuiltinActionKind::SendContainerToMonitor,
        ActionId::CycleSendContainerToMonitor => BuiltinActionKind::CycleSendContainerToMonitor,
        ActionId::MoveContainerToMonitorWorkspace => BuiltinActionKind::MoveContainerToMonitorWorkspace,
        ActionId::SendContainerToMonitorWorkspace => BuiltinActionKind::SendContainerToMonitorWorkspace,
        ActionId::MoveWorkspaceToMonitor => BuiltinActionKind::MoveWorkspaceToMonitor,
        ActionId::CycleMoveWorkspaceToMonitor => BuiltinActionKind::CycleMoveWorkspaceToMonitor,
        ActionId::SwapWorkspacesToMonitor => BuiltinActionKind::SwapWorkspacesToMonitor,
        ActionId::PreselectDirection => BuiltinActionKind::PreselectDirection,
        ActionId::CancelPreselect => BuiltinActionKind::CancelPreselect,
        ActionId::Retile => BuiltinActionKind::Retile,
        ActionId::RetileWithResizeDimensions => BuiltinActionKind::RetileWithResizeDimensions,
        ActionId::ManageFocusedWindow => BuiltinActionKind::ManageFocusedWindow,
        ActionId::UnmanageFocusedWindow => BuiltinActionKind::UnmanageFocusedWindow,
        ActionId::AdjustContainerPadding => BuiltinActionKind::AdjustContainerPadding,
        ActionId::AdjustWorkspacePadding => BuiltinActionKind::AdjustWorkspacePadding,
        ActionId::ToggleMouseFollowsFocus => BuiltinActionKind::ToggleMouseFollowsFocus,
        ActionId::SetMouseFollowsFocus => BuiltinActionKind::SetMouseFollowsFocus,
        ActionId::ToggleWindowContainerBehaviour => BuiltinActionKind::ToggleWindowContainerBehaviour,
        ActionId::ToggleFloatOverride => BuiltinActionKind::ToggleFloatOverride,
        ActionId::ToggleWorkspaceWindowContainerBehaviour => BuiltinActionKind::ToggleWorkspaceWindowContainerBehaviour,
        ActionId::ToggleWorkspaceFloatOverride => BuiltinActionKind::ToggleWorkspaceFloatOverride,
        ActionId::ToggleCrossMonitorMoveBehaviour => BuiltinActionKind::ToggleCrossMonitorMoveBehaviour,
        ActionId::ToggleMonocleFocusBehaviour => BuiltinActionKind::ToggleMonocleFocusBehaviour,
        ActionId::TogglePause => BuiltinActionKind::TogglePause,
        ActionId::SetFocusedContainerPadding => BuiltinActionKind::SetFocusedContainerPadding,
        ActionId::SetFocusedWorkspacePadding => BuiltinActionKind::SetFocusedWorkspacePadding,
        ActionId::SetContainerPadding => BuiltinActionKind::SetContainerPadding,
        ActionId::SetWorkspacePadding => BuiltinActionKind::SetWorkspacePadding,
        ActionId::SetWorkspaceTiling => BuiltinActionKind::SetWorkspaceTiling,
        ActionId::SetMonitorWorkspaceLayout => BuiltinActionKind::SetMonitorWorkspaceLayout,
        ActionId::EnsureWorkspaces => BuiltinActionKind::EnsureWorkspaces,
        ActionId::ClearWorkspaceLayoutRules => BuiltinActionKind::ClearWorkspaceLayoutRules,
        ActionId::SetScrollingColumns => BuiltinActionKind::SetScrollingColumns,
        ActionId::LockContainer => BuiltinActionKind::LockContainer,
        ActionId::UnlockContainer => BuiltinActionKind::UnlockContainer,
        ActionId::ToggleTitleBars => BuiltinActionKind::ToggleTitleBars,
        ActionId::EnforceWorkspaceRules => BuiltinActionKind::EnforceWorkspaceRules,
        ActionId::AddSessionFloatRule => BuiltinActionKind::AddSessionFloatRule,
        ActionId::ClearSessionFloatRules => BuiltinActionKind::ClearSessionFloatRules,
        ActionId::ResizeWindowEdge => BuiltinActionKind::ResizeWindowEdge,
        ActionId::ResizeWindowEdgeByStep => BuiltinActionKind::ResizeWindowEdgeByStep,
        ActionId::SetWindowHidingBehaviour => BuiltinActionKind::SetWindowHidingBehaviour,
        ActionId::SetCrossMonitorMoveBehaviour => BuiltinActionKind::SetCrossMonitorMoveBehaviour,
        ActionId::SetMonocleFocusBehaviour => BuiltinActionKind::SetMonocleFocusBehaviour,
        ActionId::SetUnmanagedWindowOperationBehaviour => BuiltinActionKind::SetUnmanagedWindowOperationBehaviour,
        ActionId::SetFocusFollowsMouse => BuiltinActionKind::SetFocusFollowsMouse,
        ActionId::ToggleFocusFollowsMouse => BuiltinActionKind::ToggleFocusFollowsMouse,
        ActionId::AddWorkspaceLayoutRule => BuiltinActionKind::AddWorkspaceLayoutRule,
        ActionId::FocusNamedWorkspace => BuiltinActionKind::FocusNamedWorkspace,
        ActionId::MoveContainerToNamedWorkspace => BuiltinActionKind::MoveContainerToNamedWorkspace,
        ActionId::SendContainerToNamedWorkspace => BuiltinActionKind::SendContainerToNamedWorkspace,
        ActionId::SetNamedWorkspaceContainerPadding => BuiltinActionKind::SetNamedWorkspaceContainerPadding,
        ActionId::SetNamedWorkspacePadding => BuiltinActionKind::SetNamedWorkspacePadding,
        ActionId::SetNamedWorkspaceTiling => BuiltinActionKind::SetNamedWorkspaceTiling,
        ActionId::SetNamedWorkspaceLayout => BuiltinActionKind::SetNamedWorkspaceLayout,
        ActionId::SetNamedWorkspaceCustomLayout => BuiltinActionKind::SetNamedWorkspaceCustomLayout,
        ActionId::AddNamedWorkspaceLayoutRule => BuiltinActionKind::AddNamedWorkspaceLayoutRule,
        ActionId::AddNamedWorkspaceCustomLayoutRule => BuiltinActionKind::AddNamedWorkspaceCustomLayoutRule,
        ActionId::ClearNamedWorkspaceLayoutRules => BuiltinActionKind::ClearNamedWorkspaceLayoutRules,
        ActionId::EnsureNamedWorkspaces => BuiltinActionKind::EnsureNamedWorkspaces,
        ActionId::SetWorkspaceName => BuiltinActionKind::SetWorkspaceName,
        ActionId::SetLayoutRatios => BuiltinActionKind::SetLayoutRatios,
        ActionId::SetCustomLayout => BuiltinActionKind::SetCustomLayout,
        ActionId::SetWorkspaceCustomLayout => BuiltinActionKind::SetWorkspaceCustomLayout,
        ActionId::AddWorkspaceCustomLayoutRule => BuiltinActionKind::AddWorkspaceCustomLayoutRule,
        ActionId::EagerFocus => BuiltinActionKind::EagerFocus,
        ActionId::RemoveTitleBar => BuiltinActionKind::RemoveTitleBar,
        ActionId::SetResizeStep => BuiltinActionKind::SetResizeStep,
        ActionId::SetTransparencyEnabled => BuiltinActionKind::SetTransparencyEnabled,
        ActionId::ToggleTransparency => BuiltinActionKind::ToggleTransparency,
        ActionId::SetTransparencyAlpha => BuiltinActionKind::SetTransparencyAlpha,
        ActionId::SetBorderEnabled => BuiltinActionKind::SetBorderEnabled,
        ActionId::SetBorderColour => BuiltinActionKind::SetBorderColour,
        ActionId::SetBorderWidth => BuiltinActionKind::SetBorderWidth,
        ActionId::SetBorderOffset => BuiltinActionKind::SetBorderOffset,
        ActionId::SetBorderStyle => BuiltinActionKind::SetBorderStyle,
        ActionId::SetBorderImplementation => BuiltinActionKind::SetBorderImplementation,
    }
}

/// Each kind has its own identifier, and the identifier names the kind back.
pub proof fn lemma_kind_id_bijection(kind: BuiltinActionKind, id: ActionId)
    ensures
        kind_of_id(kind.id_spec()) == kind,
        kind_of_id(id).id_spec() == id,
{
}

/// No two kinds share an identifier text.
pub proof fn lemma_kind_id_texts_distinct(a: BuiltinActionKind, b: BuiltinActionKind)
    ensures
        a.id_spec().text() == b.id_spec().text() ==> a == b,
{
    lemma_action_id_texts_distinct(a.id_spec(), b.id_spec());
    lemma_kind_id_bijection(a, a.id_spec());
    lemma_kind_id_bijection(b, b.id_spec());
}

/// A fully bound built-in action.
#[derive(Clone, Debug)]
pub enum BuiltinAction {
    FocusWindow {
        direction: OperationDirection,
    },
    MoveWindow {
        direction: OperationDirection,
    },
    ResizeWindow {
        axis: Axis,
        delta: Pixels,
    },
    ResizeWindowByStep {
        axis: Axis,
        sizing: Sizing,
    },
    SetWorkspaceLayout {
        workspace: WorkspaceSelector,
        layout: DefaultLayout,
    },
    ToggleWindowFloat {
        window: WindowSelector,
    },
    CycleFocusWindow {
        direction: CycleDirection,
    },
    CycleMoveWindow {
        direction: CycleDirection,
    },
    ToggleWindowMonocle {
        window: WindowSelector,
    },
    ToggleWindowMaximize {
        window: WindowSelector,
    },
    ToggleContainerLock {
        window: WindowSelector,
    },
    StackWindow {
        direction: OperationDirection,
    },
    UnstackWindow {
        window: WindowSelector,
    },
    StackAll,
    UnstackAll,
    CycleStack {
        direction: CycleDirection,
    },
    CycleStackIndex {
        direction: CycleDirection,
    },
    FocusStackWindow {
        index: StackIndex,
    },
    FocusWorkspace {
        index: WorkspaceIndex,
    },
    CycleFocusWorkspace {
        direction: CycleDirection,
    },
    CycleFocusEmptyWorkspace {
        direction: CycleDirection,
    },
    FocusLastWorkspace,
    CloseWorkspace,
    FocusMonitor {
        index: MonitorIndex,
    },
    CycleFocusMonitor {
        direction: CycleDirection,
    },
    FocusMonitorAtCursor,
    FocusWorkspaceOnAllMonitors {
        index: WorkspaceIndex,
    },
    FocusMonitorWorkspace {
        monitor: MonitorIndex,
        workspace: WorkspaceIndex,
    },
    CloseWindow {
        window: WindowSelector,
    },
    MinimizeWindow {
        window: WindowSelector,
    },
    ForceFocus {
        window: WindowSelector,
    },
    PromoteContainer,
    PromoteContainerSwap,
    PromoteFocus,
    PromoteWindow {
        direction: OperationDirection,
    },
    NewWorkspace,
    ToggleTiling,
    CycleLayout {
        direction: CycleDirection,
    },
    FlipLayout {
        axis: Axis,
    },
    ToggleWorkspaceLayer,
    MoveContainerToLastWorkspace,
    SendContainerToLastWorkspace,
    MoveContainerToWorkspace {
        index: WorkspaceIndex,
    },
    CycleMoveContainerToWorkspace {
        direction: CycleDirection,
    },
    SendContainerToWorkspace {
        index: WorkspaceIndex,
    },
    CycleSendContainerToWorkspace {
        direction: CycleDirection,
    },
    MoveContainerToMonitor {
        index: MonitorIndex,
    },
    CycleMoveContainerToMonitor {
        direction: CycleDirection,
    },
    SendContainerToMonitor {
        index: MonitorIndex,
    },
    CycleSendContainerToMonitor {
        direction: CycleDirection,
    },
    MoveContainerToMonitorWorkspace {
        monitor: MonitorIndex,
        workspace: WorkspaceIndex,
    },
    SendContainerToMonitorWorkspace {
        monitor: MonitorIndex,
        workspace: WorkspaceIndex,
    },
    MoveWorkspaceToMonitor {
        index: MonitorIndex,
    },
    CycleMoveWorkspaceToMonitor {
        direction: CycleDirection,
    },
    SwapWorkspacesToMonitor {
        index: MonitorIndex,
    },
    PreselectDirection {
        direction: OperationDirection,
    },
    CancelPreselect,
    Retile,
    RetileWithResizeDimensions,
    ManageFocusedWindow,
    UnmanageFocusedWindow,
    AdjustContainerPadding {
        sizing: Sizing,
        adjustment: i32,
    },
    AdjustWorkspacePadding {
        sizing: Sizing,
        adjustment: i32,
    },
    ToggleMouseFollowsFocus,
    SetMouseFollowsFocus {
        enabled: bool,
    },
    ToggleWindowContainerBehaviour,
    ToggleFloatOverride,
    ToggleWorkspaceWindowContainerBehaviour,
    ToggleWorkspaceFloatOverride,
    ToggleCrossMonitorMoveBehaviour,
    ToggleMonocleFocusBehaviour,
    TogglePause,
    SetFocusedContainerPadding {
        size: i32,
    },
    SetFocusedWorkspacePadding {
        size: i32,
    },
    SetContainerPadding {
        monitor: MonitorIndex,
        workspace: WorkspaceIndex,
        size: i32,
    },
    SetWorkspacePadding {
        monitor: MonitorIndex,
        workspace: WorkspaceIndex,
        size: i32,
    },
    SetWorkspaceTiling {
        monitor: MonitorIndex,
        workspace: WorkspaceIndex,
        tile: bool,
    },
    SetMonitorWorkspaceLayout {
        monitor: MonitorIndex,
        workspace: WorkspaceIndex,
        layout: DefaultLayout,
    },
    EnsureWorkspaces {
        monitor: MonitorIndex,
        count: usize,
    },
    ClearWorkspaceLayoutRules {
        monitor: MonitorIndex,
        workspace: WorkspaceIndex,
    },
    SetScrollingColumns {
        columns: usize,
    },
    LockContainer {
        monitor: MonitorIndex,
        workspace: WorkspaceIndex,
        container: ContainerIndex,
    },
    UnlockContainer {
        monitor: MonitorIndex,
        workspace: WorkspaceIndex,
        container: ContainerIndex,
    },
    ToggleTitleBars,
    EnforceWorkspaceRules,
    AddSessionFloatRule,
    ClearSessionFloatRules,
    ResizeWindowEdge {
        direction: OperationDirection,
        delta: Pixels,
    },
    ResizeWindowEdgeByStep {
        direction: OperationDirection,
        sizing: Sizing,
    },
    SetWindowHidingBehaviour {
        behaviour: HidingBehaviour,
    },
    SetCrossMonitorMoveBehaviour {
        behaviour: MoveBehaviour,
    },
    SetMonocleFocusBehaviour {
        behaviour: MonocleFocusBehaviour,
    },
    SetUnmanagedWindowOperationBehaviour {
        behaviour: OperationBehaviour,
    },
    SetFocusFollowsMouse {
        implementation: FocusFollowsMouseImplementation,
        enabled: bool,
    },
    ToggleFocusFollowsMouse {
        implementation: FocusFollowsMouseImplementation,
    },
    AddWorkspaceLayoutRule {
        monitor: MonitorIndex,
        workspace: WorkspaceIndex,
        at_container_count: usize,
        layout: DefaultLayout,
    },
    FocusNamedWorkspace {
        name: WorkspaceName,
    },
    MoveContainerToNamedWorkspace {
        name: WorkspaceName,
    },
    SendContainerToNamedWorkspace {
        name: WorkspaceName,
    },
    SetNamedWorkspaceContainerPadding {
        name: WorkspaceName,
        size: i32,
    },
    SetNamedWorkspacePadding {
        name: WorkspaceName,
        size: i32,
    },
    SetNamedWorkspaceTiling {
        name: WorkspaceName,
        tile: bool,
    },
    SetNamedWorkspaceLayout {
        name: WorkspaceName,
        layout: DefaultLayout,
    },
    SetNamedWorkspaceCustomLayout {
        name: WorkspaceName,
        path: WindowsPath,
    },
    AddNamedWorkspaceLayoutRule {
        name: WorkspaceName,
        at_container_count: usize,
        layout: DefaultLayout,
    },
    AddNamedWorkspaceCustomLayoutRule {
        name: WorkspaceName,
        at_container_count: usize,
        path: WindowsPath,
    },
    ClearNamedWorkspaceLayoutRules {
        name: WorkspaceName,
    },
    EnsureNamedWorkspaces {
        monitor: MonitorIndex,
        names: Vec<WorkspaceName>,
    },
    SetWorkspaceName {
        monitor: MonitorIndex,
        workspace: WorkspaceIndex,
        name: WorkspaceName,
    },
    SetLayoutRatios {
        columns: Option<Vec<LayoutRatio>>,
        rows: Option<Vec<LayoutRatio>>,
    },
    SetCustomLayout {
        path: WindowsPath,
    },
    SetWorkspaceCustomLayout {
        monitor: MonitorIndex,
        workspace: WorkspaceIndex,
        path: WindowsPath,
    },
    AddWorkspaceCustomLayoutRule {
        monitor: MonitorIndex,
        workspace: WorkspaceIndex,
        at_container_count: usize,
        path: WindowsPath,
    },
    EagerFocus {
        exe: String,
    },
    RemoveTitleBar {
        identifier: ApplicationIdentifier,
        id: String,
    },
    SetResizeStep {
        step: ResizeStep,
    },
    SetTransparencyEnabled {
        enabled: bool,
    },
    ToggleTransparency,
    SetTransparencyAlpha {
        alpha: TransparencyAlpha,
    },
    SetBorderEnabled {
        enabled: bool,
    },
    SetBorderColour {
        window_kind: WindowKind,
        colour: Rgb,
    },
    SetBorderWidth {
        width: BorderWidth,
    },
    SetBorderOffset {
        offset: BorderOffset,
    },
    SetBorderStyle {
        style: BorderStyle,
    },
    SetBorderImplementation {
        implementation: BorderImplementation,
    },
}

impl BuiltinAction {
    pub open spec fn kind_spec(self) -> BuiltinActionKind {
        match self {
            BuiltinAction::FocusWindow { .. } => BuiltinActionKind::FocusWindow,
            BuiltinAction::MoveWindow { .. } => BuiltinActionKind::MoveWindow,
            BuiltinAction::ResizeWindow { .. } => BuiltinActionKind::ResizeWindow,
            BuiltinAction::ResizeWindowByStep { .. } => BuiltinActionKind::ResizeWindowByStep,
            BuiltinAction::SetWorkspaceLayout { .. } => BuiltinActionKind::SetWorkspaceLayout,
            BuiltinAction::ToggleWindowFloat { .. } => BuiltinActionKind::ToggleWindowFloat,
            BuiltinAction::CycleFocusWindow { .. } => BuiltinActionKind::CycleFocusWindow,
            BuiltinAction::CycleMoveWindow { .. } => BuiltinActionKind::CycleMoveWindow,
            BuiltinAction::ToggleWindowMonocle { .. } => BuiltinActionKind::ToggleWindowMonocle,
            BuiltinAction::ToggleWindowMaximize { .. } => BuiltinActionKind::ToggleWindowMaximize,
            BuiltinAction::ToggleContainerLock { .. } => BuiltinActionKind::ToggleContainerLock,
            BuiltinAction::StackWindow { .. } => BuiltinActionKind::StackWindow,
            BuiltinAction::UnstackWindow { .. } => BuiltinActionKind::UnstackWindow,
            BuiltinAction::StackAll => BuiltinActionKind::StackAll,
            BuiltinAction::UnstackAll => BuiltinActionKind::UnstackAll,
            BuiltinAction::CycleStack { .. } => BuiltinActionKind::CycleStack,
            BuiltinAction::CycleStackIndex { .. } => BuiltinActionKind::CycleStackIndex,
            BuiltinAction::FocusStackWindow { .. } => BuiltinActionKind::FocusStackWindow,
            BuiltinAction::FocusWorkspace { .. } => BuiltinActionKind::FocusWorkspace,
            BuiltinAction::CycleFocusWorkspace { .. } => BuiltinActionKind::CycleFocusWorkspace,
            BuiltinAction::CycleFocusEmptyWorkspace { .. } => BuiltinActionKind::CycleFocusEmptyWorkspace,
            BuiltinAction::FocusLastWorkspace => BuiltinActionKind::FocusLastWorkspace,
            BuiltinAction::CloseWorkspace => BuiltinActionKind::CloseWorkspace,
            BuiltinAction::FocusMonitor { .. } => BuiltinActionKind::FocusMonitor,
            BuiltinAction::CycleFocusMonitor { .. } => BuiltinActionKind::CycleFocusMonitor,
            BuiltinAction::FocusMonitorAtCursor => BuiltinActionKind::FocusMonitorAtCursor,
            BuiltinAction::FocusWorkspaceOnAllMonitors { .. } => BuiltinActionKind::FocusWorkspaceOnAllMonitors,
            BuiltinAction::FocusMonitorWorkspace { .. } => BuiltinActionKind::FocusMonitorWorkspace,
            BuiltinAction::CloseWindow { .. } => BuiltinActionKind::CloseWindow,
            BuiltinAction::MinimizeWindow { .. } => BuiltinActionKind::MinimizeWindow,
            BuiltinAction::ForceFocus { .. } => BuiltinActionKind::ForceFocus,
            BuiltinAction::PromoteContainer => BuiltinActionKind::PromoteContainer,
            BuiltinAction::PromoteContainerSwap => BuiltinActionKind::PromoteContainerSwap,
            BuiltinAction::PromoteFocus => BuiltinActionKind::PromoteFocus,
            BuiltinAction::PromoteWindow { .. } => BuiltinActionKind::PromoteWindow,
            BuiltinAction::NewWorkspace => BuiltinActionKind::NewWorkspace,
            BuiltinAction::ToggleTiling => BuiltinActionKind::ToggleTiling,
            BuiltinAction::CycleLayout { .. } => BuiltinActionKind::CycleLayout,
            BuiltinAction::FlipLayout { .. } => BuiltinActionKind::FlipLayout,
            BuiltinAction::ToggleWorkspaceLayer => BuiltinActionKind::ToggleWorkspaceLayer,
            BuiltinAction::MoveContainerToLastWorkspace => BuiltinActionKind::MoveContainerToLastWorkspace,
            BuiltinAction::SendContainerToLastWorkspace => BuiltinActionKind::SendContainerToLastWorkspace,
            BuiltinAction::MoveContainerToWorkspace { .. } => BuiltinActionKind::MoveContainerToWorkspace,
            BuiltinAction::CycleMoveContainerToWorkspace { .. } => BuiltinActionKind::CycleMoveContainerToWorkspace,
            BuiltinAction::SendContainerToWorkspace { .. } => BuiltinActionKind::SendContainerToWorkspace,
            BuiltinAction::CycleSendContainerToWorkspace { .. } => BuiltinActionKind::CycleSendContainerToWorkspace,
            BuiltinAction::MoveContainerToMonitor { .. } => BuiltinActionKind::MoveContainerToMonitor,
            BuiltinAction::CycleMoveContainerToMonitor { .. } => BuiltinActionKind::CycleMoveContainerToMonitor,
            BuiltinAction::SendContainerToMonitor { .. } => BuiltinActionKind::SendContainerToMonitor,
            BuiltinAction::CycleSendContainerToMonitor { .. } => BuiltinActionKind::CycleSendContainerToMonitor,
            BuiltinAction::MoveContainerToMonitorWorkspace { .. } => BuiltinActionKind::MoveContainerToMonitorWorkspace,
            BuiltinAction::SendContainerToMonitorWorkspace { .. } => BuiltinActionKind::SendContainerToMonitorWorkspace,
            BuiltinAction::MoveWorkspaceToMonitor { .. } => BuiltinActionKind::MoveWorkspaceToMonitor,
            BuiltinAction::CycleMoveWorkspaceToMonitor { .. } => BuiltinActionKind::CycleMoveWorkspaceToMonitor,
            BuiltinAction::SwapWorkspacesToMonitor { .. } => BuiltinActionKind::SwapWorkspacesToMonitor,
            BuiltinAction::PreselectDirection { .. } => BuiltinActionKind::PreselectDirection,
            BuiltinAction::CancelPreselect => BuiltinActionKind::CancelPreselect,
            BuiltinAction::Retile => BuiltinActionKind::Retile,
            BuiltinAction::RetileWithResizeDimensions => BuiltinActionKind::RetileWithResizeDimensions,
            BuiltinAction::ManageFocusedWindow => BuiltinActionKind::ManageFocusedWindow,
            BuiltinAction::UnmanageFocusedWindow => BuiltinActionKind::UnmanageFocusedWindow,
            BuiltinAction::AdjustContainerPadding { .. } => BuiltinActionKind::AdjustContainerPadding,
            BuiltinAction::AdjustWorkspacePadding { .. } => BuiltinActionKind::AdjustWorkspacePadding,
            BuiltinAction::ToggleMouseFollowsFocus => BuiltinActionKind::ToggleMouseFollowsFocus,
            BuiltinAction::SetMouseFollowsFocus { .. } => BuiltinActionKind::SetMouseFollowsFocus,
            BuiltinAction::ToggleWindowContainerBehaviour => BuiltinActionKind::ToggleWindowContainerBehaviour,
            BuiltinAction::ToggleFloatOverride => BuiltinActionKind::ToggleFloatOverride,
            BuiltinAction::ToggleWorkspaceWindowContainerBehaviour => BuiltinActionKind::ToggleWorkspaceWindowContainerBehaviour,
            BuiltinAction::ToggleWorkspaceFloatOverride => BuiltinActionKind::ToggleWorkspaceFloatOverride,
            BuiltinAction::ToggleCrossMonitorMoveBehaviour => BuiltinActionKind::ToggleCrossMonitorMoveBehaviour,
            BuiltinAction::ToggleMonocleFocusBehaviour => BuiltinActionKind::ToggleMonocleFocusBehaviour,
            BuiltinAction::TogglePause => BuiltinActionKind::TogglePause,
            BuiltinAction::SetFocusedContainerPadding { .. } => BuiltinActionKind::SetFocusedContainerPadding,
            BuiltinAction::SetFocusedWorkspacePadding { .. } => BuiltinActionKind::SetFocusedWorkspacePadding,
            BuiltinAction::SetContainerPadding { .. } => BuiltinActionKind::SetContainerPadding,
            BuiltinAction::SetWorkspacePadding { .. } => BuiltinActionKind::SetWorkspacePadding,
            BuiltinAction::SetWorkspaceTiling { .. } => BuiltinActionKind::SetWorkspaceTiling,
            BuiltinAction::SetMonitorWorkspaceLayout { .. } => BuiltinActionKind::SetMonitorWorkspaceLayout,
            BuiltinAction::EnsureWorkspaces { .. } => BuiltinActionKind::EnsureWorkspaces,
            BuiltinAction::ClearWorkspaceLayoutRules { .. } => BuiltinActionKind::ClearWorkspaceLayoutRules,
            BuiltinAction::SetScrollingColumns { .. } => BuiltinActionKind::SetScrollingColumns,
            BuiltinAction::LockContainer { .. } => BuiltinActionKind::LockContainer,
            BuiltinAction::UnlockContainer { .. } => BuiltinActionKind::UnlockContainer,
            BuiltinAction::ToggleTitleBars => BuiltinActionKind::ToggleTitleBars,
            BuiltinAction::EnforceWorkspaceRules => BuiltinActionKind::EnforceWorkspaceRules,
            BuiltinAction::AddSessionFloatRule => BuiltinActionKind::AddSessionFloatRule,
            BuiltinAction::ClearSessionFloatRules => BuiltinActionKind::ClearSessionFloatRules,
            BuiltinAction::ResizeWindowEdge { .. } => BuiltinActionKind::ResizeWindowEdge,
            BuiltinAction::ResizeWindowEdgeByStep { .. } => BuiltinActionKind::ResizeWindowEdgeByStep,
            BuiltinAction::SetWindowHidingBehaviour { .. } => BuiltinActionKind::SetWindowHidingBehaviour,
            BuiltinAction::SetCrossMonitorMoveBehaviour { .. } => BuiltinActionKind::SetCrossMonitorMoveBehaviour,
            BuiltinAction::SetMonocleFocusBehaviour { .. } => BuiltinActionKind::SetMonocleFocusBehaviour,
            BuiltinAction::SetUnmanagedWindowOperationBehaviour { .. } => BuiltinActionKind::SetUnmanagedWindowOperationBehaviour,
            BuiltinAction::SetFocusFollowsMouse { .. } => BuiltinActionKind::SetFocusFollowsMouse,
            BuiltinAction::ToggleFocusFollowsMouse { .. } => BuiltinActionKind::ToggleFocusFollowsMouse,
            BuiltinAction::AddWorkspaceLayoutRule { .. } => BuiltinActionKind::AddWorkspaceLayoutRule,
            BuiltinAction::FocusNamedWorkspace { .. } => BuiltinActionKind::FocusNamedWorkspace,
            BuiltinAction::MoveContainerToNamedWorkspace { .. } => BuiltinActionKind::MoveContainerToNamedWorkspace,
            BuiltinAction::SendContainerToNamedWorkspace { .. } => BuiltinActionKind::SendContainerToNamedWorkspace,
            BuiltinAction::SetNamedWorkspaceContainerPadding { .. } => BuiltinActionKind::SetNamedWorkspaceContainerPadding,
            BuiltinAction::SetNamedWorkspacePadding { .. } => BuiltinActionKind::SetNamedWorkspacePadding,
            BuiltinAction::SetNamedWorkspaceTiling { .. } => BuiltinActionKind::SetNamedWorkspaceTiling,
            BuiltinAction::SetNamedWorkspaceLayout { .. } => BuiltinActionKind::SetNamedWorkspaceLayout,
            BuiltinAction::SetNamedWorkspaceCustomLayout { .. } => BuiltinActionKind::SetNamedWorkspaceCustomLayout,
            BuiltinAction::AddNamedWorkspaceLayoutRule { .. } => BuiltinActionKind::AddNamedWorkspaceLayoutRule,
            BuiltinAction::AddNamedWorkspaceCustomLayoutRule { .. } => BuiltinActionKind::AddNamedWorkspaceCustomLayoutRule,
            BuiltinAction::ClearNamedWorkspaceLayoutRules { .. } => BuiltinActionKind::ClearNamedWorkspaceLayoutRules,
            BuiltinAction::EnsureNamedWorkspaces { .. } => BuiltinActionKind::EnsureNamedWorkspaces,
            BuiltinAction::SetWorkspaceName { .. } => BuiltinActionKind::SetWorkspaceName,
            BuiltinAction::SetLayoutRatios { .. } => BuiltinActionKind::SetLayoutRatios,
            BuiltinAction::SetCustomLayout { .. } => BuiltinActionKind::SetCustomLayout,
            BuiltinAction::SetWorkspaceCustomLayout { .. } => BuiltinActionKind::SetWorkspaceCustomLayout,
            BuiltinAction::AddWorkspaceCustomLayoutRule { .. } => BuiltinActionKind::AddWorkspaceCustomLayoutRule,
            BuiltinAction::EagerFocus { .. } => BuiltinActionKind::EagerFocus,
            BuiltinAction::RemoveTitleBar { .. } => BuiltinActionKind::RemoveTitleBar,
            BuiltinAction::SetResizeStep { .. } => BuiltinActionKind::SetResizeStep,
            BuiltinAction::SetTransparencyEnabled { .. } => BuiltinActionKind::SetTransparencyEnabled,
            BuiltinAction::ToggleTransparency => BuiltinActionKind::ToggleTransparency,
            BuiltinAction::SetTransparencyAlpha { .. } => BuiltinActionKind::SetTransparencyAlpha,
            BuiltinAction::SetBorderEnabled { .. } => BuiltinActionKind::SetBorderEnabled,
            BuiltinAction::SetBorderColour { .. } => BuiltinActionKind::SetBorderColour,
            BuiltinAction::SetBorderWidth { .. } => BuiltinActionKind::SetBorderWidth,
            BuiltinAction::SetBorderOffset { .. } => BuiltinActionKind::SetBorderOffset,
            BuiltinAction::SetBorderStyle { .. } => BuiltinActionKind::SetBorderStyle,
            BuiltinAction::SetBorderImplementation { .. } => BuiltinActionKind::SetBorderImplementation,
        }
    }

    pub fn kind(&self) -> (r: BuiltinActionKind)
        ensures
            r == self.kind_spec(),
    {
        match self {
            BuiltinAction::FocusWindow { .. } => BuiltinActionKind::FocusWindow,
            BuiltinAction::MoveWindow { .. } => BuiltinActionKind::MoveWindow,
            BuiltinAction::ResizeWindow { .. } => BuiltinActionKind::ResizeWindow,
            BuiltinAction::ResizeWindowByStep { .. } => BuiltinActionKind::ResizeWindowByStep,
            BuiltinAction::SetWorkspaceLayout { .. } => BuiltinActionKind::SetWorkspaceLayout,
            BuiltinAction::ToggleWindowFloat { .. } => BuiltinActionKind::ToggleWindowFloat,
            BuiltinAction::CycleFocusWindow { .. } => BuiltinActionKind::CycleFocusWindow,
            BuiltinAction::CycleMoveWindow { .. } => BuiltinActionKind::CycleMoveWindow,
            BuiltinAction::ToggleWindowMonocle { .. } => BuiltinActionKind::ToggleWindowMonocle,
            BuiltinAction::ToggleWindowMaximize { .. } => BuiltinActionKind::ToggleWindowMaximize,
            BuiltinAction::ToggleContainerLock { .. } => BuiltinActionKind::ToggleContainerLock,
            BuiltinAction::StackWindow { .. } => BuiltinActionKind::StackWindow,
            BuiltinAction::UnstackWindow { .. } => BuiltinActionKind::UnstackWindow,
            BuiltinAction::StackAll => BuiltinActionKind::StackAll,
            BuiltinAction::UnstackAll => BuiltinActionKind::UnstackAll,
            BuiltinAction::CycleStack { .. } => BuiltinActionKind::CycleStack,
            BuiltinAction::CycleStackIndex { .. } => BuiltinActionKind::CycleStackIndex,
            BuiltinAction::FocusStackWindow { .. } => BuiltinActionKind::FocusStackWindow,
            BuiltinAction::FocusWorkspace { .. } => BuiltinActionKind::FocusWorkspace,
            BuiltinAction::CycleFocusWorkspace { .. } => BuiltinActionKind::CycleFocusWorkspace,
            BuiltinAction::CycleFocusEmptyWorkspace { .. } => BuiltinActionKind::CycleFocusEmptyWorkspace,
            BuiltinAction::FocusLastWorkspace => BuiltinActionKind::FocusLastWorkspace,
            BuiltinAction::CloseWorkspace => BuiltinActionKind::CloseWorkspace,
            BuiltinAction::FocusMonitor { .. } => BuiltinActionKind::FocusMonitor,
            BuiltinAction::CycleFocusMonitor { .. } => BuiltinActionKind::CycleFocusMonitor,
            BuiltinAction::FocusMonitorAtCursor => BuiltinActionKind::FocusMonitorAtCursor,
            BuiltinAction::FocusWorkspaceOnAllMonitors { .. } => BuiltinActionKind::FocusWorkspaceOnAllMonitors,
            BuiltinAction::FocusMonitorWorkspace { .. } => BuiltinActionKind::FocusMonitorWorkspace,
            BuiltinAction::CloseWindow { .. } => BuiltinActionKind::CloseWindow,
            BuiltinAction::MinimizeWindow { .. } => BuiltinActionKind::MinimizeWindow,
            BuiltinAction::ForceFocus { .. } => BuiltinActionKind::ForceFocus,
            BuiltinAction::PromoteContainer => BuiltinActionKind::PromoteContainer,
            BuiltinAction::PromoteContainerSwap => BuiltinActionKind::PromoteContainerSwap,
            BuiltinAction::PromoteFocus => BuiltinActionKind::PromoteFocus,
            BuiltinAction::PromoteWindow { .. } => BuiltinActionKind::PromoteWindow,
            BuiltinAction::NewWorkspace => BuiltinActionKind::NewWorkspace,
            BuiltinAction::ToggleTiling => BuiltinActionKind::ToggleTiling,
            BuiltinAction::CycleLayout { .. } => BuiltinActionKind::CycleLayout,
            BuiltinAction::FlipLayout { .. } => BuiltinActionKind::FlipLayout,
            BuiltinAction::ToggleWorkspaceLayer => BuiltinActionKind::ToggleWorkspaceLayer,
            BuiltinAction::MoveContainerToLastWorkspace => BuiltinActionKind::MoveContainerToLastWorkspace,
            BuiltinAction::SendContainerToLastWorkspace => BuiltinActionKind::SendContainerToLastWorkspace,
            BuiltinAction::MoveContainerToWorkspace { .. } => BuiltinActionKind::MoveContainerToWorkspace,
            BuiltinAction::CycleMoveContainerToWorkspace { .. } => BuiltinActionKind::CycleMoveContainerToWorkspace,
            BuiltinAction::SendContainerToWorkspace { .. } => BuiltinActionKind::SendContainerToWorkspace,
            BuiltinAction::CycleSendContainerToWorkspace { .. } => BuiltinActionKind::CycleSendContainerToWorkspace,
            BuiltinAction::MoveContainerToMonitor { .. } => BuiltinActionKind::MoveContainerToMonitor,
            BuiltinAction::CycleMoveContainerToMonitor { .. } => BuiltinActionKind::CycleMoveContainerToMonitor,
            BuiltinAction::SendContainerToMonitor { .. } => BuiltinActionKind::SendContainerToMonitor,
            BuiltinAction::CycleSendContainerToMonitor { .. } => BuiltinActionKind::CycleSendContainerToMonitor,
            BuiltinAction::MoveContainerToMonitorWorkspace { .. } => BuiltinActionKind::MoveContainerToMonitorWorkspace,
            BuiltinAction::SendContainerToMonitorWorkspace { .. } => BuiltinActionKind::SendContainerToMonitorWorkspace,
            BuiltinAction::MoveWorkspaceToMonitor { .. } => BuiltinActionKind::MoveWorkspaceToMonitor,
            BuiltinAction::CycleMoveWorkspaceToMonitor { .. } => BuiltinActionKind::CycleMoveWorkspaceToMonitor,
            BuiltinAction::SwapWorkspacesToMonitor { .. } => BuiltinActionKind::SwapWorkspacesToMonitor,
            BuiltinAction::PreselectDirection { .. } => BuiltinActionKind::PreselectDirection,
            BuiltinAction::CancelPreselect => BuiltinActionKind::CancelPreselect,
            BuiltinAction::Retile => BuiltinActionKind::Retile,
            BuiltinAction::RetileWithResizeDimensions => BuiltinActionKind::RetileWithResizeDimensions,
            BuiltinAction::ManageFocusedWindow => BuiltinActionKind::ManageFocusedWindow,
            BuiltinAction::UnmanageFocusedWindow => BuiltinActionKind::UnmanageFocusedWindow,
            BuiltinAction::AdjustContainerPadding { .. } => BuiltinActionKind::AdjustContainerPadding,
            BuiltinAction::AdjustWorkspacePadding { .. } => BuiltinActionKind::AdjustWorkspacePadding,
            BuiltinAction::ToggleMouseFollowsFocus => BuiltinActionKind::ToggleMouseFollowsFocus,
            BuiltinAction::SetMouseFollowsFocus { .. } => BuiltinActionKind::SetMouseFollowsFocus,
            BuiltinAction::ToggleWindowContainerBehaviour => BuiltinActionKind::ToggleWindowContainerBehaviour,
            BuiltinAction::ToggleFloatOverride => BuiltinActionKind::ToggleFloatOverride,
            BuiltinAction::ToggleWorkspaceWindowContainerBehaviour => BuiltinActionKind::ToggleWorkspaceWindowContainerBehaviour,
            BuiltinAction::ToggleWorkspaceFloatOverride => BuiltinActionKind::ToggleWorkspaceFloatOverride,
            BuiltinAction::ToggleCrossMonitorMoveBehaviour => BuiltinActionKind::ToggleCrossMonitorMoveBehaviour,
            BuiltinAction::ToggleMonocleFocusBehaviour => BuiltinActionKind::ToggleMonocleFocusBehaviour,
            BuiltinAction::TogglePause => BuiltinActionKind::TogglePause,
            BuiltinAction::SetFocusedContainerPadding { .. } => BuiltinActionKind::SetFocusedContainerPadding,
            BuiltinAction::SetFocusedWorkspacePadding { .. } => BuiltinActionKind::SetFocusedWorkspacePadding,
            BuiltinAction::SetContainerPadding { .. } => BuiltinActionKind::SetContainerPadding,
            BuiltinAction::SetWorkspacePadding { .. } => BuiltinActionKind::SetWorkspacePadding,
            BuiltinAction::SetWorkspaceTiling { .. } => BuiltinActionKind::SetWorkspaceTiling,
            BuiltinAction::SetMonitorWorkspaceLayout { .. } => BuiltinActionKind::SetMonitorWorkspaceLayout,
            BuiltinAction::EnsureWorkspaces { .. } => BuiltinActionKind::EnsureWorkspaces,
            BuiltinAction::ClearWorkspaceLayoutRules { .. } => BuiltinActionKind::ClearWorkspaceLayoutRules,
            BuiltinAction::SetScrollingColumns { .. } => BuiltinActionKind::SetScrollingColumns,
            BuiltinAction::LockContainer { .. } => BuiltinActionKind::LockContainer,
            BuiltinAction::UnlockContainer { .. } => BuiltinActionKind::UnlockContainer,
            BuiltinAction::ToggleTitleBars => BuiltinActionKind::ToggleTitleBars,
            BuiltinAction::EnforceWorkspaceRules => BuiltinActionKind::EnforceWorkspaceRules,
            BuiltinAction::AddSessionFloatRule => BuiltinActionKind::AddSessionFloatRule,
            BuiltinAction::ClearSessionFloatRules => BuiltinActionKind::ClearSessionFloatRules,
            BuiltinAction::ResizeWindowEdge { .. } => BuiltinActionKind::ResizeWindowEdge,
            BuiltinAction::ResizeWindowEdgeByStep { .. } => BuiltinActionKind::ResizeWindowEdgeByStep,
            BuiltinAction::SetWindowHidingBehaviour { .. } => BuiltinActionKind::SetWindowHidingBehaviour,
            BuiltinAction::SetCrossMonitorMoveBehaviour { .. } => BuiltinActionKind::SetCrossMonitorMoveBehaviour,
            BuiltinAction::SetMonocleFocusBehaviour { .. } => BuiltinActionKind::SetMonocleFocusBehaviour,
            BuiltinAction::SetUnmanagedWindowOperationBehaviour { .. } => BuiltinActionKind::SetUnmanagedWindowOperationBehaviour,
            BuiltinAction::SetFocusFollowsMouse { .. } => BuiltinActionKind::SetFocusFollowsMouse,
            BuiltinAction::ToggleFocusFollowsMouse { .. } => BuiltinActionKind::ToggleFocusFollowsMouse,
            BuiltinAction::AddWorkspaceLayoutRule { .. } => BuiltinActionKind::AddWorkspaceLayoutRule,
            BuiltinAction::FocusNamedWorkspace { .. } => BuiltinActionKind::FocusNamedWorkspace,
            BuiltinAction::MoveContainerToNamedWorkspace { .. } => BuiltinActionKind::MoveContainerToNamedWorkspace,
            BuiltinAction::SendContainerToNamedWorkspace { .. } => BuiltinActionKind::SendContainerToNamedWorkspace,
            BuiltinAction::SetNamedWorkspaceContainerPadding { .. } => BuiltinActionKind::SetNamedWorkspaceContainerPadding,
            BuiltinAction::SetNamedWorkspacePadding { .. } => BuiltinActionKind::SetNamedWorkspacePadding,
            BuiltinAction::SetNamedWorkspaceTiling { .. } => BuiltinActionKind::SetNamedWorkspaceTiling,
            BuiltinAction::SetNamedWorkspaceLayout { .. } => BuiltinActionKind::SetNamedWorkspaceLayout,
            BuiltinAction::SetNamedWorkspaceCustomLayout { .. } => BuiltinActionKind::SetNamedWorkspaceCustomLayout,
            BuiltinAction::AddNamedWorkspaceLayoutRule { .. } => BuiltinActionKind::AddNamedWorkspaceLayoutRule,
            BuiltinAction::AddNamedWorkspaceCustomLayoutRule { .. } => BuiltinActionKind::AddNamedWorkspaceCustomLayoutRule,
            BuiltinAction::ClearNamedWorkspaceLayoutRules { .. } => BuiltinActionKind::ClearNamedWorkspaceLayoutRules,
            BuiltinAction::EnsureNamedWorkspaces { .. } => BuiltinActionKind::EnsureNamedWorkspaces,
            BuiltinAction::SetWorkspaceName { .. } => BuiltinActionKind::SetWorkspaceName,
            BuiltinAction::SetLayoutRatios { .. } => BuiltinActionKind::SetLayoutRatios,
            BuiltinAction::SetCustomLayout { .. } => BuiltinActionKind::SetCustomLayout,
            BuiltinAction::SetWorkspaceCustomLayout { .. } => BuiltinActionKind::SetWorkspaceCustomLayout,
            BuiltinAction::AddWorkspaceCustomLayoutRule { .. } => BuiltinActionKind::AddWorkspaceCustomLayoutRule,
            BuiltinAction::EagerFocus { .. } => BuiltinActionKind::EagerFocus,
            BuiltinAction::RemoveTitleBar { .. } => BuiltinActionKind::RemoveTitleBar,
            BuiltinAction::SetResizeStep { .. } => BuiltinActionKind::SetResizeStep,
            BuiltinAction::SetTransparencyEnabled { .. } => BuiltinActionKind::SetTransparencyEnabled,
            BuiltinAction::ToggleTransparency => BuiltinActionKind::ToggleTransparency,
            BuiltinAction::SetTransparencyAlpha { .. } => BuiltinActionKind::SetTransparencyAlpha,
            BuiltinAction::SetBorderEnabled { .. } => BuiltinActionKind::SetBorderEnabled,
            BuiltinAction::SetBorderColour { .. } => BuiltinActionKind::SetBorderColour,
            BuiltinAction::SetBorderWidth { .. } => BuiltinActionKind::SetBorderWidth,
            BuiltinAction::SetBorderOffset { .. } => BuiltinActionKind::SetBorderOffset,
            BuiltinAction::SetBorderStyle { .. } => BuiltinActionKind::SetBorderStyle,
            BuiltinAction::SetBorderImplementation { .. } => BuiltinActionKind::SetBorderImplementation,
        }
    }

    /// A copy of this action.
    pub fn duplicate(&self) -> (r: BuiltinAction)
        ensures
            same_action(*self, r),
    {
        reveal(same_name_lists);
        match self {
            BuiltinAction::FocusWindow { direction } => BuiltinAction::FocusWindow { direction: *direction },
            BuiltinAction::MoveWindow { direction } => BuiltinAction::MoveWindow { direction: *direction },
            BuiltinAction::ResizeWindow { axis, delta } => BuiltinAction::ResizeWindow { axis: *axis, delta: *delta },
            BuiltinAction::ResizeWindowByStep { axis, sizing } => BuiltinAction::ResizeWindowByStep { axis: *axis, sizing: *sizing },
            BuiltinAction::SetWorkspaceLayout { workspace, layout } => BuiltinAction::SetWorkspaceLayout { workspace: *workspace, layout: *layout },
            BuiltinAction::ToggleWindowFloat { window } => BuiltinAction::ToggleWindowFloat { window: *window },
            BuiltinAction::CycleFocusWindow { direction } => BuiltinAction::CycleFocusWindow { direction: *direction },
            BuiltinAction::CycleMoveWindow { direction } => BuiltinAction::CycleMoveWindow { direction: *direction },
            BuiltinAction::ToggleWindowMonocle { window } => BuiltinAction::ToggleWindowMonocle { window: *window },
            BuiltinAction::ToggleWindowMaximize { window } => BuiltinAction::ToggleWindowMaximize { window: *window },
            BuiltinAction::ToggleContainerLock { window } => BuiltinAction::ToggleContainerLock { window: *window },
            BuiltinAction::StackWindow { direction } => BuiltinAction::StackWindow { direction: *direction },
            BuiltinAction::UnstackWindow { window } => BuiltinAction::UnstackWindow { window: *window },
            BuiltinAction::StackAll => BuiltinAction::StackAll,
            BuiltinAction::UnstackAll => BuiltinAction::UnstackAll,
            BuiltinAction::CycleStack { direction } => BuiltinAction::CycleStack { direction: *direction },
            BuiltinAction::CycleStackIndex { direction } => BuiltinAction::CycleStackIndex { direction: *direction },
            BuiltinAction::FocusStackWindow { index } => BuiltinAction::FocusStackWindow { index: *index },
            BuiltinAction::FocusWorkspace { index } => BuiltinAction::FocusWorkspace { index: *index },
            BuiltinAction::CycleFocusWorkspace { direction } => BuiltinAction::CycleFocusWorkspace { direction: *direction },
            BuiltinAction::CycleFocusEmptyWorkspace { direction } => BuiltinAction::CycleFocusEmptyWorkspace { direction: *direction },
            BuiltinAction::FocusLastWorkspace => BuiltinAction::FocusLastWorkspace,
            BuiltinAction::CloseWorkspace => BuiltinAction::CloseWorkspace,
            BuiltinAction::FocusMonitor { index } => BuiltinAction::FocusMonitor { index: *index },
            BuiltinAction::CycleFocusMonitor { direction } => BuiltinAction::CycleFocusMonitor { direction: *direction },
            BuiltinAction::FocusMonitorAtCursor => BuiltinAction::FocusMonitorAtCursor,
            BuiltinAction::FocusWorkspaceOnAllMonitors { index } => BuiltinAction::FocusWorkspaceOnAllMonitors { index: *index },
            BuiltinAction::FocusMonitorWorkspace { monitor, workspace } => BuiltinAction::FocusMonitorWorkspace { monitor: *monitor, workspace: *workspace },
            BuiltinAction::CloseWindow { window } => BuiltinAction::CloseWindow { window: *window },
            BuiltinAction::MinimizeWindow { window } => BuiltinAction::MinimizeWindow { window: *window },
            BuiltinAction::ForceFocus { window } => BuiltinAction::ForceFocus { window: *window },
            BuiltinAction::PromoteContainer => BuiltinAction::PromoteContainer,
            BuiltinAction::PromoteContainerSwap => BuiltinAction::PromoteContainerSwap,
            BuiltinAction::PromoteFocus => BuiltinAction::PromoteFocus,
            BuiltinAction::PromoteWindow { direction } => BuiltinAction::PromoteWindow { direction: *direction },
            BuiltinAction::NewWorkspace => BuiltinAction::NewWorkspace,
            BuiltinAction::ToggleTiling => BuiltinAction::ToggleTiling,
            BuiltinAction::CycleLayout { direction } => BuiltinAction::CycleLayout { direction: *direction },
            BuiltinAction::FlipLayout { axis } => BuiltinAction::FlipLayout { axis: *axis },
            BuiltinAction::ToggleWorkspaceLayer => BuiltinAction::ToggleWorkspaceLayer,
            BuiltinAction::MoveContainerToLastWorkspace => BuiltinAction::MoveContainerToLastWorkspace,
            BuiltinAction::SendContainerToLastWorkspace => BuiltinAction::SendContainerToLastWorkspace,
            BuiltinAction::MoveContainerToWorkspace { index } => BuiltinAction::MoveContainerToWorkspace { index: *index },
            BuiltinAction::CycleMoveContainerToWorkspace { direction } => BuiltinAction::CycleMoveContainerToWorkspace { direction: *direction },
            BuiltinAction::SendContainerToWorkspace { index } => BuiltinAction::SendContainerToWorkspace { index: *index },
            BuiltinAction::CycleSendContainerToWorkspace { direction } => BuiltinAction::CycleSendContainerToWorkspace { direction: *direction },
            BuiltinAction::MoveContainerToMonitor { index } => BuiltinAction::MoveContainerToMonitor { index: *index },
            BuiltinAction::CycleMoveContainerToMonitor { direction } => BuiltinAction::CycleMoveContainerToMonitor { direction: *direction },
            BuiltinAction::SendContainerToMonitor { index } => BuiltinAction::SendContainerToMonitor { index: *index },
            BuiltinAction::CycleSendContainerToMonitor { direction } => BuiltinAction::CycleSendContainerToMonitor { direction: *direction },
            BuiltinAction::MoveContainerToMonitorWorkspace { monitor, workspace } => BuiltinAction::MoveContainerToMonitorWorkspace { monitor: *monitor, workspace: *workspace },
            BuiltinAction::SendContainerToMonitorWorkspace { monitor, workspace } => BuiltinAction::SendContainerToMonitorWorkspace { monitor: *monitor, workspace: *workspace },
            BuiltinAction::MoveWorkspaceToMonitor { index } => BuiltinAction::MoveWorkspaceToMonitor { index: *index },
            BuiltinAction::CycleMoveWorkspaceToMonitor { direction } => BuiltinAction::CycleMoveWorkspaceToMonitor { direction: *direction },
            BuiltinAction::SwapWorkspacesToMonitor { index } => BuiltinAction::SwapWorkspacesToMonitor { index: *index },
            BuiltinAction::PreselectDirection { direction } => BuiltinAction::PreselectDirection { direction: *direction },
            BuiltinAction::CancelPreselect => BuiltinAction::CancelPreselect,
            BuiltinAction::Retile => BuiltinAction::Retile,
            BuiltinAction::RetileWithResizeDimensions => BuiltinAction::RetileWithResizeDimensions,
            BuiltinAction::ManageFocusedWindow => BuiltinAction::ManageFocusedWindow,
            BuiltinAction::UnmanageFocusedWindow => BuiltinAction::UnmanageFocusedWindow,
            BuiltinAction::AdjustContainerPadding { sizing, adjustment } => BuiltinAction::AdjustContainerPadding { sizing: *sizing, adjustment: *adjustment },
            BuiltinAction::AdjustWorkspacePadding { sizing, adjustment } => BuiltinAction::AdjustWorkspacePadding { sizing: *sizing, adjustment: *adjustment },
            BuiltinAction::ToggleMouseFollowsFocus => BuiltinAction::ToggleMouseFollowsFocus,
            BuiltinAction::SetMouseFollowsFocus { enabled } => BuiltinAction::SetMouseFollowsFocus { enabled: *enabled },
            BuiltinAction::ToggleWindowContainerBehaviour => BuiltinAction::ToggleWindowContainerBehaviour,
            BuiltinAction::ToggleFloatOverride => BuiltinAction::ToggleFloatOverride,
            BuiltinAction::ToggleWorkspaceWindowContainerBehaviour => BuiltinAction::ToggleWorkspaceWindowContainerBehaviour,
            BuiltinAction::ToggleWorkspaceFloatOverride => BuiltinAction::ToggleWorkspaceFloatOverride,
            BuiltinAction::ToggleCrossMonitorMoveBehaviour => BuiltinAction::ToggleCrossMonitorMoveBehaviour,
            BuiltinAction::ToggleMonocleFocusBehaviour => BuiltinAction::ToggleMonocleFocusBehaviour,
            BuiltinAction::TogglePause => BuiltinAction::TogglePause,
            BuiltinAction::SetFocusedContainerPadding { size } => BuiltinAction::SetFocusedContainerPadding { size: *size },
            BuiltinAction::SetFocusedWorkspacePadding { size } => BuiltinAction::SetFocusedWorkspacePadding { size: *size },
            BuiltinAction::SetContainerPadding { monitor, workspace, size } => BuiltinAction::SetContainerPadding { monitor: *monitor, workspace: *workspace, size: *size },
            BuiltinAction::SetWorkspacePadding { monitor, workspace, size } => BuiltinAction::SetWorkspacePadding { monitor: *monitor, workspace: *workspace, size: *size },
            BuiltinAction::SetWorkspaceTiling { monitor, workspace, tile } => BuiltinAction::SetWorkspaceTiling { monitor: *monitor, workspace: *workspace, tile: *tile },
            BuiltinAction::SetMonitorWorkspaceLayout { monitor, workspace, layout } => BuiltinAction::SetMonitorWorkspaceLayout { monitor: *monitor, workspace: *workspace, layout: *layout },
            BuiltinAction::EnsureWorkspaces { monitor, count } => BuiltinAction::EnsureWorkspaces { monitor: *monitor, count: *count },
            BuiltinAction::ClearWorkspaceLayoutRules { monitor, workspace } => BuiltinAction::ClearWorkspaceLayoutRules { monitor: *monitor, workspace: *workspace },
            BuiltinAction::SetScrollingColumns { columns } => BuiltinAction::SetScrollingColumns { columns: *columns },
            BuiltinAction::LockContainer { monitor, workspace, container } => BuiltinAction::LockContainer { monitor: *monitor, workspace: *workspace, container: *container },
            BuiltinAction::UnlockContainer { monitor, workspace, container } => BuiltinAction::UnlockContainer { monitor: *monitor, workspace: *workspace, container: *container },
            BuiltinAction::ToggleTitleBars => BuiltinAction::ToggleTitleBars,
            BuiltinAction::EnforceWorkspaceRules => BuiltinAction::EnforceWorkspaceRules,
            BuiltinAction::AddSessionFloatRule => BuiltinAction::AddSessionFloatRule,
            BuiltinAction::ClearSessionFloatRules => BuiltinAction::ClearSessionFloatRules,
            BuiltinAction::ResizeWindowEdge { direction, delta } => BuiltinAction::ResizeWindowEdge { direction: *direction, delta: *delta },
            BuiltinAction::ResizeWindowEdgeByStep { direction, sizing } => BuiltinAction::ResizeWindowEdgeByStep { direction: *direction, sizing: *sizing },
            BuiltinAction::SetWindowHidingBehaviour { behaviour } => BuiltinAction::SetWindowHidingBehaviour { behaviour: *behaviour },
            BuiltinAction::SetCrossMonitorMoveBehaviour { behaviour } => BuiltinAction::SetCrossMonitorMoveBehaviour { behaviour: *behaviour },
            BuiltinAction::SetMonocleFocusBehaviour { behaviour } => BuiltinAction::SetMonocleFocusBehaviour { behaviour: *behaviour },
            BuiltinAction::SetUnmanagedWindowOperationBehaviour { behaviour } => BuiltinAction::SetUnmanagedWindowOperationBehaviour { behaviour: *behaviour },
            BuiltinAction::SetFocusFollowsMouse { implementation, enabled } => BuiltinAction::SetFocusFollowsMouse { implementation: *implementation, enabled: *enabled },
            BuiltinAction::ToggleFocusFollowsMouse { implementation } => BuiltinAction::ToggleFocusFollowsMouse { implementation: *implementation },
            BuiltinAction::AddWorkspaceLayoutRule { monitor, workspace, at_container_count, layout } => BuiltinAction::AddWorkspaceLayoutRule { monitor: *monitor, workspace: *workspace, at_container_count: *at_container_count, layout: *layout },
            BuiltinAction::FocusNamedWorkspace { name } => BuiltinAction::FocusNamedWorkspace { name: name.duplicate() },
            BuiltinAction::MoveContainerToNamedWorkspace { name } => BuiltinAction::MoveContainerToNamedWorkspace { name: name.duplicate() },
            BuiltinAction::SendContainerToNamedWorkspace { name } => BuiltinAction::SendContainerToNamedWorkspace { name: name.duplicate() },
            BuiltinAction::SetNamedWorkspaceContainerPadding { name, size } => BuiltinAction::SetNamedWorkspaceContainerPadding { name: name.duplicate(), size: *size },
            BuiltinAction::SetNamedWorkspacePadding { name, size } => BuiltinAction::SetNamedWorkspacePadding { name: name.duplicate(), size: *size },
            BuiltinAction::SetNamedWorkspaceTiling { name, tile } => BuiltinAction::SetNamedWorkspaceTiling { name: name.duplicate(), tile: *tile },
            BuiltinAction::SetNamedWorkspaceLayout { name, layout } => BuiltinAction::SetNamedWorkspaceLayout { name: name.duplicate(), layout: *layout },
            BuiltinAction::SetNamedWorkspaceCustomLayout { name, path } => BuiltinAction::SetNamedWorkspaceCustomLayout { name: name.duplicate(), path: path.duplicate() },
            BuiltinAction::AddNamedWorkspaceLayoutRule { name, at_container_count, layout } => BuiltinAction::AddNamedWorkspaceLayoutRule { name: name.duplicate(), at_container_count: *at_container_count, layout: *layout },
            BuiltinAction::AddNamedWorkspaceCustomLayoutRule { name, at_container_count, path } => BuiltinAction::AddNamedWorkspaceCustomLayoutRule { name: name.duplicate(), at_container_count: *at_container_count, path: path.duplicate() },
            BuiltinAction::ClearNamedWorkspaceLayoutRules { name } => BuiltinAction::ClearNamedWorkspaceLayoutRules { name: name.duplicate() },
            BuiltinAction::EnsureNamedWorkspaces { monitor, names } => BuiltinAction::EnsureNamedWorkspaces { monitor: *monitor, names: duplicate_names(names) },
            BuiltinAction::SetWorkspaceName { monitor, workspace, name } => BuiltinAction::SetWorkspaceName { monitor: *monitor, workspace: *workspace, name: name.duplicate() },
            BuiltinAction::SetLayoutRatios { columns, rows } => BuiltinAction::SetLayoutRatios { columns: duplicate_ratio_lists(columns), rows: duplicate_ratio_lists(rows) },
            BuiltinAction::SetCustomLayout { path } => BuiltinAction::SetCustomLayout { path: path.duplicate() },
            BuiltinAction::SetWorkspaceCustomLayout { monitor, workspace, path } => BuiltinAction::SetWorkspaceCustomLayout { monitor: *monitor, workspace: *workspace, path: path.duplicate() },
            BuiltinAction::AddWorkspaceCustomLayoutRule { monitor, workspace, at_container_count, path } => BuiltinAction::AddWorkspaceCustomLayoutRule { monitor: *monitor, workspace: *workspace, at_container_count: *at_container_count, path: path.duplicate() },
            BuiltinAction::EagerFocus { exe } => BuiltinAction::EagerFocus { exe: exe.clone() },
            BuiltinAction::RemoveTitleBar { identifier, id } => BuiltinAction::RemoveTitleBar { identifier: *identifier, id: id.clone() },
            BuiltinAction::SetResizeStep { step } => BuiltinAction::SetResizeStep { step: *step },
            BuiltinAction::SetTransparencyEnabled { enabled } => BuiltinAction::SetTransparencyEnabled { enabled: *enabled },
            BuiltinAction::ToggleTransparency => BuiltinAction::ToggleTransparency,
            BuiltinAction::SetTransparencyAlpha { alpha } => BuiltinAction::SetTransparencyAlpha { alpha: *alpha },
            BuiltinAction::SetBorderEnabled { enabled } => BuiltinAction::SetBorderEnabled { enabled: *enabled },
            BuiltinAction::SetBorderColour { window_kind, colour } => BuiltinAction::SetBorderColour { window_kind: *window_kind, colour: *colour },
            BuiltinAction::SetBorderWidth { width } => BuiltinAction::SetBorderWidth { width: *width },
            BuiltinAction::SetBorderOffset { offset } => BuiltinAction::SetBorderOffset { offset: *offset },
            BuiltinAction::SetBorderStyle { style } => BuiltinAction::SetBorderStyle { style: *style },
            BuiltinAction::SetBorderImplementation { implementation } => BuiltinAction::SetBorderImplementation { implementation: *implementation },
        }
    }

    /// Whether two actions are the same action with the same arguments.
    #[verifier::spinoff_prover]
    #[verifier::rlimit(100)]
    pub fn same_arguments(&self, other: &BuiltinAction) -> (r: bool)
        ensures
            r == same_action(*self, *other),
    {
        match self {
            BuiltinAction::FocusWindow { direction: a_direction } => match other {
                BuiltinAction::FocusWindow { direction: b_direction } => *a_direction == *b_direction,
                _ => false,
            },
            BuiltinAction::MoveWindow { direction: a_direction } => match other {
                BuiltinAction::MoveWindow { direction: b_direction } => *a_direction == *b_direction,
                _ => false,
            },
            BuiltinAction::ResizeWindow { axis: a_axis, delta: a_delta } => match other {
                BuiltinAction::ResizeWindow { axis: b_axis, delta: b_delta } => *a_axis == *b_axis && *a_delta == *b_delta,
                _ => false,
            },
            BuiltinAction::ResizeWindowByStep { axis: a_axis, sizing: a_sizing } => match other {
                BuiltinAction::ResizeWindowByStep { axis: b_axis, sizing: b_sizing } => *a_axis == *b_axis && *a_sizing == *b_sizing,
                _ => false,
            },
            BuiltinAction::SetWorkspaceLayout { workspace: a_workspace, layout: a_layout } => match other {
                BuiltinAction::SetWorkspaceLayout { workspace: b_workspace, layout: b_layout } => *a_workspace == *b_workspace && *a_layout == *b_layout,
                _ => false,
            },
            BuiltinAction::ToggleWindowFloat { window: a_window } => match other {
                BuiltinAction::ToggleWindowFloat { window: b_window } => *a_window == *b_window,
                _ => false,
            },
            BuiltinAction::CycleFocusWindow { direction: a_direction } => match other {
                BuiltinAction::CycleFocusWindow { direction: b_direction } => *a_direction == *b_direction,
                _ => false,
            },
            BuiltinAction::CycleMoveWindow { direction: a_direction } => match other {
                BuiltinAction::CycleMoveWindow { direction: b_direction } => *a_direction == *b_direction,
                _ => false,
            },
            BuiltinAction::ToggleWindowMonocle { window: a_window } => match other {
                BuiltinAction::ToggleWindowMonocle { window: b_window } => *a_window == *b_window,
                _ => false,
            },
            BuiltinAction::ToggleWindowMaximize { window: a_window } => match other {
                BuiltinAction::ToggleWindowMaximize { window: b_window } => *a_window == *b_window,
                _ => false,
            },
            BuiltinAction::ToggleContainerLock { window: a_window } => match other {
                BuiltinAction::ToggleContainerLock { window: b_window } => *a_window == *b_window,
                _ => false,
            },
            BuiltinAction::StackWindow { direction: a_direction } => match other {
                BuiltinAction::StackWindow { direction: b_direction } => *a_direction == *b_direction,
                _ => false,
            },
            BuiltinAction::UnstackWindow { window: a_window } => match other {
                BuiltinAction::UnstackWindow { window: b_window } => *a_window == *b_window,
                _ => false,
            },
            BuiltinAction::StackAll => matches!(other, BuiltinAction::StackAll),
            BuiltinAction::UnstackAll => matches!(other, BuiltinAction::UnstackAll),
            BuiltinAction::CycleStack { direction: a_direction } => match other {
                BuiltinAction::CycleStack { direction: b_direction } => *a_direction == *b_direction,
                _ => false,
            },
            BuiltinAction::CycleStackIndex { direction: a_direction } => match other {
                BuiltinAction::CycleStackIndex { direction: b_direction } => *a_direction == *b_direction,
                _ => false,
            },
            BuiltinAction::FocusStackWindow { index: a_index } => match other {
                BuiltinAction::FocusStackWindow { index: b_index } => *a_index == *b_index,
                _ => false,
            },
            BuiltinAction::FocusWorkspace { index: a_index } => match other {
                BuiltinAction::FocusWorkspace { index: b_index } => *a_index == *b_index,
                _ => false,
            },
            BuiltinAction::CycleFocusWorkspace { direction: a_direction } => match other {
                BuiltinAction::CycleFocusWorkspace { direction: b_direction } => *a_direction == *b_direction,
                _ => false,
            },
            BuiltinAction::CycleFocusEmptyWorkspace { direction: a_direction } => match other {
                BuiltinAction::CycleFocusEmptyWorkspace { direction: b_direction } => *a_direction == *b_direction,
                _ => false,
            },
            BuiltinAction::FocusLastWorkspace => matches!(other, BuiltinAction::FocusLastWorkspace),
            BuiltinAction::CloseWorkspace => matches!(other, BuiltinAction::CloseWorkspace),
            BuiltinAction::FocusMonitor { index: a_index } => match other {
                BuiltinAction::FocusMonitor { index: b_index } => *a_index == *b_index,
                _ => false,
            },
            BuiltinAction::CycleFocusMonitor { direction: a_direction } => match other {
                BuiltinAction::CycleFocusMonitor { direction: b_direction } => *a_direction == *b_direction,
                _ => false,
            },
            BuiltinAction::FocusMonitorAtCursor => matches!(other, BuiltinAction::FocusMonitorAtCursor),
            BuiltinAction::FocusWorkspaceOnAllMonitors { index: a_index } => match other {
                BuiltinAction::FocusWorkspaceOnAllMonitors { index: b_index } => *a_index == *b_index,
                _ => false,
            },
            BuiltinAction::FocusMonitorWorkspace { monitor: a_monitor, workspace: a_workspace } => match other {
                BuiltinAction::FocusMonitorWorkspace { monitor: b_monitor, workspace: b_workspace } => *a_monitor == *b_monitor && *a_workspace == *b_workspace,
                _ => false,
            },
            BuiltinAction::CloseWindow { window: a_window } => match other {
                BuiltinAction::CloseWindow { window: b_window } => *a_window == *b_window,
                _ => false,
            },
            BuiltinAction::MinimizeWindow { window: a_window } => match other {
                BuiltinAction::MinimizeWindow { window: b_window } => *a_window == *b_window,
                _ => false,
            },
            BuiltinAction::ForceFocus { window: a_window } => match other {
                BuiltinAction::ForceFocus { window: b_window } => *a_window == *b_window,
                _ => false,
            },
            BuiltinAction::PromoteContainer => matches!(other, BuiltinAction::PromoteContainer),
            _ => self.same_arguments_second_part(other),
        }
    }

    /// The second part of the comparison.
    #[verifier::spinoff_prover]
    #[verifier::rlimit(100)]
    fn same_arguments_second_part(&self, other: &BuiltinAction) -> (r: bool)
        requires
            !compared_in_first_part(*self),
        ensures
            r == same_action(*self, *other),
    {
        match self {
            BuiltinAction::PromoteContainerSwap => matches!(other, BuiltinAction::PromoteContainerSwap),
            BuiltinAction::PromoteFocus => matches!(other, BuiltinAction::PromoteFocus),
            BuiltinAction::PromoteWindow { direction: a_direction } => match other {
                BuiltinAction::PromoteWindow { direction: b_direction } => *a_direction == *b_direction,
                _ => false,
            },
            BuiltinAction::NewWorkspace => matches!(other, BuiltinAction::NewWorkspace),
            BuiltinAction::ToggleTiling => matches!(other, BuiltinAction::ToggleTiling),
            BuiltinAction::CycleLayout { direction: a_direction } => match other {
                BuiltinAction::CycleLayout { direction: b_direction } => *a_direction == *b_direction,
                _ => false,
            },
            BuiltinAction::FlipLayout { axis: a_axis } => match other {
                BuiltinAction::FlipLayout { axis: b_axis } => *a_axis == *b_axis,
                _ => false,
            },
            BuiltinAction::ToggleWorkspaceLayer => matches!(other, BuiltinAction::ToggleWorkspaceLayer),
            BuiltinAction::MoveContainerToLastWorkspace => matches!(other, BuiltinAction::MoveContainerToLastWorkspace),
            BuiltinAction::SendContainerToLastWorkspace => matches!(other, BuiltinAction::SendContainerToLastWorkspace),
            BuiltinAction::MoveContainerToWorkspace { index: a_index } => match other {
                BuiltinAction::MoveContainerToWorkspace { index: b_index } => *a_index == *b_index,
                _ => false,
            },
            BuiltinAction::CycleMoveContainerToWorkspace { direction: a_direction } => match other {
                BuiltinAction::CycleMoveContainerToWorkspace { direction: b_direction } => *a_direction == *b_direction,
                _ => false,
            },
            BuiltinAction::SendContainerToWorkspace { index: a_index } => match other {
                BuiltinAction::SendContainerToWorkspace { index: b_index } => *a_index == *b_index,
                _ => false,
            },
            BuiltinAction::CycleSendContainerToWorkspace { direction: a_direction } => match other {
                BuiltinAction::CycleSendContainerToWorkspace { direction: b_direction } => *a_direction == *b_direction,
                _ => false,
            },
            BuiltinAction::MoveContainerToMonitor { index: a_index } => match other {
                BuiltinAction::MoveContainerToMonitor { index: b_index } => *a_index == *b_index,
                _ => false,
            },
            BuiltinAction::CycleMoveContainerToMonitor { direction: a_direction } => match other {
                BuiltinAction::CycleMoveContainerToMonitor { direction: b_direction } => *a_direction == *b_direction,
                _ => false,
            },
            BuiltinAction::SendContainerToMonitor { index: a_index } => match other {
                BuiltinAction::SendContainerToMonitor { index: b_index } => *a_index == *b_index,
                _ => false,
            },
            BuiltinAction::CycleSendContainerToMonitor { direction: a_direction } => match other {
                BuiltinAction::CycleSendContainerToMonitor { direction: b_direction } => *a_direction == *b_direction,
                _ => false,
            },
            BuiltinAction::MoveContainerToMonitorWorkspace { monitor: a_monitor, workspace: a_workspace } => match other {
                BuiltinAction::MoveContainerToMonitorWorkspace { monitor: b_monitor, workspace: b_workspace } => *a_monitor == *b_monitor && *a_workspace == *b_workspace,
                _ => false,
            },
            BuiltinAction::SendContainerToMonitorWorkspace { monitor: a_monitor, workspace: a_workspace } => match other {
                BuiltinAction::SendContainerToMonitorWorkspace { monitor: b_monitor, workspace: b_workspace } => *a_monitor == *b_monitor && *a_workspace == *b_workspace,
                _ => false,
            },
            BuiltinAction::MoveWorkspaceToMonitor { index: a_index } => match other {
                BuiltinAction::MoveWorkspaceToMonitor { index: b_index } => *a_index == *b_index,
                _ => false,
            },
            BuiltinAction::CycleMoveWorkspaceToMonitor { direction: a_direction } => match other {
                BuiltinAction::CycleMoveWorkspaceToMonitor { direction: b_direction } => *a_direction == *b_direction,
                _ => false,
            },
            BuiltinAction::SwapWorkspacesToMonitor { index: a_index } => match other {
                BuiltinAction::SwapWorkspacesToMonitor { index: b_index } => *a_index == *b_index,
                _ => false,
            },
            BuiltinAction::PreselectDirection { direction: a_direction } => match other {
                BuiltinAction::PreselectDirection { direction: b_direction } => *a_direction == *b_direction,
                _ => false,
            },
            BuiltinAction::CancelPreselect => matches!(other, BuiltinAction::CancelPreselect),
            BuiltinAction::Retile => matches!(other, BuiltinAction::Retile),
            BuiltinAction::RetileWithResizeDimensions => matches!(other, BuiltinAction::RetileWithResizeDimensions),
            BuiltinAction::ManageFocusedWindow => matches!(other, BuiltinAction::ManageFocusedWindow),
            BuiltinAction::UnmanageFocusedWindow => matches!(other, BuiltinAction::UnmanageFocusedWindow),
            BuiltinAction::AdjustContainerPadding { sizing: a_sizing, adjustment: a_adjustment } => match other {
                BuiltinAction::AdjustContainerPadding { sizing: b_sizing, adjustment: b_adjustment } => *a_sizing == *b_sizing && *a_adjustment == *b_adjustment,
                _ => false,
            },
            BuiltinAction::AdjustWorkspacePadding { sizing: a_sizing, adjustment: a_adjustment } => match other {
                BuiltinAction::AdjustWorkspacePadding { sizing: b_sizing, adjustment: b_adjustment } => *a_sizing == *b_sizing && *a_adjustment == *b_adjustment,
                _ => false,
            },
            BuiltinAction::ToggleMouseFollowsFocus => matches!(other, BuiltinAction::ToggleMouseFollowsFocus),
            _ => self.same_arguments_third_part(other),
        }
    }

    /// The third part of the comparison.
    #[verifier::spinoff_prover]
    #[verifier::rlimit(100)]
    fn same_arguments_third_part(&self, other: &BuiltinAction) -> (r: bool)
        requires
            !compared_in_first_part(*self),
            !compared_in_second_part(*self),
        ensures
            r == same_action(*self, *other),
    {
        match self {
            BuiltinAction::SetMouseFollowsFocus { enabled: a_enabled } => match other {
                BuiltinAction::SetMouseFollowsFocus { enabled: b_enabled } => *a_enabled == *b_enabled,
                _ => false,
            },
            BuiltinAction::ToggleWindowContainerBehaviour => matches!(other, BuiltinAction::ToggleWindowContainerBehaviour),
            BuiltinAction::ToggleFloatOverride => matches!(other, BuiltinAction::ToggleFloatOverride),
            BuiltinAction::ToggleWorkspaceWindowContainerBehaviour => matches!(other, BuiltinAction::ToggleWorkspaceWindowContainerBehaviour),
            BuiltinAction::ToggleWorkspaceFloatOverride => matches!(other, BuiltinAction::ToggleWorkspaceFloatOverride),
            BuiltinAction::ToggleCrossMonitorMoveBehaviour => matches!(other, BuiltinAction::ToggleCrossMonitorMoveBehaviour),
            BuiltinAction::ToggleMonocleFocusBehaviour => matches!(other, BuiltinAction::ToggleMonocleFocusBehaviour),
            BuiltinAction::TogglePause => matches!(other, BuiltinAction::TogglePause),
            BuiltinAction::SetFocusedContainerPadding { size: a_size } => match other {
                BuiltinAction::SetFocusedContainerPadding { size: b_size } => *a_size == *b_size,
                _ => false,
            },
            BuiltinAction::SetFocusedWorkspacePadding { size: a_size } => match other {
                BuiltinAction::SetFocusedWorkspacePadding { size: b_size } => *a_size == *b_size,
                _ => false,
            },
            BuiltinAction::SetContainerPadding { monitor: a_monitor, workspace: a_workspace, size: a_size } => match other {
                BuiltinAction::SetContainerPadding { monitor: b_monitor, workspace: b_workspace, size: b_size } => *a_monitor == *b_monitor && *a_workspace == *b_workspace && *a_size == *b_size,
                _ => false,
            },
            BuiltinAction::SetWorkspacePadding { monitor: a_monitor, workspace: a_workspace, size: a_size } => match other {
                BuiltinAction::SetWorkspacePadding { monitor: b_monitor, workspace: b_workspace, size: b_size } => *a_monitor == *b_monitor && *a_workspace == *b_workspace && *a_size == *b_size,
                _ => false,
            },
            BuiltinAction::SetWorkspaceTiling { monitor: a_monitor, workspace: a_workspace, tile: a_tile } => match other {
                BuiltinAction::SetWorkspaceTiling { monitor: b_monitor, workspace: b_workspace, tile: b_tile } => *a_monitor == *b_monitor && *a_workspace == *b_workspace && *a_tile == *b_tile,
                _ => false,
            },
            BuiltinAction::SetMonitorWorkspaceLayout { monitor: a_monitor, workspace: a_workspace, layout: a_layout } => match other {
                BuiltinAction::SetMonitorWorkspaceLayout { monitor: b_monitor, workspace: b_workspace, layout: b_layout } => *a_monitor == *b_monitor && *a_workspace == *b_workspace && *a_layout == *b_layout,
                _ => false,
            },
            BuiltinAction::EnsureWorkspaces { monitor: a_monitor, count: a_count } => match other {
                BuiltinAction::EnsureWorkspaces { monitor: b_monitor, count: b_count } => *a_monitor == *b_monitor && *a_count == *b_count,
                _ => false,
            },
            BuiltinAction::ClearWorkspaceLayoutRules { monitor: a_monitor, workspace: a_workspace } => match other {
                BuiltinAction::ClearWorkspaceLayoutRules { monitor: b_monitor, workspace: b_workspace } => *a_monitor == *b_monitor && *a_workspace == *b_workspace,
                _ => false,
            },
            BuiltinAction::SetScrollingColumns { columns: a_columns } => match other {
                BuiltinAction::SetScrollingColumns { columns: b_columns } => *a_columns == *b_columns,
                _ => false,
            },
            BuiltinAction::LockContainer { monitor: a_monitor, workspace: a_workspace, container: a_container } => match other {
                BuiltinAction::LockContainer { monitor: b_monitor, workspace: b_workspace, container: b_container } => *a_monitor == *b_monitor && *a_workspace == *b_workspace && *a_container == *b_container,
                _ => false,
            },
            BuiltinAction::UnlockContainer { monitor: a_monitor, workspace: a_workspace, container: a_container } => match other {
                BuiltinAction::UnlockContainer { monitor: b_monitor, workspace: b_workspace, container: b_container } => *a_monitor == *b_monitor && *a_workspace == *b_workspace && *a_container == *b_container,
                _ => false,
            },
            BuiltinAction::ToggleTitleBars => matches!(other, BuiltinAction::ToggleTitleBars),
            BuiltinAction::EnforceWorkspaceRules => matches!(other, BuiltinAction::EnforceWorkspaceRules),
            BuiltinAction::AddSessionFloatRule => matches!(other, BuiltinAction::AddSessionFloatRule),
            BuiltinAction::ClearSessionFloatRules => matches!(other, BuiltinAction::ClearSessionFloatRules),
            BuiltinAction::ResizeWindowEdge { direction: a_direction, delta: a_delta } => match other {
                BuiltinAction::ResizeWindowEdge { direction: b_direction, delta: b_delta } => *a_direction == *b_direction && *a_delta == *b_delta,
                _ => false,
            },
            BuiltinAction::ResizeWindowEdgeByStep { direction: a_direction, sizing: a_sizing } => match other {
                BuiltinAction::ResizeWindowEdgeByStep { direction: b_direction, sizing: b_sizing } => *a_direction == *b_direction && *a_sizing == *b_sizing,
                _ => false,
            },
            BuiltinAction::SetWindowHidingBehaviour { behaviour: a_behaviour } => match other {
                BuiltinAction::SetWindowHidingBehaviour { behaviour: b_behaviour } => *a_behaviour == *b_behaviour,
                _ => false,
            },
            BuiltinAction::SetCrossMonitorMoveBehaviour { behaviour: a_behaviour } => match other {
                BuiltinAction::SetCrossMonitorMoveBehaviour { behaviour: b_behaviour } => *a_behaviour == *b_behaviour,
                _ => false,
            },
            BuiltinAction::SetMonocleFocusBehaviour { behaviour: a_behaviour } => match other {
                BuiltinAction::SetMonocleFocusBehaviour { behaviour: b_behaviour } => *a_behaviour == *b_behaviour,
                _ => false,
            },
            BuiltinAction::SetUnmanagedWindowOperationBehaviour { behaviour: a_behaviour } => match other {
                BuiltinAction::SetUnmanagedWindowOperationBehaviour { behaviour: b_behaviour } => *a_behaviour == *b_behaviour,
                _ => false,
            },
            BuiltinAction::SetFocusFollowsMouse { implementation: a_implementation, enabled: a_enabled } => match other {
                BuiltinAction::SetFocusFollowsMouse { implementation: b_implementation, enabled: b_enabled } => *a_implementation == *b_implementation && *a_enabled == *b_enabled,
                _ => false,
            },
            BuiltinAction::ToggleFocusFollowsMouse { implementation: a_implementation } => match other {
                BuiltinAction::ToggleFocusFollowsMouse { implementation: b_implementation } => *a_implementation == *b_implementation,
                _ => false,
            },
            BuiltinAction::AddWorkspaceLayoutRule { monitor: a_monitor, workspace: a_workspace, at_container_count: a_at_container_count, layout: a_layout } => match other {
                BuiltinAction::AddWorkspaceLayoutRule { monitor: b_monitor, workspace: b_workspace, at_container_count: b_at_container_count, layout: b_layout } => *a_monitor == *b_monitor && *a_workspace == *b_workspace && *a_at_container_count == *b_at_container_count && *a_layout == *b_layout,
                _ => false,
            },
            _ => self.same_arguments_fourth_part(other),
        }
    }

    /// The fourth part of the comparison.
    #[verifier::spinoff_prover]
    #[verifier::rlimit(100)]
    fn same_arguments_fourth_part(&self, other: &BuiltinAction) -> (r: bool)
        requires
            !compared_in_first_part(*self),
            !compared_in_second_part(*self),
            !compared_in_third_part(*self),
        ensures
            r == same_action(*self, *other),
    {
        match self {
            BuiltinAction::FocusNamedWorkspace { name: a_name } => match other {
                BuiltinAction::FocusNamedWorkspace { name: b_name } => a_name.same(b_name),
                _ => false,
            },
            BuiltinAction::MoveContainerToNamedWorkspace { name: a_name } => match other {
                BuiltinAction::MoveContainerToNamedWorkspace { name: b_name } => a_name.same(b_name),
                _ => false,
            },
            BuiltinAction::SendContainerToNamedWorkspace { name: a_name } => match other {
                BuiltinAction::SendContainerToNamedWorkspace { name: b_name } => a_name.same(b_name),
                _ => false,
            },
            BuiltinAction::SetNamedWorkspaceContainerPadding { name: a_name, size: a_size } => match other {
                BuiltinAction::SetNamedWorkspaceContainerPadding { name: b_name, size: b_size } => a_name.same(b_name) && *a_size == *b_size,
                _ => false,
            },
            BuiltinAction::SetNamedWorkspacePadding { name: a_name, size: a_size } => match other {
                BuiltinAction::SetNamedWorkspacePadding { name: b_name, size: b_size } => a_name.same(b_name) && *a_size == *b_size,
                _ => false,
            },
            BuiltinAction::SetNamedWorkspaceTiling { name: a_name, tile: a_tile } => match other {
                BuiltinAction::SetNamedWorkspaceTiling { name: b_name, tile: b_tile } => a_name.same(b_name) && *a_tile == *b_tile,
                _ => false,
            },
            BuiltinAction::SetNamedWorkspaceLayout { name: a_name, layout: a_layout } => match other {
                BuiltinAction::SetNamedWorkspaceLayout { name: b_name, layout: b_layout } => a_name.same(b_name) && *a_layout == *b_layout,
                _ => false,
            },
            BuiltinAction::SetNamedWorkspaceCustomLayout { name: a_name, path: a_path } => match other {
                BuiltinAction::SetNamedWorkspaceCustomLayout { name: b_name, path: b_path } => a_name.same(b_name) && a_path.same(b_path),
                _ => false,
            },
            BuiltinAction::AddNamedWorkspaceLayoutRule { name: a_name, at_container_count: a_at_container_count, layout: a_layout } => match other {
                BuiltinAction::AddNamedWorkspaceLayoutRule { name: b_name, at_container_count: b_at_container_count, layout: b_layout } => a_name.same(b_name) && *a_at_container_count == *b_at_container_count && *a_layout == *b_layout,
                _ => false,
            },
            BuiltinAction::AddNamedWorkspaceCustomLayoutRule { name: a_name, at_container_count: a_at_container_count, path: a_path } => match other {
                BuiltinAction::AddNamedWorkspaceCustomLayoutRule { name: b_name, at_container_count: b_at_container_count, path: b_path } => a_name.same(b_name) && *a_at_container_count == *b_at_container_count && a_path.same(b_path),
                _ => false,
            },
            BuiltinAction::ClearNamedWorkspaceLayoutRules { name: a_name } => match other {
                BuiltinAction::ClearNamedWorkspaceLayoutRules { name: b_name } => a_name.same(b_name),
                _ => false,
            },
            BuiltinAction::EnsureNamedWorkspaces { monitor: a_monitor, names: a_names } => match other {
                BuiltinAction::EnsureNamedWorkspaces { monitor: b_monitor, names: b_names } => *a_monitor == *b_monitor && same_names(a_names, b_names),
                _ => false,
            },
            BuiltinAction::SetWorkspaceName { monitor: a_monitor, workspace: a_workspace, name: a_name } => match other {
                BuiltinAction::SetWorkspaceName { monitor: b_monitor, workspace: b_workspace, name: b_name } => *a_monitor == *b_monitor && *a_workspace == *b_workspace && a_name.same(b_name),
                _ => false,
            },
            BuiltinAction::SetLayoutRatios { columns: a_columns, rows: a_rows } => match other {
                BuiltinAction::SetLayoutRatios { columns: b_columns, rows: b_rows } => same_ratio_lists(a_columns, b_columns) && same_ratio_lists(a_rows, b_rows),
                _ => false,
            },
            BuiltinAction::SetCustomLayout { path: a_path } => match other {
                BuiltinAction::SetCustomLayout { path: b_path } => a_path.same(b_path),
                _ => false,
            },
            BuiltinAction::SetWorkspaceCustomLayout { monitor: a_monitor, workspace: a_workspace, path: a_path } => match other {
                BuiltinAction::SetWorkspaceCustomLayout { monitor: b_monitor, workspace: b_workspace, path: b_path } => *a_monitor == *b_monitor && *a_workspace == *b_workspace && a_path.same(b_path),
                _ => false,
            },
            BuiltinAction::AddWorkspaceCustomLayoutRule { monitor: a_monitor, workspace: a_workspace, at_container_count: a_at_container_count, path: a_path } => match other {
                BuiltinAction::AddWorkspaceCustomLayoutRule { monitor: b_monitor, workspace: b_workspace, at_container_count: b_at_container_count, path: b_path } => *a_monitor == *b_monitor && *a_workspace == *b_workspace && *a_at_container_count == *b_at_container_count && a_path.same(b_path),
                _ => false,
            },
            BuiltinAction::EagerFocus { exe: a_exe } => match other {
                BuiltinAction::EagerFocus { exe: b_exe } => a_exe.eq(b_exe),
                _ => false,
            },
            BuiltinAction::RemoveTitleBar { identifier: a_identifier, id: a_id } => match other {
                BuiltinAction::RemoveTitleBar { identifier: b_identifier, id: b_id } => *a_identifier == *b_identifier && a_id.eq(b_id),
                _ => false,
            },
            BuiltinAction::SetResizeStep { step: a_step } => match other {
                BuiltinAction::SetResizeStep { step: b_step } => *a_step == *b_step,
                _ => false,
            },
            BuiltinAction::SetTransparencyEnabled { enabled: a_enabled } => match other {
                BuiltinAction::SetTransparencyEnabled { enabled: b_enabled } => *a_enabled == *b_enabled,
                _ => false,
            },
            BuiltinAction::ToggleTransparency => matches!(other, BuiltinAction::ToggleTransparency),
            BuiltinAction::SetTransparencyAlpha { alpha: a_alpha } => match other {
                BuiltinAction::SetTransparencyAlpha { alpha: b_alpha } => *a_alpha == *b_alpha,
                _ => false,
            },
            BuiltinAction::SetBorderEnabled { enabled: a_enabled } => match other {
                BuiltinAction::SetBorderEnabled { enabled: b_enabled } => *a_enabled == *b_enabled,
                _ => false,
            },
            BuiltinAction::SetBorderColour { window_kind: a_window_kind, colour: a_colour } => match other {
                BuiltinAction::SetBorderColour { window_kind: b_window_kind, colour: b_colour } => *a_window_kind == *b_window_kind && *a_colour == *b_colour,
                _ => false,
            },
            BuiltinAction::SetBorderWidth { width: a_width } => match other {
                BuiltinAction::SetBorderWidth { width: b_width } => *a_width == *b_width,
                _ => false,
            },
            BuiltinAction::SetBorderOffset { offset: a_offset } => match other {
                BuiltinAction::SetBorderOffset { offset: b_offset } => *a_offset == *b_offset,
                _ => false,
            },
            BuiltinAction::SetBorderStyle { style: a_style } => match other {
                BuiltinAction::SetBorderStyle { style: b_style } => *a_style == *b_style,
                _ => false,
            },
            BuiltinAction::SetBorderImplementation { implementation: a_implementation } => match other {
                BuiltinAction::SetBorderImplementation { implementation: b_implementation } => *a_implementation == *b_implementation,
                _ => false,
            },
            _ => false,
        }
    }
}

impl PartialEq for BuiltinAction {
    fn eq(&self, other: &Self) -> (r: bool) {
        self.same_arguments(other)
    }
}

impl vstd::std_specs::cmp::PartialEqSpecImpl for BuiltinAction {
    open spec fn obeys_eq_spec() -> bool {
        true
    }

    open spec fn eq_spec(&self, other: &Self) -> bool {
        same_action(*self, *other)
    }
}

impl Eq for BuiltinAction {
}

/// The actions whose kinds the first part of the comparison handles.
pub open spec fn compared_in_first_part(a: BuiltinAction) -> bool {
    match a {
        BuiltinAction::FocusWindow { .. } | BuiltinAction::MoveWindow { .. } | BuiltinAction::ResizeWindow { .. } | BuiltinAction::ResizeWindowByStep { .. } | BuiltinAction::SetWorkspaceLayout { .. } | BuiltinAction::ToggleWindowFloat { .. } | BuiltinAction::CycleFocusWindow { .. } | BuiltinAction::CycleMoveWindow { .. } | BuiltinAction::ToggleWindowMonocle { .. } | BuiltinAction::ToggleWindowMaximize { .. } | BuiltinAction::ToggleContainerLock { .. } | BuiltinAction::StackWindow { .. } | BuiltinAction::UnstackWindow { .. } | BuiltinAction::StackAll | BuiltinAction::UnstackAll | BuiltinAction::CycleStack { .. } | BuiltinAction::CycleStackIndex { .. } | BuiltinAction::FocusStackWindow { .. } | BuiltinAction::FocusWorkspace { .. } | BuiltinAction::CycleFocusWorkspace { .. } | BuiltinAction::CycleFocusEmptyWorkspace { .. } | BuiltinAction::FocusLastWorkspace | BuiltinAction::CloseWorkspace | BuiltinAction::FocusMonitor { .. } | BuiltinAction::CycleFocusMonitor { .. } | BuiltinAction::FocusMonitorAtCursor | BuiltinAction::FocusWorkspaceOnAllMonitors { .. } | BuiltinAction::FocusMonitorWorkspace { .. } | BuiltinAction::CloseWindow { .. } | BuiltinAction::MinimizeWindow { .. } | BuiltinAction::ForceFocus { .. } | BuiltinAction::PromoteContainer => true,
        _ => false,
    }
}

/// The actions whose kinds the second part of the comparison handles.
pub open spec fn compared_in_second_part(a: BuiltinAction) -> bool {
    match a {
        BuiltinAction::PromoteContainerSwap | BuiltinAction::PromoteFocus | BuiltinAction::PromoteWindow { .. } | BuiltinAction::NewWorkspace | BuiltinAction::ToggleTiling | BuiltinAction::CycleLayout { .. } | BuiltinAction::FlipLayout { .. } | BuiltinAction::ToggleWorkspaceLayer | BuiltinAction::MoveContainerToLastWorkspace | BuiltinAction::SendContainerToLastWorkspace | BuiltinAction::MoveContainerToWorkspace { .. } | BuiltinAction::CycleMoveContainerToWorkspace { .. } | BuiltinAction::SendContainerToWorkspace { .. } | BuiltinAction::CycleSendContainerToWorkspace { .. } | BuiltinAction::MoveContainerToMonitor { .. } | BuiltinAction::CycleMoveContainerToMonitor { .. } | BuiltinAction::SendContainerToMonitor { .. } | BuiltinAction::CycleSendContainerToMonitor { .. } | BuiltinAction::MoveContainerToMonitorWorkspace { .. } | BuiltinAction::SendContainerToMonitorWorkspace { .. } | BuiltinAction::MoveWorkspaceToMonitor { .. } | BuiltinAction::CycleMoveWorkspaceToMonitor { .. } | BuiltinAction::SwapWorkspacesToMonitor { .. } | BuiltinAction::PreselectDirection { .. } | BuiltinAction::CancelPreselect | BuiltinAction::Retile | BuiltinAction::RetileWithResizeDimensions | BuiltinAction::ManageFocusedWindow | BuiltinAction::UnmanageFocusedWindow | BuiltinAction::AdjustContainerPadding { .. } | BuiltinAction::AdjustWorkspacePadding { .. } | BuiltinAction::ToggleMouseFollowsFocus => true,
        _ => false,
    }
}

/// The actions whose kinds the third part of the comparison handles.
pub open spec fn compared_in_third_part(a: BuiltinAction) -> bool {
    match a {
        BuiltinAction::SetMouseFollowsFocus { .. } | BuiltinAction::ToggleWindowContainerBehaviour | BuiltinAction::ToggleFloatOverride | BuiltinAction::ToggleWorkspaceWindowContainerBehaviour | BuiltinAction::ToggleWorkspaceFloatOverride | BuiltinAction::ToggleCrossMonitorMoveBehaviour | BuiltinAction::ToggleMonocleFocusBehaviour | BuiltinAction::TogglePause | BuiltinAction::SetFocusedContainerPadding { .. } | BuiltinAction::SetFocusedWorkspacePadding { .. } | BuiltinAction::SetContainerPadding { .. } | BuiltinAction::SetWorkspacePadding { .. } | BuiltinAction::SetWorkspaceTiling { .. } | BuiltinAction::SetMonitorWorkspaceLayout { .. } | BuiltinAction::EnsureWorkspaces { .. } | BuiltinAction::ClearWorkspaceLayoutRules { .. } | BuiltinAction::SetScrollingColumns { .. } | BuiltinAction::LockContainer { .. } | BuiltinAction::UnlockContainer { .. } | BuiltinAction::ToggleTitleBars | BuiltinAction::EnforceWorkspaceRules | BuiltinAction::AddSessionFloatRule | BuiltinAction::ClearSessionFloatRules | BuiltinAction::ResizeWindowEdge { .. } | BuiltinAction::ResizeWindowEdgeByStep { .. } | BuiltinAction::SetWindowHidingBehaviour { .. } | BuiltinAction::SetCrossMonitorMoveBehaviour { .. } | BuiltinAction::SetMonocleFocusBehaviour { .. } | BuiltinAction::SetUnmanagedWindowOperationBehaviour { .. } | BuiltinAction::SetFocusFollowsMouse { .. } | BuiltinAction::ToggleFocusFollowsMouse { .. } | BuiltinAction::AddWorkspaceLayoutRule { .. } => true,
        _ => false,
    }
}

/// Two actions of one kind whose arguments agree, text and paths by their
/// contents.
pub open spec fn same_action(a: BuiltinAction, b: BuiltinAction) -> bool {
    match a {
        BuiltinAction::FocusWindow { direction: a_direction } => match b {
            BuiltinAction::FocusWindow { direction: b_direction } => a_direction == b_direction,
            _ => false,
        },
        BuiltinAction::MoveWindow { direction: a_direction } => match b {
            BuiltinAction::MoveWindow { direction: b_direction } => a_direction == b_direction,
            _ => false,
        },
        BuiltinAction::ResizeWindow { axis: a_axis, delta: a_delta } => match b {
            BuiltinAction::ResizeWindow { axis: b_axis, delta: b_delta } => a_axis == b_axis && a_delta == b_delta,
            _ => false,
        },
        BuiltinAction::ResizeWindowByStep { axis: a_axis, sizing: a_sizing } => match b {
            BuiltinAction::ResizeWindowByStep { axis: b_axis, sizing: b_sizing } => a_axis == b_axis && a_sizing == b_sizing,
            _ => false,
        },
        BuiltinAction::SetWorkspaceLayout { workspace: a_workspace, layout: a_layout } => match b {
            BuiltinAction::SetWorkspaceLayout { workspace: b_workspace, layout: b_layout } => a_workspace == b_workspace && a_layout == b_layout,
            _ => false,
        },
        BuiltinAction::ToggleWindowFloat { window: a_window } => match b {
            BuiltinAction::ToggleWindowFloat { window: b_window } => a_window == b_window,
            _ => false,
        },
        BuiltinAction::CycleFocusWindow { direction: a_direction } => match b {
            BuiltinAction::CycleFocusWindow { direction: b_direction } => a_direction == b_direction,
            _ => false,
        },
        BuiltinAction::CycleMoveWindow { direction: a_direction } => match b {
            BuiltinAction::CycleMoveWindow { direction: b_direction } => a_direction == b_direction,
            _ => false,
        },
        BuiltinAction::ToggleWindowMonocle { window: a_window } => match b {
            BuiltinAction::ToggleWindowMonocle { window: b_window } => a_window == b_window,
            _ => false,
        },
        BuiltinAction::ToggleWindowMaximize { window: a_window } => match b {
            BuiltinAction::ToggleWindowMaximize { window: b_window } => a_window == b_window,
            _ => false,
        },
        BuiltinAction::ToggleContainerLock { window: a_window } => match b {
            BuiltinAction::ToggleContainerLock { window: b_window } => a_window == b_window,
            _ => false,
        },
        BuiltinAction::StackWindow { direction: a_direction } => match b {
            BuiltinAction::StackWindow { direction: b_direction } => a_direction == b_direction,
            _ => false,
        },
        BuiltinAction::UnstackWindow { window: a_window } => match b {
            BuiltinAction::UnstackWindow { window: b_window } => a_window == b_window,
            _ => false,
        },
        BuiltinAction::StackAll => b is StackAll,
        BuiltinAction::UnstackAll => b is UnstackAll,
        BuiltinAction::CycleStack { direction: a_direction } => match b {
            BuiltinAction::CycleStack { direction: b_direction } => a_direction == b_direction,
            _ => false,
        },
        BuiltinAction::CycleStackIndex { direction: a_direction } => match b {
            BuiltinAction::CycleStackIndex { direction: b_direction } => a_direction == b_direction,
            _ => false,
        },
        BuiltinAction::FocusStackWindow { index: a_index } => match b {
            BuiltinAction::FocusStackWindow { index: b_index } => a_index == b_index,
            _ => false,
        },
        BuiltinAction::FocusWorkspace { index: a_index } => match b {
            BuiltinAction::FocusWorkspace { index: b_index } => a_index == b_index,
            _ => false,
        },
        BuiltinAction::CycleFocusWorkspace { direction: a_direction } => match b {
            BuiltinAction::CycleFocusWorkspace { direction: b_direction } => a_direction == b_direction,
            _ => false,
        },
        BuiltinAction::CycleFocusEmptyWorkspace { direction: a_direction } => match b {
            BuiltinAction::CycleFocusEmptyWorkspace { direction: b_direction } => a_direction == b_direction,
            _ => false,
        },
        BuiltinAction::FocusLastWorkspace => b is FocusLastWorkspace,
        BuiltinAction::CloseWorkspace => b is CloseWorkspace,
        BuiltinAction::FocusMonitor { index: a_index } => match b {
            BuiltinAction::FocusMonitor { index: b_index } => a_index == b_index,
            _ => false,
        },
        BuiltinAction::CycleFocusMonitor { direction: a_direction } => match b {
            BuiltinAction::CycleFocusMonitor { direction: b_direction } => a_direction == b_direction,
            _ => false,
        },
        BuiltinAction::FocusMonitorAtCursor => b is FocusMonitorAtCursor,
        BuiltinAction::FocusWorkspaceOnAllMonitors { index: a_index } => match b {
            BuiltinAction::FocusWorkspaceOnAllMonitors { index: b_index } => a_index == b_index,
            _ => false,
        },
        BuiltinAction::FocusMonitorWorkspace { monitor: a_monitor, workspace: a_workspace } => match b {
            BuiltinAction::FocusMonitorWorkspace { monitor: b_monitor, workspace: b_workspace } => a_monitor == b_monitor && a_workspace == b_workspace,
            _ => false,
        },
        BuiltinAction::CloseWindow { window: a_window } => match b {
            BuiltinAction::CloseWindow { window: b_window } => a_window == b_window,
            _ => false,
        },
        BuiltinAction::MinimizeWindow { window: a_window } => match b {
            BuiltinAction::MinimizeWindow { window: b_window } => a_window == b_window,
            _ => false,
        },
        BuiltinAction::ForceFocus { window: a_window } => match b {
            BuiltinAction::ForceFocus { window: b_window } => a_window == b_window,
            _ => false,
        },
        BuiltinAction::PromoteContainer => b is PromoteContainer,
        BuiltinAction::PromoteContainerSwap => b is PromoteContainerSwap,
        BuiltinAction::PromoteFocus => b is PromoteFocus,
        BuiltinAction::PromoteWindow { direction: a_direction } => match b {
            BuiltinAction::PromoteWindow { direction: b_direction } => a_direction == b_direction,
            _ => false,
        },
        BuiltinAction::NewWorkspace => b is NewWorkspace,
        BuiltinAction::ToggleTiling => b is ToggleTiling,
        BuiltinAction::CycleLayout { direction: a_direction } => match b {
            BuiltinAction::CycleLayout { direction: b_direction } => a_direction == b_direction,
            _ => false,
        },
        BuiltinAction::FlipLayout { axis: a_axis } => match b {
            BuiltinAction::FlipLayout { axis: b_axis } => a_axis == b_axis,
            _ => false,
        },
        BuiltinAction::ToggleWorkspaceLayer => b is ToggleWorkspaceLayer,
        BuiltinAction::MoveContainerToLastWorkspace => b is MoveContainerToLastWorkspace,
        BuiltinAction::SendContainerToLastWorkspace => b is SendContainerToLastWorkspace,
        BuiltinAction::MoveContainerToWorkspace { index: a_index } => match b {
            BuiltinAction::MoveContainerToWorkspace { index: b_index } => a_index == b_index,
            _ => false,
        },
        BuiltinAction::CycleMoveContainerToWorkspace { direction: a_direction } => match b {
            BuiltinAction::CycleMoveContainerToWorkspace { direction: b_direction } => a_direction == b_direction,
            _ => false,
        },
        BuiltinAction::SendContainerToWorkspace { index: a_index } => match b {
            BuiltinAction::SendContainerToWorkspace { index: b_index } => a_index == b_index,
            _ => false,
        },
        BuiltinAction::CycleSendContainerToWorkspace { direction: a_direction } => match b {
            BuiltinAction::CycleSendContainerToWorkspace { direction: b_direction } => a_direction == b_direction,
            _ => false,
        },
        BuiltinAction::MoveContainerToMonitor { index: a_index } => match b {
            BuiltinAction::MoveContainerToMonitor { index: b_index } => a_index == b_index,
            _ => false,
        },
        BuiltinAction::CycleMoveContainerToMonitor { direction: a_direction } => match b {
            BuiltinAction::CycleMoveContainerToMonitor { direction: b_direction } => a_direction == b_direction,
            _ => false,
        },
        BuiltinAction::SendContainerToMonitor { index: a_index } => match b {
            BuiltinAction::SendContainerToMonitor { index: b_index } => a_index == b_index,
            _ => false,
        },
        BuiltinAction::CycleSendContainerToMonitor { direction: a_direction } => match b {
            BuiltinAction::CycleSendContainerToMonitor { direction: b_direction } => a_direction == b_direction,
            _ => false,
        },
        BuiltinAction::MoveContainerToMonitorWorkspace { monitor: a_monitor, workspace: a_workspace } => match b {
            BuiltinAction::MoveContainerToMonitorWorkspace { monitor: b_monitor, workspace: b_workspace } => a_monitor == b_monitor && a_workspace == b_workspace,
            _ => false,
        },
        BuiltinAction::SendContainerToMonitorWorkspace { monitor: a_monitor, workspace: a_workspace } => match b {
            BuiltinAction::SendContainerToMonitorWorkspace { monitor: b_monitor, workspace: b_workspace } => a_monitor == b_monitor && a_workspace == b_workspace,
            _ => false,
        },
        BuiltinAction::MoveWorkspaceToMonitor { index: a_index } => match b {
            BuiltinAction::MoveWorkspaceToMonitor { index: b_index } => a_index == b_index,
            _ => false,
        },
        BuiltinAction::CycleMoveWorkspaceToMonitor { direction: a_direction } => match b {
            BuiltinAction::CycleMoveWorkspaceToMonitor { direction: b_direction } => a_direction == b_direction,
            _ => false,
        },
        BuiltinAction::SwapWorkspacesToMonitor { index: a_index } => match b {
            BuiltinAction::SwapWorkspacesToMonitor { index: b_index } => a_index == b_index,
            _ => false,
        },
        BuiltinAction::PreselectDirection { direction: a_direction } => match b {
            BuiltinAction::PreselectDirection { direction: b_direction } => a_direction == b_direction,
            _ => false,
        },
        BuiltinAction::CancelPreselect => b is CancelPreselect,
        BuiltinAction::Retile => b is Retile,
        BuiltinAction::RetileWithResizeDimensions => b is RetileWithResizeDimensions,
        BuiltinAction::ManageFocusedWindow => b is ManageFocusedWindow,
        BuiltinAction::UnmanageFocusedWindow => b is UnmanageFocusedWindow,
        BuiltinAction::AdjustContainerPadding { sizing: a_sizing, adjustment: a_adjustment } => match b {
            BuiltinAction::AdjustContainerPadding { sizing: b_sizing, adjustment: b_adjustment } => a_sizing == b_sizing && a_adjustment == b_adjustment,
            _ => false,
        },
        BuiltinAction::AdjustWorkspacePadding { sizing: a_sizing, adjustment: a_adjustment } => match b {
            BuiltinAction::AdjustWorkspacePadding { sizing: b_sizing, adjustment: b_adjustment } => a_sizing == b_sizing && a_adjustment == b_adjustment,
            _ => false,
        },
        BuiltinAction::ToggleMouseFollowsFocus => b is ToggleMouseFollowsFocus,
        BuiltinAction::SetMouseFollowsFocus { enabled: a_enabled } => match b {
            BuiltinAction::SetMouseFollowsFocus { enabled: b_enabled } => a_enabled == b_enabled,
            _ => false,
        },
        BuiltinAction::ToggleWindowContainerBehaviour => b is ToggleWindowContainerBehaviour,
        BuiltinAction::ToggleFloatOverride => b is ToggleFloatOverride,
        BuiltinAction::ToggleWorkspaceWindowContainerBehaviour => b is ToggleWorkspaceWindowContainerBehaviour,
        BuiltinAction::ToggleWorkspaceFloatOverride => b is ToggleWorkspaceFloatOverride,
        BuiltinAction::ToggleCrossMonitorMoveBehaviour => b is ToggleCrossMonitorMoveBehaviour,
        BuiltinAction::ToggleMonocleFocusBehaviour => b is ToggleMonocleFocusBehaviour,
        BuiltinAction::TogglePause => b is TogglePause,
        BuiltinAction::SetFocusedContainerPadding { size: a_size } => match b {
            BuiltinAction::SetFocusedContainerPadding { size: b_size } => a_size == b_size,
            _ => false,
        },
        BuiltinAction::SetFocusedWorkspacePadding { size: a_size } => match b {
            BuiltinAction::SetFocusedWorkspacePadding { size: b_size } => a_size == b_size,
            _ => false,
        },
        BuiltinAction::SetContainerPadding { monitor: a_monitor, workspace: a_workspace, size: a_size } => match b {
            BuiltinAction::SetContainerPadding { monitor: b_monitor, workspace: b_workspace, size: b_size } => a_monitor == b_monitor && a_workspace == b_workspace && a_size == b_size,
            _ => false,
        },
        BuiltinAction::SetWorkspacePadding { monitor: a_monitor, workspace: a_workspace, size: a_size } => match b {
            BuiltinAction::SetWorkspacePadding { monitor: b_monitor, workspace: b_workspace, size: b_size } => a_monitor == b_monitor && a_workspace == b_workspace && a_size == b_size,
            _ => false,
        },
        BuiltinAction::SetWorkspaceTiling { monitor: a_monitor, workspace: a_workspace, tile: a_tile } => match b {
            BuiltinAction::SetWorkspaceTiling { monitor: b_monitor, workspace: b_workspace, tile: b_tile } => a_monitor == b_monitor && a_workspace == b_workspace && a_tile == b_tile,
            _ => false,
        },
        BuiltinAction::SetMonitorWorkspaceLayout { monitor: a_monitor, workspace: a_workspace, layout: a_layout } => match b {
            BuiltinAction::SetMonitorWorkspaceLayout { monitor: b_monitor, workspace: b_workspace, layout: b_layout } => a_monitor == b_monitor && a_workspace == b_workspace && a_layout == b_layout,
            _ => false,
        },
        BuiltinAction::EnsureWorkspaces { monitor: a_monitor, count: a_count } => match b {
            BuiltinAction::EnsureWorkspaces { monitor: b_monitor, count: b_count } => a_monitor == b_monitor && a_count == b_count,
            _ => false,
        },
        BuiltinAction::ClearWorkspaceLayoutRules { monitor: a_monitor, workspace: a_workspace } => match b {
            BuiltinAction::ClearWorkspaceLayoutRules { monitor: b_monitor, workspace: b_workspace } => a_monitor == b_monitor && a_workspace == b_workspace,
            _ => false,
        },
        BuiltinAction::SetScrollingColumns { columns: a_columns } => match b {
            BuiltinAction::SetScrollingColumns { columns: b_columns } => a_columns == b_columns,
            _ => false,
        },
        BuiltinAction::LockContainer { monitor: a_monitor, workspace: a_workspace, container: a_container } => match b {
            BuiltinAction::LockContainer { monitor: b_monitor, workspace: b_workspace, container: b_container } => a_monitor == b_monitor && a_workspace == b_workspace && a_container == b_container,
            _ => false,
        },
        BuiltinAction::UnlockContainer { monitor: a_monitor, workspace: a_workspace, container: a_container } => match b {
            BuiltinAction::UnlockContainer { monitor: b_monitor, workspace: b_workspace, container: b_container } => a_monitor == b_monitor && a_workspace == b_workspace && a_container == b_container,
            _ => false,
        },
        BuiltinAction::ToggleTitleBars => b is ToggleTitleBars,
        BuiltinAction::EnforceWorkspaceRules => b is EnforceWorkspaceRules,
        BuiltinAction::AddSessionFloatRule => b is AddSessionFloatRule,
        BuiltinAction::ClearSessionFloatRules => b is ClearSessionFloatRules,
        BuiltinAction::ResizeWindowEdge { direction: a_direction, delta: a_delta } => match b {
            BuiltinAction::ResizeWindowEdge { direction: b_direction, delta: b_delta } => a_direction == b_direction && a_delta == b_delta,
            _ => false,
        },
        BuiltinAction::ResizeWindowEdgeByStep { direction: a_direction, sizing: a_sizing } => match b {
            BuiltinAction::ResizeWindowEdgeByStep { direction: b_direction, sizing: b_sizing } => a_direction == b_direction && a_sizing == b_sizing,
            _ => false,
        },
        BuiltinAction::SetWindowHidingBehaviour { behaviour: a_behaviour } => match b {
            BuiltinAction::SetWindowHidingBehaviour { behaviour: b_behaviour } => a_behaviour == b_behaviour,
            _ => false,
        },
        BuiltinAction::SetCrossMonitorMoveBehaviour { behaviour: a_behaviour } => match b {
            BuiltinAction::SetCrossMonitorMoveBehaviour { behaviour: b_behaviour } => a_behaviour == b_behaviour,
            _ => false,
        },
        BuiltinAction::SetMonocleFocusBehaviour { behaviour: a_behaviour } => match b {
            BuiltinAction::SetMonocleFocusBehaviour { behaviour: b_behaviour } => a_behaviour == b_behaviour,
            _ => false,
        },
        BuiltinAction::SetUnmanagedWindowOperationBehaviour { behaviour: a_behaviour } => match b {
            BuiltinAction::SetUnmanagedWindowOperationBehaviour { behaviour: b_behaviour } => a_behaviour == b_behaviour,
            _ => false,
        },
        BuiltinAction::SetFocusFollowsMouse { implementation: a_implementation, enabled: a_enabled } => match b {
            BuiltinAction::SetFocusFollowsMouse { implementation: b_implementation, enabled: b_enabled } => a_implementation == b_implementation && a_enabled == b_enabled,
            _ => false,
        },
        BuiltinAction::ToggleFocusFollowsMouse { implementation: a_implementation } => match b {
            BuiltinAction::ToggleFocusFollowsMouse { implementation: b_implementation } => a_implementation == b_implementation,
            _ => false,
        },
        BuiltinAction::AddWorkspaceLayoutRule { monitor: a_monitor, workspace: a_workspace, at_container_count: a_at_container_count, layout: a_layout } => match b {
            BuiltinAction::AddWorkspaceLayoutRule { monitor: b_monitor, workspace: b_workspace, at_container_count: b_at_container_count, layout: b_layout } => a_monitor == b_monitor && a_workspace == b_workspace && a_at_container_count == b_at_container_count && a_layout == b_layout,
            _ => false,
        },
        BuiltinAction::FocusNamedWorkspace { name: a_name } => match b {
            BuiltinAction::FocusNamedWorkspace { name: b_name } => a_name.text() == b_name.text(),
            _ => false,
        },
        BuiltinAction::MoveContainerToNamedWorkspace { name: a_name } => match b {
            BuiltinAction::MoveContainerToNamedWorkspace { name: b_name } => a_name.text() == b_name.text(),
            _ => false,
        },
        BuiltinAction::SendContainerToNamedWorkspace { name: a_name } => match b {
            BuiltinAction::SendContainerToNamedWorkspace { name: b_name } => a_name.text() == b_name.text(),
            _ => false,
        },
        BuiltinAction::SetNamedWorkspaceContainerPadding { name: a_name, size: a_size } => match b {
            BuiltinAction::SetNamedWorkspaceContainerPadding { name: b_name, size: b_size } => a_name.text() == b_name.text() && a_size == b_size,
            _ => false,
        },
        BuiltinAction::SetNamedWorkspacePadding { name: a_name, size: a_size } => match b {
            BuiltinAction::SetNamedWorkspacePadding { name: b_name, size: b_size } => a_name.text() == b_name.text() && a_size == b_size,
            _ => false,
        },
        BuiltinAction::SetNamedWorkspaceTiling { name: a_name, tile: a_tile } => match b {
            BuiltinAction::SetNamedWorkspaceTiling { name: b_name, tile: b_tile } => a_name.text() == b_name.text() && a_tile == b_tile,
            _ => false,
        },
        BuiltinAction::SetNamedWorkspaceLayout { name: a_name, layout: a_layout } => match b {
            BuiltinAction::SetNamedWorkspaceLayout { name: b_name, layout: b_layout } => a_name.text() == b_name.text() && a_layout == b_layout,
            _ => false,
        },
        BuiltinAction::SetNamedWorkspaceCustomLayout { name: a_name, path: a_path } => match b {
            BuiltinAction::SetNamedWorkspaceCustomLayout { name: b_name, path: b_path } => a_name.text() == b_name.text() && a_path.units() == b_path.units(),
            _ => false,
        },
        BuiltinAction::AddNamedWorkspaceLayoutRule { name: a_name, at_container_count: a_at_container_count, layout: a_layout } => match b {
            BuiltinAction::AddNamedWorkspaceLayoutRule { name: b_name, at_container_count: b_at_container_count, layout: b_layout } => a_name.text() == b_name.text() && a_at_container_count == b_at_container_count && a_layout == b_layout,
            _ => false,
        },
        BuiltinAction::AddNamedWorkspaceCustomLayoutRule { name: a_name, at_container_count: a_at_container_count, path: a_path } => match b {
            BuiltinAction::AddNamedWorkspaceCustomLayoutRule { name: b_name, at_container_count: b_at_container_count, path: b_path } => a_name.text() == b_name.text() && a_at_container_count == b_at_container_count && a_path.units() == b_path.units(),
            _ => false,
        },
        BuiltinAction::ClearNamedWorkspaceLayoutRules { name: a_name } => match b {
            BuiltinAction::ClearNamedWorkspaceLayoutRules { name: b_name } => a_name.text() == b_name.text(),
            _ => false,
        },
        BuiltinAction::EnsureNamedWorkspaces { monitor: a_monitor, names: a_names } => match b {
            BuiltinAction::EnsureNamedWorkspaces { monitor: b_monitor, names: b_names } => a_monitor == b_monitor && same_name_lists(a_names@, b_names@),
            _ => false,
        },
        BuiltinAction::SetWorkspaceName { monitor: a_monitor, workspace: a_workspace, name: a_name } => match b {
            BuiltinAction::SetWorkspaceName { monitor: b_monitor, workspace: b_workspace, name: b_name } => a_monitor == b_monitor && a_workspace == b_workspace && a_name.text() == b_name.text(),
            _ => false,
        },
        BuiltinAction::SetLayoutRatios { columns: a_columns, rows: a_rows } => match b {
            BuiltinAction::SetLayoutRatios { columns: b_columns, rows: b_rows } => same_ratios(a_columns, b_columns) && same_ratios(a_rows, b_rows),
            _ => false,
        },
        BuiltinAction::SetCustomLayout { path: a_path } => match b {
            BuiltinAction::SetCustomLayout { path: b_path } => a_path.units() == b_path.units(),
            _ => false,
        },
        BuiltinAction::SetWorkspaceCustomLayout { monitor: a_monitor, workspace: a_workspace, path: a_path } => match b {
            BuiltinAction::SetWorkspaceCustomLayout { monitor: b_monitor, workspace: b_workspace, path: b_path } => a_monitor == b_monitor && a_workspace == b_workspace && a_path.units() == b_path.units(),
            _ => false,
        },
        BuiltinAction::AddWorkspaceCustomLayoutRule { monitor: a_monitor, workspace: a_workspace, at_container_count: a_at_container_count, path: a_path } => match b {
            BuiltinAction::AddWorkspaceCustomLayoutRule { monitor: b_monitor, workspace: b_workspace, at_container_count: b_at_container_count, path: b_path } => a_monitor == b_monitor && a_workspace == b_workspace && a_at_container_count == b_at_container_count && a_path.units() == b_path.units(),
            _ => false,
        },
        BuiltinAction::EagerFocus { exe: a_exe } => match b {
            BuiltinAction::EagerFocus { exe: b_exe } => a_exe@ == b_exe@,
            _ => false,
        },
        BuiltinAction::RemoveTitleBar { identifier: a_identifier, id: a_id } => match b {
            BuiltinAction::RemoveTitleBar { identifier: b_identifier, id: b_id } => a_identifier == b_identifier && a_id@ == b_id@,
            _ => false,
        },
        BuiltinAction::SetResizeStep { step: a_step } => match b {
            BuiltinAction::SetResizeStep { step: b_step } => a_step == b_step,
            _ => false,
        },
        BuiltinAction::SetTransparencyEnabled { enabled: a_enabled } => match b {
            BuiltinAction::SetTransparencyEnabled { enabled: b_enabled } => a_enabled == b_enabled,
            _ => false,
        },
        BuiltinAction::ToggleTransparency => b is ToggleTransparency,
        BuiltinAction::SetTransparencyAlpha { alpha: a_alpha } => match b {
            BuiltinAction::SetTransparencyAlpha { alpha: b_alpha } => a_alpha == b_alpha,
            _ => false,
        },
        BuiltinAction::SetBorderEnabled { enabled: a_enabled } => match b {
            BuiltinAction::SetBorderEnabled { enabled: b_enabled } => a_enabled == b_enabled,
            _ => false,
        },
        BuiltinAction::SetBorderColour { window_kind: a_window_kind, colour: a_colour } => match b {
            BuiltinAction::SetBorderColour { window_kind: b_window_kind, colour: b_colour } => a_window_kind == b_window_kind && a_colour == b_colour,
            _ => false,
        },
        BuiltinAction::SetBorderWidth { width: a_width } => match b {
            BuiltinAction::SetBorderWidth { width: b_width } => a_width == b_width,
            _ => false,
        },
        BuiltinAction::SetBorderOffset { offset: a_offset } => match b {
            BuiltinAction::SetBorderOffset { offset: b_offset } => a_offset == b_offset,
            _ => false,
        },
        BuiltinAction::SetBorderStyle { style: a_style } => match b {
            BuiltinAction::SetBorderStyle { style: b_style } => a_style == b_style,
            _ => false,
        },
        BuiltinAction::SetBorderImplementation { implementation: a_implementation } => match b {
            BuiltinAction::SetBorderImplementation { implementation: b_implementation } => a_implementation == b_implementation,
            _ => false,
        },
    }
}

/// Comparing actions by their arguments is an equivalence, and actions that
/// compare equal are of one kind.
pub proof fn lemma_same_action_equivalence(a: BuiltinAction, b: BuiltinAction, c: BuiltinAction)
    ensures
        same_action(a, a),
        same_action(a, b) ==> same_action(b, a),
        same_action(a, b) && same_action(b, c) ==> same_action(a, c),
        same_action(a, b) ==> a.kind_spec() == b.kind_spec(),
{
    if compared_in_first_part(a) {
        lemma_same_action_equivalence_first_part(a, b, c);
    } else if compared_in_second_part(a) {
        lemma_same_action_equivalence_second_part(a, b, c);
    } else if compared_in_third_part(a) {
        lemma_same_action_equivalence_third_part(a, b, c);
    } else {
        lemma_same_action_equivalence_fourth_part(a, b, c);
    }
}

#[verifier::spinoff_prover]
#[verifier::rlimit(100)]
proof fn lemma_same_action_equivalence_first_part(a: BuiltinAction, b: BuiltinAction, c: BuiltinAction)
    requires
        compared_in_first_part(a),
    ensures
        same_action(a, a),
        same_action(a, b) ==> same_action(b, a),
        same_action(a, b) && same_action(b, c) ==> same_action(a, c),
        same_action(a, b) ==> a.kind_spec() == b.kind_spec(),
{
    reveal(same_name_lists);
    reveal(same_ratios);
}

#[verifier::spinoff_prover]
#[verifier::rlimit(100)]
proof fn lemma_same_action_equivalence_second_part(a: BuiltinAction, b: BuiltinAction, c: BuiltinAction)
    requires
        compared_in_second_part(a),
    ensures
        same_action(a, a),
        same_action(a, b) ==> same_action(b, a),
        same_action(a, b) && same_action(b, c) ==> same_action(a, c),
        same_action(a, b) ==> a.kind_spec() == b.kind_spec(),
{
    reveal(same_name_lists);
    reveal(same_ratios);
}

#[verifier::spinoff_prover]
#[verifier::rlimit(100)]
proof fn lemma_same_action_equivalence_third_part(a: BuiltinAction, b: BuiltinAction, c: BuiltinAction)
    requires
        compared_in_third_part(a),
    ensures
        same_action(a, a),
        same_action(a, b) ==> same_action(b, a),
        same_action(a, b) && same_action(b, c) ==> same_action(a, c),
        same_action(a, b) ==> a.kind_spec() == b.kind_spec(),
{
    reveal(same_name_lists);
    reveal(same_ratios);
}

#[verifier::spinoff_prover]
#[verifier::rlimit(100)]
proof fn lemma_same_action_equivalence_fourth_part(a: BuiltinAction, b: BuiltinAction, c: BuiltinAction)
    requires
        !compared_in_first_part(a),
        !compared_in_second_part(a),
        !compared_in_third_part(a),
    ensures
        same_action(a, a),
        same_action(a, b) ==> same_action(b, a),
        same_action(a, b) && same_action(b, c) ==> same_action(a, c),
        same_action(a, b) ==> a.kind_spec() == b.kind_spec(),
{
    reveal(same_name_lists);
    reveal(same_ratios);
}

} // verus!
