//! Invocation arguments as they arrive, and their checked binding to the
//! parameters an action definition declares.

use vstd::prelude::*;
use vstd::string::StrSliceExecFns;
use crate::action::builtin_action::LayoutRatio;
use crate::action::builtin_action::Pixels;
use crate::action::builtin_action::WindowSelector;
use crate::action::builtin_action::WorkspaceName;
use crate::action::builtin_action::WorkspaceSelector;
use crate::action::definition::ActionDefinition;
use crate::action::definition::ArgumentCardinality;
use crate::action::definition::ParameterDefinition;
use crate::action::definition::layout_name_spec;
use crate::action::definition::lemma_layout_names_distinct;
use crate::action::id::ParameterId;
use crate::action::path::WindowsPath;
use crate::action::path::WindowsPathError;
use crate::action::path::has_nul;
use crate::adapters::socket_message::copy_units;
use crate::border_geometry::BorderOffset;
use crate::border_geometry::BorderWidth;
use crate::manager_types::ApplicationIdentifier;
use crate::manager_types::Axis;
use crate::manager_types::BorderImplementation;
use crate::manager_types::BorderStyle;
use crate::manager_types::CycleDirection;
use crate::manager_types::DefaultLayout;
use crate::manager_types::FocusFollowsMouseImplementation;
use crate::manager_types::HidingBehaviour;
use crate::manager_types::MonocleFocusBehaviour;
use crate::manager_types::MoveBehaviour;
use crate::manager_types::OperationBehaviour;
use crate::manager_types::OperationDirection;
use crate::manager_types::Rgb;
use crate::manager_types::Sizing;
use crate::manager_types::WindowKind;
use crate::resize_step::ResizeStep;
use crate::transparency_alpha::TransparencyAlpha;

verus! {

/// Number of fractional digits of a layout ratio's unit.
pub const RATIO_SCALE: u8 = 18;

/// One whole, in ratio units.
pub const RATIO_DENOMINATOR: u64 = 1_000_000_000_000_000_000;

/// The smallest accepted ratio, 0.1, in ratio units.
pub const MIN_RATIO_UNITS: u64 = 100_000_000_000_000_000;

/// The largest accepted ratio, 0.9, in ratio units.
pub const MAX_RATIO_UNITS: u64 = 900_000_000_000_000_000;

/// The most ratios a layout accepts along one axis.
pub const MAX_RATIOS: usize = 5;

/// An exact decimal `coefficient / 10^scale` with at most eighteen
/// fractional digits.
#[derive(Clone, Copy, Debug, PartialEq, Eq, Structural)]
pub struct FixedDecimal {
    coefficient: i64,
    scale: u8,
}

impl FixedDecimal {
    pub closed spec fn coefficient_value(self) -> i64 {
        self.coefficient
    }

    pub closed spec fn scale_value(self) -> u8 {
        self.scale
    }

    #[verifier::type_invariant]
    closed spec fn scale_in_range(self) -> bool {
        self.scale <= RATIO_SCALE
    }

    /// The decimal `coefficient / 10^scale`; there is none past eighteen
    /// fractional digits.
    pub fn new(coefficient: i64, scale: u8) -> (r: Option<Self>)
        ensures
            r is Some <==> scale <= RATIO_SCALE,
            r matches Some(d) ==> d.coefficient_value() == coefficient && d.scale_value() == scale,
    {
        if scale <= RATIO_SCALE {
            Some(FixedDecimal { coefficient, scale })
        } else {
            None
        }
    }

    pub fn coefficient(self) -> (r: i64)
        ensures
            r == self.coefficient_value(),
    {
        self.coefficient
    }

    pub fn scale(self) -> (r: u8)
        ensures
            r == self.scale_value(),
            r <= RATIO_SCALE,
    {
        proof {
            use_type_invariant(self);
        }
        self.scale
    }
}

/// One value of an argument.
#[derive(Clone, Debug, PartialEq, Eq)]
pub enum ArgumentScalar {
    Bool(bool),
    Signed(i64),
    Unsigned(u64),
    Decimal(FixedDecimal),
    Text(String),
    Choice(String),
    Selector(String),
    WindowsPath(Vec<u16>),
}

/// An argument: one value, or a list of values.
#[derive(Clone, Debug, PartialEq, Eq)]
pub enum ActionArgument {
    Scalar(ArgumentScalar),
    Scalars(Vec<ArgumentScalar>),
}

/// The arguments of an invocation, each under the text of its parameter.
#[derive(Clone, Debug)]
pub struct ActionArguments {
    pub values: Vec<(String, ActionArgument)>,
}

impl View for ActionArguments {
    type V = Seq<(String, ActionArgument)>;

    open spec fn view(&self) -> Seq<(String, ActionArgument)> {
        self.values@
    }
}

impl ActionArguments {
    pub fn new(values: Vec<(String, ActionArgument)>) -> (r: Self)
        ensures
            r@ == values@,
    {
        ActionArguments { values }
    }

    pub fn values(&self) -> (r: &Vec<(String, ActionArgument)>)
        ensures
            r@ == self@,
    {
        &self.values
    }
}

/// The kind of value a parameter expects.
#[derive(Clone, Copy, Debug, PartialEq, Eq, Hash, Structural)]
pub enum ScalarKind {
    Boolean,
    Signed,
    Unsigned,
    Decimal,
    Text,
    Choice,
    Selector,
    WindowsPath,
}

/// Why invocation arguments do not fit an action's parameters.
#[derive(Clone, Debug, PartialEq, Eq)]
pub enum ArgumentBindingError {
    Missing(ParameterId),
    Unexpected(String),
    WrongCardinality { parameter: ParameterId, expected: ArgumentCardinality },
    WrongScalar { parameter: ParameterId, expected: ScalarKind },
    UnknownChoice { parameter: ParameterId, value: String },
    OutsideI32 { parameter: ParameterId },
    OutsideUsize { parameter: ParameterId },
    OutsideU8 { parameter: ParameterId },
    Zero { parameter: ParameterId },
    NonPositive { parameter: ParameterId },
    EmptyText { parameter: ParameterId },
    InvalidRatio { parameter: ParameterId },
    WindowsPath { parameter: ParameterId, source: WindowsPathError },
}

/// Two texts with the same characters.
pub fn same_text(a: &str, b: &str) -> (r: bool)
    ensures
        r == (a@ == b@),
{
    let n = a.unicode_len();
    if n != b.unicode_len() {
        return false;
    }
    let mut i: usize = 0;
    while i < n
        invariant
            n == a@.len(),
            n == b@.len(),
            0 <= i <= n,
            forall|j: int| 0 <= j < i ==> a@[j] == b@[j],
        decreases n - i,
    {
        if a.get_char(i) != b.get_char(i) {
            return false;
        }
        i = i + 1;
    }
    proof {
        assert(a@ =~= b@);
    }
    true
}

/// The argument given for a parameter: the first entry under its text.
pub open spec fn argument_of(values: Seq<(String, ActionArgument)>, id: ParameterId) -> Option<
    ActionArgument,
>
    decreases values.len(),
{
    if values.len() == 0 {
        None
    } else if values[0].0@ == id.text() {
        Some(values[0].1)
    } else {
        argument_of(values.drop_first(), id)
    }
}

pub(crate) fn find<'a>(values: &'a Vec<(String, ActionArgument)>, id: ParameterId) -> (r: Option<
    &'a ActionArgument,
>)
    ensures
        r is None <==> argument_of(values@, id) is None,
        r matches Some(a) ==> argument_of(values@, id) == Some(*a),
{
    let mut i: usize = 0;
    proof {
        assert(values@.skip(0) =~= values@);
    }
    while i < values.len()
        invariant
            0 <= i <= values@.len(),
            argument_of(values@, id) == argument_of(values@.skip(i as int), id),
        decreases values.len() - i,
    {
        proof {
            assert(values@.skip(i as int).drop_first() =~= values@.skip(i + 1));
        }
        if same_text(values[i].0.as_str(), id.as_str()) {
            return Some(&values[i].1);
        }
        i = i + 1;
    }
    proof {
        assert(values@.skip(i as int).len() == 0);
    }
    None
}

/// The single value of a parameter's argument.
pub open spec fn scalar_of(values: Seq<(String, ActionArgument)>, id: ParameterId) -> Result<
    ArgumentScalar,
    ArgumentBindingError,
> {
    match argument_of(values, id) {
        Some(ActionArgument::Scalar(v)) => Ok(v),
        Some(ActionArgument::Scalars(_)) => Err(
            ArgumentBindingError::WrongCardinality {
                parameter: id,
                expected: ArgumentCardinality::RequiredScalar,
            },
        ),
        None => Err(ArgumentBindingError::Missing(id)),
    }
}

/// The list of values of a parameter's argument.
pub open spec fn list_of(values: Seq<(String, ActionArgument)>, id: ParameterId) -> Result<
    Seq<ArgumentScalar>,
    ArgumentBindingError,
> {
    match argument_of(values, id) {
        Some(ActionArgument::Scalars(v)) => Ok(v@),
        Some(ActionArgument::Scalar(_)) => Err(
            ArgumentBindingError::WrongCardinality {
                parameter: id,
                expected: ArgumentCardinality::RequiredList,
            },
        ),
        None => Err(ArgumentBindingError::Missing(id)),
    }
}

/// The list of values of an argument that may be left out.
pub open spec fn optional_list_of(values: Seq<(String, ActionArgument)>, id: ParameterId) -> Result<
    Option<Seq<ArgumentScalar>>,
    ArgumentBindingError,
> {
    match argument_of(values, id) {
        Some(ActionArgument::Scalars(v)) => Ok(Some(v@)),
        Some(ActionArgument::Scalar(_)) => Err(
            ArgumentBindingError::WrongCardinality {
                parameter: id,
                expected: ArgumentCardinality::OptionalList,
            },
        ),
        None => Ok(None),
    }
}

pub open spec fn wrong_scalar(id: ParameterId, expected: ScalarKind) -> ArgumentBindingError {
    ArgumentBindingError::WrongScalar { parameter: id, expected }
}

pub open spec fn boolean_of(values: Seq<(String, ActionArgument)>, id: ParameterId) -> Result<
    bool,
    ArgumentBindingError,
> {
    match scalar_of(values, id) {
        Err(e) => Err(e),
        Ok(ArgumentScalar::Bool(b)) => Ok(b),
        Ok(_) => Err(wrong_scalar(id, ScalarKind::Boolean)),
    }
}

pub open spec fn i32_of(values: Seq<(String, ActionArgument)>, id: ParameterId) -> Result<
    i32,
    ArgumentBindingError,
> {
    match scalar_of(values, id) {
        Err(e) => Err(e),
        Ok(ArgumentScalar::Signed(v)) => if i32::MIN <= v <= i32::MAX {
            Ok(v as i32)
        } else {
            Err(ArgumentBindingError::OutsideI32 { parameter: id })
        },
        Ok(_) => Err(wrong_scalar(id, ScalarKind::Signed)),
    }
}

pub open spec fn usize_of(values: Seq<(String, ActionArgument)>, id: ParameterId) -> Result<
    usize,
    ArgumentBindingError,
> {
    match scalar_of(values, id) {
        Err(e) => Err(e),
        Ok(ArgumentScalar::Unsigned(v)) => if v <= usize::MAX {
            Ok(v as usize)
        } else {
            Err(ArgumentBindingError::OutsideUsize { parameter: id })
        },
        Ok(_) => Err(wrong_scalar(id, ScalarKind::Unsigned)),
    }
}

pub open spec fn u8_of(values: Seq<(String, ActionArgument)>, id: ParameterId) -> Result<
    u8,
    ArgumentBindingError,
> {
    match scalar_of(values, id) {
        Err(e) => Err(e),
        Ok(ArgumentScalar::Unsigned(v)) => if v <= u8::MAX {
            Ok(v as u8)
        } else {
            Err(ArgumentBindingError::OutsideU8 { parameter: id })
        },
        Ok(_) => Err(wrong_scalar(id, ScalarKind::Unsigned)),
    }
}

pub open spec fn nonzero_usize_of(values: Seq<(String, ActionArgument)>, id: ParameterId) -> Result<
    usize,
    ArgumentBindingError,
> {
    match usize_of(values, id) {
        Ok(0) => Err(ArgumentBindingError::Zero { parameter: id }),
        other => other,
    }
}

pub open spec fn text_of(values: Seq<(String, ActionArgument)>, id: ParameterId) -> Result<
    String,
    ArgumentBindingError,
> {
    match scalar_of(values, id) {
        Err(e) => Err(e),
        Ok(ArgumentScalar::Text(s)) => Ok(s),
        Ok(_) => Err(wrong_scalar(id, ScalarKind::Text)),
    }
}

pub open spec fn choice_of(values: Seq<(String, ActionArgument)>, id: ParameterId) -> Result<
    String,
    ArgumentBindingError,
> {
    match scalar_of(values, id) {
        Err(e) => Err(e),
        Ok(ArgumentScalar::Choice(s)) => Ok(s),
        Ok(_) => Err(wrong_scalar(id, ScalarKind::Choice)),
    }
}

pub open spec fn selector_of(values: Seq<(String, ActionArgument)>, id: ParameterId) -> Result<
    String,
    ArgumentBindingError,
> {
    match scalar_of(values, id) {
        Err(e) => Err(e),
        Ok(ArgumentScalar::Selector(s)) => Ok(s),
        Ok(_) => Err(wrong_scalar(id, ScalarKind::Selector)),
    }
}

/// The direction a choice argument names.
pub open spec fn direction_of(values: Seq<(String, ActionArgument)>, id: ParameterId) -> Result<
    OperationDirection,
    ArgumentBindingError,
> {
    match choice_of(values, id) {
        Err(e) => Err(e),
        Ok(s) => if s@ == "left"@ {
            Ok(OperationDirection::Left)
        } else if s@ == "right"@ {
            Ok(OperationDirection::Right)
        } else if s@ == "up"@ {
            Ok(OperationDirection::Up)
        } else if s@ == "down"@ {
            Ok(OperationDirection::Down)
        } else {
            Err(ArgumentBindingError::UnknownChoice { parameter: id, value: s })
        },
    }
}

/// The axis a choice argument names.
pub open spec fn axis_of(values: Seq<(String, ActionArgument)>, id: ParameterId) -> Result<
    Axis,
    ArgumentBindingError,
> {
    match choice_of(values, id) {
        Err(e) => Err(e),
        Ok(s) => if s@ == "horizontal"@ {
            Ok(Axis::Horizontal)
        } else if s@ == "vertical"@ {
            Ok(Axis::Vertical)
        } else if s@ == "horizontal-and-vertical"@ {
            Ok(Axis::HorizontalAndVertical)
        } else {
            Err(ArgumentBindingError::UnknownChoice { parameter: id, value: s })
        },
    }
}

/// The cycle a choice argument names.
pub open spec fn cycle_of(values: Seq<(String, ActionArgument)>, id: ParameterId) -> Result<
    CycleDirection,
    ArgumentBindingError,
> {
    match choice_of(values, id) {
        Err(e) => Err(e),
        Ok(s) => if s@ == "previous"@ {
            Ok(CycleDirection::Previous)
        } else if s@ == "next"@ {
            Ok(CycleDirection::Next)
        } else {
            Err(ArgumentBindingError::UnknownChoice { parameter: id, value: s })
        },
    }
}

/// The sizing a choice argument names.
pub open spec fn sizing_of(values: Seq<(String, ActionArgument)>, id: ParameterId) -> Result<
    Sizing,
    ArgumentBindingError,
> {
    match choice_of(values, id) {
        Err(e) => Err(e),
        Ok(s) => if s@ == "increase"@ {
            Ok(Sizing::Increase)
        } else if s@ == "decrease"@ {
            Ok(Sizing::Decrease)
        } else {
            Err(ArgumentBindingError::UnknownChoice { parameter: id, value: s })
        },
    }
}

/// The layout a choice argument names.
pub open spec fn layout_of(values: Seq<(String, ActionArgument)>, id: ParameterId) -> Result<
    DefaultLayout,
    ArgumentBindingError,
> {
    match choice_of(values, id) {
        Err(e) => Err(e),
        Ok(s) => if s@ == "bsp"@ {
            Ok(DefaultLayout::BSP)
        } else if s@ == "columns"@ {
            Ok(DefaultLayout::Columns)
        } else if s@ == "rows"@ {
            Ok(DefaultLayout::Rows)
        } else if s@ == "vertical-stack"@ {
            Ok(DefaultLayout::VerticalStack)
        } else if s@ == "horizontal-stack"@ {
            Ok(DefaultLayout::HorizontalStack)
        } else if s@ == "ultrawide-vertical-stack"@ {
            Ok(DefaultLayout::UltrawideVerticalStack)
        } else if s@ == "grid"@ {
            Ok(DefaultLayout::Grid)
        } else if s@ == "right-main-vertical-stack"@ {
            Ok(DefaultLayout::RightMainVerticalStack)
        } else if s@ == "scrolling"@ {
            Ok(DefaultLayout::Scrolling)
        } else {
            Err(ArgumentBindingError::UnknownChoice { parameter: id, value: s })
        },
    }
}

/// A layout chosen by its published name binds back to that layout, and only
/// to it.
pub proof fn lemma_layout_names_bind_back(
    values: Seq<(String, ActionArgument)>,
    id: ParameterId,
    layout: DefaultLayout,
)
    requires
        choice_of(values, id) matches Ok(s) && s@ == layout_name_spec(layout),
    ensures
        layout_of(values, id) == Ok::<DefaultLayout, ArgumentBindingError>(layout),
{
    lemma_layout_names_distinct(layout, DefaultLayout::BSP);
    lemma_layout_names_distinct(layout, DefaultLayout::Columns);
    lemma_layout_names_distinct(layout, DefaultLayout::Rows);
    lemma_layout_names_distinct(layout, DefaultLayout::VerticalStack);
    lemma_layout_names_distinct(layout, DefaultLayout::HorizontalStack);
    lemma_layout_names_distinct(layout, DefaultLayout::UltrawideVerticalStack);
    lemma_layout_names_distinct(layout, DefaultLayout::Grid);
    lemma_layout_names_distinct(layout, DefaultLayout::RightMainVerticalStack);
    lemma_layout_names_distinct(layout, DefaultLayout::Scrolling);
}

/// The workspace selector a selector argument names.
pub open spec fn workspace_selector_of(values: Seq<(String, ActionArgument)>, id: ParameterId) -> Result<
    WorkspaceSelector,
    ArgumentBindingError,
> {
    match selector_of(values, id) {
        Err(e) => Err(e),
        Ok(s) => if s@ == "focused-at-execution"@ {
            Ok(WorkspaceSelector::FocusedAtExecution)
        } else {
            Err(ArgumentBindingError::UnknownChoice { parameter: id, value: s })
        },
    }
}

/// The window selector a selector argument names.
pub open spec fn window_selector_of(values: Seq<(String, ActionArgument)>, id: ParameterId) -> Result<
    WindowSelector,
    ArgumentBindingError,
> {
    match selector_of(values, id) {
        Err(e) => Err(e),
        Ok(s) => if s@ == "focused-at-execution"@ {
            Ok(WindowSelector::FocusedAtExecution)
        } else {
            Err(ArgumentBindingError::UnknownChoice { parameter: id, value: s })
        },
    }
}

/// The hiding behaviour a choice argument names.
pub open spec fn hiding_behaviour_of(values: Seq<(String, ActionArgument)>, id: ParameterId) -> Result<
    HidingBehaviour,
    ArgumentBindingError,
> {
    match choice_of(values, id) {
        Err(e) => Err(e),
        Ok(s) => if s@ == "hide"@ {
            Ok(HidingBehaviour::Hide)
        } else if s@ == "minimize"@ {
            Ok(HidingBehaviour::Minimize)
        } else if s@ == "cloak"@ {
            Ok(HidingBehaviour::Cloak)
        } else {
            Err(ArgumentBindingError::UnknownChoice { parameter: id, value: s })
        },
    }
}

/// The move behaviour a choice argument names.
pub open spec fn move_behaviour_of(values: Seq<(String, ActionArgument)>, id: ParameterId) -> Result<
    MoveBehaviour,
    ArgumentBindingError,
> {
    match choice_of(values, id) {
        Err(e) => Err(e),
        Ok(s) => if s@ == "swap"@ {
            Ok(MoveBehaviour::Swap)
        } else if s@ == "insert"@ {
            Ok(MoveBehaviour::Insert)
        } else if s@ == "no-op"@ {
            Ok(MoveBehaviour::NoOp)
        } else {
            Err(ArgumentBindingError::UnknownChoice { parameter: id, value: s })
        },
    }
}

/// The monocle behaviour a choice argument names.
pub open spec fn monocle_behaviour_of(values: Seq<(String, ActionArgument)>, id: ParameterId) -> Result<
    MonocleFocusBehaviour,
    ArgumentBindingError,
> {
    match choice_of(values, id) {
        Err(e) => Err(e),
        Ok(s) => if s@ == "cycle"@ {
            Ok(MonocleFocusBehaviour::Cycle)
        } else if s@ == "no-op"@ {
            Ok(MonocleFocusBehaviour::NoOp)
        } else {
            Err(ArgumentBindingError::UnknownChoice { parameter: id, value: s })
        },
    }
}

/// The operation behaviour a choice argument names.
pub open spec fn operation_behaviour_of(values: Seq<(String, ActionArgument)>, id: ParameterId) -> Result<
    OperationBehaviour,
    ArgumentBindingError,
> {
    match choice_of(values, id) {
        Err(e) => Err(e),
        Ok(s) => if s@ == "op"@ {
            Ok(OperationBehaviour::Op)
        } else if s@ == "no-op"@ {
            Ok(OperationBehaviour::NoOp)
        } else {
            Err(ArgumentBindingError::UnknownChoice { parameter: id, value: s })
        },
    }
}

/// The ffm implementation a choice argument names.
pub open spec fn ffm_implementation_of(values: Seq<(String, ActionArgument)>, id: ParameterId) -> Result<
    FocusFollowsMouseImplementation,
    ArgumentBindingError,
> {
    match choice_of(values, id) {
        Err(e) => Err(e),
        Ok(s) => if s@ == "komorebi"@ {
            Ok(FocusFollowsMouseImplementation::Komorebi)
        } else if s@ == "windows"@ {
            Ok(FocusFollowsMouseImplementation::Windows)
        } else {
            Err(ArgumentBindingError::UnknownChoice { parameter: id, value: s })
        },
    }
}

/// The window kind a choice argument names.
pub open spec fn window_kind_of(values: Seq<(String, ActionArgument)>, id: ParameterId) -> Result<
    WindowKind,
    ArgumentBindingError,
> {
    match choice_of(values, id) {
        Err(e) => Err(e),
        Ok(s) => if s@ == "single"@ {
            Ok(WindowKind::Single)
        } else if s@ == "stack"@ {
            Ok(WindowKind::Stack)
        } else if s@ == "monocle"@ {
            Ok(WindowKind::Monocle)
        } else if s@ == "unfocused"@ {
            Ok(WindowKind::Unfocused)
        } else if s@ == "unfocused-locked"@ {
            Ok(WindowKind::UnfocusedLocked)
        } else if s@ == "floating"@ {
            Ok(WindowKind::Floating)
        } else {
            Err(ArgumentBindingError::UnknownChoice { parameter: id, value: s })
        },
    }
}

/// The border style a choice argument names.
pub open spec fn border_style_of(values: Seq<(String, ActionArgument)>, id: ParameterId) -> Result<
    BorderStyle,
    ArgumentBindingError,
> {
    match choice_of(values, id) {
        Err(e) => Err(e),
        Ok(s) => if s@ == "system"@ {
            Ok(BorderStyle::System)
        } else if s@ == "rounded"@ {
            Ok(BorderStyle::Rounded)
        } else if s@ == "square"@ {
            Ok(BorderStyle::Square)
        } else {
            Err(ArgumentBindingError::UnknownChoice { parameter: id, value: s })
        },
    }
}

/// The border implementation a choice argument names.
pub open spec fn border_implementation_of(values: Seq<(String, ActionArgument)>, id: ParameterId) -> Result<
    BorderImplementation,
    ArgumentBindingError,
> {
    match choice_of(values, id) {
        Err(e) => Err(e),
        Ok(s) => if s@ == "komorebi"@ {
            Ok(BorderImplementation::Komorebi)
        } else if s@ == "windows"@ {
            Ok(BorderImplementation::Windows)
        } else {
            Err(ArgumentBindingError::UnknownChoice { parameter: id, value: s })
        },
    }
}

/// The application identifier a choice argument names.
pub open spec fn application_identifier_of(values: Seq<(String, ActionArgument)>, id: ParameterId) -> Result<
    ApplicationIdentifier,
    ArgumentBindingError,
> {
    match choice_of(values, id) {
        Err(e) => Err(e),
        Ok(s) => if s@ == "exe"@ {
            Ok(ApplicationIdentifier::Exe)
        } else if s@ == "class"@ {
            Ok(ApplicationIdentifier::Class)
        } else if s@ == "title"@ {
            Ok(ApplicationIdentifier::Title)
        } else if s@ == "path"@ {
            Ok(ApplicationIdentifier::Path)
        } else {
            Err(ArgumentBindingError::UnknownChoice { parameter: id, value: s })
        },
    }
}

pub open spec fn pixels_of(values: Seq<(String, ActionArgument)>, id: ParameterId) -> Result<
    Pixels,
    ArgumentBindingError,
> {
    match i32_of(values, id) {
        Err(e) => Err(e),
        Ok(v) => if v == 0 {
            Err(ArgumentBindingError::Zero { parameter: id })
        } else {
            Ok(Pixels::of_amount(v))
        },
    }
}

/// The pixels of a positive resize step.
pub open spec fn resize_step_of(values: Seq<(String, ActionArgument)>, id: ParameterId) -> Result<
    i32,
    ArgumentBindingError,
> {
    match i32_of(values, id) {
        Err(e) => Err(e),
        Ok(v) => if v > 0 {
            Ok(v)
        } else {
            Err(ArgumentBindingError::NonPositive { parameter: id })
        },
    }
}

pub open spec fn alpha_of(values: Seq<(String, ActionArgument)>, id: ParameterId) -> Result<
    TransparencyAlpha,
    ArgumentBindingError,
> {
    match u8_of(values, id) {
        Err(e) => Err(e),
        Ok(v) => Ok(TransparencyAlpha { value: v }),
    }
}

/// The colour whose channels the red, green and blue arguments give, read in
/// that order.
pub open spec fn rgb_of(values: Seq<(String, ActionArgument)>) -> Result<Rgb, ArgumentBindingError> {
    match u8_of(values, ParameterId::Red) {
        Err(e) => Err(e),
        Ok(r) => match u8_of(values, ParameterId::Green) {
            Err(e) => Err(e),
            Ok(g) => match u8_of(values, ParameterId::Blue) {
                Err(e) => Err(e),
                Ok(b) => Ok(Rgb { r: r as u32, g: g as u32, b: b as u32 }),
            },
        },
    }
}

pub open spec fn border_width_of(values: Seq<(String, ActionArgument)>, id: ParameterId) -> Result<
    BorderWidth,
    ArgumentBindingError,
> {
    match i32_of(values, id) {
        Err(e) => Err(e),
        Ok(v) => Ok(BorderWidth { value: v }),
    }
}

pub open spec fn border_offset_of(values: Seq<(String, ActionArgument)>, id: ParameterId) -> Result<
    BorderOffset,
    ArgumentBindingError,
> {
    match i32_of(values, id) {
        Err(e) => Err(e),
        Ok(v) => Ok(BorderOffset { value: v }),
    }
}

pub open spec fn workspace_name_of(values: Seq<(String, ActionArgument)>, id: ParameterId) -> Result<
    WorkspaceName,
    ArgumentBindingError,
> {
    match text_of(values, id) {
        Err(e) => Err(e),
        Ok(s) => if s@.len() == 0 {
            Err(ArgumentBindingError::EmptyText { parameter: id })
        } else {
            Ok(WorkspaceName::of_string(s))
        },
    }
}

/// A prefix in front of the outcome of the rest of a list.
pub open spec fn after<T>(prefix: Seq<T>, rest: Result<Seq<T>, ArgumentBindingError>) -> Result<
    Seq<T>,
    ArgumentBindingError,
> {
    match rest {
        Ok(tail) => Ok(prefix + tail),
        Err(e) => Err(e),
    }
}

/// The names of a list of values, or the first value's problem.
pub open spec fn name_run(id: ParameterId, scalars: Seq<ArgumentScalar>) -> Result<
    Seq<WorkspaceName>,
    ArgumentBindingError,
>
    decreases scalars.len(),
{
    if scalars.len() == 0 {
        Ok(Seq::empty())
    } else {
        match scalars[0] {
            ArgumentScalar::Text(s) => if s@.len() == 0 {
                Err(ArgumentBindingError::EmptyText { parameter: id })
            } else {
                after(seq![WorkspaceName::of_string(s)], name_run(id, scalars.drop_first()))
            },
            _ => Err(wrong_scalar(id, ScalarKind::Text)),
        }
    }
}

pub open spec fn names_of(values: Seq<(String, ActionArgument)>, id: ParameterId) -> Result<
    Seq<WorkspaceName>,
    ArgumentBindingError,
> {
    match list_of(values, id) {
        Err(e) => Err(e),
        Ok(scalars) => name_run(id, scalars),
    }
}

/// The code units of a path argument.
pub open spec fn windows_path_of(values: Seq<(String, ActionArgument)>, id: ParameterId) -> Result<
    Seq<u16>,
    ArgumentBindingError,
> {
    match scalar_of(values, id) {
        Err(e) => Err(e),
        Ok(ArgumentScalar::WindowsPath(units)) => if has_nul(units@) {
            Err(
                ArgumentBindingError::WindowsPath {
                    parameter: id,
                    source: WindowsPathError::InteriorNul,
                },
            )
        } else {
            Ok(units@)
        },
        Ok(_) => Err(wrong_scalar(id, ScalarKind::WindowsPath)),
    }
}

pub open spec fn pow10(n: nat) -> nat
    decreases n,
{
    if n == 0 {
        1
    } else {
        10 * pow10((n - 1) as nat)
    }
}

/// The value of a decimal in ratio units.
pub open spec fn decimal_units(d: FixedDecimal) -> int {
    d.coefficient_value() * pow10((RATIO_SCALE - d.scale_value()) as nat)
}

/// The units of a decimal that is an accepted ratio, from 0.1 through 0.9.
pub open spec fn ratio_units(d: FixedDecimal) -> Option<int> {
    let u = decimal_units(d);
    if MIN_RATIO_UNITS <= u <= MAX_RATIO_UNITS {
        Some(u)
    } else {
        None
    }
}

/// The ratios of a list of values after `total` units were already taken;
/// the running total must stay below one whole.
pub open spec fn ratio_run(id: ParameterId, scalars: Seq<ArgumentScalar>, total: int) -> Result<
    Seq<LayoutRatio>,
    ArgumentBindingError,
>
    decreases scalars.len(),
{
    if scalars.len() == 0 {
        Ok(Seq::empty())
    } else {
        match scalars[0] {
            ArgumentScalar::Decimal(d) => match ratio_units(d) {
                None => Err(ArgumentBindingError::InvalidRatio { parameter: id }),
                Some(u) => if total + u >= RATIO_DENOMINATOR {
                    Err(ArgumentBindingError::InvalidRatio { parameter: id })
                } else {
                    after(
                        seq![LayoutRatio { units: u as u64 }],
                        ratio_run(id, scalars.drop_first(), total + u),
                    )
                },
            },
            _ => Err(wrong_scalar(id, ScalarKind::Decimal)),
        }
    }
}

pub open spec fn ratio_list_of(id: ParameterId, scalars: Seq<ArgumentScalar>) -> Result<
    Seq<LayoutRatio>,
    ArgumentBindingError,
> {
    if scalars.len() > MAX_RATIOS {
        Err(ArgumentBindingError::InvalidRatio { parameter: id })
    } else {
        ratio_run(id, scalars, 0)
    }
}

/// The sum of the units of a list of ratios.
pub open spec fn ratio_total(ratios: Seq<LayoutRatio>) -> int
    decreases ratios.len(),
{
    if ratios.len() == 0 {
        0
    } else {
        ratios[0].units + ratio_total(ratios.drop_first())
    }
}

/// What accepted ratios are: each from 0.1 through 0.9.
pub open spec fn ratios_in_range(ratios: Seq<LayoutRatio>) -> bool {
    forall|i: int| 0 <= i < ratios.len() ==> MIN_RATIO_UNITS <= #[trigger] ratios[i].units <= MAX_RATIO_UNITS
}

proof fn lemma_ratio_run_bounded(id: ParameterId, scalars: Seq<ArgumentScalar>, total: int)
    requires
        0 <= total < RATIO_DENOMINATOR,
    ensures
        ratio_run(id, scalars, total) matches Ok(ratios) ==> ratios.len() == scalars.len()
            && ratios_in_range(ratios) && total + ratio_total(ratios) < RATIO_DENOMINATOR,
    decreases scalars.len(),
{
    if scalars.len() > 0 {
        if let ArgumentScalar::Decimal(d) = scalars[0] {
            if let Some(u) = ratio_units(d) {
                if total + u < RATIO_DENOMINATOR {
                    lemma_ratio_run_bounded(id, scalars.drop_first(), total + u);
                    if let Ok(rest) = ratio_run(id, scalars.drop_first(), total + u) {
                        let ratios = seq![LayoutRatio { units: u as u64 }] + rest;
                        assert(ratios.drop_first() =~= rest);
                        assert(ratios[0].units == u);
                        assert forall|i: int| 0 <= i < ratios.len() implies MIN_RATIO_UNITS
                            <= #[trigger] ratios[i].units <= MAX_RATIO_UNITS by {
                            if i > 0 {
                                assert(ratios[i] == rest[i - 1]);
                            }
                        }
                    }
                }
            }
        }
    }
}

/// Accepted layout ratios are at most five, each from 0.1 through 0.9, and
/// together less than one whole.
pub proof fn lemma_accepted_ratios_are_bounded(id: ParameterId, scalars: Seq<ArgumentScalar>)
    ensures
        ratio_list_of(id, scalars) matches Ok(ratios) ==> ratios.len() <= MAX_RATIOS
            && ratios_in_range(ratios) && ratio_total(ratios) < RATIO_DENOMINATOR,
{
    if scalars.len() <= MAX_RATIOS {
        lemma_ratio_run_bounded(id, scalars, 0);
    }
}

pub open spec fn ratios_of(values: Seq<(String, ActionArgument)>, id: ParameterId) -> Result<
    Option<Seq<LayoutRatio>>,
    ArgumentBindingError,
> {
    match optional_list_of(values, id) {
        Err(e) => Err(e),
        Ok(None) => Ok(None),
        Ok(Some(scalars)) => match ratio_list_of(id, scalars) {
            Ok(ratios) => Ok(Some(ratios)),
            Err(e) => Err(e),
        },
    }
}

pub proof fn lemma_pow10_at_most(n: nat)
    requires
        n <= 18,
    ensures
        1 <= pow10(n) <= pow10(18),
        pow10(18) == RATIO_DENOMINATOR,
    decreases 18 - n,
{
    reveal_with_fuel(pow10, 19);
    if n < 18 {
        lemma_pow10_at_most(n + 1);
    }
}

fn power_of_ten(n: u8) -> (r: u64)
    requires
        n <= 18,
    ensures
        r == pow10(n as nat),
{
    let mut r: u64 = 1;
    let mut i: u8 = 0;
    while i < n
        invariant
            i <= n <= 18,
            r == pow10(i as nat),
        decreases n - i,
    {
        proof {
            lemma_pow10_at_most((i + 1) as nat);
        }
        r = r * 10;
        i = i + 1;
    }
    r
}

fn decimal_ratio_units(value: FixedDecimal) -> (r: Option<u64>)
    ensures
        match ratio_units(value) {
            Some(u) => r == Some(u as u64),
            None => r is None,
        },
{
    let c = value.coefficient();
    let s = value.scale();
    let p = power_of_ten(RATIO_SCALE - s);
    proof {
        lemma_pow10_at_most((RATIO_SCALE - s) as nat);
    }
    if c <= 0 {
        proof {
            assert(c * p <= 0) by (nonlinear_arith)
                requires
                    c <= 0,
                    p >= 1,
            ;
        }
        return None;
    }
    let cu = c as u64;
    match cu.checked_mul(p) {
        None => None,
        Some(u) => if MIN_RATIO_UNITS <= u && u <= MAX_RATIO_UNITS {
            Some(u)
        } else {
            None
        },
    }
}

fn bind_ratios(id: ParameterId, scalars: &Vec<ArgumentScalar>) -> (r: Result<
    Vec<LayoutRatio>,
    ArgumentBindingError,
>)
    ensures
        match ratio_list_of(id, scalars@) {
            Ok(ratios) => r matches Ok(v) && v@ == ratios,
            Err(e) => r == Err::<Vec<LayoutRatio>, ArgumentBindingError>(e),
        },
{
    if scalars.len() > MAX_RATIOS {
        return Err(ArgumentBindingError::InvalidRatio { parameter: id });
    }
    let mut ratios: Vec<LayoutRatio> = Vec::new();
    let mut total: u64 = 0;
    let mut i: usize = 0;
    proof {
        assert(scalars@.skip(0) =~= scalars@);
    }
    while i < scalars.len()
        invariant
            ratio_run(id, scalars@, 0) == after(ratios@, ratio_run(id, scalars@.skip(i as int), total as int)),
            total < RATIO_DENOMINATOR,
            scalars@.len() <= MAX_RATIOS,
            0 <= i <= scalars@.len(),
        decreases scalars.len() - i,
    {
        proof {
            assert(scalars@.skip(i as int).drop_first() =~= scalars@.skip(i + 1));
            assert(scalars@.skip(i as int)[0] == scalars@[i as int]);
        }
        match &scalars[i] {
            ArgumentScalar::Decimal(d) => match decimal_ratio_units(*d) {
                None => {
                    return Err(ArgumentBindingError::InvalidRatio { parameter: id });
                },
                Some(u) => {
                    let next = total + u;
                    if next >= RATIO_DENOMINATOR {
                        return Err(ArgumentBindingError::InvalidRatio { parameter: id });
                    }
                    let ratio = LayoutRatio { units: u };
                    proof {
                        assert forall|rest: Seq<LayoutRatio>|
                            ratios@ + (seq![ratio] + rest) == ratios@.push(ratio) + rest by {
                            assert(ratios@ + (seq![ratio] + rest) =~= ratios@.push(ratio) + rest);
                        }
                    }
                    ratios.push(ratio);
                    total = next;
                },
            },
            _ => {
                return Err(ArgumentBindingError::WrongScalar { parameter: id, expected: ScalarKind::Decimal });
            },
        }
        i = i + 1;
    }
    proof {
        assert(scalars@.skip(i as int).len() == 0);
        assert(ratios@ + Seq::<LayoutRatio>::empty() =~= ratios@);
    }
    Ok(ratios)
}

/// What a parameter's argument makes of it: missing, or present with the
/// wrong cardinality.
pub open spec fn parameter_problem(
    parameter: ParameterDefinition,
    values: Seq<(String, ActionArgument)>,
) -> Option<ArgumentBindingError> {
    let id = parameter.id;
    let wrong = ArgumentBindingError::WrongCardinality {
        parameter: id,
        expected: parameter.cardinality,
    };
    match (parameter.cardinality, argument_of(values, id)) {
        (ArgumentCardinality::RequiredScalar, None) => Some(ArgumentBindingError::Missing(id)),
        (ArgumentCardinality::RequiredList, None) => Some(ArgumentBindingError::Missing(id)),
        (ArgumentCardinality::RequiredScalar, Some(ActionArgument::Scalars(_))) => Some(wrong),
        (ArgumentCardinality::OptionalScalar, Some(ActionArgument::Scalars(_))) => Some(wrong),
        (ArgumentCardinality::RequiredList, Some(ActionArgument::Scalar(_))) => Some(wrong),
        (ArgumentCardinality::OptionalList, Some(ActionArgument::Scalar(_))) => Some(wrong),
        _ => None,
    }
}

/// The problem of the first parameter, in declaration order, that has one.
pub open spec fn first_parameter_problem(
    parameters: Seq<ParameterDefinition>,
    values: Seq<(String, ActionArgument)>,
) -> Option<ArgumentBindingError>
    decreases parameters.len(),
{
    if parameters.len() == 0 {
        None
    } else {
        match parameter_problem(parameters[0], values) {
            Some(e) => Some(e),
            None => first_parameter_problem(parameters.drop_first(), values),
        }
    }
}

/// Whether some parameter is declared under this text.
pub open spec fn is_declared(parameters: Seq<ParameterDefinition>, key: Seq<char>) -> bool {
    exists|i: int| 0 <= i < parameters.len() && parameters[i].id.text() == key
}

/// The first argument, in order, that no parameter declares.
pub open spec fn first_undeclared(
    parameters: Seq<ParameterDefinition>,
    values: Seq<(String, ActionArgument)>,
) -> Option<String>
    decreases values.len(),
{
    if values.len() == 0 {
        None
    } else if !is_declared(parameters, values[0].0@) {
        Some(values[0].0)
    } else {
        first_undeclared(parameters, values.drop_first())
    }
}

/// Why arguments do not fit the declared parameters, if they do not: every
/// parameter is checked before any argument is.
pub open spec fn validation_of(
    parameters: Seq<ParameterDefinition>,
    values: Seq<(String, ActionArgument)>,
) -> Option<ArgumentBindingError> {
    match first_parameter_problem(parameters, values) {
        Some(e) => Some(e),
        None => match first_undeclared(parameters, values) {
            Some(key) => Some(ArgumentBindingError::Unexpected(key)),
            None => None,
        },
    }
}

fn check_parameter(parameter: ParameterDefinition, values: &Vec<(String, ActionArgument)>) -> (r:
    Option<ArgumentBindingError>)
    ensures
        r == parameter_problem(parameter, values@),
{
    let id = parameter.id;
    let value = find(values, id);
    match (parameter.cardinality, value) {
        (ArgumentCardinality::RequiredScalar, None) => Some(ArgumentBindingError::Missing(id)),
        (ArgumentCardinality::RequiredList, None) => Some(ArgumentBindingError::Missing(id)),
        (ArgumentCardinality::RequiredScalar, Some(ActionArgument::Scalars(_)))
        | (ArgumentCardinality::OptionalScalar, Some(ActionArgument::Scalars(_)))
        | (ArgumentCardinality::RequiredList, Some(ActionArgument::Scalar(_)))
        | (ArgumentCardinality::OptionalList, Some(ActionArgument::Scalar(_))) => Some(
            ArgumentBindingError::WrongCardinality { parameter: id, expected: parameter.cardinality },
        ),
        _ => None,
    }
}

fn declares(parameters: &Vec<ParameterDefinition>, key: &String) -> (r: bool)
    ensures
        r == is_declared(parameters@, key@),
{
    let mut i: usize = 0;
    while i < parameters.len()
        invariant
            0 <= i <= parameters@.len(),
            forall|j: int| 0 <= j < i ==> parameters@[j].id.text() != key@,
        decreases parameters.len() - i,
    {
        if same_text(parameters[i].id.as_str(), key.as_str()) {
            return true;
        }
        i = i + 1;
    }
    false
}

/// Arguments that fit the parameters of one action definition exactly.
pub struct ValidatedArguments<'a> {
    values: &'a ActionArguments,
}

impl<'a> ValidatedArguments<'a> {
    /// The arguments these are.
    pub closed spec fn arguments(&self) -> Seq<(String, ActionArgument)> {
        self.values@
    }

    /// Checks every declared parameter in order, then every argument.
    pub fn new(definition: &ActionDefinition, values: &'a ActionArguments) -> (r: Result<
        Self,
        ArgumentBindingError,
    >)
        ensures
            match validation_of(definition.parameters@, values@) {
                Some(e) => r == Err::<Self, ArgumentBindingError>(e),
                None => r matches Ok(v) && v.arguments() == values@,
            },
    {
        let parameters = &definition.parameters;
        let mut i: usize = 0;
        proof {
            assert(parameters@.skip(0) =~= parameters@);
        }
        while i < parameters.len()
            invariant
                parameters@ == definition.parameters@,
                0 <= i <= parameters@.len(),
                first_parameter_problem(parameters@, values@) == first_parameter_problem(
                    parameters@.skip(i as int),
                    values@,
                ),
            decreases parameters.len() - i,
        {
            proof {
                assert(parameters@.skip(i as int).drop_first() =~= parameters@.skip(i + 1));
                assert(parameters@.skip(i as int)[0] == parameters@[i as int]);
            }
            match check_parameter(parameters[i], &values.values) {
                Some(e) => {
                    return Err(e);
                },
                None => {},
            }
            i = i + 1;
        }
        proof {
            assert(parameters@.skip(i as int).len() == 0);
        }
        let entries = &values.values;
        let mut k: usize = 0;
        proof {
            assert(entries@.skip(0) =~= entries@);
        }
        while k < entries.len()
            invariant
                parameters@ == definition.parameters@,
                entries@ == values@,
                first_parameter_problem(parameters@, values@) is None,
                0 <= k <= entries@.len(),
                first_undeclared(parameters@, entries@) == first_undeclared(
                    parameters@,
                    entries@.skip(k as int),
                ),
            decreases entries.len() - k,
        {
            proof {
                assert(entries@.skip(k as int).drop_first() =~= entries@.skip(k + 1));
                assert(entries@.skip(k as int)[0] == entries@[k as int]);
            }
            if !declares(parameters, &entries[k].0) {
                return Err(ArgumentBindingError::Unexpected(entries[k].0.clone()));
            }
            k = k + 1;
        }
        proof {
            assert(entries@.skip(k as int).len() == 0);
        }
        Ok(ValidatedArguments { values })
    }

    fn scalar(&self, id: ParameterId) -> (r: Result<&'a ArgumentScalar, ArgumentBindingError>)
        ensures
            match scalar_of(self.arguments(), id) {
                Ok(v) => r == Ok::<&ArgumentScalar, ArgumentBindingError>(&v),
                Err(e) => r == Err::<&ArgumentScalar, ArgumentBindingError>(e),
            },
    {
        let values: &'a ActionArguments = self.values;
        match find(&values.values, id) {
            Some(ActionArgument::Scalar(v)) => Ok(v),
            Some(ActionArgument::Scalars(_)) => Err(
                ArgumentBindingError::WrongCardinality {
                    parameter: id,
                    expected: ArgumentCardinality::RequiredScalar,
                },
            ),
            None => Err(ArgumentBindingError::Missing(id)),
        }
    }

    fn list(&self, id: ParameterId) -> (r: Result<&'a Vec<ArgumentScalar>, ArgumentBindingError>)
        ensures
            match list_of(self.arguments(), id) {
                Ok(v) => r matches Ok(l) && l@ == v,
                Err(e) => r == Err::<&Vec<ArgumentScalar>, ArgumentBindingError>(e),
            },
    {
        let values: &'a ActionArguments = self.values;
        match find(&values.values, id) {
            Some(ActionArgument::Scalars(v)) => Ok(v),
            Some(ActionArgument::Scalar(_)) => Err(
                ArgumentBindingError::WrongCardinality {
                    parameter: id,
                    expected: ArgumentCardinality::RequiredList,
                },
            ),
            None => Err(ArgumentBindingError::Missing(id)),
        }
    }

    fn optional_list(&self, id: ParameterId) -> (r: Result<
        Option<&'a Vec<ArgumentScalar>>,
        ArgumentBindingError,
    >)
        ensures
            match optional_list_of(self.arguments(), id) {
                Ok(Some(v)) => r matches Ok(Some(l)) && l@ == v,
                Ok(None) => r matches Ok(None),
                Err(e) => r == Err::<Option<&Vec<ArgumentScalar>>, ArgumentBindingError>(e),
            },
    {
        let values: &'a ActionArguments = self.values;
        match find(&values.values, id) {
            Some(ActionArgument::Scalars(v)) => Ok(Some(v)),
            Some(ActionArgument::Scalar(_)) => Err(
                ArgumentBindingError::WrongCardinality {
                    parameter: id,
                    expected: ArgumentCardinality::OptionalList,
                },
            ),
            None => Ok(None),
        }
    }

    pub fn boolean(&self, id: ParameterId) -> (r: Result<bool, ArgumentBindingError>)
        ensures
            r == boolean_of(self.arguments(), id),
    {
        match self.scalar(id) {
            Err(e) => Err(e),
            Ok(ArgumentScalar::Bool(b)) => Ok(*b),
            Ok(_) => Err(ArgumentBindingError::WrongScalar { parameter: id, expected: ScalarKind::Boolean }),
        }
    }

    pub fn i32(&self, id: ParameterId) -> (r: Result<i32, ArgumentBindingError>)
        ensures
            r == i32_of(self.arguments(), id),
    {
        match self.scalar(id) {
            Err(e) => Err(e),
            Ok(ArgumentScalar::Signed(v)) => {
                let v: i64 = *v;
                if -2147483648 <= v && v <= 2147483647 {
                    Ok(v as i32)
                } else {
                    Err(ArgumentBindingError::OutsideI32 { parameter: id })
                }
            },
            Ok(_) => Err(ArgumentBindingError::WrongScalar { parameter: id, expected: ScalarKind::Signed }),
        }
    }

    pub fn usize(&self, id: ParameterId) -> (r: Result<usize, ArgumentBindingError>)
        ensures
            r == usize_of(self.arguments(), id),
    {
        match self.scalar(id) {
            Err(e) => Err(e),
            Ok(ArgumentScalar::Unsigned(v)) => {
                let v: u64 = *v;
                if (v as u128) <= (usize::MAX as u128) {
                    Ok(v as usize)
                } else {
                    Err(ArgumentBindingError::OutsideUsize { parameter: id })
                }
            },
            Ok(_) => Err(ArgumentBindingError::WrongScalar { parameter: id, expected: ScalarKind::Unsigned }),
        }
    }

    pub fn u8(&self, id: ParameterId) -> (r: Result<u8, ArgumentBindingError>)
        ensures
            r == u8_of(self.arguments(), id),
    {
        match self.scalar(id) {
            Err(e) => Err(e),
            Ok(ArgumentScalar::Unsigned(v)) => {
                let v: u64 = *v;
                if v <= 255 {
                    Ok(v as u8)
                } else {
                    Err(ArgumentBindingError::OutsideU8 { parameter: id })
                }
            },
            Ok(_) => Err(ArgumentBindingError::WrongScalar { parameter: id, expected: ScalarKind::Unsigned }),
        }
    }

    pub fn nonzero_usize(&self, id: ParameterId) -> (r: Result<usize, ArgumentBindingError>)
        ensures
            r == nonzero_usize_of(self.arguments(), id),
    {
        match self.usize(id) {
            Ok(0) => Err(ArgumentBindingError::Zero { parameter: id }),
            other => other,
        }
    }

    pub fn text(&self, id: ParameterId) -> (r: Result<String, ArgumentBindingError>)
        ensures
            r == text_of(self.arguments(), id),
    {
        match self.scalar(id) {
            Err(e) => Err(e),
            Ok(ArgumentScalar::Text(s)) => Ok(s.clone()),
            Ok(_) => Err(ArgumentBindingError::WrongScalar { parameter: id, expected: ScalarKind::Text }),
        }
    }

    fn choice(&self, id: ParameterId) -> (r: Result<String, ArgumentBindingError>)
        ensures
            r == choice_of(self.arguments(), id),
    {
        match self.scalar(id) {
            Err(e) => Err(e),
            Ok(ArgumentScalar::Choice(s)) => Ok(s.clone()),
            Ok(_) => Err(ArgumentBindingError::WrongScalar { parameter: id, expected: ScalarKind::Choice }),
        }
    }

    fn selector(&self, id: ParameterId) -> (r: Result<String, ArgumentBindingError>)
        ensures
            r == selector_of(self.arguments(), id),
    {
        match self.scalar(id) {
            Err(e) => Err(e),
            Ok(ArgumentScalar::Selector(s)) => Ok(s.clone()),
            Ok(_) => Err(ArgumentBindingError::WrongScalar { parameter: id, expected: ScalarKind::Selector }),
        }
    }

    pub fn direction(&self, id: ParameterId) -> (r: Result<OperationDirection, ArgumentBindingError>)
        ensures
            r == direction_of(self.arguments(), id),
    {
        let s = match self.choice(id) {
            Ok(s) => s,
            Err(e) => {
                return Err(e);
            },
        };
        if same_text(s.as_str(), "left") {
            Ok(OperationDirection::Left)
        } else if same_text(s.as_str(), "right") {
            Ok(OperationDirection::Right)
        } else if same_text(s.as_str(), "up") {
            Ok(OperationDirection::Up)
        } else if same_text(s.as_str(), "down") {
            Ok(OperationDirection::Down)
        } else {
            Err(ArgumentBindingError::UnknownChoice { parameter: id, value: s })
        }
    }

    pub fn axis(&self, id: ParameterId) -> (r: Result<Axis, ArgumentBindingError>)
        ensures
            r == axis_of(self.arguments(), id),
    {
        let s = match self.choice(id) {
            Ok(s) => s,
            Err(e) => {
                return Err(e);
            },
        };
        if same_text(s.as_str(), "horizontal") {
            Ok(Axis::Horizontal)
        } else if same_text(s.as_str(), "vertical") {
            Ok(Axis::Vertical)
        } else if same_text(s.as_str(), "horizontal-and-vertical") {
            Ok(Axis::HorizontalAndVertical)
        } else {
            Err(ArgumentBindingError::UnknownChoice { parameter: id, value: s })
        }
    }

    pub fn cycle(&self, id: ParameterId) -> (r: Result<CycleDirection, ArgumentBindingError>)
        ensures
            r == cycle_of(self.arguments(), id),
    {
        let s = match self.choice(id) {
            Ok(s) => s,
            Err(e) => {
                return Err(e);
            },
        };
        if same_text(s.as_str(), "previous") {
            Ok(CycleDirection::Previous)
        } else if same_text(s.as_str(), "next") {
            Ok(CycleDirection::Next)
        } else {
            Err(ArgumentBindingError::UnknownChoice { parameter: id, value: s })
        }
    }

    pub fn sizing(&self, id: ParameterId) -> (r: Result<Sizing, ArgumentBindingError>)
        ensures
            r == sizing_of(self.arguments(), id),
    {
        let s = match self.choice(id) {
            Ok(s) => s,
            Err(e) => {
                return Err(e);
            },
        };
        if same_text(s.as_str(), "increase") {
            Ok(Sizing::Increase)
        } else if same_text(s.as_str(), "decrease") {
            Ok(Sizing::Decrease)
        } else {
            Err(ArgumentBindingError::UnknownChoice { parameter: id, value: s })
        }
    }

    pub fn layout(&self, id: ParameterId) -> (r: Result<DefaultLayout, ArgumentBindingError>)
        ensures
            r == layout_of(self.arguments(), id),
    {
        let s = match self.choice(id) {
            Ok(s) => s,
            Err(e) => {
                return Err(e);
            },
        };
        if same_text(s.as_str(), "bsp") {
            Ok(DefaultLayout::BSP)
        } else if same_text(s.as_str(), "columns") {
            Ok(DefaultLayout::Columns)
        } else if same_text(s.as_str(), "rows") {
            Ok(DefaultLayout::Rows)
        } else if same_text(s.as_str(), "vertical-stack") {
            Ok(DefaultLayout::VerticalStack)
        } else if same_text(s.as_str(), "horizontal-stack") {
            Ok(DefaultLayout::HorizontalStack)
        } else if same_text(s.as_str(), "ultrawide-vertical-stack") {
            Ok(DefaultLayout::UltrawideVerticalStack)
        } else if same_text(s.as_str(), "grid") {
            Ok(DefaultLayout::Grid)
        } else if same_text(s.as_str(), "right-main-vertical-stack") {
            Ok(DefaultLayout::RightMainVerticalStack)
        } else if same_text(s.as_str(), "scrolling") {
            Ok(DefaultLayout::Scrolling)
        } else {
            Err(ArgumentBindingError::UnknownChoice { parameter: id, value: s })
        }
    }

    pub fn workspace_selector(&self, id: ParameterId) -> (r: Result<WorkspaceSelector, ArgumentBindingError>)
        ensures
            r == workspace_selector_of(self.arguments(), id),
    {
        let s = match self.selector(id) {
            Ok(s) => s,
            Err(e) => {
                return Err(e);
            },
        };
        if same_text(s.as_str(), "focused-at-execution") {
            Ok(WorkspaceSelector::FocusedAtExecution)
        } else {
            Err(ArgumentBindingError::UnknownChoice { parameter: id, value: s })
        }
    }

    pub fn window_selector(&self, id: ParameterId) -> (r: Result<WindowSelector, ArgumentBindingError>)
        ensures
            r == window_selector_of(self.arguments(), id),
    {
        let s = match self.selector(id) {
            Ok(s) => s,
            Err(e) => {
                return Err(e);
            },
        };
        if same_text(s.as_str(), "focused-at-execution") {
            Ok(WindowSelector::FocusedAtExecution)
        } else {
            Err(ArgumentBindingError::UnknownChoice { parameter: id, value: s })
        }
    }

    pub fn hiding_behaviour(&self, id: ParameterId) -> (r: Result<HidingBehaviour, ArgumentBindingError>)
        ensures
            r == hiding_behaviour_of(self.arguments(), id),
    {
        let s = match self.choice(id) {
            Ok(s) => s,
            Err(e) => {
                return Err(e);
            },
        };
        if same_text(s.as_str(), "hide") {
            Ok(HidingBehaviour::Hide)
        } else if same_text(s.as_str(), "minimize") {
            Ok(HidingBehaviour::Minimize)
        } else if same_text(s.as_str(), "cloak") {
            Ok(HidingBehaviour::Cloak)
        } else {
            Err(ArgumentBindingError::UnknownChoice { parameter: id, value: s })
        }
    }

    pub fn move_behaviour(&self, id: ParameterId) -> (r: Result<MoveBehaviour, ArgumentBindingError>)
        ensures
            r == move_behaviour_of(self.arguments(), id),
    {
        let s = match self.choice(id) {
            Ok(s) => s,
            Err(e) => {
                return Err(e);
            },
        };
        if same_text(s.as_str(), "swap") {
            Ok(MoveBehaviour::Swap)
        } else if same_text(s.as_str(), "insert") {
            Ok(MoveBehaviour::Insert)
        } else if same_text(s.as_str(), "no-op") {
            Ok(MoveBehaviour::NoOp)
        } else {
            Err(ArgumentBindingError::UnknownChoice { parameter: id, value: s })
        }
    }

    pub fn monocle_behaviour(&self, id: ParameterId) -> (r: Result<MonocleFocusBehaviour, ArgumentBindingError>)
        ensures
            r == monocle_behaviour_of(self.arguments(), id),
    {
        let s = match self.choice(id) {
            Ok(s) => s,
            Err(e) => {
                return Err(e);
            },
        };
        if same_text(s.as_str(), "cycle") {
            Ok(MonocleFocusBehaviour::Cycle)
        } else if same_text(s.as_str(), "no-op") {
            Ok(MonocleFocusBehaviour::NoOp)
        } else {
            Err(ArgumentBindingError::UnknownChoice { parameter: id, value: s })
        }
    }

    pub fn operation_behaviour(&self, id: ParameterId) -> (r: Result<OperationBehaviour, ArgumentBindingError>)
        ensures
            r == operation_behaviour_of(self.arguments(), id),
    {
        let s = match self.choice(id) {
            Ok(s) => s,
            Err(e) => {
                return Err(e);
            },
        };
        if same_text(s.as_str(), "op") {
            Ok(OperationBehaviour::Op)
        } else if same_text(s.as_str(), "no-op") {
            Ok(OperationBehaviour::NoOp)
        } else {
            Err(ArgumentBindingError::UnknownChoice { parameter: id, value: s })
        }
    }

    pub fn ffm_implementation(&self, id: ParameterId) -> (r: Result<FocusFollowsMouseImplementation, ArgumentBindingError>)
        ensures
            r == ffm_implementation_of(self.arguments(), id),
    {
        let s = match self.choice(id) {
            Ok(s) => s,
            Err(e) => {
                return Err(e);
            },
        };
        if same_text(s.as_str(), "komorebi") {
            Ok(FocusFollowsMouseImplementation::Komorebi)
        } else if same_text(s.as_str(), "windows") {
            Ok(FocusFollowsMouseImplementation::Windows)
        } else {
            Err(ArgumentBindingError::UnknownChoice { parameter: id, value: s })
        }
    }

    pub fn window_kind(&self, id: ParameterId) -> (r: Result<WindowKind, ArgumentBindingError>)
        ensures
            r == window_kind_of(self.arguments(), id),
    {
        let s = match self.choice(id) {
            Ok(s) => s,
            Err(e) => {
                return Err(e);
            },
        };
        if same_text(s.as_str(), "single") {
            Ok(WindowKind::Single)
        } else if same_text(s.as_str(), "stack") {
            Ok(WindowKind::Stack)
        } else if same_text(s.as_str(), "monocle") {
            Ok(WindowKind::Monocle)
        } else if same_text(s.as_str(), "unfocused") {
            Ok(WindowKind::Unfocused)
        } else if same_text(s.as_str(), "unfocused-locked") {
            Ok(WindowKind::UnfocusedLocked)
        } else if same_text(s.as_str(), "floating") {
            Ok(WindowKind::Floating)
        } else {
            Err(ArgumentBindingError::UnknownChoice { parameter: id, value: s })
        }
    }

    pub fn border_style(&self, id: ParameterId) -> (r: Result<BorderStyle, ArgumentBindingError>)
        ensures
            r == border_style_of(self.arguments(), id),
    {
        let s = match self.choice(id) {
            Ok(s) => s,
            Err(e) => {
                return Err(e);
            },
        };
        if same_text(s.as_str(), "system") {
            Ok(BorderStyle::System)
        } else if same_text(s.as_str(), "rounded") {
            Ok(BorderStyle::Rounded)
        } else if same_text(s.as_str(), "square") {
            Ok(BorderStyle::Square)
        } else {
            Err(ArgumentBindingError::UnknownChoice { parameter: id, value: s })
        }
    }

    pub fn border_implementation(&self, id: ParameterId) -> (r: Result<BorderImplementation, ArgumentBindingError>)
        ensures
            r == border_implementation_of(self.arguments(), id),
    {
        let s = match self.choice(id) {
            Ok(s) => s,
            Err(e) => {
                return Err(e);
            },
        };
        if same_text(s.as_str(), "komorebi") {
            Ok(BorderImplementation::Komorebi)
        } else if same_text(s.as_str(), "windows") {
            Ok(BorderImplementation::Windows)
        } else {
            Err(ArgumentBindingError::UnknownChoice { parameter: id, value: s })
        }
    }

    pub fn application_identifier(&self, id: ParameterId) -> (r: Result<ApplicationIdentifier, ArgumentBindingError>)
        ensures
            r == application_identifier_of(self.arguments(), id),
    {
        let s = match self.choice(id) {
            Ok(s) => s,
            Err(e) => {
                return Err(e);
            },
        };
        if same_text(s.as_str(), "exe") {
            Ok(ApplicationIdentifier::Exe)
        } else if same_text(s.as_str(), "class") {
            Ok(ApplicationIdentifier::Class)
        } else if same_text(s.as_str(), "title") {
            Ok(ApplicationIdentifier::Title)
        } else if same_text(s.as_str(), "path") {
            Ok(ApplicationIdentifier::Path)
        } else {
            Err(ArgumentBindingError::UnknownChoice { parameter: id, value: s })
        }
    }

    pub fn pixels(&self, id: ParameterId) -> (r: Result<Pixels, ArgumentBindingError>)
        ensures
            r == pixels_of(self.arguments(), id),
    {
        match self.i32(id) {
            Err(e) => Err(e),
            Ok(v) => match Pixels::new(v) {
                Ok(p) => Ok(p),
                Err(_) => Err(ArgumentBindingError::Zero { parameter: id }),
            },
        }
    }

    pub fn resize_step(&self, id: ParameterId) -> (r: Result<ResizeStep, ArgumentBindingError>)
        ensures
            match resize_step_of(self.arguments(), id) {
                Ok(v) => r matches Ok(step) && step.pixels() == v,
                Err(e) => r == Err::<ResizeStep, ArgumentBindingError>(e),
            },
    {
        match self.i32(id) {
            Err(e) => Err(e),
            Ok(v) => match ResizeStep::new(v) {
                Ok(step) => Ok(step),
                Err(_) => Err(ArgumentBindingError::NonPositive { parameter: id }),
            },
        }
    }

    pub fn alpha(&self, id: ParameterId) -> (r: Result<TransparencyAlpha, ArgumentBindingError>)
        ensures
            r == alpha_of(self.arguments(), id),
    {
        match self.u8(id) {
            Err(e) => Err(e),
            Ok(v) => Ok(TransparencyAlpha::new(v)),
        }
    }

    /// The colour of the red, green and blue arguments.
    pub fn rgb(&self) -> (r: Result<Rgb, ArgumentBindingError>)
        ensures
            r == rgb_of(self.arguments()),
    {
        let red = match self.u8(ParameterId::RED) {
            Ok(v) => v,
            Err(e) => {
                return Err(e);
            },
        };
        let green = match self.u8(ParameterId::GREEN) {
            Ok(v) => v,
            Err(e) => {
                return Err(e);
            },
        };
        let blue = match self.u8(ParameterId::BLUE) {
            Ok(v) => v,
            Err(e) => {
                return Err(e);
            },
        };
        Ok(Rgb { r: red as u32, g: green as u32, b: blue as u32 })
    }

    pub fn border_width(&self, id: ParameterId) -> (r: Result<BorderWidth, ArgumentBindingError>)
        ensures
            r == border_width_of(self.arguments(), id),
    {
        match self.i32(id) {
            Err(e) => Err(e),
            Ok(v) => Ok(BorderWidth::new(v)),
        }
    }

    pub fn border_offset(&self, id: ParameterId) -> (r: Result<BorderOffset, ArgumentBindingError>)
        ensures
            r == border_offset_of(self.arguments(), id),
    {
        match self.i32(id) {
            Err(e) => Err(e),
            Ok(v) => Ok(BorderOffset::new(v)),
        }
    }

    pub fn workspace_name(&self, id: ParameterId) -> (r: Result<WorkspaceName, ArgumentBindingError>)
        ensures
            r == workspace_name_of(self.arguments(), id),
    {
        match self.text(id) {
            Err(e) => Err(e),
            Ok(s) => match WorkspaceName::from_string(s) {
                Ok(name) => Ok(name),
                Err(_) => Err(ArgumentBindingError::EmptyText { parameter: id }),
            },
        }
    }

    pub fn workspace_names(&self, id: ParameterId) -> (r: Result<Vec<WorkspaceName>, ArgumentBindingError>)
        ensures
            match names_of(self.arguments(), id) {
                Ok(names) => r matches Ok(v) && v@ == names,
                Err(e) => r == Err::<Vec<WorkspaceName>, ArgumentBindingError>(e),
            },
    {
        let scalars = match self.list(id) {
            Ok(l) => l,
            Err(e) => {
                return Err(e);
            },
        };
        let mut names: Vec<WorkspaceName> = Vec::new();
        let mut i: usize = 0;
        proof {
            assert(scalars@.skip(0) =~= scalars@);
        }
        while i < scalars.len()
            invariant
                names_of(self.arguments(), id) == name_run(id, scalars@),
                name_run(id, scalars@) == after(names@, name_run(id, scalars@.skip(i as int))),
                0 <= i <= scalars@.len(),
            decreases scalars.len() - i,
        {
            proof {
                assert(scalars@.skip(i as int).drop_first() =~= scalars@.skip(i + 1));
                assert(scalars@.skip(i as int)[0] == scalars@[i as int]);
            }
            match &scalars[i] {
                ArgumentScalar::Text(s) => {
                    let text = s.clone();
                    match WorkspaceName::from_string(text) {
                        Ok(name) => {
                            proof {
                                assert forall|rest: Seq<WorkspaceName>|
                                    names@ + (seq![name] + rest) == names@.push(name) + rest by {
                                    assert(names@ + (seq![name] + rest) =~= names@.push(name) + rest);
                                }
                            }
                            names.push(name);
                        },
                        Err(_) => {
                            return Err(ArgumentBindingError::EmptyText { parameter: id });
                        },
                    }
                },
                _ => {
                    return Err(ArgumentBindingError::WrongScalar { parameter: id, expected: ScalarKind::Text });
                },
            }
            i = i + 1;
        }
        proof {
            assert(scalars@.skip(i as int).len() == 0);
            assert(names@ + Seq::<WorkspaceName>::empty() =~= names@);
        }
        Ok(names)
    }

    pub fn windows_path(&self, id: ParameterId) -> (r: Result<WindowsPath, ArgumentBindingError>)
        ensures
            match windows_path_of(self.arguments(), id) {
                Ok(units) => r matches Ok(p) && p.units() == units,
                Err(e) => r == Err::<WindowsPath, ArgumentBindingError>(e),
            },
    {
        match self.scalar(id) {
            Err(e) => Err(e),
            Ok(ArgumentScalar::WindowsPath(units)) => match WindowsPath::from_wtf16(copy_units(units)) {
                Ok(path) => Ok(path),
                Err(source) => Err(ArgumentBindingError::WindowsPath { parameter: id, source }),
            },
            Ok(_) => Err(ArgumentBindingError::WrongScalar { parameter: id, expected: ScalarKind::WindowsPath }),
        }
    }

    pub fn ratios(&self, id: ParameterId) -> (r: Result<Option<Vec<LayoutRatio>>, ArgumentBindingError>)
        ensures
            match ratios_of(self.arguments(), id) {
                Ok(Some(ratios)) => r matches Ok(Some(v)) && v@ == ratios,
                Ok(None) => r matches Ok(None),
                Err(e) => r == Err::<Option<Vec<LayoutRatio>>, ArgumentBindingError>(e),
            },
    {
        match self.optional_list(id) {
            Err(e) => Err(e),
            Ok(None) => Ok(None),
            Ok(Some(scalars)) => match bind_ratios(id, scalars) {
                Ok(ratios) => Ok(Some(ratios)),
                Err(e) => Err(e),
            },
        }
    }
}

} // verus!
