//! The configuration values that built-in actions read and change.

use vstd::prelude::*;
use vstd::string::StringExecFns;
use crate::animation_configuration::AnimationConfiguration;
use crate::animation_configuration::AnimationDuration;
use crate::animation_configuration::AnimationFps;
use crate::animation_configuration::AnimationStyleSnapshot;
use crate::animation_configuration::ScopedAnimationValue;
use crate::animation_configuration::DEFAULT_ANIMATION_DURATION;
use crate::animation_configuration::DEFAULT_ANIMATION_ENABLED;
use crate::animation_configuration::DEFAULT_ANIMATION_FPS;
use crate::border_geometry::BorderOffset;
use crate::border_geometry::BorderWidth;
use crate::border_geometry::DEFAULT_BORDER_OFFSET;
use crate::border_geometry::DEFAULT_BORDER_WIDTH;
use crate::manager_types::BorderImplementation;
use crate::manager_types::BorderStyle;
use crate::resize_step::ResizeStep;
use crate::resize_step::DEFAULT_RESIZE_STEP_PIXELS;
use crate::stackbar_configuration::StackbarConfiguration;
use crate::transparency_alpha::TransparencyAlpha;
use crate::transparency_alpha::DEFAULT_TRANSPARENCY_ALPHA;

verus! {

/// Transparency is off until configured.
pub const DEFAULT_TRANSPARENCY_ENABLED: bool = false;

#[derive(Clone, Copy, Debug, PartialEq, Eq, Structural)]
pub struct BorderConfiguration {
    pub enabled: bool,
    pub width: BorderWidth,
    pub offset: BorderOffset,
    pub style: BorderStyle,
    pub implementation: BorderImplementation,
}

impl Default for BorderConfiguration {
    fn default() -> (c: Self)
        ensures
            c.enabled,
            c.width.value == DEFAULT_BORDER_WIDTH,
            c.offset.value == DEFAULT_BORDER_OFFSET,
            c.style == BorderStyle::System,
            c.implementation == BorderImplementation::Komorebi,
    {
        BorderConfiguration {
            enabled: true,
            width: BorderWidth::default_width(),
            offset: BorderOffset::default_offset(),
            style: BorderStyle::System,
            implementation: BorderImplementation::Komorebi,
        }
    }
}

#[derive(Clone, Copy, Debug, PartialEq, Eq, Structural)]
pub struct TransparencyConfiguration {
    pub enabled: bool,
    pub alpha: TransparencyAlpha,
}

impl Default for TransparencyConfiguration {
    fn default() -> (c: Self)
        ensures
            c.enabled == DEFAULT_TRANSPARENCY_ENABLED,
            c.alpha.value == DEFAULT_TRANSPARENCY_ALPHA,
    {
        TransparencyConfiguration {
            enabled: DEFAULT_TRANSPARENCY_ENABLED,
            alpha: TransparencyAlpha::default_alpha(),
        }
    }
}

/// The name of the easing animations use until configured.
pub open spec fn default_animation_style_name() -> Seq<char> {
    "Linear"@
}

impl Default for AnimationConfiguration {
    fn default() -> (c: Self)
        ensures
            c.enabled.global == DEFAULT_ANIMATION_ENABLED,
            c.enabled.movement is None,
            c.enabled.transparency is None,
            c.duration.global.milliseconds == DEFAULT_ANIMATION_DURATION,
            c.duration.movement is None,
            c.duration.transparency is None,
            c.style.global matches AnimationStyleSnapshot::Named(name) && name@
                == default_animation_style_name(),
            c.style.movement is None,
            c.style.transparency is None,
            c.fps.frames() == DEFAULT_ANIMATION_FPS,
    {
        let fps = match AnimationFps::new(DEFAULT_ANIMATION_FPS) {
            Ok(fps) => fps,
            Err(_) => vstd::pervasive::unreached(),
        };
        AnimationConfiguration {
            enabled: ScopedAnimationValue::global(DEFAULT_ANIMATION_ENABLED),
            duration: ScopedAnimationValue::global(AnimationDuration::new(DEFAULT_ANIMATION_DURATION)),
            style: ScopedAnimationValue::global(
                AnimationStyleSnapshot::Named(String::from_str("Linear")),
            ),
            fps,
        }
    }
}

/// The configuration an action snapshot carries.
#[derive(Clone, Debug)]
pub struct ConfigurationSnapshot {
    pub resize_step: ResizeStep,
    pub border: BorderConfiguration,
    pub transparency: TransparencyConfiguration,
    pub stackbar: StackbarConfiguration,
    pub animation: AnimationConfiguration,
}

impl Default for ConfigurationSnapshot {
    fn default() -> (c: Self)
        ensures
            c.resize_step.pixels() == DEFAULT_RESIZE_STEP_PIXELS,
            c.border.enabled,
            c.border.width.value == DEFAULT_BORDER_WIDTH,
            c.border.offset.value == DEFAULT_BORDER_OFFSET,
            c.border.style == BorderStyle::System,
            c.border.implementation == BorderImplementation::Komorebi,
            c.transparency.enabled == DEFAULT_TRANSPARENCY_ENABLED,
            c.transparency.alpha.value == DEFAULT_TRANSPARENCY_ALPHA,
    {
        ConfigurationSnapshot {
            resize_step: ResizeStep::default_step(),
            border: BorderConfiguration::default(),
            transparency: TransparencyConfiguration::default(),
            stackbar: StackbarConfiguration::default_configuration(),
            animation: AnimationConfiguration::default(),
        }
    }
}

pub fn duplicate_text_option(a: &Option<String>) -> (r: Option<String>)
    ensures
        r == *a,
{
    match a {
        Some(text) => Some(text.clone()),
        None => None,
    }
}

pub fn duplicate_style(a: &AnimationStyleSnapshot) -> (r: AnimationStyleSnapshot)
    ensures
        r == *a,
{
    match a {
        AnimationStyleSnapshot::Named(name) => AnimationStyleSnapshot::Named(name.clone()),
        AnimationStyleSnapshot::CubicBezier(points) => AnimationStyleSnapshot::CubicBezier(*points),
    }
}

fn duplicate_style_option(a: &Option<AnimationStyleSnapshot>) -> (r: Option<AnimationStyleSnapshot>)
    ensures
        r == *a,
{
    match a {
        Some(style) => Some(duplicate_style(style)),
        None => None,
    }
}

impl ConfigurationSnapshot {
    /// A copy of this configuration.
    pub fn duplicate(&self) -> (r: Self)
        ensures
            r == *self,
    {
        let stackbar = &self.stackbar;
        let animation = &self.animation;
        ConfigurationSnapshot {
            resize_step: self.resize_step,
            border: self.border,
            transparency: self.transparency,
            stackbar: StackbarConfiguration {
                mode: stackbar.mode,
                label: stackbar.label,
                focused_text_colour: stackbar.focused_text_colour,
                unfocused_text_colour: stackbar.unfocused_text_colour,
                background_colour: stackbar.background_colour,
                height: stackbar.height,
                tab_width: stackbar.tab_width,
                font_size: stackbar.font_size,
                font_family: duplicate_text_option(&stackbar.font_family),
            },
            animation: AnimationConfiguration {
                enabled: animation.enabled,
                duration: animation.duration,
                style: ScopedAnimationValue {
                    global: duplicate_style(&animation.style.global),
                    movement: duplicate_style_option(&animation.style.movement),
                    transparency: duplicate_style_option(&animation.style.transparency),
                },
                fps: animation.fps,
            },
        }
    }
}

/// Two optional texts that are both absent or hold the same characters.
pub open spec fn same_text_option(a: Option<String>, b: Option<String>) -> bool {
    match (a, b) {
        (Some(x), Some(y)) => x@ == y@,
        (None, None) => true,
        _ => false,
    }
}

pub fn same_text_options(a: &Option<String>, b: &Option<String>) -> (r: bool)
    ensures
        r == same_text_option(*a, *b),
{
    match (a, b) {
        (Some(x), Some(y)) => x.eq(y),
        (None, None) => true,
        _ => false,
    }
}

/// Two animation curves that are the same easing or the same control values.
pub open spec fn same_style(a: AnimationStyleSnapshot, b: AnimationStyleSnapshot) -> bool {
    match (a, b) {
        (AnimationStyleSnapshot::Named(x), AnimationStyleSnapshot::Named(y)) => x@ == y@,
        (AnimationStyleSnapshot::CubicBezier(x), AnimationStyleSnapshot::CubicBezier(y)) => x == y,
        _ => false,
    }
}

pub fn same_styles(a: &AnimationStyleSnapshot, b: &AnimationStyleSnapshot) -> (r: bool)
    ensures
        r == same_style(*a, *b),
{
    match (a, b) {
        (AnimationStyleSnapshot::Named(x), AnimationStyleSnapshot::Named(y)) => x.eq(y),
        (AnimationStyleSnapshot::CubicBezier(x), AnimationStyleSnapshot::CubicBezier(y)) => {
            let same = x[0] == y[0] && x[1] == y[1] && x[2] == y[2] && x[3] == y[3];
            proof {
                broadcast use vstd::array::group_array_axioms;

                if same {
                    assert(*x =~= *y);
                }
            }
            same
        },
        _ => false,
    }
}

pub open spec fn same_style_option(
    a: Option<AnimationStyleSnapshot>,
    b: Option<AnimationStyleSnapshot>,
) -> bool {
    match (a, b) {
        (Some(x), Some(y)) => same_style(x, y),
        (None, None) => true,
        _ => false,
    }
}

fn same_style_options(
    a: &Option<AnimationStyleSnapshot>,
    b: &Option<AnimationStyleSnapshot>,
) -> (r: bool)
    ensures
        r == same_style_option(*a, *b),
{
    match (a, b) {
        (Some(x), Some(y)) => same_styles(x, y),
        (None, None) => true,
        _ => false,
    }
}

/// Two stackbar configurations with the same settings, the font family by its
/// characters.
pub open spec fn same_stackbar(a: StackbarConfiguration, b: StackbarConfiguration) -> bool {
    &&& a.mode == b.mode
    &&& a.label == b.label
    &&& a.focused_text_colour == b.focused_text_colour
    &&& a.unfocused_text_colour == b.unfocused_text_colour
    &&& a.background_colour == b.background_colour
    &&& a.height == b.height
    &&& a.tab_width == b.tab_width
    &&& a.font_size == b.font_size
    &&& same_text_option(a.font_family, b.font_family)
}

pub fn same_stackbars(a: &StackbarConfiguration, b: &StackbarConfiguration) -> (r: bool)
    ensures
        r == same_stackbar(*a, *b),
{
    a.mode == b.mode && a.label == b.label && a.focused_text_colour == b.focused_text_colour
        && a.unfocused_text_colour == b.unfocused_text_colour && a.background_colour
        == b.background_colour && a.height == b.height && a.tab_width == b.tab_width
        && a.font_size == b.font_size && same_text_options(&a.font_family, &b.font_family)
}

/// Two animation configurations with the same settings, curves compared by
/// `same_style`.
pub open spec fn same_animation(a: AnimationConfiguration, b: AnimationConfiguration) -> bool {
    &&& a.enabled == b.enabled
    &&& a.duration == b.duration
    &&& same_style(a.style.global, b.style.global)
    &&& same_style_option(a.style.movement, b.style.movement)
    &&& same_style_option(a.style.transparency, b.style.transparency)
    &&& a.fps == b.fps
}

pub fn same_animations(a: &AnimationConfiguration, b: &AnimationConfiguration) -> (r: bool)
    ensures
        r == same_animation(*a, *b),
{
    a.enabled == b.enabled && a.duration == b.duration && same_styles(
        &a.style.global,
        &b.style.global,
    ) && same_style_options(&a.style.movement, &b.style.movement) && same_style_options(
        &a.style.transparency,
        &b.style.transparency,
    ) && a.fps == b.fps
}

/// Two configuration snapshots with the same settings.
pub open spec fn same_configuration(a: ConfigurationSnapshot, b: ConfigurationSnapshot) -> bool {
    &&& a.resize_step == b.resize_step
    &&& a.border == b.border
    &&& a.transparency == b.transparency
    &&& same_stackbar(a.stackbar, b.stackbar)
    &&& same_animation(a.animation, b.animation)
}

pub fn same_configurations(a: &ConfigurationSnapshot, b: &ConfigurationSnapshot) -> (r: bool)
    ensures
        r == same_configuration(*a, *b),
{
    a.resize_step == b.resize_step && a.border == b.border && a.transparency == b.transparency
        && same_stackbars(&a.stackbar, &b.stackbar) && same_animations(&a.animation, &b.animation)
}

} // verus!
