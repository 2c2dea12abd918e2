//! Pixel quantities and defaults of the stackbar.

use vstd::prelude::*;
use crate::manager_types::Rgb;
use crate::manager_types::StackbarLabel;
use crate::manager_types::StackbarMode;

verus! {

#[derive(Clone, Copy, Debug, PartialEq, Eq, Hash, PartialOrd, Ord, Structural)]
pub struct StackbarHeight {
    pub value: i32,
}

#[derive(Clone, Copy, Debug, PartialEq, Eq, Hash, PartialOrd, Ord, Structural)]
pub struct StackbarTabWidth {
    pub value: i32,
}

#[derive(Clone, Copy, Debug, PartialEq, Eq, Hash, PartialOrd, Ord, Structural)]
pub struct StackbarFontSize {
    pub value: i32,
}

pub const DEFAULT_STACKBAR_HEIGHT: i32 = 40;

pub const DEFAULT_STACKBAR_TAB_WIDTH: i32 = 200;

pub const DEFAULT_STACKBAR_FONT_SIZE: i32 = 0;

pub const DEFAULT_STACKBAR_FOCUSED_TEXT_COLOUR: u32 = 0x00ff_ffff;

pub const DEFAULT_STACKBAR_UNFOCUSED_TEXT_COLOUR: u32 = 0x00b3_b3b3;

pub const DEFAULT_STACKBAR_BACKGROUND_COLOUR: u32 = 0x0033_3333;

impl StackbarHeight {
    pub fn new(value: i32) -> (h: Self)
        ensures
            h.value == value,
    {
        StackbarHeight { value }
    }

    pub fn get(self) -> (r: i32)
        ensures
            r == self.value,
    {
        self.value
    }
}

impl StackbarTabWidth {
    pub fn new(value: i32) -> (w: Self)
        ensures
            w.value == value,
    {
        StackbarTabWidth { value }
    }

    pub fn get(self) -> (r: i32)
        ensures
            r == self.value,
    {
        self.value
    }
}

impl StackbarFontSize {
    pub fn new(value: i32) -> (s: Self)
        ensures
            s.value == value,
    {
        StackbarFontSize { value }
    }

    pub fn get(self) -> (r: i32)
        ensures
            r == self.value,
    {
        self.value
    }
}

/// The red, green and blue channels of a `0x00BBGGRR` colour.
pub open spec fn rgb_of(colour: u32) -> Rgb {
    Rgb { r: colour % 256, g: (colour / 256) % 256, b: (colour / 65536) % 256 }
}

pub fn rgb_from_colour(colour: u32) -> (rgb: Rgb)
    ensures
        rgb == rgb_of(colour),
{
    Rgb { r: colour % 256, g: (colour / 256) % 256, b: (colour / 65536) % 256 }
}

#[derive(Clone, Debug)]
pub struct StackbarConfiguration {
    pub mode: StackbarMode,
    pub label: StackbarLabel,
    pub focused_text_colour: Rgb,
    pub unfocused_text_colour: Rgb,
    pub background_colour: Rgb,
    pub height: StackbarHeight,
    pub tab_width: StackbarTabWidth,
    pub font_size: StackbarFontSize,
    pub font_family: Option<String>,
}

impl StackbarConfiguration {
    pub fn default_configuration() -> (c: Self)
        ensures
            c.mode == StackbarMode::Never,
            c.label == StackbarLabel::Title,
            c.focused_text_colour == rgb_of(DEFAULT_STACKBAR_FOCUSED_TEXT_COLOUR),
            c.unfocused_text_colour == rgb_of(DEFAULT_STACKBAR_UNFOCUSED_TEXT_COLOUR),
            c.background_colour == rgb_of(DEFAULT_STACKBAR_BACKGROUND_COLOUR),
            c.height.value == DEFAULT_STACKBAR_HEIGHT,
            c.tab_width.value == DEFAULT_STACKBAR_TAB_WIDTH,
            c.font_size.value == DEFAULT_STACKBAR_FONT_SIZE,
            c.font_family is None,
    {
        StackbarConfiguration {
            mode: StackbarMode::Never,
            label: StackbarLabel::Title,
            focused_text_colour: rgb_from_colour(DEFAULT_STACKBAR_FOCUSED_TEXT_COLOUR),
            unfocused_text_colour: rgb_from_colour(DEFAULT_STACKBAR_UNFOCUSED_TEXT_COLOUR),
            background_colour: rgb_from_colour(DEFAULT_STACKBAR_BACKGROUND_COLOUR),
            height: StackbarHeight::new(DEFAULT_STACKBAR_HEIGHT),
            tab_width: StackbarTabWidth::new(DEFAULT_STACKBAR_TAB_WIDTH),
            font_size: StackbarFontSize::new(DEFAULT_STACKBAR_FONT_SIZE),
            font_family: None,
        }
    }
}

} // verus!
