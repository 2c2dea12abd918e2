//! Animation duration, frame rate and per-scope animation settings.

use vstd::prelude::*;

verus! {

#[derive(Clone, Copy, Debug, PartialEq, Eq, Hash, PartialOrd, Ord, Structural)]
pub struct AnimationDuration {
    pub milliseconds: u64,
}

impl AnimationDuration {
    pub fn new(milliseconds: u64) -> (d: Self)
        ensures
            d.milliseconds == milliseconds,
    {
        AnimationDuration { milliseconds }
    }

    pub fn milliseconds(self) -> (r: u64)
        ensures
            r == self.milliseconds,
    {
        self.milliseconds
    }
}

/// A nonzero animation frame rate.
#[derive(Clone, Copy, Debug, PartialEq, Eq, Hash, PartialOrd, Ord, Structural)]
pub struct AnimationFps {
    frames_per_second: u64,
}

/// The frame rate was zero.
#[derive(Clone, Copy, Debug, PartialEq, Eq, Structural)]
pub struct AnimationFpsError;

impl AnimationFps {
    pub closed spec fn frames(self) -> u64 {
        self.frames_per_second
    }

    #[verifier::type_invariant]
    closed spec fn nonzero(self) -> bool {
        self.frames_per_second != 0
    }

    pub fn new(frames_per_second: u64) -> (r: Result<Self, AnimationFpsError>)
        ensures
            frames_per_second == 0 <==> r is Err,
            r matches Ok(fps) ==> fps.frames() == frames_per_second,
    {
        if frames_per_second == 0 {
            Err(AnimationFpsError)
        } else {
            Ok(AnimationFps { frames_per_second })
        }
    }

    pub fn get(self) -> (r: u64)
        ensures
            r == self.frames(),
            r != 0,
    {
        proof {
            use_type_invariant(self);
        }
        self.frames_per_second
    }
}

/// The animation a setting applies to, when it is not the global one.
#[derive(Clone, Copy, Debug, PartialEq, Eq, Hash, Structural)]
pub enum AnimationPrefix {
    Movement,
    Transparency,
}

/// A global animation setting with optional per-animation overrides.
#[derive(Clone, Copy, Debug, PartialEq, Eq, Structural)]
pub struct ScopedAnimationValue<T> {
    pub global: T,
    pub movement: Option<T>,
    pub transparency: Option<T>,
}

impl<T> ScopedAnimationValue<T> {
    /// A setting with no overrides.
    pub fn global(value: T) -> (s: Self)
        ensures
            s.global == value,
            s.movement is None,
            s.transparency is None,
    {
        ScopedAnimationValue { global: value, movement: None, transparency: None }
    }

    /// Sets one override, or the global value; setting the global value clears
    /// both overrides.
    pub fn set(&mut self, prefix: Option<AnimationPrefix>, value: T)
        ensures
            match prefix {
                Some(AnimationPrefix::Movement) => *final(self) == ScopedAnimationValue {
                    movement: Some(value),
                    ..*old(self)
                },
                Some(AnimationPrefix::Transparency) => *final(self) == ScopedAnimationValue {
                    transparency: Some(value),
                    ..*old(self)
                },
                None => *final(self) == ScopedAnimationValue::<T> {
                    global: value,
                    movement: None,
                    transparency: None,
                },
            },
    {
        match prefix {
            Some(AnimationPrefix::Movement) => self.movement = Some(value),
            Some(AnimationPrefix::Transparency) => self.transparency = Some(value),
            None => {
                self.global = value;
                self.movement = None;
                self.transparency = None;
            },
        }
    }

}

impl<T: Copy> ScopedAnimationValue<T> {
    /// The value in force for one animation.
    pub fn effective(&self, prefix: Option<AnimationPrefix>) -> (r: T)
        ensures
            r == match prefix {
                Some(AnimationPrefix::Movement) => match self.movement {
                    Some(v) => v,
                    None => self.global,
                },
                Some(AnimationPrefix::Transparency) => match self.transparency {
                    Some(v) => v,
                    None => self.global,
                },
                None => self.global,
            },
    {
        match prefix {
            Some(AnimationPrefix::Movement) => match self.movement {
                Some(v) => v,
                None => self.global,
            },
            Some(AnimationPrefix::Transparency) => match self.transparency {
                Some(v) => v,
                None => self.global,
            },
            None => self.global,
        }
    }
}

/// An animation curve: a named easing, or a cubic Bézier curve given by the bit
/// patterns of its four control values.
#[derive(Clone, Debug, PartialEq, Eq)]
pub enum AnimationStyleSnapshot {
    Named(String),
    CubicBezier([u64; 4]),
}

#[derive(Clone, Debug, PartialEq, Eq)]
pub struct AnimationConfiguration {
    pub enabled: ScopedAnimationValue<bool>,
    pub duration: ScopedAnimationValue<AnimationDuration>,
    pub style: ScopedAnimationValue<AnimationStyleSnapshot>,
    pub fps: AnimationFps,
}

pub const DEFAULT_ANIMATION_ENABLED: bool = false;

pub const DEFAULT_ANIMATION_DURATION: u64 = 250;

pub const DEFAULT_ANIMATION_FPS: u64 = 60;

} // verus!
