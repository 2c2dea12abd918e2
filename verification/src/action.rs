//! Built-in actions: their identities, definitions, offers, transitions and the
//! catalog state that admits invocations of them.

pub mod id;
pub mod path;
pub mod index;
pub mod builtin_action;
pub mod definition;
pub mod configuration;
pub mod offer;
pub mod outcome;
pub mod transition;
pub mod work_area;
pub mod native_plan;
pub mod meaning;
pub mod confirmation;
pub mod undo;
pub mod invoke;
