//! The action catalog of a tiling window manager: typed configuration values,
//! the closed set of built-in actions with their definitions and offers, the
//! revisioned catalog state that admits invocations, and the adapters that turn
//! untrusted requests into typed actions.

pub mod manager_types;
pub mod decimal;
pub mod resize_step;
pub mod transparency_alpha;
pub mod border_geometry;
pub mod work_area_offset;
pub mod stackbar_configuration;
pub mod animation_configuration;
pub mod subscriber;
pub mod stamp;
pub mod manager_control;
pub mod action;
pub mod adapters;
