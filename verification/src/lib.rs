//! A sphere-tracing renderer over signed-distance fields, built on a
//! fixed-point scalar type so that every numeric step has an exact,
//! machine-checked meaning.
//!
//! Scenes are binary trees of primitive objects combined by constructive
//! solid geometry operators (union, smooth union, intersection); a bounded
//! ray-marching loop turns camera rays into per-pixel hit or miss outcomes.

pub mod camera;
pub mod fx;
pub mod math;
pub mod scene;
pub mod shape;
pub mod trig;
