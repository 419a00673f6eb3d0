//! A small recursive ray caster over fixed-point arithmetic.
//!
//! Scalars are `i64` values carrying a fixed decimal scale (see [`fx`]), so
//! every arithmetic step has an exact, machine-checkable meaning.  The crate
//! builds camera rays, intersects them with spheres and planes, shades hits
//! with point lights and bounded reflection/refraction bounces, and lays the
//! resulting pixels out as a plain-text pixel map.

pub mod fx;
pub mod image;
pub mod intersect;
pub mod scene;
pub mod shade;
pub mod vec2;
pub mod vec3;
