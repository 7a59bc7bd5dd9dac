//! Procedural bokeh kernels: the rules by which a kernel's discrete settings
//! are read before any pixel is shaded.
//!
//! A kernel is configured by a filter type, a blade count and a seeded
//! noise, next to a number of real-valued sizes and colours. This crate holds
//! what is decided on the former: which filter honours the curvature, what
//! the blade count divides, and which simplex source the noise starts from.
//! The shading of the pixels is floating-point work and is left to the
//! renderer that builds on these rules.

pub mod blades;
pub mod noise;
pub mod settings;

pub use crate::blades::blade_divisor;
pub use crate::noise::{generator_octaves, generator_seed, noise_source};
pub use crate::settings::FilterType;
