//! Core of a black-hole renderer: a spacetime metric evaluator, a Hamiltonian
//! geodesic integrator, a volumetric accretion-disc shading model, and a
//! progressive multi-frame accumulator.
//!
//! All numerics are carried out in saturating fixed-point arithmetic
//! (see [`fixed`]), so every quantity is finite by construction and each
//! operation has an exact mathematical model that the contracts speak of.

pub mod accum;
pub mod disc;
pub mod fixed;
pub mod geodesic;
pub mod image;
pub mod metric;
pub mod render;
pub mod types;
pub mod vecmath;

pub use accum::FrameAccumulator;
pub use fixed::Fx;
pub use geodesic::{RayState, TraceResult};
pub use image::Image;
pub use metric::Metric;
pub use render::Renderer;
pub use types::{BlackHole, RenderContext, View};
pub use vecmath::{Fx3, Fx4};
