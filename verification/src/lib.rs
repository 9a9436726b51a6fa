//! Deterministic simulation core for a first-person projectile launcher.
//!
//! Every quantity is a fixed-point number, so one sequence of inputs gives
//! the same bodies, the same launch power and the same view angles on every
//! machine. The windowing, rendering and input layers live outside this
//! crate and exchange plain values with it.
//!
//! - [`fixed`], [`vector`]: the scalars and vectors everything is made of.
//! - [`body`]: gravity, integration and bounce on the fixed cadence.
//! - [`charge`]: the launch charge controller.
//! - [`spawn`]: spawn requests, their channel and the creation of bodies.
//! - [`focus`]: window focus and pointer capture.
//! - [`look`], [`movement`]: turning and walking the viewpoint.
//! - [`feedback`]: the power bar.
//! - [`palette`]: the colors of the projectiles.
//! - [`sim`]: the state of the whole simulation and its two pipelines.

pub mod body;
pub mod charge;
pub mod feedback;
pub mod fixed;
pub mod focus;
pub mod look;
pub mod movement;
pub mod palette;
pub mod sim;
pub mod spawn;
pub mod vector;
