//! Step drivers for ordinary differential equation solvers.
//!
//! The solvers integrate `dy/dx = f(x, y)` by repeating a step rule from an
//! initial state. This crate holds the part of each solver that decides how
//! often a step is taken, which step rule applies, which states are recorded
//! and when the integration stops; the step rules themselves are closures
//! handed in by the caller.
//!
//! - [`fixed_step`]: a fixed number of uniform steps (forward Euler, classical
//!   Runge-Kutta) and the two-step Adams-Bashforth schedule with its start-up
//!   step.
//! - [`adaptive`]: an adaptive loop in which every attempted step is either
//!   accepted or rejected, bounded by a budget of attempts.

pub mod fixed_step;
pub mod adaptive;
