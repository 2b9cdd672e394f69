//! Verified core of a stellar-structure integrator: the bundle of microphysics
//! implementations, the rules that decide when a composition or a shell state is
//! rejected, and the adaptive step controller that decides, step by step, whether
//! the integration advances, retries with a smaller step, finishes or fails.

pub mod physics;
pub mod shell;
pub mod solver;
