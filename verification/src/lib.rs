//! The decision logic of a minimal windowed application: a shell that opens
//! one window, brings up a GPU render state, and clears the screen to solid
//! blue on every frame until the window is closed.
//!
//! The platform layer (windowing, GPU driver calls) lives outside this crate;
//! it hands the library plain values — event kinds, setup-step outcomes, the
//! reported format capabilities and drawable size — and carries out the
//! actions and frame plans the library returns.

pub mod render;
pub mod shell;
pub mod surface;
