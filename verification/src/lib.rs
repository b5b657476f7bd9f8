//! Decision logic of a single-triangle renderer: which validation layers to
//! enable, what follows the request for an instance, how a driver
//! diagnostic is rendered as text, which GPU and queue family are picked,
//! and how the event loop and each frame advance.
//!
//! Everything here works on plain values. The program around this library
//! talks to the window system and the graphics driver, turns what it learns
//! into these values, and carries out what the library decides.

pub mod device;
pub mod diagnostics;
pub mod frame;
pub mod instance;
pub mod layers;
