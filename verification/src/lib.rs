//! Model of a minimal command-bar overlay: a single borderless window holding
//! one text input whose contents track the latest input event.
//!
//! The library holds the verified core: the input state and its update rule,
//! the colour palette and widget appearances (colour channels as integers in
//! 0..=255), and the window and application configuration values. The GUI
//! toolkit glue that renders these values lives outside the library.

pub mod config;
pub mod state;
pub mod style;
pub mod view;
