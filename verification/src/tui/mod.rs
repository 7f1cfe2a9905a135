//! The decisions of the terminal UI: key bindings and the screen state
//! machine. Drawing and background work happen outside the library.
pub mod keys;
pub mod state;
pub mod app;
pub mod order;
pub mod laws;
pub mod mask;
