//! Decision logic of a keyboard listener that sits on a macOS event tap.

pub mod callback;
pub mod event;
pub mod flags;
pub mod keymap;
pub mod laws;
pub mod listener;
pub mod modifiers;
pub mod reconcile;
pub mod run_loop;
pub mod shutdown;
pub mod spawn;
pub mod tap;
pub mod telling;
