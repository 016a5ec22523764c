//! Keyboard input: key events mapped to actions, and the actions that change
//! the application state directly.

pub mod handler;
