//! Window chrome for a borderless desktop window.
//!
//! The window has no native title bar, so the application draws one itself
//! and turns pointer input over it into commands for the window manager:
//! move, maximize or restore, minimize, close. Everything here works on
//! whole units and plain values; the caller samples the pointer once per
//! frame, asks this crate what to do, and carries the commands out.

pub mod geometry;
pub mod gui;
pub mod input;
pub mod title_bar;
pub mod window;
