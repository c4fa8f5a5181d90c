//! Runtime instrumentation core for a host game process: typed overlays onto
//! host-owned memory regions, a telemetry renderer for packed flag banks, and
//! a hierarchical menu driven once per host frame by `input()`/`display()`.
//!
//! All host boundaries (raw addresses, drawing primitives, button hardware)
//! are modelled as plain data handed in and out each frame, so every rule of
//! the menu and overlay layer is stated and checked here.

pub mod actor;
pub mod buttons;
pub mod draw;
pub mod menu;
pub mod overlay;
pub mod telemetry;
pub mod widget;
