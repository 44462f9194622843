//! Selection geometry, overlay state machine, configuration parsing and
//! capture bookkeeping of the `snappers` screenshot tool.
pub mod geometry;
pub mod state;
pub mod capture;
pub mod render;
pub mod overlay_renderer;
pub mod text;
pub mod theme;
pub mod config;
pub mod save;
pub mod overlay;
pub mod cli;
pub mod clipboard;
