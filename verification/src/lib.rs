//! Verified core of the Vellum drawing overlay: tool selection and editing
//! decisions, input bookkeeping, the text-input protocol state machine,
//! output focus and redraw tracking, font and render-target checks, and the
//! control socket's command format.

pub mod config;
pub mod draw;
pub mod focus;
pub mod input;
pub mod ipc;
pub mod render;
pub mod tool;
