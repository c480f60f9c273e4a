//! Verified core of a desktop mode-toggle controller.
//!
//! Two independent binary modes, *silence* and *maintenance*, are flipped from
//! a global hotkey or a tray menu. Every decision of that pathway lives here
//! as a function from plain values to plain values: which action an input
//! maps to, what a flag file means, what has to be written to it, and which
//! feedback follows. The surrounding shell performs the effects and hands the
//! results back.

pub mod text;
pub mod mode;
pub mod flag;
pub mod indicator;
pub mod input;
pub mod toggle;
pub mod agent;
