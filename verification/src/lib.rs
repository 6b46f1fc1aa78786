//! Clipboard text recognition: the decisions of a hotkey-driven utility that
//! takes the raster image on the clipboard, has its text recognized and puts
//! the text back.
//!
//! Everything here works on plain values. The program around it samples the
//! keyboard, reads and writes the clipboard, runs the recognition engine and
//! shows notifications; it hands what it saw to these functions and performs
//! what they ask for.

pub mod chord;
pub mod cooldown;
pub mod lifecycle;
pub mod normalize;
pub mod notification;
pub mod pipeline;
pub mod recognition;
pub mod text;
