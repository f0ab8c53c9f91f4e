//! Core logic of a screen-region capture tool: the hotkey grammar and
//! matching engine, the trigger daemon's re-arm protocol, the interactive
//! selection state machine, and the crop/scale/export pipeline.
//!
//! Everything here is verified; platform collaborators (key polling, screen
//! capture, clipboard, file output) stay outside and talk to this crate
//! through plain values.

pub mod args;
pub mod export;
pub mod frame;
pub mod grammar_laws;
pub mod hotkey;
pub mod keys;
pub mod selection;
pub mod text;
pub mod trigger;
