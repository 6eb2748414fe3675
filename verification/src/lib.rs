//! Core logic of a game-launcher: display resolution presets, launcher
//! configuration values merged from JSON-like data, and a presence-update
//! actor that serializes connect/update/disconnect commands against an
//! external rich-presence service.

pub mod discord_rpc;
pub mod fps_unlocker;
pub mod json;
pub mod launcher;
pub mod resolution;
pub mod text;
pub mod window_type;

use vstd::prelude::*;

verus! {

} // verus!
