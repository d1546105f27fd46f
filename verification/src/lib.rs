//! Client-side logic of a Ragnarok-style action game: decoding of the
//! game's sprite (SPR), animation (ACT) and map-resource (RSW) files,
//! simulation pacing, status bookkeeping, the asset registry, the player's
//! keyboard and mouse input, and the in-game console's line editing,
//! history and completion.
use vstd::prelude::*;

pub mod act;
pub mod asset_db;
pub mod attrib_mod;
pub mod autocompletion;
pub mod binary_reader;
pub mod char_visuals;
pub mod collision;
pub mod console_args;
pub mod console_commands;
pub mod console_edit;
pub mod console_entry;
pub mod console_history;
pub mod console_step;
pub mod cursor;
pub mod delayed_packets;
pub mod frame_durations;
pub mod imgui_data;
pub mod input;
pub mod input_consumer;
pub mod job_names;
mod name_table;
pub mod number_format;
pub mod rsw;
pub mod simulation;
pub mod skill_bar;
pub mod skills;
pub mod snapshot_ack;
pub mod spawn_area;
pub mod spr;
pub mod statuses;
pub mod timed_statuses;
pub mod turret_ai;

verus! {

} // verus!
