//! Playback engine for terminal circuit-workout sessions.

pub mod locked_u_int;
pub mod text;
pub mod timer;
pub mod util;
pub mod enums;
pub mod exercise;
pub mod screen;
pub mod workout;
pub mod playback;
pub mod paths;
pub mod workout_list;
pub mod import;
pub mod menu;
