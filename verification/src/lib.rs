//! Discrete game-controller logic: experience and levelling, dialog flow,
//! device state machines (doors, switches, plates, stations), event triggers,
//! input buffering, player switching and object grabbing, each with its
//! contract proved by Verus.

pub mod text;
pub mod chance;
pub mod stats;
pub mod combat;
pub mod currency;
pub mod lists;

pub mod experience;
pub mod events;
pub mod game_manager;
pub mod dialog;
pub mod devices;
pub mod grab;
pub mod input;
pub mod extra_movements;
pub mod head_track;
pub mod footsteps;
