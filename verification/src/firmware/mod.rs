//! The light firmware's own logic: the persisted light state and the controllers that turn
//! Home Assistant commands into engine commands.

pub mod basic_controller;
pub mod command;
pub mod ha_controller;
pub mod intent;
pub mod light_state;
pub mod persistence;
