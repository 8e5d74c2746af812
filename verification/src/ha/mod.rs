//! Home Assistant MQTT integration: device and entity descriptions, the values exchanged
//! with Home Assistant, and the client's decisions.

pub mod client;
pub mod device;
pub mod light;
pub mod number;
