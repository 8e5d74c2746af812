//! Verified core of a Home Assistant-controlled LED light.

pub mod builder;
pub mod color;
pub mod download;
pub mod effect;
pub mod firmware;
pub mod gradient;
pub mod ha;
pub mod math8;
pub mod mode;
pub mod ota;
pub mod parse;
pub mod processor;
pub mod state;
pub mod storage;
pub mod text;
pub mod topic;
pub mod transition;
