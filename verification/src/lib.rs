//! Verified core of the AeroMod add-on manager: the BGL scenery container
//! decoder and the rules of add-on, preset and settings handling.

pub mod bgl;
pub mod text;
pub mod preset;
pub mod settings;
pub mod addon;
pub mod scenery;
pub mod sim;
