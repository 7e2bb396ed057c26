//! Decoder for BGL scenery containers.
//!
//! A container is a fixed header, a directory of typed sections and, per
//! section, a table of subsections that point at record data by absolute
//! offset. Everything here works on the bytes of one container held in memory.

pub mod kinds;
pub mod layout;
pub mod ident;
pub mod reader;
pub mod airport;
pub mod container;
