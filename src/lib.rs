//! Reads a structured snapshot of a running game's state out of an image of
//! its foreign memory: resolving singleton instances through pointer chains,
//! decoding fixed-layout records, lists and UTF-16 strings.

pub mod error;
pub mod memory;
pub mod reader;
pub mod schema;
pub mod game;
pub mod laws;
