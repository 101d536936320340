//! Verified core of a CS:GO memory-analysis tool: byte-pattern signature
//! scanning, signature offset resolution, module image access, netvar table
//! lookups, game identifiers and small integer helpers.

pub mod datatypes;
pub mod features;
pub mod gamedata;
pub mod human_interface;
pub mod offsets;
pub mod render;
pub mod user_config;
pub mod utils;
