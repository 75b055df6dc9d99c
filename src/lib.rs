//! Resolution, download bookkeeping, integrity checking, installer planning and
//! process supervision for a voxel-game dedicated server manager.
//!
//! Every function here is verified; the only trusted parts are small wrappers
//! around the `sha256` digest and `toml` table access. Network, file-system and
//! process work is done by the caller, which hands the results in as plain
//! values and performs the actions the library decides on.

pub mod error;
pub mod text;
pub mod vanilla;
pub mod forge;
pub mod paper;
pub mod java;
pub mod download;
pub mod install;
pub mod supervisor;
pub mod channel;
pub mod config;
pub mod pipeline;
