//! The registry operations, one module per concern.

pub mod command_structs;
pub mod download_file;
pub mod error;
pub mod list_cards;
pub mod metrics;
pub mod render;
pub mod tags;
pub mod text;
pub mod transfer;
pub mod types;
pub mod utils;
