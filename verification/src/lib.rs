//! Batch image conversion: request checks, resize arithmetic, output naming,
//! presets, statistics and watched folders, with their rules proved.

pub mod text;
pub mod paths;
pub mod models;
pub mod pipeline;
pub mod cli;
pub mod units;
pub mod report;
pub mod db;
pub mod presets;
pub mod commands;
pub mod magic;
pub mod laws;
pub mod opened;
pub mod preview;
pub mod statements;
