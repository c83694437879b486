//! Point-in-time facts about the local machine and its network: the result
//! model, the rules that aggregate probe outcomes into it, and its text
//! projection.

pub mod text;
pub mod format;
pub mod network;
pub mod storage;
pub mod system;
pub mod datetime;
pub mod parsers;
pub mod model;
pub mod render;
pub mod aggregate;
pub mod cli;
