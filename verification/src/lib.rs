//! Verified core of the Discord Brawl Cup tournament bot: regions and modes,
//! text helpers, record models, tournament rules and image layout.

pub mod text;
pub mod misc;
pub mod utils;
pub mod log;
pub mod reply;
pub mod region;
pub mod quote;
pub mod numparse;
pub mod time;
pub mod players;
pub mod host;
pub mod visual;

pub use region::{Mode, Region};
