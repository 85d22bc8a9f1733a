pub mod setup;
pub mod detail;
pub mod download;
pub mod next;
pub mod disqualify;
pub mod config;
pub mod rounds;
pub mod statistics;
pub mod reset;
