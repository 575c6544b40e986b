//! Finds the recent matches that two players took part in together, and
//! reports how each of those matches went.

pub mod config;
pub mod engine;
pub mod lookup;
pub mod region;
pub mod report;
pub mod riot_id;
pub mod text;
