//! A weather applet's logic: the state machine behind its panel button and
//! settings popup, the ranking of city search results, and the small pieces of
//! text handling that feed them.

pub mod config;
pub mod text;
pub mod geolocation;
pub mod ranking;
pub mod applet;
