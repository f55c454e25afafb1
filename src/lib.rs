//! Watches a game's health bar and decides, cycle by cycle, when to sound alerts and when
//! to start or stop an automated click, while a display and the keyboard share one state.
pub mod automatization;
pub mod config;
pub mod hp;
pub mod interface;
pub mod shared;
