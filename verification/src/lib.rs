//! Verified core of a graphical flashing tool for embedded targets.

pub mod text;
pub mod i18n;
pub mod icon;
pub mod chips;
pub mod firmware;
pub mod worker;
pub mod memview;
pub mod config;
pub mod app_state;
pub mod events;
pub mod chip_select;
pub mod actions;
