//! Keyboard backlight control and hotkey handling for MACHENIKE laptops:
//! the state and commands of the backlight tool, the hotkey daemon's
//! decisions, and the settings that the configuration menu edits.

pub mod text;
pub mod decimal;
pub mod keys;
pub mod combo;
pub mod conf;
pub mod settings;
pub mod capture;
pub mod daemon;
pub mod backlight;
