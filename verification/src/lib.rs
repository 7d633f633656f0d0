//! Tempus: the engine of a terminal countdown timer.
//!
//! The crate holds the pause-aware clock, the visual themes, the frame
//! renderer and the interactive focus session. It never touches the terminal:
//! a front end reads the keyboard, hands plain values in, and draws the
//! frames that come back.

pub mod time;
pub mod text;
pub mod clock;
pub mod progress;
pub mod themes;
pub mod palette;
pub mod utils;
pub mod focus_mode;
pub mod setup;
