//! A clock for the terminal: the time of day in large glyphs.
//!
//! `time` turns seconds since the epoch into a wall-clock reading, `glyphs`
//! holds the fonts, `compose` sets the glyphs of a reading side by side,
//! `layout` places the art in the terminal, `render` joins the two, and
//! `refresh` decides on each tick whether the screen is repainted.

pub mod compose;
pub mod error;
pub mod glyphs;
pub mod layout;
pub mod refresh;
pub mod render;
pub mod time;
