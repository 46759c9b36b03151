//! Colors a prompt segment's text with a gradient, one grapheme cluster at a time,
//! and decides from the environment whether the user name segment is shown.

pub mod style;
pub mod segment;
pub mod graphemes;
pub mod gradient;
pub mod recolor;
pub mod context;
pub mod config;
pub mod username;
