//! The state behind the terminal palettes: items, selection, themes and keys.

pub mod palette;
pub mod runtime;
pub mod theme;
