//! A modal error overlay for a character-grid terminal: the geometry of the
//! panel, the two text blocks it shows, and the drawing of both onto a
//! `ratatui` buffer.

pub mod geometry;
pub mod rows;
pub mod content;
pub mod text;
pub mod surface;
pub mod popup;
