//! The panes of the frame, as plain values that a terminal library can draw.

pub mod database_state;
pub mod highlight;
