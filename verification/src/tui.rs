//! What the terminal shows, and what the frame loop decides.

pub mod app;
pub mod widgets;
