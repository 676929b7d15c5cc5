//! What the window shows: the model behind it, without the drawing.

pub mod ui;
