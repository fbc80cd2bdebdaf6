//! Render-composition and navigation core of a terminal dashboard: style
//! resolution, the content of the four views, the screen partition with its
//! widgets, and the keyboard-driven navigation state machine.

pub mod pane;
pub mod styles;
pub mod views;
pub mod widgets;
pub mod app;
