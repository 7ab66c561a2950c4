//! Settings editing for a handheld launcher: colour digit editing, the theme
//! editor screen, a settings list widget and the display settings view.
pub mod color;
pub mod geom;
pub mod command;
pub mod input;
pub mod nav;
pub mod stylesheet;
pub mod theme;
pub mod list;
pub mod display;
