use crate::stylesheet::Stylesheet;
use vstd::prelude::*;

verus! {

/// The display settings that the display view edits.
#[derive(Clone, Copy, Debug, PartialEq, Eq, Structural)]
pub struct DisplaySettings {
    pub luminance: u8,
    pub hue: u8,
    pub saturation: u8,
    pub contrast: u8,
}

/// A value that an editable widget reports when it changes.
#[derive(Clone, Copy, Debug, PartialEq, Eq, Structural)]
pub enum Value {
    Int(i32),
    Bool(bool),
}

/// An effect that crosses the boundary of the component that produced it.
#[derive(Clone, Copy, Debug, PartialEq, Eq, Structural)]
pub enum Command {
    /// Persist the whole stylesheet.
    SaveStylesheet(Stylesheet),
    /// Persist the whole display settings.
    SaveDisplaySettings(DisplaySettings),
    /// The widget at the index now holds the value.
    ValueChanged(usize, Value),
    /// Close the current view.
    CloseView,
}

} // verus!
