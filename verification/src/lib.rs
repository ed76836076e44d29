//! Terminal text styling: colours and attributes rendered as ANSI escape
//! sequences, or as plain text where the environment asks for none.

pub mod ansi;
pub mod brush;
pub mod colour;
pub mod coloured_string;
pub mod metadata;
pub mod palette;
pub mod style;

pub use brush::ColourBrush;
pub use colour::Colour;
pub use coloured_string::ColouredString;
pub use metadata::{flush_metadata, init_metadata, Capabilities, Metadata};
pub use style::Style;
