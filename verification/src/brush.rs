//! Styling straight from a bare value.

use vstd::prelude::*;

use crate::colour::Colour;
use crate::coloured_string::{ColouredString, Styled};
use crate::style::Style;

verus! {

/// Wraps a value and takes the first builder step in one call.
///
/// Every type has these methods. Each gives what the step of the same name
/// gives on the freshly wrapped value.
pub trait ColourBrush: Sized {
    /// Wraps the value, with nothing set in its style.
    fn as_brush(self) -> (out: ColouredString<Self>)
        ensures
            out@ == (Styled { value: self, style: Style::empty() }),
    {
        ColouredString::new(self)
    }

    /// Wraps the value and sets its foreground colour.
    fn colour(self, colour: Colour) -> (out: ColouredString<Self>)
        ensures
            out@ == (Styled { value: self, style: Style::empty().with_fg(colour) }),
    {
        self.as_brush().colour(colour)
    }

    /// Wraps the value and sets its background colour.
    fn bg_colour(self, colour: Colour) -> (out: ColouredString<Self>)
        ensures
            out@ == (Styled { value: self, style: Style::empty().with_bg(colour) }),
    {
        self.as_brush().bg_colour(colour)
    }

    /// Wraps the value and shows it in bold.
    fn bold(self) -> (out: ColouredString<Self>)
        ensures
            out@ == (Styled { value: self, style: Style::empty().bold() }),
    {
        self.as_brush().bold()
    }

    /// Wraps the value and shows it dimmed.
    fn dim(self) -> (out: ColouredString<Self>)
        ensures
            out@ == (Styled { value: self, style: Style::empty().dim() }),
    {
        self.as_brush().dim()
    }

    /// Wraps the value and shows it in italics.
    fn italic(self) -> (out: ColouredString<Self>)
        ensures
            out@ == (Styled { value: self, style: Style::empty().italic() }),
    {
        self.as_brush().italic()
    }

    /// Wraps the value and underlines it.
    fn underline(self) -> (out: ColouredString<Self>)
        ensures
            out@ == (Styled { value: self, style: Style::empty().underline() }),
    {
        self.as_brush().underline()
    }

    /// Wraps the value and makes it blink.
    fn blinking(self) -> (out: ColouredString<Self>)
        ensures
            out@ == (Styled { value: self, style: Style::empty().blinking() }),
    {
        self.as_brush().blinking()
    }

    /// Wraps the value and swaps its foreground and background.
    fn inverse(self) -> (out: ColouredString<Self>)
        ensures
            out@ == (Styled { value: self, style: Style::empty().inverse() }),
    {
        self.as_brush().inverse()
    }

    /// Wraps the value and hides it.
    fn hidden(self) -> (out: ColouredString<Self>)
        ensures
            out@ == (Styled { value: self, style: Style::empty().hidden() }),
    {
        self.as_brush().hidden()
    }

    /// Wraps the value and strikes it through.
    fn strikethrough(self) -> (out: ColouredString<Self>)
        ensures
            out@ == (Styled { value: self, style: Style::empty().strikethrough() }),
    {
        self.as_brush().strikethrough()
    }

    /// Wraps the value and sets its foreground to black.
    fn black(self) -> (out: ColouredString<Self>)
        ensures
            out@ == (Styled {
                value: self,
                style: Style::empty().with_fg(Colour { r: 0, g: 0, b: 0 }),
            }),
    {
        self.as_brush().black()
    }

    /// Wraps the value and sets its foreground to dark grey.
    fn dark_grey(self) -> (out: ColouredString<Self>)
        ensures
            out@ == (Styled {
                value: self,
                style: Style::empty().with_fg(Colour { r: 100, g: 100, b: 100 }),
            }),
    {
        self.as_brush().dark_grey()
    }

    /// Wraps the value and sets its foreground to brown.
    fn brown(self) -> (out: ColouredString<Self>)
        ensures
            out@ == (Styled {
                value: self,
                style: Style::empty().with_fg(Colour { r: 165, g: 42, b: 42 }),
            }),
    {
        self.as_brush().brown()
    }

    /// Wraps the value and sets its foreground to navy blue.
    fn navy_blue(self) -> (out: ColouredString<Self>)
        ensures
            out@ == (Styled {
                value: self,
                style: Style::empty().with_fg(Colour { r: 0, g: 0, b: 128 }),
            }),
    {
        self.as_brush().navy_blue()
    }

    /// Wraps the value and sets its foreground to olive green.
    fn olive_green(self) -> (out: ColouredString<Self>)
        ensures
            out@ == (Styled {
                value: self,
                style: Style::empty().with_fg(Colour { r: 128, g: 128, b: 0 }),
            }),
    {
        self.as_brush().olive_green()
    }

    /// Wraps the value and sets its foreground to teal.
    fn teal(self) -> (out: ColouredString<Self>)
        ensures
            out@ == (Styled {
                value: self,
                style: Style::empty().with_fg(Colour { r: 0, g: 128, b: 128 }),
            }),
    {
        self.as_brush().teal()
    }

    /// Wraps the value and sets its foreground to red.
    fn red(self) -> (out: ColouredString<Self>)
        ensures
            out@ == (Styled {
                value: self,
                style: Style::empty().with_fg(Colour { r: 255, g: 0, b: 0 }),
            }),
    {
        self.as_brush().red()
    }

    /// Wraps the value and sets its foreground to green.
    fn green(self) -> (out: ColouredString<Self>)
        ensures
            out@ == (Styled {
                value: self,
                style: Style::empty().with_fg(Colour { r: 0, g: 255, b: 0 }),
            }),
    {
        self.as_brush().green()
    }

    /// Wraps the value and sets its foreground to blue.
    fn blue(self) -> (out: ColouredString<Self>)
        ensures
            out@ == (Styled {
                value: self,
                style: Style::empty().with_fg(Colour { r: 0, g: 0, b: 255 }),
            }),
    {
        self.as_brush().blue()
    }

    /// Wraps the value and sets its foreground to magenta.
    fn magenta(self) -> (out: ColouredString<Self>)
        ensures
            out@ == (Styled {
                value: self,
                style: Style::empty().with_fg(Colour { r: 255, g: 0, b: 255 }),
            }),
    {
        self.as_brush().magenta()
    }

    /// Wraps the value and sets its foreground to yellow.
    fn yellow(self) -> (out: ColouredString<Self>)
        ensures
            out@ == (Styled {
                value: self,
                style: Style::empty().with_fg(Colour { r: 255, g: 255, b: 0 }),
            }),
    {
        self.as_brush().yellow()
    }

    /// Wraps the value and sets its foreground to orange.
    fn orange(self) -> (out: ColouredString<Self>)
        ensures
            out@ == (Styled {
                value: self,
                style: Style::empty().with_fg(Colour { r: 255, g: 165, b: 0 }),
            }),
    {
        self.as_brush().orange()
    }

    /// Wraps the value and sets its foreground to pink.
    fn pink(self) -> (out: ColouredString<Self>)
        ensures
            out@ == (Styled {
                value: self,
                style: Style::empty().with_fg(Colour { r: 255, g: 192, b: 203 }),
            }),
    {
        self.as_brush().pink()
    }

    /// Wraps the value and sets its foreground to light grey.
    fn light_grey(self) -> (out: ColouredString<Self>)
        ensures
            out@ == (Styled {
                value: self,
                style: Style::empty().with_fg(Colour { r: 200, g: 200, b: 200 }),
            }),
    {
        self.as_brush().light_grey()
    }

    /// Wraps the value and sets its foreground to cyan.
    fn cyan(self) -> (out: ColouredString<Self>)
        ensures
            out@ == (Styled {
                value: self,
                style: Style::empty().with_fg(Colour { r: 0, g: 255, b: 255 }),
            }),
    {
        self.as_brush().cyan()
    }

    /// Wraps the value and sets its foreground to white.
    fn white(self) -> (out: ColouredString<Self>)
        ensures
            out@ == (Styled {
                value: self,
                style: Style::empty().with_fg(Colour { r: 255, g: 255, b: 255 }),
            }),
    {
        self.as_brush().white()
    }

    /// Wraps the value and sets its background to black.
    fn bg_black(self) -> (out: ColouredString<Self>)
        ensures
            out@ == (Styled {
                value: self,
                style: Style::empty().with_bg(Colour { r: 0, g: 0, b: 0 }),
            }),
    {
        self.as_brush().bg_black()
    }

    /// Wraps the value and sets its background to dark grey.
    fn bg_dark_grey(self) -> (out: ColouredString<Self>)
        ensures
            out@ == (Styled {
                value: self,
                style: Style::empty().with_bg(Colour { r: 100, g: 100, b: 100 }),
            }),
    {
        self.as_brush().bg_dark_grey()
    }

    /// Wraps the value and sets its background to brown.
    fn bg_brown(self) -> (out: ColouredString<Self>)
        ensures
            out@ == (Styled {
                value: self,
                style: Style::empty().with_bg(Colour { r: 165, g: 42, b: 42 }),
            }),
    {
        self.as_brush().bg_brown()
    }

    /// Wraps the value and sets its background to navy blue.
    fn bg_navy_blue(self) -> (out: ColouredString<Self>)
        ensures
            out@ == (Styled {
                value: self,
                style: Style::empty().with_bg(Colour { r: 0, g: 0, b: 128 }),
            }),
    {
        self.as_brush().bg_navy_blue()
    }

    /// Wraps the value and sets its background to olive green.
    fn bg_olive_green(self) -> (out: ColouredString<Self>)
        ensures
            out@ == (Styled {
                value: self,
                style: Style::empty().with_bg(Colour { r: 128, g: 128, b: 0 }),
            }),
    {
        self.as_brush().bg_olive_green()
    }

    /// Wraps the value and sets its background to teal.
    fn bg_teal(self) -> (out: ColouredString<Self>)
        ensures
            out@ == (Styled {
                value: self,
                style: Style::empty().with_bg(Colour { r: 0, g: 128, b: 128 }),
            }),
    {
        self.as_brush().bg_teal()
    }

    /// Wraps the value and sets its background to red.
    fn bg_red(self) -> (out: ColouredString<Self>)
        ensures
            out@ == (Styled {
                value: self,
                style: Style::empty().with_bg(Colour { r: 255, g: 0, b: 0 }),
            }),
    {
        self.as_brush().bg_red()
    }

    /// Wraps the value and sets its background to green.
    fn bg_green(self) -> (out: ColouredString<Self>)
        ensures
            out@ == (Styled {
                value: self,
                style: Style::empty().with_bg(Colour { r: 0, g: 255, b: 0 }),
            }),
    {
        self.as_brush().bg_green()
    }

    /// Wraps the value and sets its background to blue.
    fn bg_blue(self) -> (out: ColouredString<Self>)
        ensures
            out@ == (Styled {
                value: self,
                style: Style::empty().with_bg(Colour { r: 0, g: 0, b: 255 }),
            }),
    {
        self.as_brush().bg_blue()
    }

    /// Wraps the value and sets its background to magenta.
    fn bg_magenta(self) -> (out: ColouredString<Self>)
        ensures
            out@ == (Styled {
                value: self,
                style: Style::empty().with_bg(Colour { r: 255, g: 0, b: 255 }),
            }),
    {
        self.as_brush().bg_magenta()
    }

    /// Wraps the value and sets its background to yellow.
    fn bg_yellow(self) -> (out: ColouredString<Self>)
        ensures
            out@ == (Styled {
                value: self,
                style: Style::empty().with_bg(Colour { r: 255, g: 255, b: 0 }),
            }),
    {
        self.as_brush().bg_yellow()
    }

    /// Wraps the value and sets its background to orange.
    fn bg_orange(self) -> (out: ColouredString<Self>)
        ensures
            out@ == (Styled {
                value: self,
                style: Style::empty().with_bg(Colour { r: 255, g: 165, b: 0 }),
            }),
    {
        self.as_brush().bg_orange()
    }

    /// Wraps the value and sets its background to pink.
    fn bg_pink(self) -> (out: ColouredString<Self>)
        ensures
            out@ == (Styled {
                value: self,
                style: Style::empty().with_bg(Colour { r: 255, g: 192, b: 203 }),
            }),
    {
        self.as_brush().bg_pink()
    }

    /// Wraps the value and sets its background to light grey.
    fn bg_light_grey(self) -> (out: ColouredString<Self>)
        ensures
            out@ == (Styled {
                value: self,
                style: Style::empty().with_bg(Colour { r: 200, g: 200, b: 200 }),
            }),
    {
        self.as_brush().bg_light_grey()
    }

    /// Wraps the value and sets its background to cyan.
    fn bg_cyan(self) -> (out: ColouredString<Self>)
        ensures
            out@ == (Styled {
                value: self,
                style: Style::empty().with_bg(Colour { r: 0, g: 255, b: 255 }),
            }),
    {
        self.as_brush().bg_cyan()
    }

    /// Wraps the value and sets its background to white.
    fn bg_white(self) -> (out: ColouredString<Self>)
        ensures
            out@ == (Styled {
                value: self,
                style: Style::empty().with_bg(Colour { r: 255, g: 255, b: 255 }),
            }),
    {
        self.as_brush().bg_white()
    }
}

impl<T> ColourBrush for T {}

} // verus!
