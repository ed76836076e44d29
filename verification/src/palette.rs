//! The named colours, as builder steps for the foreground and the
//! background.

use vstd::prelude::*;

use crate::colour::Colour;
use crate::coloured_string::{ColouredString, Styled};

verus! {

impl<T> ColouredString<T> {
    /// Sets the foreground to black: (0, 0, 0).
    pub fn black(self) -> (out: Self)
        ensures
            out@ == (Styled {
                value: self@.value,
                style: self@.style.with_fg(Colour { r: 0, g: 0, b: 0 }),
            }),
    {
        self.colour(Colour::rgb(0, 0, 0))
    }

    /// Sets the foreground to dark grey: (100, 100, 100).
    pub fn dark_grey(self) -> (out: Self)
        ensures
            out@ == (Styled {
                value: self@.value,
                style: self@.style.with_fg(Colour { r: 100, g: 100, b: 100 }),
            }),
    {
        self.colour(Colour::rgb(100, 100, 100))
    }

    /// Sets the foreground to brown: (165, 42, 42).
    pub fn brown(self) -> (out: Self)
        ensures
            out@ == (Styled {
                value: self@.value,
                style: self@.style.with_fg(Colour { r: 165, g: 42, b: 42 }),
            }),
    {
        self.colour(Colour::rgb(165, 42, 42))
    }

    /// Sets the foreground to navy blue: (0, 0, 128).
    pub fn navy_blue(self) -> (out: Self)
        ensures
            out@ == (Styled {
                value: self@.value,
                style: self@.style.with_fg(Colour { r: 0, g: 0, b: 128 }),
            }),
    {
        self.colour(Colour::rgb(0, 0, 128))
    }

    /// Sets the foreground to olive green: (128, 128, 0).
    pub fn olive_green(self) -> (out: Self)
        ensures
            out@ == (Styled {
                value: self@.value,
                style: self@.style.with_fg(Colour { r: 128, g: 128, b: 0 }),
            }),
    {
        self.colour(Colour::rgb(128, 128, 0))
    }

    /// Sets the foreground to teal: (0, 128, 128).
    pub fn teal(self) -> (out: Self)
        ensures
            out@ == (Styled {
                value: self@.value,
                style: self@.style.with_fg(Colour { r: 0, g: 128, b: 128 }),
            }),
    {
        self.colour(Colour::rgb(0, 128, 128))
    }

    /// Sets the foreground to red: (255, 0, 0).
    pub fn red(self) -> (out: Self)
        ensures
            out@ == (Styled {
                value: self@.value,
                style: self@.style.with_fg(Colour { r: 255, g: 0, b: 0 }),
            }),
    {
        self.colour(Colour::rgb(255, 0, 0))
    }

    /// Sets the foreground to green: (0, 255, 0).
    pub fn green(self) -> (out: Self)
        ensures
            out@ == (Styled {
                value: self@.value,
                style: self@.style.with_fg(Colour { r: 0, g: 255, b: 0 }),
            }),
    {
        self.colour(Colour::rgb(0, 255, 0))
    }

    /// Sets the foreground to blue: (0, 0, 255).
    pub fn blue(self) -> (out: Self)
        ensures
            out@ == (Styled {
                value: self@.value,
                style: self@.style.with_fg(Colour { r: 0, g: 0, b: 255 }),
            }),
    {
        self.colour(Colour::rgb(0, 0, 255))
    }

    /// Sets the foreground to magenta: (255, 0, 255).
    pub fn magenta(self) -> (out: Self)
        ensures
            out@ == (Styled {
                value: self@.value,
                style: self@.style.with_fg(Colour { r: 255, g: 0, b: 255 }),
            }),
    {
        self.colour(Colour::rgb(255, 0, 255))
    }

    /// Sets the foreground to yellow: (255, 255, 0).
    pub fn yellow(self) -> (out: Self)
        ensures
            out@ == (Styled {
                value: self@.value,
                style: self@.style.with_fg(Colour { r: 255, g: 255, b: 0 }),
            }),
    {
        self.colour(Colour::rgb(255, 255, 0))
    }

    /// Sets the foreground to orange: (255, 165, 0).
    pub fn orange(self) -> (out: Self)
        ensures
            out@ == (Styled {
                value: self@.value,
                style: self@.style.with_fg(Colour { r: 255, g: 165, b: 0 }),
            }),
    {
        self.colour(Colour::rgb(255, 165, 0))
    }

    /// Sets the foreground to pink: (255, 192, 203).
    pub fn pink(self) -> (out: Self)
        ensures
            out@ == (Styled {
                value: self@.value,
                style: self@.style.with_fg(Colour { r: 255, g: 192, b: 203 }),
            }),
    {
        self.colour(Colour::rgb(255, 192, 203))
    }

    /// Sets the foreground to light grey: (200, 200, 200).
    pub fn light_grey(self) -> (out: Self)
        ensures
            out@ == (Styled {
                value: self@.value,
                style: self@.style.with_fg(Colour { r: 200, g: 200, b: 200 }),
            }),
    {
        self.colour(Colour::rgb(200, 200, 200))
    }

    /// Sets the foreground to cyan: (0, 255, 255).
    pub fn cyan(self) -> (out: Self)
        ensures
            out@ == (Styled {
                value: self@.value,
                style: self@.style.with_fg(Colour { r: 0, g: 255, b: 255 }),
            }),
    {
        self.colour(Colour::rgb(0, 255, 255))
    }

    /// Sets the foreground to white: (255, 255, 255).
    pub fn white(self) -> (out: Self)
        ensures
            out@ == (Styled {
                value: self@.value,
                style: self@.style.with_fg(Colour { r: 255, g: 255, b: 255 }),
            }),
    {
        self.colour(Colour::rgb(255, 255, 255))
    }

    /// Sets the background to black: (0, 0, 0).
    pub fn bg_black(self) -> (out: Self)
        ensures
            out@ == (Styled {
                value: self@.value,
                style: self@.style.with_bg(Colour { r: 0, g: 0, b: 0 }),
            }),
    {
        self.bg_colour(Colour::rgb(0, 0, 0))
    }

    /// Sets the background to dark grey: (100, 100, 100).
    pub fn bg_dark_grey(self) -> (out: Self)
        ensures
            out@ == (Styled {
                value: self@.value,
                style: self@.style.with_bg(Colour { r: 100, g: 100, b: 100 }),
            }),
    {
        self.bg_colour(Colour::rgb(100, 100, 100))
    }

    /// Sets the background to brown: (165, 42, 42).
    pub fn bg_brown(self) -> (out: Self)
        ensures
            out@ == (Styled {
                value: self@.value,
                style: self@.style.with_bg(Colour { r: 165, g: 42, b: 42 }),
            }),
    {
        self.bg_colour(Colour::rgb(165, 42, 42))
    }

    /// Sets the background to navy blue: (0, 0, 128).
    pub fn bg_navy_blue(self) -> (out: Self)
        ensures
            out@ == (Styled {
                value: self@.value,
                style: self@.style.with_bg(Colour { r: 0, g: 0, b: 128 }),
            }),
    {
        self.bg_colour(Colour::rgb(0, 0, 128))
    }

    /// Sets the background to olive green: (128, 128, 0).
    pub fn bg_olive_green(self) -> (out: Self)
        ensures
            out@ == (Styled {
                value: self@.value,
                style: self@.style.with_bg(Colour { r: 128, g: 128, b: 0 }),
            }),
    {
        self.bg_colour(Colour::rgb(128, 128, 0))
    }

    /// Sets the background to teal: (0, 128, 128).
    pub fn bg_teal(self) -> (out: Self)
        ensures
            out@ == (Styled {
                value: self@.value,
                style: self@.style.with_bg(Colour { r: 0, g: 128, b: 128 }),
            }),
    {
        self.bg_colour(Colour::rgb(0, 128, 128))
    }

    /// Sets the background to red: (255, 0, 0).
    pub fn bg_red(self) -> (out: Self)
        ensures
            out@ == (Styled {
                value: self@.value,
                style: self@.style.with_bg(Colour { r: 255, g: 0, b: 0 }),
            }),
    {
        self.bg_colour(Colour::rgb(255, 0, 0))
    }

    /// Sets the background to green: (0, 255, 0).
    pub fn bg_green(self) -> (out: Self)
        ensures
            out@ == (Styled {
                value: self@.value,
                style: self@.style.with_bg(Colour { r: 0, g: 255, b: 0 }),
            }),
    {
        self.bg_colour(Colour::rgb(0, 255, 0))
    }

    /// Sets the background to blue: (0, 0, 255).
    pub fn bg_blue(self) -> (out: Self)
        ensures
            out@ == (Styled {
                value: self@.value,
                style: self@.style.with_bg(Colour { r: 0, g: 0, b: 255 }),
            }),
    {
        self.bg_colour(Colour::rgb(0, 0, 255))
    }

    /// Sets the background to magenta: (255, 0, 255).
    pub fn bg_magenta(self) -> (out: Self)
        ensures
            out@ == (Styled {
                value: self@.value,
                style: self@.style.with_bg(Colour { r: 255, g: 0, b: 255 }),
            }),
    {
        self.bg_colour(Colour::rgb(255, 0, 255))
    }

    /// Sets the background to yellow: (255, 255, 0).
    pub fn bg_yellow(self) -> (out: Self)
        ensures
            out@ == (Styled {
                value: self@.value,
                style: self@.style.with_bg(Colour { r: 255, g: 255, b: 0 }),
            }),
    {
        self.bg_colour(Colour::rgb(255, 255, 0))
    }

    /// Sets the background to orange: (255, 165, 0).
    pub fn bg_orange(self) -> (out: Self)
        ensures
            out@ == (Styled {
                value: self@.value,
                style: self@.style.with_bg(Colour { r: 255, g: 165, b: 0 }),
            }),
    {
        self.bg_colour(Colour::rgb(255, 165, 0))
    }

    /// Sets the background to pink: (255, 192, 203).
    pub fn bg_pink(self) -> (out: Self)
        ensures
            out@ == (Styled {
                value: self@.value,
                style: self@.style.with_bg(Colour { r: 255, g: 192, b: 203 }),
            }),
    {
        self.bg_colour(Colour::rgb(255, 192, 203))
    }

    /// Sets the background to light grey: (200, 200, 200).
    pub fn bg_light_grey(self) -> (out: Self)
        ensures
            out@ == (Styled {
                value: self@.value,
                style: self@.style.with_bg(Colour { r: 200, g: 200, b: 200 }),
            }),
    {
        self.bg_colour(Colour::rgb(200, 200, 200))
    }

    /// Sets the background to cyan: (0, 255, 255).
    pub fn bg_cyan(self) -> (out: Self)
        ensures
            out@ == (Styled {
                value: self@.value,
                style: self@.style.with_bg(Colour { r: 0, g: 255, b: 255 }),
            }),
    {
        self.bg_colour(Colour::rgb(0, 255, 255))
    }

    /// Sets the background to white: (255, 255, 255).
    pub fn bg_white(self) -> (out: Self)
        ensures
            out@ == (Styled {
                value: self@.value,
                style: self@.style.with_bg(Colour { r: 255, g: 255, b: 255 }),
            }),
    {
        self.bg_colour(Colour::rgb(255, 255, 255))
    }
}

} // verus!
