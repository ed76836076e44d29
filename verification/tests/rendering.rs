use std::fmt;

use colour_brush::ansi::{write_decimal, write_reset};
use colour_brush::style::write_colour_param;
use colour_brush::{Capabilities, Colour, ColourBrush, ColouredString};

const ENABLED: Capabilities = Capabilities { no_colour: false, force_colour: false, is_terminal: true };
const SUPPRESSED: Capabilities = Capabilities { no_colour: true, force_colour: false, is_terminal: true };

/// A value whose display and debug forms both fail after writing a little.
struct Broken;

impl fmt::Display for Broken {
    fn fmt(&self, f: &mut fmt::Formatter<'_>) -> fmt::Result {
        f.write_str("half")?;
        Err(fmt::Error)
    }
}

impl fmt::Debug for Broken {
    fn fmt(&self, f: &mut fmt::Formatter<'_>) -> fmt::Result {
        f.write_str("Half")?;
        Err(fmt::Error)
    }
}

fn shown<T: fmt::Display>(styled: ColouredString<T>, caps: Capabilities) -> String {
    styled.display(caps).expect("the display form is written without error")
}

fn debugged<T: fmt::Debug>(styled: ColouredString<T>, caps: Capabilities) -> String {
    styled.debug(caps).expect("the debug form is written without error")
}

fn decimal(n: u8) -> String {
    let mut out = String::new();
    write_decimal(&mut out, n);
    out
}

fn opening<T>(styled: &ColouredString<T>) -> String {
    let mut out = String::new();
    styled.write_ansi(&mut out);
    out
}

#[test]
fn red_bold_text_is_wrapped_in_escape_codes() {
    let styled = "hi".colour(Colour::rgb(255, 0, 0)).bold();
    assert_eq!(shown(styled, ENABLED), "\x1b[38;2;255;0;0;1mhi\x1b[0m");
}

#[test]
fn red_bold_text_is_plain_when_suppressed() {
    let styled = "hi".colour(Colour::rgb(255, 0, 0)).bold();
    assert_eq!(shown(styled, SUPPRESSED), "hi");
}

#[test]
fn empty_style_keeps_the_empty_parameter_list() {
    assert_eq!(shown("x".as_brush(), ENABLED), "\x1b[mx\x1b[0m");
}

#[test]
fn empty_style_is_plain_when_suppressed() {
    assert_eq!(shown("x".as_brush(), SUPPRESSED), "x");
    assert_eq!(shown("x".as_brush(), SUPPRESSED), "x".to_string());
}

#[test]
fn suppressed_rendering_ignores_every_style_field() {
    let styled = 42u32
        .colour(Colour::rgb(1, 2, 3))
        .bg_colour(Colour::rgb(4, 5, 6))
        .bold()
        .dim()
        .italic()
        .underline()
        .blinking()
        .inverse()
        .hidden()
        .strikethrough();
    assert_eq!(shown(styled, SUPPRESSED), "42");
    let no_terminal = Capabilities { no_colour: false, force_colour: false, is_terminal: false };
    assert_eq!(shown(styled, no_terminal), "42");
    let both = Capabilities { no_colour: true, force_colour: false, is_terminal: false };
    assert_eq!(shown(styled, both), "42");
}

#[test]
fn every_field_is_written_in_the_fixed_order() {
    let styled = "v"
        .strikethrough()
        .hidden()
        .inverse()
        .blinking()
        .underline()
        .italic()
        .dim()
        .bold()
        .bg_colour(Colour::rgb(4, 50, 200))
        .colour(Colour::rgb(10, 0, 255));
    assert_eq!(
        shown(styled, ENABLED),
        "\x1b[38;2;10;0;255;48;2;4;50;200;1;2;3;4;5;7;8;9mv\x1b[0m"
    );
}

#[test]
fn each_attribute_has_its_own_code() {
    assert_eq!(opening(&"a".bold()), "\x1b[1m");
    assert_eq!(opening(&"a".dim()), "\x1b[2m");
    assert_eq!(opening(&"a".italic()), "\x1b[3m");
    assert_eq!(opening(&"a".underline()), "\x1b[4m");
    assert_eq!(opening(&"a".blinking()), "\x1b[5m");
    assert_eq!(opening(&"a".inverse()), "\x1b[7m");
    assert_eq!(opening(&"a".hidden()), "\x1b[8m");
    assert_eq!(opening(&"a".strikethrough()), "\x1b[9m");
}

#[test]
fn colours_are_written_as_24_bit_parameters() {
    assert_eq!(opening(&"a".colour(Colour::rgb(1, 20, 200))), "\x1b[38;2;1;20;200m");
    assert_eq!(opening(&"a".bg_colour(Colour::rgb(1, 20, 200))), "\x1b[48;2;1;20;200m");
    assert_eq!(
        opening(&"a".bg_colour(Colour::rgb(0, 0, 0)).colour(Colour::rgb(255, 255, 255))),
        "\x1b[38;2;255;255;255;48;2;0;0;0m"
    );
}

#[test]
fn background_and_attributes_without_foreground() {
    assert_eq!(opening(&"a".bg_colour(Colour::rgb(9, 8, 7)).underline()), "\x1b[48;2;9;8;7;4m");
    assert_eq!(opening(&"a".dim().strikethrough()), "\x1b[2;9m");
}

#[test]
fn write_ansi_appends_to_what_is_there() {
    let mut out = String::from("before");
    "a".bold().italic().write_ansi(&mut out);
    assert_eq!(out, "before\x1b[1;3m");
}

#[test]
fn decimal_has_no_leading_zeros() {
    assert_eq!(decimal(0), "0");
    assert_eq!(decimal(7), "7");
    assert_eq!(decimal(9), "9");
    assert_eq!(decimal(10), "10");
    assert_eq!(decimal(42), "42");
    assert_eq!(decimal(99), "99");
    assert_eq!(decimal(100), "100");
    assert_eq!(decimal(101), "101");
    assert_eq!(decimal(110), "110");
    assert_eq!(decimal(203), "203");
    assert_eq!(decimal(255), "255");
}

#[test]
fn decimal_agrees_with_the_standard_formatting_everywhere() {
    for n in 0..=255u8 {
        assert_eq!(decimal(n), n.to_string());
    }
}

#[test]
fn colour_parameter_follows_its_selector() {
    let mut out = String::from("[");
    write_colour_param(&mut out, "38", Colour::rgb(165, 42, 0));
    assert_eq!(out, "[38;2;165;42;0");
}

#[test]
fn render_wraps_the_given_text() {
    let styled = 7u8.bold();
    assert_eq!(styled.render("seven", ENABLED), "\x1b[1mseven\x1b[0m");
    assert_eq!(styled.render("seven", SUPPRESSED), "seven");
    assert_eq!(styled.render("", ENABLED), "\x1b[1m\x1b[0m");
    assert_eq!(styled.render("", SUPPRESSED), "");
}

#[test]
fn render_keeps_text_that_is_not_ascii() {
    let styled = "grün".bold();
    assert_eq!(shown(styled, ENABLED), "\x1b[1mgrün\x1b[0m");
    assert_eq!(shown(styled, SUPPRESSED), "grün");
}

#[test]
fn display_uses_the_display_form() {
    assert_eq!(shown(255u8.underline(), ENABLED), "\x1b[4m255\x1b[0m");
    assert_eq!(shown(String::from("s").underline(), ENABLED), "\x1b[4ms\x1b[0m");
    assert_eq!(shown('c'.underline(), SUPPRESSED), "c");
}

#[test]
fn debug_uses_the_debug_form() {
    assert_eq!(debugged("hi".bold(), ENABLED), "\x1b[1m\"hi\"\x1b[0m");
    assert_eq!(debugged("hi".bold(), SUPPRESSED), "\"hi\"");
    assert_eq!(debugged(Some(3u8).red(), ENABLED), "\x1b[38;2;255;0;0mSome(3)\x1b[0m");
    assert_eq!(debugged(vec![1u8, 2].as_brush(), ENABLED), "\x1b[m[1, 2]\x1b[0m");
}

#[test]
fn setting_an_attribute_twice_is_setting_it_once() {
    assert_eq!(shown("a".bold().bold(), ENABLED), shown("a".bold(), ENABLED));
    assert_eq!(shown("a".dim().dim(), ENABLED), shown("a".dim(), ENABLED));
    assert_eq!(shown("a".italic().italic(), ENABLED), shown("a".italic(), ENABLED));
    assert_eq!(shown("a".underline().underline(), ENABLED), shown("a".underline(), ENABLED));
    assert_eq!(shown("a".blinking().blinking(), ENABLED), shown("a".blinking(), ENABLED));
    assert_eq!(shown("a".inverse().inverse(), ENABLED), shown("a".inverse(), ENABLED));
    assert_eq!(shown("a".hidden().hidden(), ENABLED), shown("a".hidden(), ENABLED));
    assert_eq!(
        shown("a".strikethrough().strikethrough(), ENABLED),
        shown("a".strikethrough(), ENABLED)
    );
    assert_eq!(shown("a".bold().bold(), ENABLED), "\x1b[1ma\x1b[0m");
    assert!("a".bold().bold() == "a".bold());
}

#[test]
fn the_last_colour_of_a_slot_wins() {
    let twice = "a".colour(Colour::rgb(1, 1, 1)).colour(Colour::rgb(2, 3, 4));
    assert_eq!(shown(twice, ENABLED), "\x1b[38;2;2;3;4ma\x1b[0m");
    assert!(twice == "a".colour(Colour::rgb(2, 3, 4)));
    let twice = "a".bg_colour(Colour::rgb(1, 1, 1)).bg_colour(Colour::rgb(2, 3, 4));
    assert_eq!(shown(twice, ENABLED), "\x1b[48;2;2;3;4ma\x1b[0m");
    assert!(twice == "a".bg_colour(Colour::rgb(2, 3, 4)));
    assert_eq!(shown("a".red().blue(), ENABLED), "\x1b[38;2;0;0;255ma\x1b[0m");
}

#[test]
fn a_colour_leaves_the_attributes_set() {
    let styled = "a".bold().hidden().colour(Colour::rgb(5, 6, 7)).bg_colour(Colour::rgb(8, 9, 10));
    assert_eq!(shown(styled, ENABLED), "\x1b[38;2;5;6;7;48;2;8;9;10;1;8ma\x1b[0m");
}

#[test]
fn builder_order_does_not_matter() {
    let one = "a".bold().red().underline().bg_white();
    let other = "a".bg_white().underline().red().bold();
    assert!(one == other);
    assert_eq!(shown(one, ENABLED), shown(other, ENABLED));
}

#[test]
fn new_wraps_with_nothing_set() {
    assert!(ColouredString::new("a") == "a".as_brush());
    assert_eq!(shown(ColouredString::new(1u8), ENABLED), "\x1b[m1\x1b[0m");
}

#[test]
fn colours_are_equal_by_their_channels() {
    assert_eq!(Colour::rgb(1, 2, 3), Colour::rgb(1, 2, 3));
    assert_ne!(Colour::rgb(1, 2, 3), Colour::rgb(0, 2, 3));
    assert_ne!(Colour::rgb(1, 2, 3), Colour::rgb(1, 0, 3));
    assert_ne!(Colour::rgb(1, 2, 3), Colour::rgb(1, 2, 0));
    let colour = Colour::rgb(9, 8, 7);
    assert_eq!((colour.r, colour.g, colour.b), (9, 8, 7));
}

#[test]
fn a_display_form_that_fails_gives_nothing() {
    assert_eq!(ColouredString::new(Broken).display(ENABLED), None);
    assert_eq!(ColouredString::new(Broken).display(SUPPRESSED), None);
    assert_eq!(Broken.bold().red().display(ENABLED), None);
}

#[test]
fn a_debug_form_that_fails_gives_nothing() {
    assert_eq!(ColouredString::new(Broken).debug(ENABLED), None);
    assert_eq!(ColouredString::new(Broken).debug(SUPPRESSED), None);
    assert_eq!(Broken.underline().debug(ENABLED), None);
}

#[test]
fn display_and_debug_give_something_for_a_value_that_writes() {
    assert_eq!("hi".bold().display(ENABLED), Some(String::from("\x1b[1mhi\x1b[0m")));
    assert_eq!("hi".bold().display(SUPPRESSED), Some(String::from("hi")));
    assert_eq!("hi".bold().debug(ENABLED), Some(String::from("\x1b[1m\"hi\"\x1b[0m")));
    assert_eq!("hi".bold().debug(SUPPRESSED), Some(String::from("\"hi\"")));
}

#[test]
fn value_hands_out_what_was_wrapped() {
    assert_eq!(*"hi".as_brush().value(), "hi");
    assert_eq!(*17u32.bold().red().bg_white().value(), 17);
    let styled = String::from("owned").italic();
    assert_eq!(styled.value(), "owned");
    assert_eq!(shown(styled, ENABLED), "\x1b[3mowned\x1b[0m");
}

#[test]
fn write_reset_appends_the_reset_sequence() {
    let mut out = String::new();
    write_reset(&mut out);
    assert_eq!(out, "\x1b[0m");
    let mut out = String::from("text");
    write_reset(&mut out);
    assert_eq!(out, "text\x1b[0m");
}
