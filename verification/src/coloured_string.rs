//! A value together with the style in which it is to be shown.

use core::fmt::Write;

use vstd::prelude::*;
use vstd::string::StringExecFns;

use crate::ansi::{joined, lemma_joined_push, reset, select_graphic_rendition, write_reset, ESC};
use crate::colour::Colour;
use crate::metadata::Capabilities;
use crate::style::{attribute_params, colour_param, colour_params, write_colour_param, Style};

verus! {

/// A value and the style that has been gathered for it.
///
/// The wrapper owns the value. Builder calls take the wrapper and give it
/// back with one part of the style changed; nothing else reaches inside.
#[derive(Clone, Copy, PartialEq)]
pub struct ColouredString<T> {
    string: T,
    style: Style,
}

/// What a styled value is to a contract: the wrapped value and its style.
pub ghost struct Styled<T> {
    pub value: T,
    pub style: Style,
}

impl<T> View for ColouredString<T> {
    type V = Styled<T>;

    closed spec fn view(&self) -> Styled<T> {
        Styled { value: self.string, style: self.style }
    }
}

impl<T> ColouredString<T> {
    /// Wraps a value, with nothing set in its style.
    pub fn new(string: T) -> (out: Self)
        ensures
            out@ == (Styled { value: string, style: Style::empty() }),
    {
        ColouredString {
            string,
            style: Style {
                fg_colour: None,
                bg_colour: None,
                is_bold: false,
                is_dim: false,
                is_italic: false,
                is_underline: false,
                is_blinking: false,
                is_inverse: false,
                is_hidden: false,
                is_strikethrough: false,
            },
        }
    }

    /// The wrapped value.
    pub fn value(&self) -> (v: &T)
        ensures
            *v == self@.value,
    {
        &self.string
    }

    /// Sets the foreground colour, in place of any set before.
    pub fn colour(self, colour: Colour) -> (out: Self)
        ensures
            out@ == (Styled { value: self@.value, style: self@.style.with_fg(colour) }),
    {
        let mut out = self;
        out.style.fg_colour = Some(colour);
        out
    }

    /// Sets the background colour, in place of any set before.
    pub fn bg_colour(self, colour: Colour) -> (out: Self)
        ensures
            out@ == (Styled { value: self@.value, style: self@.style.with_bg(colour) }),
    {
        let mut out = self;
        out.style.bg_colour = Some(colour);
        out
    }

    /// Shows the value in bold.
    pub fn bold(self) -> (out: Self)
        ensures
            out@ == (Styled { value: self@.value, style: self@.style.bold() }),
    {
        let mut out = self;
        out.style.is_bold = true;
        out
    }

    /// Shows the value dimmed.
    pub fn dim(self) -> (out: Self)
        ensures
            out@ == (Styled { value: self@.value, style: self@.style.dim() }),
    {
        let mut out = self;
        out.style.is_dim = true;
        out
    }

    /// Shows the value in italics.
    pub fn italic(self) -> (out: Self)
        ensures
            out@ == (Styled { value: self@.value, style: self@.style.italic() }),
    {
        let mut out = self;
        out.style.is_italic = true;
        out
    }

    /// Underlines the value.
    pub fn underline(self) -> (out: Self)
        ensures
            out@ == (Styled { value: self@.value, style: self@.style.underline() }),
    {
        let mut out = self;
        out.style.is_underline = true;
        out
    }

    /// Makes the value blink.
    pub fn blinking(self) -> (out: Self)
        ensures
            out@ == (Styled { value: self@.value, style: self@.style.blinking() }),
    {
        let mut out = self;
        out.style.is_blinking = true;
        out
    }

    /// Swaps the foreground and the background of the value.
    pub fn inverse(self) -> (out: Self)
        ensures
            out@ == (Styled { value: self@.value, style: self@.style.inverse() }),
    {
        let mut out = self;
        out.style.is_inverse = true;
        out
    }

    /// Hides the value.
    pub fn hidden(self) -> (out: Self)
        ensures
            out@ == (Styled { value: self@.value, style: self@.style.hidden() }),
    {
        let mut out = self;
        out.style.is_hidden = true;
        out
    }

    /// Strikes the value through.
    pub fn strikethrough(self) -> (out: Self)
        ensures
            out@ == (Styled { value: self@.value, style: self@.style.strikethrough() }),
    {
        let mut out = self;
        out.style.is_strikethrough = true;
        out
    }
}

/// Writing the opening characters, a parameter list and the closing letter
/// after some text appends the whole rendition sequence to it.
proof fn lemma_framed(before: Seq<char>, params: Seq<Seq<char>>)
    ensures
        before + seq![ESC, '['] + joined(params) + seq!['m'] == before
            + select_graphic_rendition(params),
{
    assert(before + seq![ESC, '['] + joined(params) + seq!['m'] =~= before
        + select_graphic_rendition(params));
}

/// Appends the two characters that open a control sequence. No parameter
/// has been written after them yet.
fn write_opening(out: &mut String)
    ensures
        final(out)@ == old(out)@ + seq![ESC, '['] + joined(Seq::empty()),
{
    proof {
        reveal_strlit("\u{1b}[");
    }
    assert("\u{1b}["@ =~= seq![ESC, '[']);
    out.append("\u{1b}[");
    assert(out@ =~= old(out)@ + seq![ESC, '['] + joined(Seq::empty()));
}

/// Appends the letter that ends a rendition sequence.
fn write_closing(out: &mut String)
    ensures
        final(out)@ == old(out)@ + seq!['m'],
{
    proof {
        reveal_strlit("m");
    }
    assert("m"@ =~= seq!['m']);
    out.append("m");
}

/// Appends the `;` that parts a parameter from the one before it, if there
/// is one before it.
fn write_separator(out: &mut String, has_updated: bool)
    ensures
        final(out)@ == old(out)@ + if has_updated {
            seq![';']
        } else {
            Seq::empty()
        },
{
    if has_updated {
        proof {
            reveal_strlit(";");
        }
        assert(";"@ =~= seq![';']);
        out.append(";");
    }
    assert(out@ =~= old(out)@ + if has_updated {
        seq![';']
    } else {
        Seq::<char>::empty()
    });
}

/// Appends the parameter of a colour slot that is set, as the next
/// parameter after the `written` ones, and does nothing for a slot that is
/// not set. Returns whether any parameter has been written by now.
fn write_colour(
    out: &mut String,
    has_updated: bool,
    slot: Option<Colour>,
    selector: &str,
    Ghost(start): Ghost<Seq<char>>,
    Ghost(written): Ghost<Seq<Seq<char>>>,
) -> (now_updated: bool)
    requires
        old(out)@ == start + joined(written),
        has_updated == (written.len() > 0),
    ensures
        final(out)@ == start + joined(written + colour_params(selector@, slot)),
        now_updated == ((written + colour_params(selector@, slot)).len() > 0),
{
    if let Some(colour) = slot {
        write_separator(out, has_updated);
        write_colour_param(out, selector, colour);
        proof {
            let param = colour_param(selector@, colour);
            lemma_joined_push(written, param);
            assert(written + colour_params(selector@, slot) =~= written.push(param));
            assert(out@ =~= start + joined(written.push(param)));
        }
        true
    } else {
        assert(written + colour_params(selector@, slot) =~= written);
        has_updated
    }
}

/// Appends the code of an attribute that is set, as the next parameter
/// after the `written` ones, and does nothing for one that is not set.
/// Returns whether any parameter has been written by now.
fn write_attribute(
    out: &mut String,
    has_updated: bool,
    flag: bool,
    code: &str,
    Ghost(start): Ghost<Seq<char>>,
    Ghost(written): Ghost<Seq<Seq<char>>>,
) -> (now_updated: bool)
    requires
        code@.len() == 1,
        old(out)@ == start + joined(written),
        has_updated == (written.len() > 0),
    ensures
        final(out)@ == start + joined(written + attribute_params(flag, code@[0])),
        now_updated == ((written + attribute_params(flag, code@[0])).len() > 0),
{
    if flag {
        write_separator(out, has_updated);
        out.append(code);
        proof {
            lemma_joined_push(written, code@);
            assert(code@ =~= seq![code@[0]]);
            assert(written + attribute_params(flag, code@[0]) =~= written.push(code@));
            assert(out@ =~= start + joined(written.push(code@)));
        }
        true
    } else {
        assert(written + attribute_params(flag, code@[0]) =~= written);
        has_updated
    }
}

impl<T> ColouredString<T> {
    /// Appends the escape sequence that switches this value's style on:
    /// `ESC [`, the style's parameters with `;` between them, and `m`.
    pub fn write_ansi(&self, out: &mut String)
        ensures
            final(out)@ == old(out)@ + self@.style.opening(),
    {
        let style = self.style;
        // The text that every parameter follows, and the parameters that
        // have been dealt with after each step.
        let ghost start = old(out)@ + seq![ESC, '['];
        let ghost none = Seq::<Seq<char>>::empty();
        let ghost fg = colour_params(seq!['3', '8'], style.fg_colour);
        let ghost bg = fg + colour_params(seq!['4', '8'], style.bg_colour);
        let ghost bold = bg + attribute_params(style.is_bold, '1');
        let ghost dim = bold + attribute_params(style.is_dim, '2');
        let ghost italic = dim + attribute_params(style.is_italic, '3');
        let ghost underline = italic + attribute_params(style.is_underline, '4');
        let ghost blinking = underline + attribute_params(style.is_blinking, '5');
        let ghost inverse = blinking + attribute_params(style.is_inverse, '7');
        let ghost hidden = inverse + attribute_params(style.is_hidden, '8');
        proof {
            reveal_strlit("38");
            reveal_strlit("48");
            reveal_strlit("1");
            reveal_strlit("2");
            reveal_strlit("3");
            reveal_strlit("4");
            reveal_strlit("5");
            reveal_strlit("7");
            reveal_strlit("8");
            reveal_strlit("9");
            assert("38"@ =~= seq!['3', '8']);
            assert("48"@ =~= seq!['4', '8']);
            assert(none + fg =~= fg);
        }

        write_opening(out);
        let mut has_updated = false;
        has_updated = write_colour(out, has_updated, style.fg_colour, "38", Ghost(start), Ghost(none));
        has_updated = write_colour(out, has_updated, style.bg_colour, "48", Ghost(start), Ghost(fg));
        has_updated = write_attribute(out, has_updated, style.is_bold, "1", Ghost(start), Ghost(bg));
        has_updated = write_attribute(out, has_updated, style.is_dim, "2", Ghost(start), Ghost(bold));
        has_updated = write_attribute(out, has_updated, style.is_italic, "3", Ghost(start), Ghost(dim));
        has_updated =
            write_attribute(out, has_updated, style.is_underline, "4", Ghost(start), Ghost(italic));
        has_updated =
            write_attribute(out, has_updated, style.is_blinking, "5", Ghost(start), Ghost(underline));
        has_updated =
            write_attribute(out, has_updated, style.is_inverse, "7", Ghost(start), Ghost(blinking));
        has_updated =
            write_attribute(out, has_updated, style.is_hidden, "8", Ghost(start), Ghost(inverse));
        write_attribute(out, has_updated, style.is_strikethrough, "9", Ghost(start), Ghost(hidden));
        write_closing(out);
        proof {
            lemma_framed(old(out)@, style.params());
        }
    }

    /// This value, whose text is `text`, as it is to be written under the
    /// given capabilities: the text alone, or the text between the opening
    /// sequence of the style and the reset sequence.
    pub fn render(&self, text: &str, caps: Capabilities) -> (out: String)
        ensures
            out@ == self@.style.rendered(text@, caps),
    {
        if !caps.emits_ansi() {
            return text.to_owned();
        }
        let mut out = String::new();
        self.write_ansi(&mut out);
        out.append(text);
        write_reset(&mut out);
        assert(out@ =~= self@.style.opening() + text@ + reset());
        out
    }
}

/// The display form of a value, as `write!` gives it for `{}` into a fresh
/// `String`, or nothing where the `Display` impl of the value reports an
/// error.
///
/// Nothing is claimed of the text, nor of when there is one: both are up to
/// the `Display` impl of the value.
#[verifier::external_body]
fn display_text<T: core::fmt::Display>(value: &T) -> Option<String> {
    let mut text = String::new();
    match write!(text, "{}", value) {
        Ok(()) => Some(text),
        Err(_) => None,
    }
}

/// The debug form of a value, as `write!` gives it for `{:?}` into a fresh
/// `String`, or nothing where the `Debug` impl of the value reports an
/// error.
///
/// Nothing is claimed of the text, nor of when there is one: both are up to
/// the `Debug` impl of the value.
#[verifier::external_body]
fn debug_text<T: core::fmt::Debug>(value: &T) -> Option<String> {
    let mut text = String::new();
    match write!(text, "{:?}", value) {
        Ok(()) => Some(text),
        Err(_) => None,
    }
}

impl<T: core::fmt::Display> ColouredString<T> {
    /// The display form of the wrapped value, rendered in its style under
    /// the given capabilities. There is none where the value fails to
    /// write its display form.
    pub fn display(&self, caps: Capabilities) -> (out: Option<String>)
        ensures
            out matches Some(shown) ==> exists|text: Seq<char>|
                shown@ == #[trigger] self@.style.rendered(text, caps),
    {
        match display_text(&self.string) {
            Some(text) => Some(self.render(text.as_str(), caps)),
            None => None,
        }
    }
}

impl<T: core::fmt::Debug> ColouredString<T> {
    /// The debug form of the wrapped value, rendered in its style under
    /// the given capabilities. There is none where the value fails to
    /// write its debug form.
    pub fn debug(&self, caps: Capabilities) -> (out: Option<String>)
        ensures
            out matches Some(shown) ==> exists|text: Seq<char>|
                shown@ == #[trigger] self@.style.rendered(text, caps),
    {
        match debug_text(&self.string) {
            Some(text) => Some(self.render(text.as_str(), caps)),
            None => None,
        }
    }
}

} // verus!
