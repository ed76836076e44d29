//! The style descriptor: two optional colours and eight attribute flags.

use vstd::prelude::*;

use vstd::string::StringExecFns;

use crate::ansi::{decimal, joined, reset, select_graphic_rendition, write_decimal, ESC};
use crate::colour::Colour;
use crate::metadata::Capabilities;

verus! {

/// Everything that can be said about how a piece of text is to look.
///
/// An absent colour leaves the terminal's default in place. Each attribute
/// flag is independent of the others.
#[derive(Clone, Copy, PartialEq, Debug)]
pub struct Style {
    pub fg_colour: Option<Colour>,
    pub bg_colour: Option<Colour>,
    pub is_bold: bool,
    pub is_dim: bool,
    pub is_italic: bool,
    pub is_underline: bool,
    pub is_blinking: bool,
    pub is_inverse: bool,
    pub is_hidden: bool,
    pub is_strikethrough: bool,
}

/// The parameter that selects a 24-bit colour: `selector;2;R;G;B`, where
/// the selector is `38` for the foreground and `48` for the background.
pub open spec fn colour_param(selector: Seq<char>, colour: Colour) -> Seq<char> {
    selector + seq![';', '2', ';'] + decimal(colour.r as nat) + seq![';'] + decimal(
        colour.g as nat,
    ) + seq![';'] + decimal(colour.b as nat)
}

/// Appends the parameter that selects `colour` in the slot named by
/// `selector`.
pub fn write_colour_param(out: &mut String, selector: &str, colour: Colour)
    ensures
        final(out)@ == old(out)@ + colour_param(selector@, colour),
{
    proof {
        reveal_strlit(";2;");
        reveal_strlit(";");
    }
    assert(";2;"@ =~= seq![';', '2', ';']);
    assert(";"@ =~= seq![';']);
    out.append(selector);
    out.append(";2;");
    write_decimal(out, colour.r);
    out.append(";");
    write_decimal(out, colour.g);
    out.append(";");
    write_decimal(out, colour.b);
    assert(out@ =~= old(out)@ + colour_param(selector@, colour));
}

/// The parameters that a colour slot contributes: one if it is set.
pub open spec fn colour_params(selector: Seq<char>, slot: Option<Colour>) -> Seq<Seq<char>> {
    match slot {
        Some(colour) => seq![colour_param(selector, colour)],
        None => Seq::empty(),
    }
}

/// The parameters that an attribute flag contributes: its code if it is set.
pub open spec fn attribute_params(flag: bool, code: char) -> Seq<Seq<char>> {
    if flag {
        seq![seq![code]]
    } else {
        Seq::empty()
    }
}

impl Style {
    /// The style that sets nothing.
    pub open spec fn empty() -> Style {
        Style {
            fg_colour: None,
            bg_colour: None,
            is_bold: false,
            is_dim: false,
            is_italic: false,
            is_underline: false,
            is_blinking: false,
            is_inverse: false,
            is_hidden: false,
            is_strikethrough: false,
        }
    }

    /// This style with the foreground colour replaced.
    pub open spec fn with_fg(self, colour: Colour) -> Style {
        Style { fg_colour: Some(colour), ..self }
    }

    /// This style with the background colour replaced.
    pub open spec fn with_bg(self, colour: Colour) -> Style {
        Style { bg_colour: Some(colour), ..self }
    }

    pub open spec fn bold(self) -> Style {
        Style { is_bold: true, ..self }
    }

    pub open spec fn dim(self) -> Style {
        Style { is_dim: true, ..self }
    }

    pub open spec fn italic(self) -> Style {
        Style { is_italic: true, ..self }
    }

    pub open spec fn underline(self) -> Style {
        Style { is_underline: true, ..self }
    }

    pub open spec fn blinking(self) -> Style {
        Style { is_blinking: true, ..self }
    }

    pub open spec fn inverse(self) -> Style {
        Style { is_inverse: true, ..self }
    }

    pub open spec fn hidden(self) -> Style {
        Style { is_hidden: true, ..self }
    }

    pub open spec fn strikethrough(self) -> Style {
        Style { is_strikethrough: true, ..self }
    }

    /// Every attribute that `earlier` has set is set here too.
    pub open spec fn keeps_attributes_of(self, earlier: Style) -> bool {
        &&& earlier.is_bold ==> self.is_bold
        &&& earlier.is_dim ==> self.is_dim
        &&& earlier.is_italic ==> self.is_italic
        &&& earlier.is_underline ==> self.is_underline
        &&& earlier.is_blinking ==> self.is_blinking
        &&& earlier.is_inverse ==> self.is_inverse
        &&& earlier.is_hidden ==> self.is_hidden
        &&& earlier.is_strikethrough ==> self.is_strikethrough
    }

    /// The rendition parameters of this style, in the order in which they
    /// are written: foreground, background, then the attributes by rising
    /// code.
    pub open spec fn params(self) -> Seq<Seq<char>> {
        colour_params(seq!['3', '8'], self.fg_colour) + colour_params(
            seq!['4', '8'],
            self.bg_colour,
        ) + attribute_params(self.is_bold, '1') + attribute_params(self.is_dim, '2')
            + attribute_params(self.is_italic, '3') + attribute_params(self.is_underline, '4')
            + attribute_params(self.is_blinking, '5') + attribute_params(self.is_inverse, '7')
            + attribute_params(self.is_hidden, '8') + attribute_params(
            self.is_strikethrough,
            '9',
        )
    }

    /// The escape sequence that switches this style on. For the empty
    /// style that is the sequence with no parameter at all.
    pub open spec fn opening(self) -> Seq<char> {
        select_graphic_rendition(self.params())
    }

    /// What is written for `text` in this style under the given
    /// capabilities: the text alone where escape sequences are not to be
    /// written, and otherwise the text between the opening sequence of the
    /// style and the reset sequence.
    pub open spec fn rendered(self, text: Seq<char>, caps: Capabilities) -> Seq<char> {
        if caps.ansi_enabled() {
            self.opening() + text + reset()
        } else {
            text
        }
    }
}

/// Where escape sequences are not to be written, a value with nothing set
/// in its style is rendered as the value alone.
pub proof fn lemma_unstyled_is_plain(text: Seq<char>, caps: Capabilities)
    requires
        !caps.ansi_enabled(),
    ensures
        Style::empty().rendered(text, caps) == text,
{
}

/// Where colour is turned off, or is not forced and there is no terminal,
/// the rendering is the text alone, whatever the style holds.
pub proof fn lemma_suppressed_is_plain(style: Style, text: Seq<char>, caps: Capabilities)
    requires
        caps.no_colour || !caps.is_terminal,
        !caps.force_colour,
    ensures
        style.rendered(text, caps) == text,
{
}

/// Where escape sequences are to be written, the rendering is `ESC [`, the
/// parameters of the style in their fixed order with `;` between them, `m`,
/// the text, and `ESC [ 0 m`.
pub proof fn lemma_enabled_is_framed(style: Style, text: Seq<char>, caps: Capabilities)
    requires
        caps.ansi_enabled(),
    ensures
        style.rendered(text, caps) == seq![ESC, '['] + joined(
            colour_params(seq!['3', '8'], style.fg_colour) + colour_params(
                seq!['4', '8'],
                style.bg_colour,
            ) + attribute_params(style.is_bold, '1') + attribute_params(style.is_dim, '2')
                + attribute_params(style.is_italic, '3') + attribute_params(
                style.is_underline,
                '4',
            ) + attribute_params(style.is_blinking, '5') + attribute_params(style.is_inverse, '7')
                + attribute_params(style.is_hidden, '8') + attribute_params(
                style.is_strikethrough,
                '9',
            ),
        ) + seq!['m'] + text + seq![ESC, '[', '0', 'm'],
{
}

/// With nothing set, the opening sequence has no parameter: it is `ESC [ m`.
pub proof fn lemma_empty_opening()
    ensures
        Style::empty().opening() == seq![ESC, '[', 'm'],
{
    assert(Style::empty().params() =~= Seq::<Seq<char>>::empty());
    assert(Style::empty().opening() =~= seq![ESC, '[', 'm']);
}

/// Setting an attribute that is set already changes nothing.
pub proof fn lemma_attributes_idempotent(style: Style)
    ensures
        style.bold().bold() == style.bold(),
        style.dim().dim() == style.dim(),
        style.italic().italic() == style.italic(),
        style.underline().underline() == style.underline(),
        style.blinking().blinking() == style.blinking(),
        style.inverse().inverse() == style.inverse(),
        style.hidden().hidden() == style.hidden(),
        style.strikethrough().strikethrough() == style.strikethrough(),
{
}

/// Of two colours set one after the other in the same slot, only the later
/// one is left.
pub proof fn lemma_colour_overwrites(style: Style, earlier: Colour, later: Colour)
    ensures
        style.with_fg(earlier).with_fg(later) == style.with_fg(later),
        style.with_bg(earlier).with_bg(later) == style.with_bg(later),
{
}

/// No builder step clears an attribute: whatever was set before it is set
/// after it.
pub proof fn lemma_attributes_are_kept(style: Style, colour: Colour)
    ensures
        style.with_fg(colour).keeps_attributes_of(style),
        style.with_bg(colour).keeps_attributes_of(style),
        style.bold().keeps_attributes_of(style),
        style.dim().keeps_attributes_of(style),
        style.italic().keeps_attributes_of(style),
        style.underline().keeps_attributes_of(style),
        style.blinking().keeps_attributes_of(style),
        style.inverse().keeps_attributes_of(style),
        style.hidden().keeps_attributes_of(style),
        style.strikethrough().keeps_attributes_of(style),
{
}

} // verus!
