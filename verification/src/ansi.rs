//! The text of Select Graphic Rendition sequences: decimal numbers,
//! `;`-separated parameter lists and the framing around them.

use vstd::prelude::*;
use vstd::string::StringExecFns;

verus! {

/// The escape character that opens every control sequence.
pub const ESC: char = '\u{1b}';

/// The character that stands for the decimal digit `d`.
pub open spec fn digit(d: nat) -> char
    recommends
        d < 10,
{
    seq!['0', '1', '2', '3', '4', '5', '6', '7', '8', '9'][d as int]
}

/// The decimal numeral of `n`, without leading zeros.
pub open spec fn decimal(n: nat) -> Seq<char>
    decreases n,
{
    if n < 10 {
        seq![digit(n)]
    } else {
        decimal(n / 10).push(digit(n % 10))
    }
}

/// The parameters of a list, in order, with a `;` between neighbours.
pub open spec fn joined(params: Seq<Seq<char>>) -> Seq<char>
    decreases params.len(),
{
    if params.len() == 0 {
        Seq::empty()
    } else if params.len() == 1 {
        params[0]
    } else {
        joined(params.drop_last()) + seq![';'] + params.last()
    }
}

/// The sequence that switches the given rendition parameters on.
pub open spec fn select_graphic_rendition(params: Seq<Seq<char>>) -> Seq<char> {
    seq![ESC, '['] + joined(params) + seq!['m']
}

/// The sequence that switches every rendition attribute off again.
pub open spec fn reset() -> Seq<char> {
    seq![ESC, '[', '0', 'm']
}

/// Appends the sequence that switches every rendition attribute off again.
pub fn write_reset(out: &mut String)
    ensures
        final(out)@ == old(out)@ + reset(),
{
    proof {
        reveal_strlit("\u{1b}[0m");
    }
    assert("\u{1b}[0m"@ =~= reset());
    out.append("\u{1b}[0m");
}

/// Adding a parameter to a list adds it to the joined text, after a `;`
/// unless it is the first.
pub proof fn lemma_joined_push(params: Seq<Seq<char>>, param: Seq<char>)
    ensures
        joined(params.push(param)) == if params.len() == 0 {
            param
        } else {
            joined(params) + seq![';'] + param
        },
{
    let extended = params.push(param);
    assert(extended.drop_last() =~= params);
    assert(extended.last() == param);
}

/// The one-character text of a decimal digit.
fn digit_str(d: u8) -> (text: &'static str)
    requires
        d < 10,
    ensures
        text@ == seq![digit(d as nat)],
{
    proof {
        reveal_strlit("0");
        reveal_strlit("1");
        reveal_strlit("2");
        reveal_strlit("3");
        reveal_strlit("4");
        reveal_strlit("5");
        reveal_strlit("6");
        reveal_strlit("7");
        reveal_strlit("8");
        reveal_strlit("9");
    }
    let text = match d {
        0 => "0",
        1 => "1",
        2 => "2",
        3 => "3",
        4 => "4",
        5 => "5",
        6 => "6",
        7 => "7",
        8 => "8",
        _ => "9",
    };
    assert(text@ =~= seq![digit(d as nat)]);
    text
}

/// Appends the decimal numeral of `n`.
pub fn write_decimal(out: &mut String, n: u8)
    ensures
        final(out)@ == old(out)@ + decimal(n as nat),
{
    let hundreds: u8 = n / 100;
    let tens: u8 = (n / 10) % 10;
    let units: u8 = n % 10;
    if n >= 100 {
        out.append(digit_str(hundreds));
    }
    if n >= 10 {
        out.append(digit_str(tens));
    }
    out.append(digit_str(units));
    proof {
        let n: nat = n as nat;
        if n >= 100 {
            assert(decimal(n / 100) =~= seq![digit(n / 100)]);
            assert(decimal(n / 10) =~= seq![digit(n / 100), digit((n / 10) % 10)]);
            assert(decimal(n) =~= seq![digit(n / 100), digit((n / 10) % 10), digit(n % 10)]);
        } else if n >= 10 {
            assert(decimal(n / 10) =~= seq![digit(n / 10)]);
            assert(decimal(n) =~= seq![digit(n / 10), digit(n % 10)]);
        }
        assert(out@ =~= old(out)@ + decimal(n));
    }
}

} // verus!
