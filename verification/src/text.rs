//! Building blocks for the texts that a lookup prints.

use vstd::prelude::*;
use vstd::string::*;

verus! {

/// Width of the title column of a report, in characters.
pub const MAX_TITLE_LENGTH: usize = 44;

/// A run of `n` blanks.
pub open spec fn blanks(n: nat) -> Seq<char> {
    Seq::new(n, |i: int| ' ')
}

/// A title filled up with blanks on the right to the width of the title
/// column; a title that is as wide or wider stays as it is.
pub open spec fn padded(title: Seq<char>) -> Seq<char> {
    if title.len() >= MAX_TITLE_LENGTH {
        title
    } else {
        title + blanks((MAX_TITLE_LENGTH - title.len()) as nat)
    }
}

/// Pads a title to the width of the title column.
pub fn pad_title(title: &str) -> (out: String)
    ensures
        out@ == padded(title@),
{
    let mut out = String::from_str(title);
    let mut width: usize = title.unicode_len();
    if width >= MAX_TITLE_LENGTH {
        return out;
    }
    proof {
        reveal_strlit(" ");
    }
    while width < MAX_TITLE_LENGTH
        invariant
            title@.len() <= width <= MAX_TITLE_LENGTH,
            " "@ == seq![' '],
            out@ == title@ + blanks((width - title@.len()) as nat),
        decreases MAX_TITLE_LENGTH - width,
    {
        out.append(" ");
        width = width + 1;
    }
    out
}

/// "Ja" for `true`, "Nei" for `false`.
pub open spec fn norwegian_bool(input: bool) -> Seq<char> {
    if input {
        "Ja"@
    } else {
        "Nei"@
    }
}

/// Yes or no, in Norwegian.
pub fn get_norwegian_bool(input: bool) -> (word: &'static str)
    ensures
        word@ == norwegian_bool(input),
{
    if input {
        "Ja"
    } else {
        "Nei"
    }
}

/// The ten digits, in their order.
pub open spec fn digits() -> Seq<char> {
    "0123456789"@
}

/// A number in decimal notation, without leading zeros.
pub open spec fn decimal(n: nat) -> Seq<char>
    decreases n,
{
    if n < 10 {
        seq![digits()[n as int]]
    } else {
        decimal(n / 10) + seq![digits()[(n % 10) as int]]
    }
}

/// Writes a number in decimal notation.
pub fn decimal_text(n: u16) -> (text: String)
    ensures
        text@ == decimal(n as nat),
    decreases n,
{
    proof {
        reveal_strlit("0123456789");
    }
    let last: usize = (n % 10) as usize;
    let digit = "0123456789".substring_char(last, last + 1);
    if n < 10 {
        String::from_str(digit)
    } else {
        let mut text = decimal_text(n / 10);
        text.append(digit);
        text
    }
}

} // verus!
