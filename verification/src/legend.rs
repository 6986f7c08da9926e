//! The legend: for each entry a coloured marker, its label and its share,
//! two entries to a line.

use crate::color::Color;
use crate::entry::{shares, RenderEntry, Share};
use crate::paint::{foreground_reset, paint, painted};
use crate::text::{
    blank_text, blanks, decimal, decimal_text, digit, digit_text, is_digit,
    lemma_decimal_is_digits,
};
use vstd::prelude::*;

verus! {

/// The marker in front of a label: a filled circle.
pub open spec fn marker() -> Seq<char> {
    "\u{25CF}"@
}

/// A share in tenths of a percent, rounded to the nearest tenth; a share
/// that lies halfway between two tenths goes to the even one.
pub open spec fn tenths(thousandths: nat) -> nat {
    let below = thousandths / 100;
    let rest = thousandths % 100;
    if rest > 50 || (rest == 50 && below % 2 == 1) {
        below + 1
    } else {
        below
    }
}

/// A share as text with one digit after the point: the whole percents, a
/// point, and the tenths.
pub open spec fn one_decimal(thousandths: nat) -> Seq<char> {
    decimal(tenths(thousandths) / 10) + seq!['.', digit(tenths(thousandths) % 10)]
}

/// What is written next to the marker: the label, and the share in
/// brackets.
pub open spec fn caption(share: Share) -> Seq<char> {
    share.label + " ("@ + one_decimal(share.thousandths) + " %)"@
}

/// The fragment of one entry: the marker in the entry's colour, a blank,
/// the caption in the accent colour, and a blank.
pub open spec fn fragment(share: Share, accent: Color) -> Seq<char> {
    painted(marker(), share.color) + seq![' '] + painted(caption(share), accent) + seq![' ']
}

/// Whether `c` is white space, as Unicode has it.
pub open spec fn is_white_space(c: char) -> bool {
    let code = c as u32;
    ||| 0x09 <= code <= 0x0d
    ||| code == 0x20
    ||| code == 0x85
    ||| code == 0xa0
    ||| code == 0x1680
    ||| 0x2000 <= code <= 0x200a
    ||| code == 0x2028
    ||| code == 0x2029
    ||| code == 0x202f
    ||| code == 0x205f
    ||| code == 0x3000
}

/// `text` without the white space at its end.
pub open spec fn trimmed(text: Seq<char>) -> Seq<char>
    decreases text.len(),
{
    if text.len() > 0 && is_white_space(text.last()) {
        trimmed(text.drop_last())
    } else {
        text
    }
}

/// The legend of `entries`. An entry at an even position opens a line: a
/// line break, `pad` blanks and its fragment. An entry at an odd position
/// closes the line: its fragment without the white space at its end.
pub open spec fn legend(entries: Seq<Share>, pad: nat, accent: Color) -> Seq<char>
    decreases entries.len(),
{
    if entries.len() == 0 {
        Seq::empty()
    } else {
        let before = legend(entries.drop_last(), pad, accent);
        let last = fragment(entries.last(), accent);
        if (entries.len() - 1) % 2 == 0 {
            before + seq!['\n'] + blanks(pad) + last
        } else {
            before + trimmed(last)
        }
    }
}

/// Rounds a share to tenths of a percent.
pub fn round_to_tenths(thousandths: u128) -> (rounded: u128)
    ensures
        rounded == tenths(thousandths as nat),
{
    let below: u128 = thousandths / 100;
    let rest: u128 = thousandths % 100;
    if rest > 50 || (rest == 50 && below % 2 == 1) {
        below + 1
    } else {
        below
    }
}

/// Writes a share with one digit after the point.
pub fn percentage_text(thousandths: u128) -> (text: String)
    ensures
        text@ == one_decimal(thousandths as nat),
{
    let rounded = round_to_tenths(thousandths);
    let mut text = decimal_text(rounded / 10);
    proof {
        reveal_strlit(".");
    }
    text.append(".");
    text.append(digit_text((rounded % 10) as u8));
    assert(text@ =~= one_decimal(thousandths as nat));
    text
}

/// Writes the fragment of one entry, up to the blank that ends it: what
/// stands at the end of a line.
pub fn legend_fragment(entry: &RenderEntry, accent: Color) -> (text: String)
    ensures
        text@.push(' ') == fragment(entry@, accent),
        text@ == trimmed(fragment(entry@, accent)),
{
    let mut words = entry.label.clone();
    words.append(" (");
    let number = percentage_text(entry.percentage);
    words.append(number.as_str());
    words.append(" %)");
    assert(words@ =~= caption(entry@));
    let mut text = paint("\u{25CF}", entry.color);
    proof {
        reveal_strlit(" ");
    }
    text.append(" ");
    let colored = paint(words.as_str(), accent);
    text.append(colored.as_str());
    proof {
        assert(text@.push(' ') =~= fragment(entry@, accent));
        lemma_trimmed_fragment(entry@, accent);
        assert(fragment(entry@, accent).drop_last() =~= text@);
    }
    text
}

/// Writes the legend of `entries`, each line `pad` blanks in from the left.
pub fn legend_text(entries: &Vec<RenderEntry>, pad: usize, accent: Color) -> (text: String)
    ensures
        text@ == legend(shares(entries@), pad as nat, accent),
{
    let mut text = String::new();
    let mut written: usize = 0;
    proof {
        reveal_strlit("\n");
        reveal_strlit(" ");
    }
    assert(shares(entries@).take(0) =~= Seq::<Share>::empty());
    while written < entries.len()
        invariant
            written <= entries.len(),
            text@ == legend(shares(entries@).take(written as int), pad as nat, accent),
            "\n"@ == seq!['\n'],
            " "@ == seq![' '],
        decreases entries.len() - written,
    {
        let piece = legend_fragment(&entries[written], accent);
        if written % 2 == 0 {
            let indent = blank_text(pad as u128);
            text.append("\n");
            text.append(indent.as_str());
            text.append(piece.as_str());
            text.append(" ");
        } else {
            text.append(piece.as_str());
        }
        proof {
            let grown = shares(entries@).take(written + 1);
            assert(grown.drop_last() =~= shares(entries@).take(written as int));
            assert(grown.last() == entries@[written as int]@);
            assert(grown.len() - 1 == written);
        }
        written = written + 1;
    }
    assert(shares(entries@).take(written as int) =~= shares(entries@));
    text
}

/// Rounding goes to the nearest tenth of a percent: the rounded share is
/// at most half a tenth away, and where it is exactly half a tenth away the
/// number of tenths is even.
pub proof fn lemma_tenths_is_nearest(thousandths: nat)
    ensures
        100 * tenths(thousandths) - 50 <= thousandths <= 100 * tenths(thousandths) + 50,
        (thousandths == 100 * tenths(thousandths) - 50 || thousandths == 100 * tenths(thousandths)
            + 50) ==> tenths(thousandths) % 2 == 0,
{
}

/// A share is always written with exactly one digit after the point, and
/// with at least one digit before it.
pub proof fn lemma_one_decimal_shape(thousandths: nat)
    ensures
        one_decimal(thousandths).len() >= 3,
        one_decimal(thousandths)[one_decimal(thousandths).len() - 2] == '.',
        forall|i: int|
            0 <= i < one_decimal(thousandths).len() && i != one_decimal(thousandths).len() - 2
                ==> is_digit(#[trigger] one_decimal(thousandths)[i]),
{
    let whole = decimal(tenths(thousandths) / 10);
    lemma_decimal_is_digits(tenths(thousandths) / 10);
    assert(is_digit(digit(tenths(thousandths) % 10)));
    assert forall|i: int|
        0 <= i < one_decimal(thousandths).len() && i != one_decimal(thousandths).len()
            - 2 implies is_digit(#[trigger] one_decimal(thousandths)[i]) by {
        if i < whole.len() {
            assert(one_decimal(thousandths)[i] == whole[i]);
        }
    }
}

/// Trimming a fragment takes exactly the blank at its end away: before
/// that blank stands the sequence that puts the default foreground back,
/// whose last character is no white space.
pub proof fn lemma_trimmed_fragment(share: Share, accent: Color)
    ensures
        trimmed(fragment(share, accent)) == fragment(share, accent).drop_last(),
        fragment(share, accent).last() == ' ',
        fragment(share, accent).drop_last().last() == 'm',
{
    reveal_strlit("\x1b[39m");
    let whole = fragment(share, accent);
    let kept = whole.drop_last();
    assert(kept =~= painted(marker(), share.color) + seq![' '] + painted(caption(share), accent));
    assert(kept.last() == foreground_reset().last());
    assert(is_white_space(' '));
    assert(!is_white_space('m'));
    assert(trimmed(kept) == kept);
}

} // verus!
