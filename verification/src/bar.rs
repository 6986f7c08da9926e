//! The bar: one run of coloured cells per entry, as wide as its share.

use crate::color::Color;
use crate::entry::{
    lemma_at_most_seven_entries, lemma_reduction_keeps_the_total, reduced, shares, sum_of_shares,
    total, LanguageWithPercentage, RenderEntry, Share, VISIBLE_LANGUAGES,
};
use crate::paint::{paint_on, painted_on};
use crate::text::{blank_text, blanks};
use vstd::prelude::*;

verus! {

/// The width of a bar that shows the whole, in cells.
pub const LANGUAGES_BAR_LENGTH: usize = 26;

/// How many thousandths of a percent make the whole.
pub const WHOLE: u32 = 100_000;

/// The width of the segment for a share of `thousandths`: the share's part
/// of the full width, rounded to the nearest cell with halves rounded up,
/// and never less than one cell.
pub open spec fn segment_width(thousandths: nat) -> nat {
    let cells = (thousandths * LANGUAGES_BAR_LENGTH as nat + WHOLE as nat / 2) / (WHOLE as nat);
    if cells < 1 {
        1
    } else {
        cells
    }
}

/// The segment of one entry: blanks on cells of its colour.
pub open spec fn segment(share: Share) -> Seq<char> {
    painted_on(blanks(segment_width(share.thousandths)), share.color)
}

/// The bar for `entries`: their segments, in order.
pub open spec fn bar(entries: Seq<Share>) -> Seq<char>
    decreases entries.len(),
{
    if entries.len() == 0 {
        Seq::empty()
    } else {
        bar(entries.drop_last()) + segment(entries.last())
    }
}

/// The width of the bar for `entries`, in cells.
pub open spec fn bar_cells(entries: Seq<Share>) -> nat
    decreases entries.len(),
{
    if entries.len() == 0 {
        0
    } else {
        bar_cells(entries.drop_last()) + segment_width(entries.last().thousandths)
    }
}

/// Computes the width of the segment for a share of `thousandths`.
pub fn bar_width(thousandths: u128) -> (width: u128)
    ensures
        width == segment_width(thousandths as nat),
        width >= 1,
{
    let wholes: u128 = thousandths / (WHOLE as u128);
    let rest: u128 = thousandths % (WHOLE as u128);
    assert(wholes == thousandths / 100_000 && rest == thousandths % 100_000);
    let cells: u128 = wholes * (LANGUAGES_BAR_LENGTH as u128) + (rest * (LANGUAGES_BAR_LENGTH as u128)
        + (WHOLE as u128) / 2) / (WHOLE as u128);
    assert(cells == (thousandths * 26 + 50_000) / 100_000) by {
        assert((rest * 26 + 50_000) / 100_000 == (rest * 26 + 50_000) as int / 100_000);
        assert(thousandths * 26 + 50_000 == (wholes * 26) * 100_000 + (rest * 26 + 50_000));
    }
    if cells < 1 {
        1
    } else {
        cells
    }
}

/// Draws the segment of one entry.
pub fn bar_segment(percentage: u128, color: Color) -> (text: String)
    ensures
        text@ == painted_on(blanks(segment_width(percentage as nat)), color),
{
    let cells = blank_text(bar_width(percentage));
    paint_on(cells.as_str(), color)
}

/// Draws the bar for `entries`.
pub fn language_bar(entries: &Vec<RenderEntry>) -> (text: String)
    ensures
        text@ == bar(shares(entries@)),
{
    let mut text = String::new();
    let mut drawn: usize = 0;
    assert(shares(entries@).take(0) =~= Seq::<Share>::empty());
    while drawn < entries.len()
        invariant
            drawn <= entries.len(),
            text@ == bar(shares(entries@).take(drawn as int)),
        decreases entries.len() - drawn,
    {
        let entry = &entries[drawn];
        let piece = bar_segment(entry.percentage, entry.color);
        text.append(piece.as_str());
        proof {
            let grown = shares(entries@).take(drawn + 1);
            assert(grown.drop_last() =~= shares(entries@).take(drawn as int));
            assert(grown.last() == entries@[drawn as int]@);
        }
        drawn = drawn + 1;
    }
    assert(shares(entries@).take(drawn as int) =~= shares(entries@));
    text
}

/// The width is the nearest whole number of cells to the share's part of
/// the full width, a half going up, unless that is no cell at all: with
/// `width` cells, twice the distance between `width` wholes and the share
/// times the full width is at most one whole.
pub proof fn lemma_segment_width_is_nearest(thousandths: nat)
    ensures
        ({
            let width = segment_width(thousandths);
            let exact = thousandths * LANGUAGES_BAR_LENGTH as nat;
            if 2 * exact < WHOLE as nat {
                width == 1
            } else {
                2 * width * WHOLE as nat - WHOLE as nat <= 2 * exact < 2 * width * WHOLE as nat
                    + WHOLE as nat
            }
        }),
{
    let exact = thousandths * 26;
    assert(exact == thousandths * LANGUAGES_BAR_LENGTH as nat);
    let cells = (exact + 50_000) / 100_000;
    assert(cells == (thousandths * LANGUAGES_BAR_LENGTH as nat + WHOLE as nat / 2) / (WHOLE as nat));
    assert(cells * 100_000 <= exact + 50_000 < cells * 100_000 + 100_000);
}

/// The bar of two runs of entries, one after the other, is the bar of the
/// first followed by the bar of the second: segments keep the order of their
/// entries.
pub proof fn lemma_bar_is_additive(first: Seq<Share>, second: Seq<Share>)
    ensures
        bar(first + second) == bar(first) + bar(second),
    decreases second.len(),
{
    if second.len() == 0 {
        assert(first + second =~= first);
        assert(bar(first) + bar(second) =~= bar(first));
    } else {
        lemma_bar_is_additive(first, second.drop_last());
        assert((first + second).drop_last() =~= first + second.drop_last());
        assert((first + second).last() == second.last());
        assert(bar(first + second) =~= bar(first) + bar(second));
    }
}

/// Rounding and the least width add at most one cell for each entry to
/// what the shares themselves take of the bar.
pub proof fn lemma_bar_cells_bound(entries: Seq<Share>)
    ensures
        bar_cells(entries) * WHOLE as nat <= sum_of_shares(entries) * LANGUAGES_BAR_LENGTH as nat
            + entries.len() * WHOLE as nat,
    decreases entries.len(),
{
    if entries.len() > 0 {
        lemma_bar_cells_bound(entries.drop_last());
        let share = entries.last().thousandths;
        let width = segment_width(share);
        let cells = (share * 26 + 50_000) / 100_000;
        assert(cells == (share * LANGUAGES_BAR_LENGTH as nat + WHOLE as nat / 2) / (WHOLE as nat));
        assert(cells * 100_000 <= share * 26 + 50_000);
        assert(width * 100_000 <= share * 26 + 100_000);
    }
}

/// Where the detected shares add up to the whole at most, as they should,
/// the bar is longer than its nominal width by seven cells at most: one for
/// each entry.
pub proof fn lemma_bar_is_hardly_longer(languages: Seq<LanguageWithPercentage>, true_color: bool)
    requires
        total(languages) <= WHOLE,
    ensures
        bar_cells(reduced(languages, true_color)) <= LANGUAGES_BAR_LENGTH + VISIBLE_LANGUAGES + 1,
{
    let entries = reduced(languages, true_color);
    lemma_reduction_keeps_the_total(languages, true_color);
    lemma_at_most_seven_entries(languages, true_color);
    lemma_bar_cells_bound(entries);
    assert(bar_cells(entries) * 100_000 <= 100_000 * 26 + 7 * 100_000) by {
        assert(sum_of_shares(entries) * 26 <= 100_000 * 26);
        assert(entries.len() * 100_000 <= 7 * 100_000);
    }
}

/// Every segment is at least one cell wide, however small the share.
pub proof fn lemma_segment_is_visible(thousandths: nat)
    ensures
        segment_width(thousandths) >= 1,
{
}

} // verus!
