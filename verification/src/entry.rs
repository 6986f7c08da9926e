//! From the detected languages to the entries that are drawn.
//!
//! At most six languages are shown by name, in the order in which they were
//! detected. Whatever follows them is gathered into one entry, "Other",
//! whose share is the sum of theirs.

use crate::color::{neutral, neutral_color, palette, palette_color, Color, PALETTE_SIZE};
use crate::language::Language;
use vstd::prelude::*;

verus! {

/// How many languages are shown by name.
pub const VISIBLE_LANGUAGES: usize = 6;

/// A detected language and its share of the repository.
///
/// The share is counted in thousandths of a percent: `12_500` is 12.5 %,
/// `100_000` is the whole. Nothing checks that a share is at most the whole,
/// nor that the shares of a repository add up to it.
#[derive(Clone, Copy, Debug, PartialEq, Eq, Structural)]
pub struct LanguageWithPercentage {
    pub language: Language,
    pub percentage: u32,
}

/// One entry of the drawing: a label, a share in thousandths of a percent,
/// and the colour of its bar segment and its marker.
///
/// The share is wide enough for the sum of any number of detected shares.
#[derive(Debug)]
pub struct RenderEntry {
    pub label: String,
    pub percentage: u128,
    pub color: Color,
}

/// What a `RenderEntry` stands for.
pub struct Share {
    pub label: Seq<char>,
    pub thousandths: nat,
    pub color: Color,
}

impl View for RenderEntry {
    type V = Share;

    open spec fn view(&self) -> Share {
        Share { label: self.label@, thousandths: self.percentage as nat, color: self.color }
    }
}

/// The shares that a sequence of entries stands for.
pub open spec fn shares(entries: Seq<RenderEntry>) -> Seq<Share> {
    Seq::new(entries.len(), |i: int| entries[i]@)
}

/// The sum of the shares of `entries`.
pub open spec fn sum_of_shares(entries: Seq<Share>) -> nat
    decreases entries.len(),
{
    if entries.len() == 0 {
        0
    } else {
        sum_of_shares(entries.drop_last()) + entries.last().thousandths
    }
}

/// The label of the gathered entry.
pub open spec fn other_label() -> Seq<char> {
    "Other"@
}

/// The sum of the shares of `languages`.
pub open spec fn total(languages: Seq<LanguageWithPercentage>) -> nat
    decreases languages.len(),
{
    if languages.len() == 0 {
        0
    } else {
        total(languages.drop_last()) + languages.last().percentage as nat
    }
}

/// The colour of the language at `position`: its reference colour where
/// the terminal shows any colour, else the palette colour of its position.
pub open spec fn assigned_color(language: Language, position: int, true_color: bool) -> Color {
    if true_color {
        language.reference_color()
    } else {
        palette()[position % (PALETTE_SIZE as int)]
    }
}

/// The entry of a language that is shown by name at `position`.
pub open spec fn named(entry: LanguageWithPercentage, position: int, true_color: bool) -> Share {
    Share {
        label: entry.language.display_name(),
        thousandths: entry.percentage as nat,
        color: assigned_color(entry.language, position, true_color),
    }
}

/// The entry that gathers `languages`.
pub open spec fn gathered(languages: Seq<LanguageWithPercentage>) -> Share {
    Share { label: other_label(), thousandths: total(languages), color: neutral() }
}

/// The entries that are drawn for `languages`.
pub open spec fn reduced(languages: Seq<LanguageWithPercentage>, true_color: bool) -> Seq<Share> {
    if languages.len() <= VISIBLE_LANGUAGES {
        Seq::new(languages.len(), |i: int| named(languages[i], i, true_color))
    } else {
        Seq::new(VISIBLE_LANGUAGES as nat, |i: int| named(languages[i], i, true_color)).push(
            gathered(languages.skip(VISIBLE_LANGUAGES as int)),
        )
    }
}

/// The colour for the language at `position`.
pub fn assign_color(language: Language, position: usize, true_color: bool) -> (color: Color)
    ensures
        color == assigned_color(language, position as int, true_color),
{
    if true_color {
        language.get_circle_color()
    } else {
        palette_color(position)
    }
}

/// Adds up the shares of `languages` from `start` on.
pub fn sum_from(languages: &Vec<LanguageWithPercentage>, start: usize) -> (sum: u128)
    requires
        start <= languages.len(),
    ensures
        sum == total(languages@.skip(start as int)),
{
    let mut sum: u128 = 0;
    let mut next: usize = start;
    assert(languages@.subrange(start as int, start as int).len() == 0);
    while next < languages.len()
        invariant
            start <= next <= languages.len(),
            sum == total(languages@.subrange(start as int, next as int)),
            sum <= (next - start) * 0xffff_ffff,
        decreases languages.len() - next,
    {
        let ghost seen = languages@.subrange(start as int, next as int);
        let ghost grown = languages@.subrange(start as int, next + 1);
        assert(grown.drop_last() =~= seen);
        assert(grown.last() == languages@[next as int]);
        assert((next - start) * 0xffff_ffff + 0xffff_ffff <= 0xffff_ffff_ffff_ffff * 0x1_0000_0000)
            by (nonlinear_arith)
            requires
                0 <= next - start <= 0xffff_ffff_ffff_ffff,
        ;
        sum = sum + languages[next].percentage as u128;
        next = next + 1;
    }
    assert(languages@.subrange(start as int, next as int) =~= languages@.skip(start as int));
    sum
}

/// Chooses what is drawn: the first six languages under their names and
/// with their colours, and after them, if there are more than six, one entry
/// for all the others.
pub fn render_entries(languages: &Vec<LanguageWithPercentage>, true_color: bool) -> (entries: Vec<
    RenderEntry,
>)
    ensures
        shares(entries@) == reduced(languages@, true_color),
{
    let shown: usize = if languages.len() <= VISIBLE_LANGUAGES {
        languages.len()
    } else {
        VISIBLE_LANGUAGES
    };
    let mut entries: Vec<RenderEntry> = Vec::new();
    let mut position: usize = 0;
    while position < shown
        invariant
            position <= shown <= languages.len(),
            entries@.len() == position,
            forall|i: int|
                0 <= i < position ==> (#[trigger] entries@[i])@ == named(
                    languages@[i],
                    i,
                    true_color,
                ),
        decreases shown - position,
    {
        let entry = languages[position];
        entries.push(
            RenderEntry {
                label: String::from_str(entry.language.name()),
                percentage: entry.percentage as u128,
                color: assign_color(entry.language, position, true_color),
            },
        );
        position = position + 1;
    }
    if languages.len() > VISIBLE_LANGUAGES {
        entries.push(
            RenderEntry {
                label: String::from_str("Other"),
                percentage: sum_from(languages, VISIBLE_LANGUAGES),
                color: neutral_color(),
            },
        );
    }
    assert(shares(entries@) =~= reduced(languages@, true_color));
    entries
}

/// No language is shown under the label of the gathered entry.
pub proof fn lemma_no_language_is_called_other(language: Language)
    ensures
        language.display_name() != other_label(),
{
    reveal_strlit("Other");
    reveal_strlit("Assembly");
    reveal_strlit("C");
    reveal_strlit("Clojure");
    reveal_strlit("C++");
    reveal_strlit("C#");
    reveal_strlit("CSS");
    reveal_strlit("Dart");
    reveal_strlit("Elixir");
    reveal_strlit("Go");
    reveal_strlit("Haskell");
    reveal_strlit("HTML");
    reveal_strlit("Java");
    reveal_strlit("JavaScript");
    reveal_strlit("Kotlin");
    reveal_strlit("Lua");
    reveal_strlit("OCaml");
    reveal_strlit("Perl");
    reveal_strlit("PHP");
    reveal_strlit("Python");
    reveal_strlit("Ruby");
    reveal_strlit("Rust");
    reveal_strlit("Scala");
    reveal_strlit("Shell");
    reveal_strlit("Swift");
    reveal_strlit("TypeScript");
    reveal_strlit("Zig");
    let name = language.display_name();
    assert(name.len() != 5 || name[1] != 't');
    assert(other_label().len() == 5 && other_label()[1] == 't');
}

/// However many languages were detected, at most seven entries are drawn.
pub proof fn lemma_at_most_seven_entries(languages: Seq<LanguageWithPercentage>, true_color: bool)
    ensures
        reduced(languages, true_color).len() <= VISIBLE_LANGUAGES + 1,
        languages.len() == 0 ==> reduced(languages, true_color).len() == 0,
{
}

/// Up to six languages are all shown by name: there is one entry for each,
/// in the same order, with the language's name and share, and none of them
/// is the gathered entry.
pub proof fn lemma_few_languages_are_all_named(
    languages: Seq<LanguageWithPercentage>,
    true_color: bool,
)
    requires
        languages.len() <= VISIBLE_LANGUAGES,
    ensures
        reduced(languages, true_color).len() == languages.len(),
        forall|i: int|
            0 <= i < languages.len() ==> {
                let entry = #[trigger] reduced(languages, true_color)[i];
                &&& entry.label == languages[i].language.display_name()
                &&& entry.thousandths == languages[i].percentage
                &&& entry.label != other_label()
            },
{
    assert forall|i: int| 0 <= i < languages.len() implies {
        let entry = #[trigger] reduced(languages, true_color)[i];
        &&& entry.label == languages[i].language.display_name()
        &&& entry.thousandths == languages[i].percentage
        &&& entry.label != other_label()
    } by {
        lemma_no_language_is_called_other(languages[i].language);
    }
}

/// More than six languages give seven entries: the first six languages by
/// name, in order, and then the gathered entry, whose share is the sum of
/// the shares of all languages after the sixth.
pub proof fn lemma_many_languages_are_gathered(
    languages: Seq<LanguageWithPercentage>,
    true_color: bool,
)
    requires
        languages.len() > VISIBLE_LANGUAGES,
    ensures
        reduced(languages, true_color).len() == VISIBLE_LANGUAGES + 1,
        forall|i: int|
            0 <= i < VISIBLE_LANGUAGES ==> {
                let entry = #[trigger] reduced(languages, true_color)[i];
                &&& entry.label == languages[i].language.display_name()
                &&& entry.thousandths == languages[i].percentage
            },
        reduced(languages, true_color)[VISIBLE_LANGUAGES as int].label == other_label(),
        reduced(languages, true_color)[VISIBLE_LANGUAGES as int].thousandths == total(
            languages.skip(VISIBLE_LANGUAGES as int),
        ),
{
}

/// Without true colour the entry at position `k` among those shown by name
/// has the palette colour `k` modulo the size of the palette.
pub proof fn lemma_fallback_colors_follow_the_palette(
    languages: Seq<LanguageWithPercentage>,
    k: int,
)
    requires
        0 <= k < languages.len(),
        k < VISIBLE_LANGUAGES,
    ensures
        reduced(languages, false)[k].color == palette()[k % (PALETTE_SIZE as int)],
{
}

/// The gathered entry has the neutral colour, with true colour and without.
pub proof fn lemma_gathered_entry_is_neutral(
    languages: Seq<LanguageWithPercentage>,
    true_color: bool,
)
    requires
        languages.len() > VISIBLE_LANGUAGES,
    ensures
        reduced(languages, true_color).last().color == neutral(),
{
}

/// The entries that name the first `count` languages have the shares of
/// those languages.
proof fn lemma_named_keep_their_shares(
    languages: Seq<LanguageWithPercentage>,
    true_color: bool,
    count: nat,
)
    requires
        count <= languages.len(),
    ensures
        sum_of_shares(Seq::new(count, |i: int| named(languages[i], i, true_color))) == total(
            languages.take(count as int),
        ),
    decreases count,
{
    let entries = Seq::new(count, |i: int| named(languages[i], i, true_color));
    if count > 0 {
        let fewer = (count - 1) as nat;
        lemma_named_keep_their_shares(languages, true_color, fewer);
        assert(entries.drop_last() =~= Seq::new(fewer, |i: int| named(languages[i], i, true_color)));
        assert(languages.take(count as int).drop_last() =~= languages.take(fewer as int));
    }
}

/// Nothing is lost on the way to the entries: their shares add up to the
/// shares of all detected languages.
pub proof fn lemma_reduction_keeps_the_total(
    languages: Seq<LanguageWithPercentage>,
    true_color: bool,
)
    ensures
        sum_of_shares(reduced(languages, true_color)) == total(languages),
{
    if languages.len() <= VISIBLE_LANGUAGES {
        lemma_named_keep_their_shares(languages, true_color, languages.len());
        assert(languages.take(languages.len() as int) =~= languages);
    } else {
        let shown = VISIBLE_LANGUAGES as nat;
        let entries = reduced(languages, true_color);
        lemma_named_keep_their_shares(languages, true_color, shown);
        assert(entries.drop_last() =~= Seq::new(
            shown,
            |i: int| named(languages[i], i, true_color),
        ));
        lemma_total_is_additive(languages.take(shown as int), languages.skip(shown as int));
        assert(languages.take(shown as int) + languages.skip(shown as int) =~= languages);
    }
}

/// The sum of the shares of two runs of languages, one after the other, is
/// the sum of the two sums: the share of the gathered entry does not depend
/// on how the languages behind it are grouped.
pub proof fn lemma_total_is_additive(
    first: Seq<LanguageWithPercentage>,
    second: Seq<LanguageWithPercentage>,
)
    ensures
        total(first + second) == total(first) + total(second),
    decreases second.len(),
{
    if second.len() == 0 {
        assert(first + second =~= first);
    } else {
        lemma_total_is_additive(first, second.drop_last());
        assert((first + second).drop_last() =~= first + second.drop_last());
        assert((first + second).last() == second.last());
    }
}

} // verus!
