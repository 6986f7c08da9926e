//! The panel itself: its title and its drawing.

use crate::bar::{bar, language_bar};
use crate::color::Color;
use crate::entry::{reduced, render_entries, LanguageWithPercentage};
use crate::language::Language;
use crate::legend::{legend, legend_text};
use vstd::prelude::*;

verus! {

/// The languages of a repository, ready to be shown.
///
/// `languages_with_percentage` holds them in the order in which they were
/// detected, `true_color` says whether the terminal shows any colour or
/// only the basic set, and `info_color` is the colour of the captions.
#[derive(Debug)]
pub struct LanguagesInfo {
    pub languages_with_percentage: Vec<LanguageWithPercentage>,
    pub true_color: bool,
    pub info_color: Color,
}

/// How far the legend stands in from the left, beyond the length of the
/// title.
pub const LEGEND_MARGIN: usize = 2;

/// The detected languages as entries of the panel, one for each pair and
/// in the same order.
pub open spec fn entries_of(pairs: Seq<(Language, u32)>) -> Seq<LanguageWithPercentage> {
    Seq::new(
        pairs.len(),
        |i: int| LanguageWithPercentage { language: pairs[i].0, percentage: pairs[i].1 },
    )
}

/// The title of a panel with `count` languages: singular for one language,
/// plural for none and for several.
pub open spec fn title_of(count: nat) -> Seq<char> {
    if count == 1 {
        "Language"@
    } else {
        "Languages"@
    }
}

/// Writes the title of a panel with `count` languages.
pub fn panel_title(count: usize) -> (title: String)
    ensures
        title@ == title_of(count as nat),
{
    if count == 1 {
        String::from_str("Language")
    } else {
        String::from_str("Languages")
    }
}

impl LanguagesInfo {
    /// The title of this panel.
    pub open spec fn title_text(&self) -> Seq<char> {
        title_of(self.languages_with_percentage@.len())
    }

    /// The drawing of this panel: the bar, then the legend, whose lines
    /// stand in by the length of the title and the margin.
    pub open spec fn rendering(&self) -> Seq<char> {
        let entries = reduced(self.languages_with_percentage@, self.true_color);
        bar(entries) + legend(
            entries,
            self.title_text().len() + LEGEND_MARGIN as nat,
            self.info_color,
        )
    }

    /// Makes a panel from the detected languages and their shares, in
    /// thousandths of a percent.
    pub fn new(languages: Vec<(Language, u32)>, true_color: bool, info_color: Color) -> (info: Self)
        ensures
            info.languages_with_percentage@ == entries_of(languages@),
            info.true_color == true_color,
            info.info_color == info_color,
    {
        let mut languages_with_percentage: Vec<LanguageWithPercentage> = Vec::new();
        let mut taken: usize = 0;
        while taken < languages.len()
            invariant
                taken <= languages.len(),
                languages_with_percentage@ == entries_of(languages@.take(taken as int)),
            decreases languages.len() - taken,
        {
            let (language, percentage) = languages[taken];
            languages_with_percentage.push(LanguageWithPercentage { language, percentage });
            taken = taken + 1;
            assert(languages_with_percentage@ =~= entries_of(languages@.take(taken as int)));
        }
        assert(languages@.take(taken as int) =~= languages@);
        Self { languages_with_percentage, true_color, info_color }
    }

    /// The title of the panel.
    pub fn title(&self) -> (title: String)
        ensures
            title@ == self.title_text(),
    {
        panel_title(self.languages_with_percentage.len())
    }

    /// Draws the panel: one line for the bar, then the lines of the legend.
    pub fn value(&self) -> (text: String)
        ensures
            text@ == self.rendering(),
    {
        let title = self.title();
        proof {
            reveal_strlit("Language");
            reveal_strlit("Languages");
        }
        let pad: usize = title.as_str().unicode_len() + LEGEND_MARGIN;
        let entries = render_entries(&self.languages_with_percentage, self.true_color);
        let mut text = language_bar(&entries);
        let lines = legend_text(&entries, pad, self.info_color);
        text.append(lines.as_str());
        text
    }
}

/// The plural title is the singular one with an `s` after it.
pub proof fn lemma_plural_title(count: nat)
    ensures
        title_of(1) == "Language"@,
        count != 1 ==> title_of(count) == title_of(1).push('s'),
{
    reveal_strlit("Language");
    reveal_strlit("Languages");
    assert("Languages"@ =~= "Language"@.push('s'));
}

/// A panel without languages draws nothing: no bar and no legend.
pub proof fn lemma_nothing_to_draw(info: LanguagesInfo)
    requires
        info.languages_with_percentage@.len() == 0,
    ensures
        info.rendering() == Seq::<char>::empty(),
{
    let entries = reduced(info.languages_with_percentage@, info.true_color);
    assert(entries.len() == 0);
    assert(info.rendering() =~= Seq::<char>::empty());
}

/// Drawing a panel twice gives the same text: what `value` returns depends
/// on the panel alone.
pub proof fn lemma_value_is_repeatable(info: LanguagesInfo, first: String, second: String)
    requires
        first@ == info.rendering(),
        second@ == info.rendering(),
    ensures
        first@ == second@,
{
}

} // verus!
