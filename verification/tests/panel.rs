use languages_info::bar::LANGUAGES_BAR_LENGTH;
use languages_info::info::panel_title;
use languages_info::{AnsiColor, Color, Language, LanguageWithPercentage, LanguagesInfo};
use owo_colors::{AnsiColors, DynColors, OwoColorize};

fn panel(languages: Vec<(Language, u32)>, true_color: bool) -> LanguagesInfo {
    LanguagesInfo::new(languages, true_color, Color::Ansi(AnsiColor::White))
}

#[test]
fn test_display_languages_info() {
    let languages_info = LanguagesInfo {
        languages_with_percentage: vec![LanguageWithPercentage {
            language: Language::Go,
            percentage: 100_000,
        }],
        true_color: false,
        info_color: Color::Ansi(AnsiColor::White),
    };
    let expected_languages_info = format!(
        "{:<width$}\n{:<pad$}{} {} ",
        "".on_color(DynColors::Ansi(AnsiColors::Red)),
        "",
        "\u{25CF}".color(DynColors::Ansi(AnsiColors::Red)),
        "Go (100.0 %)".color(DynColors::Ansi(AnsiColors::White)),
        width = LANGUAGES_BAR_LENGTH,
        pad = "Language".len() + 2
    );

    assert_eq!(languages_info.value(), expected_languages_info);
}

#[test]
fn one_language_fills_the_bar_in_the_first_palette_color() {
    let info = panel(vec![(Language::Go, 100_000)], false);
    assert_eq!(info.title(), "Language");
    let expected = format!(
        "\u{1b}[41m{}\u{1b}[49m\n{}\u{1b}[31m\u{25CF}\u{1b}[39m \u{1b}[37mGo (100.0 %)\u{1b}[39m ",
        " ".repeat(26),
        " ".repeat(10),
    );
    assert_eq!(info.value(), expected);
}

#[test]
fn new_keeps_pairs_order_and_settings() {
    let info = LanguagesInfo::new(
        vec![(Language::Rust, 60_000), (Language::C, 40_000)],
        true,
        Color::Rgb(1, 2, 3),
    );
    assert_eq!(
        info.languages_with_percentage,
        vec![
            LanguageWithPercentage { language: Language::Rust, percentage: 60_000 },
            LanguageWithPercentage { language: Language::C, percentage: 40_000 },
        ]
    );
    assert!(info.true_color);
    assert_eq!(info.info_color, Color::Rgb(1, 2, 3));
}

#[test]
fn title_is_singular_for_one_language_only() {
    assert_eq!(panel(vec![], false).title(), "Languages");
    assert_eq!(panel(vec![(Language::Go, 100_000)], false).title(), "Language");
    assert_eq!(
        panel(vec![(Language::Go, 50_000), (Language::C, 50_000)], false).title(),
        "Languages"
    );
    let eight = vec![(Language::Go, 12_500); 8];
    assert_eq!(panel(eight, false).title(), "Languages");
}

#[test]
fn no_languages_draw_nothing() {
    assert_eq!(panel(vec![], false).value(), "");
    assert_eq!(panel(vec![], true).value(), "");
}

#[test]
fn two_languages_share_one_legend_line() {
    let info = panel(vec![(Language::Rust, 75_000), (Language::Shell, 25_000)], false);
    let expected = format!(
        "{}{}\n{}{} {} {} {}",
        " ".repeat(20).on_color(DynColors::Ansi(AnsiColors::Red)),
        " ".repeat(7).on_color(DynColors::Ansi(AnsiColors::Green)),
        " ".repeat(11),
        "\u{25CF}".color(DynColors::Ansi(AnsiColors::Red)),
        "Rust (75.0 %)".color(DynColors::Ansi(AnsiColors::White)),
        "\u{25CF}".color(DynColors::Ansi(AnsiColors::Green)),
        "Shell (25.0 %)".color(DynColors::Ansi(AnsiColors::White)),
    );
    assert_eq!(info.value(), expected);
}

#[test]
fn three_languages_leave_a_blank_after_the_last_fragment() {
    let info = panel(
        vec![(Language::Rust, 50_000), (Language::C, 30_000), (Language::Lua, 20_000)],
        false,
    );
    let text = info.value();
    let lines: Vec<&str> = text.split('\n').collect();
    assert_eq!(lines.len(), 3);
    assert!(lines[1].starts_with(&" ".repeat(11)));
    assert!(lines[1].ends_with("C (30.0 %)\u{1b}[39m"));
    assert!(lines[2].starts_with(&" ".repeat(11)));
    assert!(lines[2].ends_with("Lua (20.0 %)\u{1b}[39m "));
}

#[test]
fn true_color_uses_the_reference_colors() {
    let info = panel(vec![(Language::Go, 100_000)], true);
    let expected = format!(
        "{:<width$}\n{:<pad$}{} {} ",
        "".on_color(DynColors::Rgb(0, 173, 216)),
        "",
        "\u{25CF}".color(DynColors::Rgb(0, 173, 216)),
        "Go (100.0 %)".color(DynColors::Ansi(AnsiColors::White)),
        width = 26,
        pad = 10
    );
    assert_eq!(info.value(), expected);
}

#[test]
fn accent_color_paints_the_captions() {
    let info = LanguagesInfo::new(vec![(Language::Zig, 100_000)], false, Color::Rgb(10, 200, 30));
    let text = info.value();
    assert!(text.ends_with("\u{1b}[38;2;10;200;30mZig (100.0 %)\u{1b}[39m "));
}

#[test]
fn many_small_shares_make_the_bar_longer_than_its_nominal_width() {
    let mut languages = vec![(Language::Rust, 99_000)];
    for _ in 0..5 {
        languages.push((Language::C, 10));
    }
    languages.push((Language::Go, 475));
    languages.push((Language::Lua, 475));
    let text = panel(languages, false).value();
    let bar = text.split('\n').next().unwrap();
    let cells = bar.chars().filter(|c| *c == ' ').count();
    assert_eq!(cells, 26 + 5 + 1);
}

#[test]
fn drawing_twice_gives_the_same_text() {
    let languages = vec![
        (Language::Rust, 40_000),
        (Language::Python, 30_000),
        (Language::Shell, 20_000),
        (Language::Html, 10_000),
    ];
    let info = panel(languages, true);
    let first = info.value();
    let second = info.value();
    assert_eq!(first, second);
    assert_eq!(first.as_bytes(), second.as_bytes());
}

#[test]
fn panel_title_goes_by_the_count() {
    assert_eq!(panel_title(0), "Languages");
    assert_eq!(panel_title(1), "Language");
    assert_eq!(panel_title(2), "Languages");
    assert_eq!(panel_title(7), "Languages");
}
