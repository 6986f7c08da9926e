//! The languages that the panel knows, each with its display name and its
//! reference colour.

use crate::color::Color;
use vstd::prelude::*;

verus! {

/// A programming language that can be shown in the panel.
#[derive(Clone, Copy, Debug, PartialEq, Eq, Hash, Structural)]
pub enum Language {
    Assembly,
    C,
    Clojure,
    Cpp,
    CSharp,
    Css,
    Dart,
    Elixir,
    Go,
    Haskell,
    Html,
    Java,
    JavaScript,
    Kotlin,
    Lua,
    OCaml,
    Perl,
    Php,
    Python,
    Ruby,
    Rust,
    Scala,
    Shell,
    Swift,
    TypeScript,
    Zig,
}

impl Language {
    /// The name under which the language is shown.
    pub open spec fn display_name(self) -> Seq<char> {
        match self {
            Language::Assembly => "Assembly"@,
            Language::C => "C"@,
            Language::Clojure => "Clojure"@,
            Language::Cpp => "C++"@,
            Language::CSharp => "C#"@,
            Language::Css => "CSS"@,
            Language::Dart => "Dart"@,
            Language::Elixir => "Elixir"@,
            Language::Go => "Go"@,
            Language::Haskell => "Haskell"@,
            Language::Html => "HTML"@,
            Language::Java => "Java"@,
            Language::JavaScript => "JavaScript"@,
            Language::Kotlin => "Kotlin"@,
            Language::Lua => "Lua"@,
            Language::OCaml => "OCaml"@,
            Language::Perl => "Perl"@,
            Language::Php => "PHP"@,
            Language::Python => "Python"@,
            Language::Ruby => "Ruby"@,
            Language::Rust => "Rust"@,
            Language::Scala => "Scala"@,
            Language::Shell => "Shell"@,
            Language::Swift => "Swift"@,
            Language::TypeScript => "TypeScript"@,
            Language::Zig => "Zig"@,
        }
    }

    /// The colour that stands for the language where the terminal can show
    /// any colour.
    pub open spec fn reference_color(self) -> Color {
        match self {
            Language::Assembly => Color::Rgb(110, 76, 19),
            Language::C => Color::Rgb(85, 85, 85),
            Language::Clojure => Color::Rgb(219, 88, 85),
            Language::Cpp => Color::Rgb(243, 75, 125),
            Language::CSharp => Color::Rgb(23, 134, 0),
            Language::Css => Color::Rgb(86, 61, 124),
            Language::Dart => Color::Rgb(0, 180, 171),
            Language::Elixir => Color::Rgb(110, 74, 126),
            Language::Go => Color::Rgb(0, 173, 216),
            Language::Haskell => Color::Rgb(94, 80, 134),
            Language::Html => Color::Rgb(227, 76, 38),
            Language::Java => Color::Rgb(176, 114, 25),
            Language::JavaScript => Color::Rgb(241, 224, 90),
            Language::Kotlin => Color::Rgb(169, 123, 255),
            Language::Lua => Color::Rgb(0, 0, 128),
            Language::OCaml => Color::Rgb(59, 225, 51),
            Language::Perl => Color::Rgb(2, 152, 195),
            Language::Php => Color::Rgb(79, 93, 149),
            Language::Python => Color::Rgb(53, 114, 165),
            Language::Ruby => Color::Rgb(112, 21, 22),
            Language::Rust => Color::Rgb(222, 165, 132),
            Language::Scala => Color::Rgb(194, 45, 64),
            Language::Shell => Color::Rgb(137, 224, 81),
            Language::Swift => Color::Rgb(240, 81, 56),
            Language::TypeScript => Color::Rgb(49, 120, 198),
            Language::Zig => Color::Rgb(236, 145, 92),
        }
    }

    /// The display name of the language.
    pub fn name(self) -> (name: &'static str)
        ensures
            name@ == self.display_name(),
    {
        match self {
            Language::Assembly => "Assembly",
            Language::C => "C",
            Language::Clojure => "Clojure",
            Language::Cpp => "C++",
            Language::CSharp => "C#",
            Language::Css => "CSS",
            Language::Dart => "Dart",
            Language::Elixir => "Elixir",
            Language::Go => "Go",
            Language::Haskell => "Haskell",
            Language::Html => "HTML",
            Language::Java => "Java",
            Language::JavaScript => "JavaScript",
            Language::Kotlin => "Kotlin",
            Language::Lua => "Lua",
            Language::OCaml => "OCaml",
            Language::Perl => "Perl",
            Language::Php => "PHP",
            Language::Python => "Python",
            Language::Ruby => "Ruby",
            Language::Rust => "Rust",
            Language::Scala => "Scala",
            Language::Shell => "Shell",
            Language::Swift => "Swift",
            Language::TypeScript => "TypeScript",
            Language::Zig => "Zig",
        }
    }

    /// The reference colour of the language.
    pub fn get_circle_color(self) -> (color: Color)
        ensures
            color == self.reference_color(),
    {
        match self {
            Language::Assembly => Color::Rgb(110, 76, 19),
            Language::C => Color::Rgb(85, 85, 85),
            Language::Clojure => Color::Rgb(219, 88, 85),
            Language::Cpp => Color::Rgb(243, 75, 125),
            Language::CSharp => Color::Rgb(23, 134, 0),
            Language::Css => Color::Rgb(86, 61, 124),
            Language::Dart => Color::Rgb(0, 180, 171),
            Language::Elixir => Color::Rgb(110, 74, 126),
            Language::Go => Color::Rgb(0, 173, 216),
            Language::Haskell => Color::Rgb(94, 80, 134),
            Language::Html => Color::Rgb(227, 76, 38),
            Language::Java => Color::Rgb(176, 114, 25),
            Language::JavaScript => Color::Rgb(241, 224, 90),
            Language::Kotlin => Color::Rgb(169, 123, 255),
            Language::Lua => Color::Rgb(0, 0, 128),
            Language::OCaml => Color::Rgb(59, 225, 51),
            Language::Perl => Color::Rgb(2, 152, 195),
            Language::Php => Color::Rgb(79, 93, 149),
            Language::Python => Color::Rgb(53, 114, 165),
            Language::Ruby => Color::Rgb(112, 21, 22),
            Language::Rust => Color::Rgb(222, 165, 132),
            Language::Scala => Color::Rgb(194, 45, 64),
            Language::Shell => Color::Rgb(137, 224, 81),
            Language::Swift => Color::Rgb(240, 81, 56),
            Language::TypeScript => Color::Rgb(49, 120, 198),
            Language::Zig => Color::Rgb(236, 145, 92),
        }
    }
}

} // verus!
