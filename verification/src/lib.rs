//! A terminal panel that shows which programming languages make up a
//! repository: one proportional multi-colour bar and, below it, a legend of
//! coloured markers, names and percentages laid out two to a line.

pub mod bar;
pub mod color;
pub mod entry;
pub mod info;
pub mod language;
pub mod legend;
pub mod paint;
pub mod text;

pub use color::{AnsiColor, Color};
pub use entry::{LanguageWithPercentage, RenderEntry};
pub use info::LanguagesInfo;
pub use language::Language;
