//! The data the scanner works on: signatures, categories and results.

use vstd::prelude::*;

verus! {

/// The game edition a signature catalog belongs to.
#[derive(Debug, Clone, Copy, PartialEq, Eq, Structural)]
pub enum GameVariant {
    FreeFire,
    FreeFireMax,
    FreeFireTela,
}

impl GameVariant {
    /// The display name of the edition.
    pub open spec fn label(self) -> Seq<char> {
        match self {
            GameVariant::FreeFire => "Free Fire"@,
            GameVariant::FreeFireMax => "Free Fire MAX"@,
            GameVariant::FreeFireTela => "Free Fire TELA"@,
        }
    }

    pub fn name(&self) -> (r: &'static str)
        ensures
            r@ == self.label(),
    {
        match self {
            GameVariant::FreeFire => "Free Fire",
            GameVariant::FreeFireMax => "Free Fire MAX",
            GameVariant::FreeFireTela => "Free Fire TELA",
        }
    }

    /// The display name in capital letters.
    pub open spec fn title_label(self) -> Seq<char> {
        match self {
            GameVariant::FreeFire => "FREE FIRE"@,
            GameVariant::FreeFireMax => "FREE FIRE MAX"@,
            GameVariant::FreeFireTela => "FREE FIRE TELA"@,
        }
    }

    /// The display name in capital letters, as it heads a report.
    pub fn title(&self) -> (r: &'static str)
        ensures
            r@ == self.title_label(),
    {
        match self {
            GameVariant::FreeFire => "FREE FIRE",
            GameVariant::FreeFireMax => "FREE FIRE MAX",
            GameVariant::FreeFireTela => "FREE FIRE TELA",
        }
    }

    /// The name of the edition where an identifier is needed.
    pub open spec fn namespace_label(self) -> Seq<char> {
        match self {
            GameVariant::FreeFire => "FreeFire"@,
            GameVariant::FreeFireMax => "FreeFireMax"@,
            GameVariant::FreeFireTela => "FreeFireTela"@,
        }
    }

    /// The name of the edition as a C++ namespace.
    pub fn namespace(&self) -> (r: &'static str)
        ensures
            r@ == self.namespace_label(),
    {
        match self {
            GameVariant::FreeFire => "FreeFire",
            GameVariant::FreeFireMax => "FreeFireMax",
            GameVariant::FreeFireTela => "FreeFireTela",
        }
    }

    /// The name of the edition where a module name is needed.
    pub open spec fn module_label(self) -> Seq<char> {
        match self {
            GameVariant::FreeFire => "freefire"@,
            GameVariant::FreeFireMax => "freefire_max"@,
            GameVariant::FreeFireTela => "freefire_tela"@,
        }
    }

    /// The name of the edition as a Rust module.
    pub fn module_name(&self) -> (r: &'static str)
        ensures
            r@ == self.module_label(),
    {
        match self {
            GameVariant::FreeFire => "freefire",
            GameVariant::FreeFireMax => "freefire_max",
            GameVariant::FreeFireTela => "freefire_tela",
        }
    }
}

/// The display group a signature is listed under.
#[derive(Debug, Clone, Copy, PartialEq, Eq, Structural)]
pub enum OffsetCategory {
    Core,
    Player,
    Camera,
    Weapon,
    Silent,
    Collision,
    Attributes,
    Bot,
    Skeleton,
}

impl OffsetCategory {
    /// The label a report entry of this category carries.
    pub open spec fn label(self) -> Seq<char> {
        match self {
            OffsetCategory::Core => "Core"@,
            OffsetCategory::Player => "Player"@,
            OffsetCategory::Camera => "Camera"@,
            OffsetCategory::Weapon => "Weapon"@,
            OffsetCategory::Silent => "Silent Aim"@,
            OffsetCategory::Collision => "Collision"@,
            OffsetCategory::Attributes => "Attributes"@,
            OffsetCategory::Bot => "Bot Detection"@,
            OffsetCategory::Skeleton => "Skeleton/Bones"@,
        }
    }

    pub fn name(&self) -> (r: &'static str)
        ensures
            r@ == self.label(),
    {
        match self {
            OffsetCategory::Core => "Core",
            OffsetCategory::Player => "Player",
            OffsetCategory::Camera => "Camera",
            OffsetCategory::Weapon => "Weapon",
            OffsetCategory::Silent => "Silent Aim",
            OffsetCategory::Collision => "Collision",
            OffsetCategory::Attributes => "Attributes",
            OffsetCategory::Bot => "Bot Detection",
            OffsetCategory::Skeleton => "Skeleton/Bones",
        }
    }
}

/// The file format a report is written in.
#[derive(Debug, Clone, Copy, PartialEq, Eq, Structural)]
pub enum ExportFormat {
    Json,
    CppHeader,
    RustModule,
    PlainText,
}

impl ExportFormat {
    /// The file name extension of the format, without the dot.
    pub open spec fn suffix(self) -> Seq<char> {
        match self {
            ExportFormat::Json => "json"@,
            ExportFormat::CppHeader => "hpp"@,
            ExportFormat::RustModule => "rs"@,
            ExportFormat::PlainText => "txt"@,
        }
    }

    pub fn extension(&self) -> (r: &'static str)
        ensures
            r@ == self.suffix(),
    {
        match self {
            ExportFormat::Json => "json",
            ExportFormat::CppHeader => "hpp",
            ExportFormat::RustModule => "rs",
            ExportFormat::PlainText => "txt",
        }
    }
}

/// What a signature is, with its texts as character sequences.
pub enum TargetView {
    Fixed { name: Seq<char>, hex: Seq<char> },
    Pattern { name: Seq<char>, pattern: Seq<char> },
    Regex { name: Seq<char>, pattern: Seq<char> },
    AoB { name: Seq<char>, signature: Seq<char> },
    Separator,
}

impl TargetView {
    /// The name of a signature; a separator has none.
    pub open spec fn name(self) -> Option<Seq<char>> {
        match self {
            TargetView::Fixed { name, .. } => Some(name),
            TargetView::Pattern { name, .. } => Some(name),
            TargetView::Regex { name, .. } => Some(name),
            TargetView::AoB { name, .. } => Some(name),
            TargetView::Separator => None,
        }
    }
}

/// A named rule that says how one offset is located.
#[derive(Debug, Clone)]
pub enum Target {
    /// The offset is given, never searched.
    Fixed { name: String, hex: String },
    /// An exact text to locate.
    Pattern { name: String, pattern: String },
    /// A regular expression to locate.
    Regex { name: String, pattern: String },
    /// A byte pattern in which some positions match any byte.
    AoB { name: String, signature: String },
    /// A break between display groups; it is never scanned.
    Separator,
}

impl View for Target {
    type V = TargetView;

    open spec fn view(&self) -> TargetView {
        match self {
            Target::Fixed { name, hex } => TargetView::Fixed { name: name@, hex: hex@ },
            Target::Pattern { name, pattern } => TargetView::Pattern {
                name: name@,
                pattern: pattern@,
            },
            Target::Regex { name, pattern } => TargetView::Regex { name: name@, pattern: pattern@ },
            Target::AoB { name, signature } => TargetView::AoB {
                name: name@,
                signature: signature@,
            },
            Target::Separator => TargetView::Separator,
        }
    }
}

impl Target {
    pub fn new_fixed(name: &str, hex: &str) -> (t: Self)
        ensures
            t@ == (TargetView::Fixed { name: name@, hex: hex@ }),
    {
        Target::Fixed { name: name.to_owned(), hex: hex.to_owned() }
    }

    pub fn new_pattern(name: &str, pattern: &str) -> (t: Self)
        ensures
            t@ == (TargetView::Pattern { name: name@, pattern: pattern@ }),
    {
        Target::Pattern { name: name.to_owned(), pattern: pattern.to_owned() }
    }

    pub fn new_regex(name: &str, pattern: &str) -> (t: Self)
        ensures
            t@ == (TargetView::Regex { name: name@, pattern: pattern@ }),
    {
        Target::Regex { name: name.to_owned(), pattern: pattern.to_owned() }
    }

    pub fn new_aob(name: &str, signature: &str) -> (t: Self)
        ensures
            t@ == (TargetView::AoB { name: name@, signature: signature@ }),
    {
        Target::AoB { name: name.to_owned(), signature: signature.to_owned() }
    }

    pub fn name(&self) -> (r: Option<&str>)
        ensures
            match r {
                Some(s) => self@.name() == Some(s@),
                None => self@.name() is None,
            },
    {
        match self {
            Target::Fixed { name, .. } => Some(name.as_str()),
            Target::Pattern { name, .. } => Some(name.as_str()),
            Target::Regex { name, .. } => Some(name.as_str()),
            Target::AoB { name, .. } => Some(name.as_str()),
            Target::Separator => None,
        }
    }
}

/// One entry of a report, with its texts as character sequences.
pub struct OffsetResultView {
    pub name: Seq<char>,
    pub offset: Option<Seq<char>>,
    pub category: Seq<char>,
}

/// What the scan found for one signature: `offset` is `None` where the
/// signature is declared but was not located.
#[derive(Debug, Clone)]
pub struct OffsetResult {
    pub name: String,
    pub offset: Option<String>,
    pub category: String,
}

impl View for OffsetResult {
    type V = OffsetResultView;

    open spec fn view(&self) -> OffsetResultView {
        OffsetResultView {
            name: self.name@,
            offset: match self.offset {
                Some(s) => Some(s@),
                None => None,
            },
            category: self.category@,
        }
    }
}

} // verus!
