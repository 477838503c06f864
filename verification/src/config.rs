//! Build-time settings of the application and its colour themes.

use vstd::prelude::*;

verus! {

/// Version string shown in the about dialog.
pub const VERSION: &'static str = "1.1.0";

/// Gettext domain of the application.
pub const GETTEXT_PACKAGE: &'static str = "spark";

/// Directory holding the translations.
pub const LOCALEDIR: &'static str = "/app/share/locale";

/// Directory holding the packaged data.
pub const PKGDATADIR: &'static str = "/app/share/spark";

/// Whether the window is decorated as a development build.
pub const DEV_MODE: bool = true;

/// The two colour schemes the window can be styled with.
#[derive(Clone, Copy, Debug, PartialEq, Eq, Structural)]
pub enum ColorTheme {
    Accent,
    Sparking,
}

/// The colour scheme this build uses.
pub const COLOR_THEME: ColorTheme = ColorTheme::Accent;

/// CSS class of the highlighted action buttons ("Connect", "Send") under `theme`.
pub open spec fn action_class_of(theme: ColorTheme) -> Seq<char> {
    match theme {
        ColorTheme::Accent => "suggested-action"@,
        ColorTheme::Sparking => "yel"@,
    }
}

/// CSS class of the baud-rate selection row under `theme`.
pub open spec fn row_class_of(theme: ColorTheme) -> Seq<char> {
    match theme {
        ColorTheme::Accent => "acc"@,
        ColorTheme::Sparking => "pur"@,
    }
}

impl ColorTheme {
    /// The CSS class given to the highlighted action buttons.
    pub fn action_class(&self) -> (class: &'static str)
        ensures
            class@ == action_class_of(*self),
    {
        match self {
            ColorTheme::Accent => "suggested-action",
            ColorTheme::Sparking => "yel",
        }
    }

    /// The CSS class given to the baud-rate selection row.
    pub fn row_class(&self) -> (class: &'static str)
        ensures
            class@ == row_class_of(*self),
    {
        match self {
            ColorTheme::Accent => "acc",
            ColorTheme::Sparking => "pur",
        }
    }
}

} // verus!
