//! The colour theme: the toggle, its label and icon, and the page classes.

use vstd::prelude::*;
use crate::text::str_eq;

verus! {

/// The theme after `theme` when the toggle is clicked.
pub open spec fn toggled_theme(theme: Seq<char>) -> Seq<char> {
    if theme == "light"@ {
        "dark"@
    } else {
        "light"@
    }
}

/// The theme selected after `theme` when the user clicks the toggle: light
/// becomes dark, anything else light.
pub fn next_theme(theme: &str) -> (r: &'static str)
    ensures
        r@ == toggled_theme(theme@),
{
    if str_eq(theme, "light") {
        "dark"
    } else {
        "light"
    }
}

/// The label of the theme toggle.
pub fn theme_label(theme: &str) -> (r: &'static str)
    ensures
        r@ == (if theme@ == "dark"@ { "Dark"@ } else { "Light"@ }),
{
    if str_eq(theme, "dark") {
        "Dark"
    } else {
        "Light"
    }
}

/// The icon class of the theme toggle.
pub fn theme_icon(theme: &str) -> (r: &'static str)
    ensures
        r@ == (if theme@ == "dark"@ { "fa-moon"@ } else { "fa-sun"@ }),
{
    if str_eq(theme, "dark") {
        "fa-moon"
    } else {
        "fa-sun"
    }
}

/// The class that the page body gains, and the one it loses, for `theme`.
pub fn theme_classes(theme: &str) -> (r: (&'static str, &'static str))
    ensures
        theme@ == "dark"@ ==> r.0@ == "dark-theme"@ && r.1@ == "light-theme"@,
        theme@ != "dark"@ ==> r.0@ == "light-theme"@ && r.1@ == "dark-theme"@,
{
    if str_eq(theme, "dark") {
        ("dark-theme", "light-theme")
    } else {
        ("light-theme", "dark-theme")
    }
}

} // verus!
