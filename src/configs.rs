//! Display settings that the application state carries for the view.

use vstd::prelude::*;

verus! {

/// A terminal color as the `tui` crate defines it. The library only carries
/// colors from the loaded settings to the view and never looks inside one.
#[verifier::external_type_specification]
#[verifier::external_body]
pub struct ExColor(tui::style::Color);

/// Colors of the list, the input field and the highlighted quest.
pub struct Colors {
    pub foreground: tui::style::Color,
    pub background: tui::style::Color,
    pub selection_fg: tui::style::Color,
    pub selection_bg: tui::style::Color,
}

/// Application settings, read-only once loaded.
pub struct Configs {
    pub colors: Colors,
}

} // verus!
