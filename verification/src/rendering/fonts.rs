use vstd::prelude::*;

verus! {

/// Enumerates the fonts available to us.
#[derive(Debug, Clone, Copy, PartialEq, Eq)]
pub enum FontSelection {
    /// Roboto Sans.
    Roboto,
    /// Teko.
    Teko,
    /// Barlow.
    Barlow,
    /// DejaVu Sans.
    DejaVu,
}

impl Default for FontSelection {
    fn default() -> (f: Self)
        ensures
            f == FontSelection::Roboto,
    {
        FontSelection::Roboto
    }
}

} // verus!
