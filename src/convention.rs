use vstd::prelude::*;

verus! {

/// The hardware model the emulator presents itself as.
#[derive(Clone, Copy, Debug, PartialEq, Eq, Structural)]
pub enum Term {
    /// The first Game Boy model (DMG).
    GB,
    /// Game Boy Pocket / Light.
    GBP,
    /// Game Boy Color.
    GBC,
    /// Super Game Boy.
    SGB,
}

} // verus!
