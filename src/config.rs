//! User configuration of the emulator.
use vstd::prelude::*;

verus! {

/// Audio settings.
#[derive(Clone, Copy, Debug, PartialEq, Eq, Structural)]
pub struct Audio {
    pub enabled: bool,
}

impl Default for Audio {
    /// Audio is on unless configured otherwise.
    fn default() -> (r: Self)
        ensures
            r.enabled,
    {
        Audio { enabled: true }
    }
}

} // verus!
