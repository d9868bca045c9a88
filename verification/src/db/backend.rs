//! The engines the canonical adapter can drive.

use vstd::prelude::*;

verus! {

/// Engine selector for one run.
#[derive(Copy, Clone, Debug, PartialEq, Eq, Structural)]
pub enum Backend {
    Fjall,
    Sled,
    Redb,
}

impl Backend {
    /// Human-readable engine label, with the driven version.
    pub fn label(&self) -> (r: &'static str)
        ensures
            self is Sled ==> r@ == "sled 0.34.7"@,
            self is Fjall ==> r@ == "fjall 2.11.2"@,
            self is Redb ==> r@ == "redb 4.3.0"@,
    {
        match self {
            Backend::Sled => "sled 0.34.7",
            Backend::Fjall => "fjall 2.11.2",
            Backend::Redb => "redb 4.3.0",
        }
    }
}

} // verus!
