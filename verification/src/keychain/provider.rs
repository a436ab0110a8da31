use vstd::prelude::*;

verus! {

/// Where a keychain's keys live.
#[derive(Debug, Clone, Copy, PartialEq, Eq, Structural)]
pub enum Provider {
    /// In the keychain's own document.
    Local,
}

} // verus!
