//! Emulators that the Flutter daemon can launch.
use vstd::prelude::*;

verus! {

/// An emulator that can be launched.
#[derive(Debug, Clone, PartialEq, Eq)]
pub struct Emulator {
    pub id: String,
    pub name: String,
    pub category: String,
    pub platform_type: String,
}

} // verus!
