//! The kinds of desktop that the library tells apart.

use vstd::prelude::*;

verus! {

/// The kind of system that the applications run on.
#[derive(Debug, Clone, Copy, PartialEq, Eq, Structural)]
pub enum Platform {
    /// macOS.
    Mac,
    /// A system with a D-Bus session: Linux and the BSDs.
    Dbus,
    /// Anything else.
    Other,
}

} // verus!
