//! The platforms that the font manager knows apart.

use vstd::prelude::*;

verus! {

/// The platforms that keep fonts and per-user data in different places.
#[derive(Debug, Clone, Copy, PartialEq, Eq, Structural)]
pub enum Platform {
    MacOs,
    Windows,
    Linux,
    Other,
}

} // verus!
