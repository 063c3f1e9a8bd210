//! Errors raised while constructing a platform.

use vstd::prelude::*;

verus! {

/// Why a platform could not be constructed. Both errors are terminal to the
/// constructor that raised them: construction either fully succeeds or
/// fully fails.
#[derive(Debug)]
pub enum Error {
    /// The supplied triple string could not be classified under the
    /// requested strictness level: builtin-only for the strict
    /// constructors, builtin-or-heuristic otherwise. Carries the offending
    /// triple string.
    UnknownPlatformTriple(String),
    /// The specification document supplied for a custom platform failed
    /// validation. Carries the offending document.
    CustomPlatformCreate(String),
}

} // verus!
