//! The error taxonomy of this layer: conditions that are reported to the
//! caller as typed results. Invariant violations are not represented here;
//! they are excluded by the functions' preconditions instead.

use vstd::prelude::*;

verus! {

/// A recoverable failure reported to the caller.
#[derive(Debug, Clone, Copy, PartialEq, Eq)]
pub enum HvError {
    /// No physical memory page was available; the caller may retry after
    /// freeing memory elsewhere.
    NoMemory,
    /// A hardware virtualization instruction reported failure; carries a
    /// diagnostic description of what the hardware recorded.
    BadState(&'static str),
}

} // verus!
