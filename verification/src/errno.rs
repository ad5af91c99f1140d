//! Error kinds surfaced by the wrapper layer.

use vstd::prelude::*;

verus! {

/// An error of the wrapper layer, named after the host's error numbers.
#[derive(Debug, Clone, Copy, PartialEq, Eq, Structural)]
pub enum Error {
    /// Input/output error.
    EIO,
}

} // verus!
