//! Error taxonomy of the core: every failure a caller can see.

use vstd::prelude::*;

verus! {

/// Failures reported by the core. Generation itself cannot fail once its
/// preconditions hold; these cover construction and link resolution.
#[derive(Clone, Copy, Debug, PartialEq, Eq, Structural)]
pub enum StreamsError {
    /// The secret key handed to `Prng::init` does not have length `KEY_SIZE`.
    InvalidKeyLength,
    /// The process-wide secure randomness source is unavailable; there is no
    /// fallback to a weaker source.
    NoSecureRandomSource,
    /// Branching mode was requested but no distinct sequencing address was set.
    MissingSequencingLink,
}

} // verus!
