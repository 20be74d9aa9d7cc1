//! Seeds: the root entropy that key pairs are derived from.

use crate::secret::SecretBuf;
use vstd::prelude::*;

verus! {

/// What a seed is meant for.
#[derive(Clone, Copy, Debug, PartialEq, Eq, Structural)]
pub enum SeedType {
    /// The seed at the root of an identity.
    Root,
    /// A seed for revocation keys.
    Revocation,
    /// A seed for the keys of one device.
    Device,
}

/// A buffer of seed bytes, tagged with what the seed is meant for.
///
/// A seed is usable for derivation only if it holds exactly
/// [`crate::sizes::SEED_SIZE`] bytes; making a `Seed` does not check this,
/// derivation does.
pub struct Seed {
    pub seed_type: SeedType,
    pub buf: SecretBuf,
}

impl Seed {
    /// Tags `buf` as a seed of the given type.
    pub fn new(buf: SecretBuf, seed_type: SeedType) -> (seed: Seed)
        ensures
            seed.buf == buf,
            seed.seed_type == seed_type,
    {
        Seed { seed_type, buf }
    }
}

} // verus!
