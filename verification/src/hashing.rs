//! The URL hasher: a deterministic 64-bit fingerprint of a URL string.
//!
//! Every cache tier keys its entries by this fingerprint, so all tiers must
//! agree on it; determinism within one process run is all that is required.

use vstd::prelude::*;
use vstd::std_specs::hash::DefaultHasherAdditionalSpecFns;
use vstd::string::StringSliceAdditionalSpecFns;
use std::collections::hash_map::DefaultHasher;
use std::hash::Hasher;

verus! {

/// The fingerprint of a URL, as a function of its UTF-8 bytes.
///
/// `DefaultHasher::spec_finish` is vstd's model of the standard hasher: an
/// unspecified but fixed function of the sequence of byte strings written,
/// so two URLs with equal bytes always receive equal fingerprints.
pub open spec fn url_fingerprint(bytes: Seq<u8>) -> u64 {
    DefaultHasher::spec_finish(seq![bytes])
}

/// Compute the 64-bit cache key of a URL.
///
/// Deterministic within a process run: equal URLs give equal keys, on every
/// thread and in every tier.
pub fn hash_url(url: &str) -> (r: u64)
    ensures
        r == url_fingerprint(url.spec_bytes()),
{
    let mut hasher = DefaultHasher::new();
    hasher.write(url.as_bytes());
    let r = hasher.finish();
    proof {
        assert(hasher@ =~= seq![url.spec_bytes()]);
    }
    r
}

} // verus!
