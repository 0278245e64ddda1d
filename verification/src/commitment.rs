//! The hash commitment and the issuer's secret: the two places where the
//! library leans on outside code. The digest is given a name, `hash_of`,
//! rather than a definition; every contract that speaks of commitments
//! speaks through that name.

use vstd::prelude::*;

verus! {

/// The digest the standard hasher computes for a preimage. The value is a
/// function of the preimage alone; nothing more is assumed of it.
pub uninterp spec fn hash_of(pre_image: u64) -> u64;

/// Relies on `std::hash::DefaultHasher`: hashers built with `new` all
/// compute the same function, so the digest depends on the preimage alone.
#[verifier::external_body]
pub fn hash(pre_image: u64) -> (r: u64)
    ensures
        r == hash_of(pre_image),
{
    let mut hasher = std::hash::DefaultHasher::new();
    std::hash::Hash::hash(&pre_image, &mut hasher);
    std::hash::Hasher::finish(&hasher)
}

/// Relies on `rand::Rng::gen_range` over the thread-local generator: the
/// result lies in the half-open range it is given. Nothing else holds of
/// a random draw.
#[verifier::external_body]
pub(crate) fn random_pre_image() -> (r: u64)
    ensures
        r < u64::MAX,
{
    rand::Rng::gen_range(&mut rand::thread_rng(), 0..u64::MAX)
}

} // verus!
