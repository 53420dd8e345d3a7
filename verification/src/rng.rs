//! The two randomness sources, behind trusted wrappers: the operating
//! system's cryptographically strong source for the prefix, and the cheap
//! thread-local pseudo-random source for the counter and its step.

use vstd::prelude::*;

use rand::Rng;

verus! {

/// Relies on rand's `OsRng` sampled through the `Alphanumeric` distribution:
/// the iterator is infinite, so taking `PRE_LEN` draws collects exactly
/// `PRE_LEN` bytes. The values are random; nothing is assumed of them. An
/// unavailable operating-system source aborts the process: by design that is
/// a fatal environment failure, not a recoverable error.
#[verifier::external_body]
pub(crate) fn crypto_random_bytes() -> (r: Vec<u8>)
    ensures
        r@.len() == crate::PRE_LEN,
{
    rand::rngs::OsRng.sample_iter(&rand::distributions::Alphanumeric).take(crate::PRE_LEN).collect()
}

/// Relies on rand's `thread_rng` and `Rng::gen_range`: for a non-empty range
/// `lo..hi` it returns a value `r` with `lo <= r < hi`; it panics only on an
/// empty range, which the precondition rules out.
#[verifier::external_body]
pub(crate) fn fast_random_range(lo: u64, hi: u64) -> (r: u64)
    requires
        lo < hi,
    ensures
        lo <= r < hi,
{
    rand::thread_rng().gen_range(lo..hi)
}

} // verus!
