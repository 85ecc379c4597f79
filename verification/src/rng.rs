use vstd::prelude::*;

verus! {

/// Relies on `rand::Rng::gen_range` over `rand::thread_rng`: the sample is
/// drawn from the given half-open range, and the call panics only when the
/// range is empty.
#[verifier::external_body]
pub(crate) fn pick_i32(lo: i32, hi: i32) -> (r: i32)
    requires
        lo < hi,
    ensures
        lo <= r < hi,
{
    rand::Rng::gen_range(&mut rand::thread_rng(), lo..hi)
}

/// Relies on `rand::Rng::gen_range` over `rand::thread_rng`: the sample is
/// drawn from the given half-open range, and the call panics only when the
/// range is empty.
#[verifier::external_body]
pub(crate) fn pick_usize(n: usize) -> (r: usize)
    requires
        n > 0,
    ensures
        r < n,
{
    rand::Rng::gen_range(&mut rand::thread_rng(), 0..n)
}

/// Relies on `rand::random::<bool>`: a coin flip; nothing is assumed of the
/// outcome.
#[verifier::external_body]
pub(crate) fn pick_bool() -> (b: bool) {
    rand::random()
}

} // verus!
