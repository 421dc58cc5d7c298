use vstd::prelude::*;

use crate::unit_interval::Closed01;

verus! {

/// Relies on `rand::Rng::gen_range` over the inclusive range `0..=den`:
/// the sample it returns lies within that closed range. The range is
/// non-empty because `den` is non-negative, so the call cannot panic.
#[verifier::external_body]
fn draw_in_unit(den: i64) -> (r: i64)
    requires
        0 <= den,
    ensures
        0 <= r <= den,
{
    rand::Rng::gen_range(&mut rand::thread_rng(), 0..=den)
}

/// Draws a uniformly distributed scalar from the external random source, at
/// the given resolution. The sample is validated through the checked
/// constructor, which is proved to accept every value the source can hand
/// back.
pub fn sample(den: i64) -> (r: Closed01)
    requires
        1 <= den,
    ensures
        r.wf(),
        r.den() == den,
{
    let num = draw_in_unit(den);
    match Closed01::new(num, den) {
        Ok(c) => c,
        Err(_) => {
            proof {
                assert(false);
            }
            Closed01::zero(den)
        },
    }
}

} // verus!
