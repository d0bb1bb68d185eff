use vstd::prelude::*;

verus! {

/// Whole percent of `total` that `bytes` amounts to, rounded down.
pub open spec fn percent_of(bytes: u64, total: u64) -> int {
    (bytes as int * 100) / (total as int)
}

/// The percent shown for a progress sample: the product is taken before the
/// division, so partial progress is not truncated to zero.
pub fn download_percent(bytes: u64, total: u64) -> (r: u64)
    requires
        total > 0,
        percent_of(bytes, total) <= u64::MAX,
    ensures
        r == percent_of(bytes, total),
{
    let scaled: u128 = bytes as u128 * 100;
    let p: u128 = scaled / total as u128;
    p as u64
}

/// Below the total, the percent is below one hundred.
pub proof fn lemma_percent_bounds(bytes: u64, total: u64)
    requires
        total > 0,
        bytes <= total,
    ensures
        0 <= percent_of(bytes, total) <= 100,
        bytes < total ==> percent_of(bytes, total) < 100,
{
    let b = bytes as int;
    let t = total as int;
    assert(0 <= (b * 100) / t <= 100) by (nonlinear_arith)
        requires 0 <= b <= t, t > 0;
    assert(b < t ==> (b * 100) / t < 100) by (nonlinear_arith)
        requires 0 <= b, t > 0;
}

/// More bytes of the same total never show a smaller percent.
pub proof fn lemma_percent_grows(b1: u64, b2: u64, total: u64)
    requires
        total > 0,
        b1 <= b2,
    ensures
        percent_of(b1, total) <= percent_of(b2, total),
{
    let t = total as int;
    assert((b1 as int * 100) / t <= (b2 as int * 100) / t) by (nonlinear_arith)
        requires b1 as int <= b2 as int, t > 0, 0 <= b1 as int;
}

/// Over the samples of one download (a fixed positive total, bytes that never
/// go down and never pass the total), the shown percent never decreases and
/// stays within 0 to 100.
pub proof fn lemma_percent_monotone(samples: Seq<(u64, u64)>)
    requires
        forall|i: int| 0 <= i < samples.len() ==> samples[i].1 > 0 && samples[i].0 <= samples[i].1,
        forall|i: int, j: int|
            0 <= i <= j < samples.len() ==> samples[i].1 == samples[j].1 && samples[i].0
                <= samples[j].0,
    ensures
        forall|i: int|
            0 <= i < samples.len() ==> 0 <= #[trigger] percent_of(samples[i].0, samples[i].1) <= 100,
        forall|i: int, j: int|
            0 <= i <= j < samples.len() ==> percent_of(samples[i].0, samples[i].1) <= percent_of(
                samples[j].0,
                samples[j].1,
            ),
{
    assert forall|i: int| 0 <= i < samples.len() implies 0 <= #[trigger] percent_of(
        samples[i].0,
        samples[i].1,
    ) <= 100 by {
        lemma_percent_bounds(samples[i].0, samples[i].1);
    }
    assert forall|i: int, j: int| 0 <= i <= j < samples.len() implies percent_of(
        samples[i].0,
        samples[i].1,
    ) <= percent_of(samples[j].0, samples[j].1) by {
        lemma_percent_grows(samples[i].0, samples[j].0, samples[i].1);
    }
}

} // verus!
