//! The control loop in numbers.

use vstd::prelude::*;

use super::{
    in_bounds, leading_power, lemma_leading_power, sampled, started, RateModel, BITRATE_FLOOR_KBPS,
    SAMPLE_INTERVAL_MS,
};

verus! {

/// Above 256 KiB the target goes to seven tenths of what it was, to the nearest whole
/// number, but not below the floor; a streak is over.
pub proof fn law_congestion_takes_three_tenths(m: RateModel, buffered: usize)
    requires
        in_bounds(m),
        buffered > 262144,
    ensures
        ({
            let next = sampled(m, buffered).target;
            &&& next >= m.floor
            &&& next == m.floor || 10 * next - 7 * m.target <= 5
            &&& 10 * next - 7 * m.target >= -5
            &&& 7 * m.target + 5 < 10 * m.floor ==> next == m.floor
            &&& sampled(m, buffered).low_streak == 0
            &&& sampled(m, buffered).floor == m.floor
            &&& sampled(m, buffered).ceiling == m.ceiling
        }),
{
    lemma_leading_power((7 * m.target / 10) as nat);
}

/// A product that lies halfway between two whole numbers goes up, unless the bitrate is
/// above five halves of the greatest power of two that fits the whole part.
pub proof fn law_halves_round_with_the_double(m: RateModel, buffered: usize, k: nat)
    requires
        in_bounds(m),
        m.floor == 0,
        buffered > 262144,
        7 * m.target == 10 * k + 5,
    ensures
        2 * m.target <= 5 * leading_power(k) ==> sampled(m, buffered).target == k + 1,
        2 * m.target > 5 * leading_power(k) ==> sampled(m, buffered).target == k,
{
    assert((7 * m.target / 10) as nat == k);
}

/// Below 64 KiB samples are counted: the first two of a streak only count, the third
/// raises the target by 500, or to the ceiling where that is nearer, and the count
/// starts anew. From 64 KiB to 256 KiB the target holds and the count starts anew.
pub proof fn law_headroom_adds_five_hundred(m: RateModel, buffered: usize)
    requires
        in_bounds(m),
        buffered <= 262144,
    ensures
        ({
            let next = sampled(m, buffered);
            &&& next.floor == m.floor && next.ceiling == m.ceiling
            &&& buffered >= 65536 ==> next.target == m.target && next.low_streak == 0
            &&& buffered < 65536 && m.low_streak < 2 ==> next.target == m.target && next.low_streak
                == m.low_streak + 1
            &&& buffered < 65536 && m.low_streak == 2 ==> {
                &&& next.low_streak == 0
                &&& m.target + 500 <= m.ceiling ==> next.target == m.target + 500
                &&& m.target + 500 > m.ceiling ==> next.target == m.ceiling
            }
        }),
{
}

/// Control starts at the ceiling, with the floor no higher than that and nothing
/// counted.
pub proof fn law_control_starts_at_the_ceiling(ceiling: u32, floor: u32)
    ensures
        started(ceiling, floor).target == ceiling,
        started(ceiling, floor).ceiling == ceiling,
        floor <= ceiling ==> started(ceiling, floor).floor == floor,
        floor > ceiling ==> started(ceiling, floor).floor == ceiling,
        started(ceiling, floor).low_streak == 0,
        in_bounds(started(ceiling, floor)),
        SAMPLE_INTERVAL_MS == 300,
        BITRATE_FLOOR_KBPS == 600,
{
}

} // verus!
