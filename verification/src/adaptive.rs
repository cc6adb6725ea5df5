//! Adaptive bitrate control for the WebRTC media channel.
//!
//! Data channels are SCTP (no RTP REMB/transport-cc), so the usable congestion
//! signal is the send buffer. A rising buffer means we're encoding faster than
//! the link drains: back off; a consistently low buffer means there's headroom:
//! climb back toward the configured ceiling. Classic AIMD: multiplicative
//! decrease, additive increase. The decision is a pure function of (current
//! target, sampled buffer).

use vstd::prelude::*;

pub mod laws;

verus! {

/// Buffer above this (bytes): we're congested, decrease.
pub const HIGH_WATER: usize = 256 * 1024;

/// Buffer below this (bytes) for `INCREASE_AFTER` samples: headroom, increase.
pub const LOW_WATER: usize = 64 * 1024;

pub const INCREASE_AFTER: u32 = 3;

pub const INCREASE_STEP_KBPS: u32 = 500;

/// How often the control loop samples the buffer.
pub const SAMPLE_INTERVAL_MS: u64 = 300;

/// How far the media channel lets quality drop.
pub const BITRATE_FLOOR_KBPS: u32 = 600;

/// The largest power of two that is at most `n`; 1 for 0.
pub open spec fn leading_power(n: nat) -> nat
    decreases n,
{
    if n < 2 {
        1
    } else {
        2 * leading_power(n / 2)
    }
}

/// Seven tenths of a bitrate, to the nearest whole number, as the product with
/// the double 0.7 rounds. That double lies a little below 7/10, so of the
/// bitrates whose seven tenths end in a half, those in the upper part of a
/// power of two fall below the half and go down; the others go up.
pub open spec fn reduced(t: nat) -> nat {
    let whole = 7 * t / 10;
    let tenths = 7 * t % 10;
    if tenths < 5 {
        whole
    } else if tenths > 5 {
        whole + 1
    } else if 2 * t > 5 * leading_power(whole) {
        whole
    } else {
        whole + 1
    }
}

fn leading_power_of(n: u64) -> (p: u64)
    ensures
        p == leading_power(n as nat),
        1 <= p,
        p <= n || p == 1,
    decreases n,
{
    if n < 2 {
        1
    } else {
        let half: u64 = leading_power_of(n / 2);
        2 * half
    }
}

fn reduce(t: u32) -> (r: u32)
    ensures
        r == reduced(t as nat),
        r <= t,
{
    let wide: u64 = t as u64;
    let whole: u64 = 7 * wide / 10;
    let tenths: u64 = 7 * wide % 10;
    let up: bool = if tenths == 5 {
        2 * wide <= 5 * leading_power_of(whole)
    } else {
        tenths > 5
    };
    if up {
        (whole + 1) as u32
    } else {
        whole as u32
    }
}

#[derive(Debug)]
pub struct BitrateController {
    target_kbps: u32,
    ceiling_kbps: u32,
    floor_kbps: u32,
    low_streak: u32,
}

/// The controller's state as a value.
#[verifier::ext_equal]
pub struct RateModel {
    pub target: u32,
    pub ceiling: u32,
    pub floor: u32,
    pub low_streak: u32,
}

impl View for BitrateController {
    type V = RateModel;

    closed spec fn view(&self) -> RateModel {
        RateModel {
            target: self.target_kbps,
            ceiling: self.ceiling_kbps,
            floor: self.floor_kbps,
            low_streak: self.low_streak,
        }
    }
}

/// The target lies between floor and ceiling, and a streak is shorter than what
/// it takes to increase.
pub open spec fn in_bounds(m: RateModel) -> bool {
    m.floor <= m.target <= m.ceiling && m.low_streak < INCREASE_AFTER
}

/// Whether a sample completes a streak of low ones.
pub open spec fn increases(m: RateModel, buffered: usize) -> bool {
    buffered < LOW_WATER && m.low_streak + 1 >= INCREASE_AFTER
}

/// What one sample does.
pub open spec fn sampled(m: RateModel, buffered: usize) -> RateModel {
    if buffered > HIGH_WATER {
        let next = reduced(m.target as nat);
        RateModel {
            target: if next < m.floor {
                m.floor
            } else {
                next as u32
            },
            low_streak: 0,
            ..m
        }
    } else if increases(m, buffered) {
        RateModel {
            target: if m.target + INCREASE_STEP_KBPS < m.ceiling {
                (m.target + INCREASE_STEP_KBPS) as u32
            } else {
                m.ceiling
            },
            low_streak: 0,
            ..m
        }
    } else if buffered < LOW_WATER {
        RateModel { low_streak: (m.low_streak + 1) as u32, ..m }
    } else {
        RateModel { low_streak: 0, ..m }
    }
}

/// The state that control starts in.
pub open spec fn started(ceiling: u32, floor: u32) -> RateModel {
    RateModel {
        target: ceiling,
        ceiling,
        floor: if floor < ceiling {
            floor
        } else {
            ceiling
        },
        low_streak: 0,
    }
}

impl BitrateController {
    pub closed spec fn wf(&self) -> bool {
        in_bounds(self@)
    }

    /// Start at the ceiling (the configured bitrate) and adapt down from there.
    /// `floor` bounds how far quality can drop.
    pub fn new(ceiling_kbps: u32, floor_kbps: u32) -> (r: Self)
        ensures
            r.wf(),
            in_bounds(r@),
            r@ == started(ceiling_kbps, floor_kbps),
            r@ == (RateModel {
                target: ceiling_kbps,
                ceiling: ceiling_kbps,
                floor: if floor_kbps < ceiling_kbps {
                    floor_kbps
                } else {
                    ceiling_kbps
                },
                low_streak: 0,
            }),
    {
        BitrateController {
            target_kbps: ceiling_kbps,
            ceiling_kbps,
            floor_kbps: if floor_kbps < ceiling_kbps {
                floor_kbps
            } else {
                ceiling_kbps
            },
            low_streak: 0,
        }
    }

    pub fn target_kbps(&self) -> (r: u32)
        ensures
            r == self@.target,
    {
        self.target_kbps
    }

    /// Feed one buffered-amount sample; returns the new target bitrate (kbps).
    pub fn sample(&mut self, buffered_bytes: usize) -> (r: u32)
        requires
            old(self).wf(),
            increases(old(self)@, buffered_bytes) ==> old(self)@.target + INCREASE_STEP_KBPS
                <= u32::MAX,
        ensures
            final(self).wf(),
            in_bounds(final(self)@),
            final(self)@ == sampled(old(self)@, buffered_bytes),
            r == final(self)@.target,
    {
        if buffered_bytes > HIGH_WATER {
            // multiplicative decrease, bounded by the floor
            let next: u32 = reduce(self.target_kbps);
            self.target_kbps = if next < self.floor_kbps {
                self.floor_kbps
            } else {
                next
            };
            self.low_streak = 0;
        } else if buffered_bytes < LOW_WATER {
            self.low_streak = self.low_streak + 1;
            if self.low_streak >= INCREASE_AFTER {
                let next: u32 = self.target_kbps + INCREASE_STEP_KBPS;
                self.target_kbps = if next < self.ceiling_kbps {
                    next
                } else {
                    self.ceiling_kbps
                };
                self.low_streak = 0;
            }
        } else {
            // in the comfortable band: hold, but don't count toward an increase
            self.low_streak = 0;
        }
        self.target_kbps
    }
}

pub proof fn lemma_leading_power(n: nat)
    ensures
        1 <= leading_power(n),
        leading_power(n) <= n || leading_power(n) == 1,
        n < 2 * leading_power(n) || n < 2,
    decreases n,
{
    if n >= 2 {
        lemma_leading_power(n / 2);
    }
}

/// Whatever is sampled, the target stays between floor and ceiling.
pub proof fn law_target_stays_in_bounds(m: RateModel, buffered: usize)
    requires
        in_bounds(m),
    ensures
        in_bounds(sampled(m, buffered)),
        sampled(m, buffered).floor == m.floor,
        sampled(m, buffered).ceiling == m.ceiling,
{
    lemma_leading_power((7 * m.target / 10) as nat);
}

/// Congestion never raises the target; above the floor it lowers it, except
/// that a target of 1 has nowhere to go.
pub proof fn law_congestion_backs_off(m: RateModel, buffered: usize)
    requires
        in_bounds(m),
        buffered > HIGH_WATER,
    ensures
        sampled(m, buffered).target <= m.target,
        m.target > m.floor && m.target >= 2 ==> sampled(m, buffered).target < m.target,
{
    lemma_leading_power((7 * m.target / 10) as nat);
}

/// The state after a number of congested samples.
pub open spec fn congested(m: RateModel, buffered: usize, n: nat) -> RateModel
    decreases n,
{
    if n == 0 {
        m
    } else {
        sampled(congested(m, buffered, (n - 1) as nat), buffered)
    }
}

/// Congestion that goes on brings the target to the floor, and no lower. The
/// floor is not zero.
pub proof fn law_congestion_reaches_the_floor(m: RateModel, buffered: usize, n: nat)
    requires
        in_bounds(m),
        buffered > HIGH_WATER,
        m.floor >= 1,
    ensures
        in_bounds(congested(m, buffered, n)),
        congested(m, buffered, n).floor == m.floor,
        congested(m, buffered, n).target == m.floor || congested(m, buffered, n).target + n
            <= m.target,
        n > m.target ==> congested(m, buffered, n).target == m.floor,
    decreases n,
{
    if n > 0 {
        let before = congested(m, buffered, (n - 1) as nat);
        law_congestion_reaches_the_floor(m, buffered, (n - 1) as nat);
        law_target_stays_in_bounds(before, buffered);
        law_congestion_backs_off(before, buffered);
    }
}

/// A streak of low samples raises the target by one step, up to the ceiling,
/// and not before the streak is complete.
pub proof fn law_headroom_climbs(m: RateModel, b1: usize, b2: usize, b3: usize)
    requires
        in_bounds(m),
        m.low_streak == 0,
        b1 < LOW_WATER,
        b2 < LOW_WATER,
        b3 < LOW_WATER,
    ensures
        sampled(m, b1).target == m.target,
        sampled(sampled(m, b1), b2).target == m.target,
        ({
            let third = sampled(sampled(sampled(m, b1), b2), b3);
            &&& third.low_streak == 0
            &&& third.target == if m.target + INCREASE_STEP_KBPS < m.ceiling {
                m.target + INCREASE_STEP_KBPS
            } else {
                m.ceiling as int
            }
        }),
{
}

/// A sample in the band between holds the target and starts the streak anew.
pub proof fn law_band_holds(m: RateModel, buffered: usize)
    requires
        LOW_WATER <= buffered <= HIGH_WATER,
    ensures
        sampled(m, buffered) == (RateModel { low_streak: 0, ..m }),
{
}

} // verus!
