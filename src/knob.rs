use vstd::prelude::*;

verus! {

/// Number of discrete levels; a level lies in `0..LEVELS`.
pub const LEVELS: u32 = 10;

/// Largest raw sample taken into account (the positive range of 15 bits).
pub const SAMPLE_MAX: i16 = 0x7fff;

/// Divisor that turns a raw sample into the fraction the knob map works on.
pub const SAMPLE_SCALE: i64 = 10000;

/// A raw sample clamped to `0..=SAMPLE_MAX`.
pub open spec fn clamped_sample(raw: int) -> int {
    if raw < 0 {
        0
    } else if raw > SAMPLE_MAX {
        SAMPLE_MAX as int
    } else {
        raw
    }
}

/// The knob map: with `scaled = clamped / SAMPLE_SCALE`, the level is
/// `floor((LEVELS + 2) * scaled - 2)` clamped to `0..=LEVELS - 1`.
/// Both sides are multiplied by `SAMPLE_SCALE`, so the floor is taken
/// exactly, on integers.
pub open spec fn knob_level(raw: int) -> int {
    let f = ((LEVELS + 2) * clamped_sample(raw) - 2 * SAMPLE_SCALE) / SAMPLE_SCALE as int;
    if f < 0 {
        0
    } else if f > LEVELS - 1 {
        LEVELS - 1
    } else {
        f
    }
}

/// Turns one raw analog sample into a level. Samples below zero count as
/// zero; the lowest and highest parts of the knob's travel map to the end
/// levels, so that both ends are easy to reach.
pub fn level_from_sample(raw: i16) -> (r: u32)
    ensures
        r == knob_level(raw as int),
        r < LEVELS,
{
    let clamped: i64 = if raw < 0 {
        0
    } else {
        raw as i64
    };
    let x: i64 = (LEVELS as i64 + 2) * clamped - 2 * SAMPLE_SCALE;
    if x < 0 {
        0
    } else {
        let f: i64 = x / SAMPLE_SCALE;
        if f > (LEVELS - 1) as i64 {
            LEVELS - 1
        } else {
            f as u32
        }
    }
}

/// Every raw sample, clamped or not, gives a valid level.
pub proof fn lemma_level_in_range(raw: int)
    ensures
        0 <= knob_level(raw) < LEVELS,
{
}

/// The knob map never decreases: a larger sample never gives a lower level.
pub proof fn lemma_level_monotonic(r1: int, r2: int)
    requires
        r1 <= r2,
    ensures
        knob_level(r1) <= knob_level(r2),
{
    let c1 = clamped_sample(r1);
    let c2 = clamped_sample(r2);
    assert(c1 <= c2);
    let x1 = (LEVELS + 2) * c1 - 2 * SAMPLE_SCALE;
    let x2 = (LEVELS + 2) * c2 - 2 * SAMPLE_SCALE;
    assert(x1 <= x2);
    vstd::arithmetic::div_mod::lemma_div_is_ordered(x1, x2, SAMPLE_SCALE as int);
}

} // verus!
