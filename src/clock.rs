use vstd::prelude::*;

verus! {

/// The shortest physics step, in milliseconds of clock time.
pub const MIN_STEP_MS: u32 = 16;

/// The longest step the physics integrates at once, in milliseconds.
pub const MAX_STEP_MS: u32 = 50;

/// A step is due once at least `MIN_STEP_MS` have passed since the last one.
/// A reading below the last one (the counter wrapped) counts as not yet due.
pub open spec fn due(ticks: int, now: int) -> bool {
    now >= ticks + MIN_STEP_MS
}

/// The elapsed time of a step, capped at `MAX_STEP_MS`.
pub open spec fn delta_of(ticks: int, now: int) -> int {
    if now - ticks < MAX_STEP_MS {
        now - ticks
    } else {
        MAX_STEP_MS as int
    }
}

/// Whether the physics may advance, given the last recorded tick and the
/// current clock reading. Never overflows, whatever the readings.
pub fn step_due(ticks_count: u32, now: u32) -> (r: bool)
    ensures
        r == due(ticks_count as int, now as int),
{
    now >= MIN_STEP_MS && now - MIN_STEP_MS >= ticks_count
}

/// The time to integrate for a step from `ticks_count` to `now`.
pub fn step_delta_ms(ticks_count: u32, now: u32) -> (r: u32)
    requires
        now >= ticks_count,
    ensures
        r == delta_of(ticks_count as int, now as int),
        r <= MAX_STEP_MS,
{
    let elapsed = now - ticks_count;
    if elapsed < MAX_STEP_MS {
        elapsed
    } else {
        MAX_STEP_MS
    }
}

} // verus!
