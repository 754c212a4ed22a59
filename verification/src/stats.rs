//! Session statistics: elapsed time and typing speed.

use vstd::prelude::*;

verus! {

/// The time between two refreshes of the live statistics, in milliseconds,
/// unless the program chooses another.
pub const DEFAULT_REFRESH_MS: u64 = 100;

/// The time from `since_ms` to `now_ms` in milliseconds; zero where the clock
/// went back.
pub open spec fn elapsed_between(since_ms: u64, now_ms: u64) -> u64 {
    if now_ms >= since_ms {
        (now_ms - since_ms) as u64
    } else {
        0
    }
}

/// Words per minute, in tenths and rounded to the nearest tenth: `words`
/// divided by the elapsed seconds, times sixty. Zero while no time has
/// passed.
pub open spec fn words_per_minute_tenths(words: nat, elapsed_ms: nat) -> nat {
    if elapsed_ms == 0 {
        0
    } else {
        ((words * 600_000 + elapsed_ms / 2) / elapsed_ms) as nat
    }
}

/// `words_per_minute_tenths`, held at `u64::MAX` where it would not fit.
pub open spec fn speed_tenths(words: nat, elapsed_ms: nat) -> u64 {
    if words_per_minute_tenths(words, elapsed_ms) > u64::MAX {
        u64::MAX
    } else {
        words_per_minute_tenths(words, elapsed_ms) as u64
    }
}

/// The statistics of a session at one moment.
#[derive(Clone, Copy, Debug, PartialEq, Eq, Structural)]
pub struct Stats {
    /// The number of words that count.
    pub words: usize,
    /// The time since the session started, in milliseconds.
    pub elapsed_ms: u64,
    /// The speed in tenths of a word per minute.
    pub wpm_tenths: u64,
}

/// The time from `since_ms` to `now_ms` in milliseconds; zero where the clock
/// went back.
pub fn elapsed_ms(since_ms: u64, now_ms: u64) -> (elapsed: u64)
    ensures
        elapsed == elapsed_between(since_ms, now_ms),
{
    if now_ms >= since_ms {
        now_ms - since_ms
    } else {
        0
    }
}

/// The speed at which `words` words were typed in `elapsed_ms` milliseconds,
/// in tenths of a word per minute.
pub fn wpm_tenths(words: usize, elapsed_ms: u64) -> (speed: u64)
    ensures
        speed == speed_tenths(words as nat, elapsed_ms as nat),
{
    if elapsed_ms == 0 {
        return 0;
    }
    let scaled: u128 = (words as u128) * 600_000 + (elapsed_ms as u128) / 2;
    let speed: u128 = scaled / (elapsed_ms as u128);
    if speed > u64::MAX as u128 {
        u64::MAX
    } else {
        speed as u64
    }
}

/// The statistics for `words` words typed between `since_ms` and `now_ms`.
pub fn stats_at(words: usize, since_ms: u64, now_ms: u64) -> (stats: Stats)
    ensures
        stats.words == words,
        stats.elapsed_ms == elapsed_between(since_ms, now_ms),
        stats.wpm_tenths == speed_tenths(words as nat, stats.elapsed_ms as nat),
{
    let elapsed = elapsed_ms(since_ms, now_ms);
    Stats { words, elapsed_ms: elapsed, wpm_tenths: wpm_tenths(words, elapsed) }
}

} // verus!
