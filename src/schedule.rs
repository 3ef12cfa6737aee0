//! The cycle of phases: four pairs of work and short break, then a long
//! break, over and over.
use vstd::prelude::*;

verus! {

/// Phases in one full cycle.
pub const CYCLE_LEN: u64 = 9;

/// The kind of a timed phase.
#[derive(Clone, Copy, Debug, PartialEq, Eq, Structural)]
pub enum PhaseKind {
    Work,
    ShortBreak,
    LongBreak,
}

/// The kind of the phase at position `i` of the schedule, counted from 0.
pub open spec fn phase_spec(i: nat) -> PhaseKind {
    let j = i % (CYCLE_LEN as nat);
    if j == 8 {
        PhaseKind::LongBreak
    } else if j % 2 == 0 {
        PhaseKind::Work
    } else {
        PhaseKind::ShortBreak
    }
}

/// The three phase durations, in nanoseconds.
#[derive(Clone, Copy, Debug, PartialEq, Eq, Structural)]
pub struct Config {
    pub work_time: u128,
    pub short_break: u128,
    pub long_break: u128,
}

/// The duration of a phase of the given kind.
pub open spec fn duration_spec(c: Config, kind: PhaseKind) -> u128 {
    match kind {
        PhaseKind::Work => c.work_time,
        PhaseKind::ShortBreak => c.short_break,
        PhaseKind::LongBreak => c.long_break,
    }
}

/// The kind of the phase at position `i` of the schedule.
pub fn phase_at(i: u64) -> (r: PhaseKind)
    ensures
        r == phase_spec(i as nat),
{
    let j = i % CYCLE_LEN;
    if j == 8 {
        PhaseKind::LongBreak
    } else if j % 2 == 0 {
        PhaseKind::Work
    } else {
        PhaseKind::ShortBreak
    }
}

/// The position after `i`, wrapped to the start of the cycle, so that it
/// never overflows and names the same phase as `i + 1`.
pub fn next_position(i: u64) -> (r: u64)
    ensures
        r < CYCLE_LEN,
        phase_spec(r as nat) == phase_spec(i as nat + 1),
{
    let r = (i % CYCLE_LEN + 1) % CYCLE_LEN;
    assert((i as nat + 1) % 9 == ((i as nat % 9) + 1) % 9) by {
        vstd::arithmetic::div_mod::lemma_add_mod_noop(i as int, 1, 9);
    }
    r
}

impl Config {
    /// The duration of a phase of the given kind.
    pub fn duration_of(&self, kind: PhaseKind) -> (r: u128)
        ensures
            r == duration_spec(*self, kind),
    {
        match kind {
            PhaseKind::Work => self.work_time,
            PhaseKind::ShortBreak => self.short_break,
            PhaseKind::LongBreak => self.long_break,
        }
    }
}

/// The name of a phase, as the display shows it.
pub fn label(kind: PhaseKind) -> (r: &'static str)
    ensures
        kind == PhaseKind::Work ==> r@ == "Working"@,
        kind == PhaseKind::ShortBreak ==> r@ == "Short Break"@,
        kind == PhaseKind::LongBreak ==> r@ == "Long Break"@,
{
    match kind {
        PhaseKind::Work => "Working",
        PhaseKind::ShortBreak => "Short Break",
        PhaseKind::LongBreak => "Long Break",
    }
}

/// Each cycle is four pairs of work and short break followed by one long
/// break, and the schedule repeats it without end.
pub proof fn lemma_cycle(i: nat)
    ensures
        phase_spec(i + 9) == phase_spec(i),
        forall|p: nat|
            p < 4 ==> #[trigger] phase_spec(9 * i + 2 * p) == PhaseKind::Work && phase_spec(
                9 * i + 2 * p + 1,
            ) == PhaseKind::ShortBreak,
        phase_spec(9 * i + 8) == PhaseKind::LongBreak,
{
    assert((i + 9) % 9 == i % 9) by {
        vstd::arithmetic::div_mod::lemma_mod_add_multiples_vanish(i as int, 9);
    }
    assert forall|p: nat| p < 4 implies #[trigger] phase_spec(9 * i + 2 * p) == PhaseKind::Work
        && phase_spec(9 * i + 2 * p + 1) == PhaseKind::ShortBreak by {
        vstd::arithmetic::div_mod::lemma_mod_multiples_vanish(i as int, 2 * p as int, 9);
        vstd::arithmetic::div_mod::lemma_mod_multiples_vanish(i as int, 2 * p + 1 as int, 9);
    }
    vstd::arithmetic::div_mod::lemma_mod_multiples_vanish(i as int, 8, 9);
}

} // verus!
