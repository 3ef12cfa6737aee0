//! One timed phase: the decisions taken on each event, from the start of
//! the phase to its end by elapsed time or by a quit command.
use vstd::prelude::*;
use crate::command::{key_step, CommandBuffer, Reaction};
use crate::event::Event;

verus! {

/// Nanoseconds in a millisecond, the unit of the display's position.
pub const NANOS_PER_MILLI: u128 = 1_000_000;

/// What the phase's driver is to do after an event.
#[derive(Clone, Copy, Debug, PartialEq, Eq, Structural)]
pub enum Step {
    /// After a tick: move the display to `millis`; if `finished`, the phase
    /// is over by time and the display is cleared.
    Progress { millis: u64, finished: bool },
    /// The command buffer changed: show it anew.
    Message,
    /// A quit command was submitted: clear the display and end everything.
    Quit,
    /// Nothing to do.
    Idle,
}

/// A tick that comes `elapsed` nanoseconds after the start ends a phase of
/// `duration` nanoseconds when it is strictly later.
pub open spec fn tick_finishes(duration: nat, elapsed: nat) -> bool {
    elapsed > duration
}

/// The step that a key reaction calls for.
pub open spec fn step_of_reaction(r: Reaction) -> Step {
    match r {
        Reaction::Ignored => Step::Idle,
        Reaction::Edited => Step::Message,
        Reaction::Quit => Step::Quit,
    }
}

/// The command buffer after an event and the step it calls for, in a phase
/// of `duration` nanoseconds, `elapsed` nanoseconds after its start.
pub open spec fn step_spec(duration: u128, b: Seq<char>, e: Event, elapsed: u128) -> (
    Seq<char>,
    Step,
) {
    match e {
        Event::Tick => (
            b,
            Step::Progress {
                millis: (elapsed / NANOS_PER_MILLI) as u64,
                finished: tick_finishes(duration as nat, elapsed as nat),
            },
        ),
        _ => (key_step(b, e).0, step_of_reaction(key_step(b, e).1)),
    }
}

/// Whether the display's length for a phase, in milliseconds, fits in `u64`.
pub open spec fn length_fits(duration: u128) -> bool {
    duration / NANOS_PER_MILLI <= u64::MAX
}

/// The state of one phase: its duration and the command being typed.
pub struct Session {
    duration: u128,
    command: CommandBuffer,
}

impl View for Session {
    /// The duration in nanoseconds and the command buffer.
    type V = (u128, Seq<char>);

    closed spec fn view(&self) -> (u128, Seq<char>) {
        (self.duration, self.command@)
    }
}

impl Session {
    /// Starts a phase of `duration` nanoseconds with an empty command
    /// buffer; none where the display's length in milliseconds does not fit.
    pub fn start(duration: u128) -> (r: Option<Session>)
        ensures
            r is Some <==> length_fits(duration),
            r is Some ==> r->0@ == (duration, Seq::<char>::empty()),
    {
        if duration / NANOS_PER_MILLI <= u64::MAX as u128 {
            Some(Session { duration, command: CommandBuffer::new() })
        } else {
            None
        }
    }

    /// The phase's duration in nanoseconds.
    pub fn duration(&self) -> (r: u128)
        ensures
            r == self@.0,
    {
        self.duration
    }

    /// The display's length: the duration in whole milliseconds.
    pub fn bar_length(&self) -> (r: u64)
        requires
            length_fits(self@.0),
        ensures
            r == self@.0 / NANOS_PER_MILLI,
    {
        (self.duration / NANOS_PER_MILLI) as u64
    }

    /// The command being typed, for the display's message.
    pub fn message(&self) -> (r: Vec<char>)
        ensures
            r@ == self@.1,
    {
        self.command.text()
    }

    /// Takes one event, `elapsed` nanoseconds after the phase started. A
    /// tick moves the display and ends the phase once `elapsed` exceeds the
    /// duration; a key event goes to the command buffer.
    pub fn step(&mut self, e: Event, elapsed: u128) -> (r: Step)
        requires
            e == Event::Tick ==> elapsed / NANOS_PER_MILLI <= u64::MAX,
        ensures
            final(self)@.0 == old(self)@.0,
            (final(self)@.1, r) == step_spec(old(self)@.0, old(self)@.1, e, elapsed),
    {
        match e {
            Event::Tick => Step::Progress {
                millis: (elapsed / NANOS_PER_MILLI) as u64,
                finished: elapsed > self.duration,
            },
            _ => match self.command.handle(e) {
                Reaction::Ignored => Step::Idle,
                Reaction::Edited => Step::Message,
                Reaction::Quit => Step::Quit,
            },
        }
    }
}

/// Whether a step ends the phase, by time or by a quit request.
pub open spec fn ends_phase(s: Step) -> bool {
    s == Step::Quit || (s is Progress && s->finished)
}

/// The position in `evs` (events with their elapsed times) of the event
/// that ends a phase begun with command buffer `b`, if any does.
pub open spec fn end_index(duration: u128, b: Seq<char>, evs: Seq<(Event, u128)>) -> Option<nat>
    decreases evs.len(),
{
    if evs.len() == 0 {
        None
    } else {
        let (nb, st) = step_spec(duration, b, evs[0].0, evs[0].1);
        if ends_phase(st) {
            Some(0)
        } else {
            match end_index(duration, nb, evs.drop_first()) {
                Some(i) => Some(i + 1),
                None => None,
            }
        }
    }
}

/// Whether running `evs` from buffer `b` submits a quit command before the
/// phase ends by time.
pub open spec fn quits(duration: u128, b: Seq<char>, evs: Seq<(Event, u128)>) -> bool
    decreases evs.len(),
{
    if evs.len() == 0 {
        false
    } else {
        let (nb, st) = step_spec(duration, b, evs[0].0, evs[0].1);
        if st == Step::Quit {
            true
        } else if ends_phase(st) {
            false
        } else {
            quits(duration, nb, evs.drop_first())
        }
    }
}

/// The position of the first tick in `evs` that comes after `duration`.
pub open spec fn first_late_tick(duration: u128, evs: Seq<(Event, u128)>) -> Option<nat>
    decreases evs.len(),
{
    if evs.len() == 0 {
        None
    } else if evs[0].0 == Event::Tick && tick_finishes(duration as nat, evs[0].1 as nat) {
        Some(0)
    } else {
        match first_late_tick(duration, evs.drop_first()) {
            Some(i) => Some(i + 1),
            None => None,
        }
    }
}

/// Unless a quit command is submitted, a phase ends exactly at the first
/// tick that comes after its duration, whatever keys are struck before.
pub proof fn lemma_keys_do_not_change_the_end(
    duration: u128,
    b: Seq<char>,
    evs: Seq<(Event, u128)>,
)
    requires
        !quits(duration, b, evs),
    ensures
        end_index(duration, b, evs) == first_late_tick(duration, evs),
    decreases evs.len(),
{
    if evs.len() > 0 {
        let (nb, st) = step_spec(duration, b, evs[0].0, evs[0].1);
        if !ends_phase(st) {
            lemma_keys_do_not_change_the_end(duration, nb, evs.drop_first());
        }
    }
}

/// With ticks every `interval` nanoseconds, a phase of `duration`
/// nanoseconds is not ended by ticks `1 ..= duration / interval` and is
/// ended by the next one; a tick's step does not depend on what was typed,
/// and no key event ends the phase by time.
pub proof fn lemma_phase_completion(duration: u128, interval: nat)
    requires
        interval > 0,
    ensures
        forall|k: nat|
            1 <= k <= duration as nat / interval ==> !tick_finishes(duration as nat, #[trigger] (k * interval)),
        tick_finishes(duration as nat, ((duration as nat / interval + 1) * interval) as nat),
        forall|b: Seq<char>, elapsed: u128|
            #[trigger] step_spec(duration, b, Event::Tick, elapsed).1 == step_spec(
                duration,
                Seq::empty(),
                Event::Tick,
                elapsed,
            ).1,
        forall|b: Seq<char>, e: Event, elapsed: u128|
            e != Event::Tick ==> !(#[trigger] step_spec(duration, b, e, elapsed).1 is Progress),
{
    let d = duration as nat;
    let q = d / interval;
    assert(d == q * interval + d % interval && d % interval < interval) by {
        vstd::arithmetic::div_mod::lemma_fundamental_div_mod(d as int, interval as int);
    }
    assert forall|k: nat| 1 <= k <= q implies !tick_finishes(d, #[trigger] (k * interval)) by {
        vstd::arithmetic::mul::lemma_mul_inequality(k as int, q as int, interval as int);
    }
    assert((q + 1) * interval == q * interval + interval) by (nonlinear_arith);
}

/// A phase of zero length ends on its first tick, whatever was typed,
/// without a quit request: every tick comes some time after the start.
pub proof fn lemma_zero_duration_ends_on_first_tick(b: Seq<char>, elapsed: u128)
    requires
        elapsed > 0,
    ensures
        step_spec(0, b, Event::Tick, elapsed).1 == (Step::Progress {
            millis: (elapsed / NANOS_PER_MILLI) as u64,
            finished: true,
        }),
{
}

} // verus!
