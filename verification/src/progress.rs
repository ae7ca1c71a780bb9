//! Progress in fixed point, and the background task that reports it.

use vstd::prelude::*;
use crate::event::Event;

verus! {

/// Full progress: 100.00 percent, in hundredths of a percent.
pub const FULL: u16 = 10_000;

/// What the background task adds at each tick: one percent.
pub const STEP: u16 = 100;

/// The time between two ticks of the background task, in milliseconds.
pub const TICK_MILLIS: u64 = 100;

/// `value` brought into the range from nothing to `FULL`.
pub open spec fn clamped(value: int) -> nat {
    if value < 0 {
        0
    } else if value > FULL {
        FULL as nat
    } else {
        value as nat
    }
}

/// The progress one tick after `progress`: a step further, but never past
/// `FULL`.
pub open spec fn advanced(progress: nat) -> nat {
    if progress + STEP >= FULL {
        FULL as nat
    } else {
        (progress + STEP) as nat
    }
}

/// The progress after `ticks` ticks of a task that starts with nothing.
pub open spec fn after_ticks(ticks: nat) -> nat
    decreases ticks,
{
    if ticks == 0 {
        0
    } else {
        advanced(after_ticks((ticks - 1) as nat))
    }
}

/// Brings a reported value into the range from nothing to `FULL`.
pub fn clamp_progress(value: i32) -> (progress: u16)
    ensures
        progress == clamped(value as int),
        progress <= FULL,
{
    if value < 0 {
        0
    } else if value > FULL as i32 {
        FULL
    } else {
        value as u16
    }
}

/// The background task: it counts up from nothing in steps of one percent and
/// reports where it stands at each tick. It never stops by itself; once full,
/// it goes on reporting `FULL`.
pub struct ProgressProducer {
    progress: u16,
}

impl View for ProgressProducer {
    type V = nat;

    closed spec fn view(&self) -> nat {
        self.progress as nat
    }
}

impl ProgressProducer {
    #[verifier::type_invariant]
    spec fn in_range(self) -> bool {
        self.progress <= FULL
    }

    /// A task that has not started.
    pub fn new() -> (producer: ProgressProducer)
        ensures
            producer@ == 0,
    {
        ProgressProducer { progress: 0 }
    }

    /// Where the task stands.
    pub fn progress(&self) -> (progress: u16)
        ensures
            progress == self@,
            progress <= FULL,
    {
        proof {
            use_type_invariant(self);
        }
        self.progress
    }

    /// One tick: the task moves one step, stops at `FULL`, and reports the new
    /// value.
    pub fn tick(&mut self) -> (event: Event)
        ensures
            final(self)@ == advanced(old(self)@),
            old(self)@ <= final(self)@ <= FULL,
            event == Event::Progress(final(self)@ as i32),
    {
        proof {
            use_type_invariant(&*self);
        }
        if self.progress >= FULL - STEP {
            self.progress = FULL;
        } else {
            self.progress = self.progress + STEP;
        }
        Event::Progress(self.progress as i32)
    }
}

/// After `ticks` ticks the task stands at `ticks` steps, or at `FULL` if that
/// is less. So the hundredth tick reaches `FULL`, every later tick stays
/// there, and no tick ever takes progress back.
pub proof fn lemma_after_ticks(ticks: nat)
    ensures
        after_ticks(ticks) == if ticks * STEP <= FULL { ticks * STEP } else { FULL as int },
        after_ticks(100) == FULL,
        ticks >= 100 ==> after_ticks(ticks) == FULL,
        after_ticks(ticks) <= after_ticks(ticks + 1) <= FULL,
{
    lemma_steps_until_full(ticks);
    lemma_steps_until_full(ticks + 1);
    lemma_steps_until_full(100);
}

proof fn lemma_steps_until_full(ticks: nat)
    ensures
        after_ticks(ticks) == if ticks * STEP <= FULL { ticks * STEP } else { FULL as int },
    decreases ticks,
{
    if ticks > 0 {
        lemma_steps_until_full((ticks - 1) as nat);
    }
}

} // verus!
