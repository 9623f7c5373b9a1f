//! The blocking variant: the driver discharges the pad, then samples the
//! line once per microsecond, and the library counts.
use vstd::prelude::*;

use crate::action::{Action, TouchPin};
use crate::cycle::{low_through, run};
use crate::fsm::{timer_next, TouchpadState};

verus! {

/// Microseconds for which the pad is discharged before a count.
pub const RESET_TIME: u32 = 10;

/// The count that a measurement has reached after the line was read as
/// `samples`, one per tick: `Some(count)` once it is finished, `None` while
/// it goes on.
pub open spec fn polled_count(count: u32, max_ticks: u32, samples: Seq<bool>) -> Option<u32>
    decreases samples.len(),
{
    if samples.len() == 0 {
        None
    } else if count < max_ticks && !samples[0] {
        polled_count((count + 1) as u32, max_ticks, samples.drop_first())
    } else {
        Some(count)
    }
}

/// What a polled [`Touchpad`] holds, seen as plain values.
pub struct PollView {
    /// Mode of the line.
    pub pin: TouchPin,
    /// A count is under way.
    pub measuring: bool,
    /// Ticks counted so far.
    pub count: u32,
    /// The count stops here.
    pub max_ticks: u32,
}

/// A touchpad read by polling. The line stays a floating input between
/// measurements.
pub struct Touchpad {
    pin: TouchPin,
    measuring: bool,
    count: u32,
    max_ticks: u32,
}

impl View for Touchpad {
    type V = PollView;

    closed spec fn view(&self) -> PollView {
        PollView {
            pin: self.pin,
            measuring: self.measuring,
            count: self.count,
            max_ticks: self.max_ticks,
        }
    }
}

impl Touchpad {
    /// Takes the line, which must be a floating input.
    pub fn new(pin: TouchPin) -> (r: Touchpad)
        requires
            pin == TouchPin::Input,
        ensures
            r@ == (PollView { pin: TouchPin::Input, measuring: false, count: 0, max_ticks: 0 }),
    {
        Touchpad { pin, measuring: false, count: 0, max_ticks: 0 }
    }

    /// Starts a measurement of at most `max_ticks` ticks. The driver
    /// performs the returned actions (discharge, settle, release the line),
    /// then reads the line and hands each reading to [`Touchpad::sample`].
    pub fn sense(&mut self, max_ticks: u32) -> (r: Vec<Action>)
        ensures
            final(self)@ == (PollView { pin: TouchPin::Input, measuring: true, count: 0, max_ticks }),
            r@ == seq![Action::DriveLow, Action::Delay(RESET_TIME), Action::FloatInput],
    {
        let mut actions: Vec<Action> = Vec::new();
        actions.push(Action::DriveLow);
        actions.push(Action::Delay(RESET_TIME));
        actions.push(Action::FloatInput);
        self.pin = TouchPin::Input;
        self.measuring = true;
        self.count = 0;
        self.max_ticks = max_ticks;
        assert(actions@ =~= seq![Action::DriveLow, Action::Delay(RESET_TIME), Action::FloatInput]);
        actions
    }

    /// Takes one reading of the line during a measurement. `None`: the pad
    /// is still charging; wait one tick and read again. `Some(count)`: the
    /// line read high or the count reached its bound; this is the charge
    /// time in ticks.
    pub fn sample(&mut self, pin_high: bool) -> (r: Option<u32>)
        requires
            old(self)@.measuring,
        ensures
            r == (if old(self)@.count < old(self)@.max_ticks && !pin_high {
                None
            } else {
                Some(old(self)@.count)
            }),
            final(self)@.pin == old(self)@.pin,
            final(self)@.max_ticks == old(self)@.max_ticks,
            r is None ==> final(self)@.measuring && final(self)@.count == old(self)@.count + 1,
            r is Some ==> !final(self)@.measuring && final(self)@.count == old(self)@.count,
    {
        if self.count < self.max_ticks && !pin_high {
            self.count = self.count + 1;
            None
        } else {
            self.measuring = false;
            Some(self.count)
        }
    }

    /// Whether a measurement is under way.
    pub fn is_measuring(&self) -> (r: bool)
        ensures
            r == self@.measuring,
    {
        self.measuring
    }
}

proof fn lemma_polled_count(count: u32, max_ticks: u32, samples: Seq<bool>)
    ensures
        polled_count(count, max_ticks, samples) matches Some(k) ==> {
            &&& count <= k
            &&& (count <= max_ticks ==> k <= max_ticks)
            &&& k - count < samples.len()
            &&& low_through(samples, k - count)
            &&& (k >= max_ticks || samples[k - count])
        },
    decreases samples.len(),
{
    if samples.len() > 0 && count < max_ticks && !samples[0] {
        let rest = samples.drop_first();
        lemma_polled_count((count + 1) as u32, max_ticks, rest);
        if let Some(k) = polled_count(count, max_ticks, samples) {
            assert forall|i: int| 0 <= i < k - count implies !(#[trigger] samples[i]) by {
                if i > 0 {
                    assert(samples[i] == rest[i - 1]);
                }
            }
            assert(samples[k - count] == rest[k - count - 1]);
        }
    }
}

proof fn lemma_low_sense_run(threshold: u32, samples: Seq<bool>)
    requires
        low_through(samples, samples.len() as int),
        samples.len() <= threshold,
    ensures
        run(TouchpadState::Sense(0), threshold, samples) == TouchpadState::Sense(samples.len() as u32),
    decreases samples.len(),
{
    if samples.len() > 0 {
        let prev = samples.drop_last();
        assert forall|i: int| 0 <= i < prev.len() implies !(#[trigger] prev[i]) by {
            assert(prev[i] == samples[i]);
        }
        lemma_low_sense_run(threshold, prev);
        assert(!samples[samples.len() - 1]);
    }
}

/// A polled measurement counts as the interrupt-driven Sense phase does:
/// with the bound equal to the threshold and the same readings, when the
/// count finishes at `k`, the timer expiries from Sense(0) pass through
/// Sense(0) to Sense(k) and the next one leaves for SenseBackoff.
pub proof fn lemma_polling_matches_timer(threshold: u32, samples: Seq<bool>)
    ensures
        polled_count(0, threshold, samples) matches Some(k) ==> {
            &&& forall|j: int|
                0 <= j <= k ==> #[trigger] run(TouchpadState::Sense(0), threshold, samples.take(j))
                    == TouchpadState::Sense(j as u32)
            &&& run(TouchpadState::Sense(0), threshold, samples.take(k + 1))
                == TouchpadState::SenseBackoff
        },
{
    lemma_polled_count(0, threshold, samples);
    if let Some(k) = polled_count(0, threshold, samples) {
        assert forall|j: int| 0 <= j <= k implies #[trigger] run(
            TouchpadState::Sense(0),
            threshold,
            samples.take(j),
        ) == TouchpadState::Sense(j as u32) by {
            let p = samples.take(j);
            assert forall|i: int| 0 <= i < p.len() implies !(#[trigger] p[i]) by {
                assert(p[i] == samples[i]);
            }
            lemma_low_sense_run(threshold, p);
        }
        let p = samples.take(k + 1);
        assert(p.drop_last() =~= samples.take(k as int));
        assert(p.last() == samples[k as int]);
        assert(run(TouchpadState::Sense(0), threshold, samples.take(k as int))
            == TouchpadState::Sense(k));
        assert(run(TouchpadState::Sense(0), threshold, p) == timer_next(
            TouchpadState::Sense(k),
            threshold,
            samples[k as int],
        ));
    }
}

} // verus!
