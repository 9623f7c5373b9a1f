//! The interrupt-driven sensing state machine.
//!
//! A cycle runs Idle -> Setup (discharge) -> Sense (count ticks while the pad
//! charges) -> SenseBackoff (wait for the line to settle high) -> Idle. The
//! timer interrupt advances it one step per expiry; the edge interrupt cuts
//! the Sense phase short when the line rises.
use vstd::prelude::*;

use crate::action::{Action, TouchEvent, TouchPin};

verus! {

/// Timer ticks between two samples of the line while sensing or backing off.
pub const TICK: u32 = 1;

/// Phase of a sensing cycle.
#[derive(Clone, Copy, Debug, PartialEq, Eq, Structural)]
pub enum TouchpadState {
    /// Waiting to begin a new cycle; the line is a floating input.
    Idle,
    /// Discharging the pad; the line is driven low.
    Setup,
    /// Charging; the count is the number of ticks elapsed since the phase
    /// began. The line is a floating input.
    Sense(u32),
    /// Cooling down after a measurement until the line reads high.
    SenseBackoff,
}

/// Fixed parameters of a touchpad.
#[derive(Clone, Copy, Debug, PartialEq, Eq, Structural)]
pub struct Settings {
    /// Tick count from which a measurement counts as a touch.
    pub threshold: u32,
    /// Timer ticks for which the pad is discharged.
    pub discharge: u32,
    /// Edge-detection channel watching the line.
    pub channel: usize,
    /// Interrupt pended on a confirmed touch.
    pub touch_interrupt: u16,
}

/// A state of the machine together with the actions that lead into it.
pub struct Transition {
    pub next: TouchpadState,
    pub actions: Vec<Action>,
}

/// The electrical mode that the line must be in during a phase.
pub open spec fn line_mode(s: TouchpadState) -> TouchPin {
    match s {
        TouchpadState::Setup => TouchPin::Output,
        _ => TouchPin::Input,
    }
}

/// The phase after a timer expiry, with the line read as `high`.
pub open spec fn timer_next(s: TouchpadState, threshold: u32, high: bool) -> TouchpadState {
    match s {
        TouchpadState::Idle => TouchpadState::Setup,
        TouchpadState::Setup => TouchpadState::Sense(0),
        TouchpadState::Sense(n) => if high || n >= threshold {
            TouchpadState::SenseBackoff
        } else {
            TouchpadState::Sense((n + 1) as u32)
        },
        TouchpadState::SenseBackoff => if high {
            TouchpadState::Idle
        } else {
            TouchpadState::SenseBackoff
        },
    }
}

/// The touch report made when a measurement of `n` ticks ends.
pub open spec fn report(n: u32, cfg: Settings) -> Seq<Action> {
    if n >= cfg.threshold {
        seq![Action::Pend(cfg.touch_interrupt)]
    } else {
        seq![]
    }
}

/// The actions of a timer expiry in phase `s`, with the line read as `high`.
pub open spec fn timer_actions(s: TouchpadState, cfg: Settings, high: bool) -> Seq<Action> {
    match s {
        TouchpadState::Idle => seq![Action::DriveLow, Action::StartTimer(cfg.discharge)],
        TouchpadState::Setup => seq![
            Action::FloatInput,
            Action::StartTimer(TICK),
            Action::ArmEdge(cfg.channel),
        ],
        TouchpadState::Sense(n) => if high || n >= cfg.threshold {
            seq![Action::DisarmEdge(cfg.channel), Action::StartTimer(TICK)] + report(n, cfg)
        } else {
            seq![Action::StartTimer(TICK)]
        },
        TouchpadState::SenseBackoff => seq![Action::StartTimer(TICK)],
    }
}

/// The phase after a rising edge on the line.
pub open spec fn edge_next(s: TouchpadState) -> TouchpadState {
    match s {
        TouchpadState::Sense(_) => TouchpadState::SenseBackoff,
        _ => s,
    }
}

/// The actions of a rising edge in phase `s`.
pub open spec fn edge_actions(s: TouchpadState, cfg: Settings) -> Seq<Action> {
    match s {
        TouchpadState::Sense(n) => seq![
            Action::DisarmEdge(cfg.channel),
            Action::StopTimer,
            Action::StartTimer(TICK),
        ] + report(n, cfg),
        _ => seq![],
    }
}

impl TouchpadState {
    /// Step taken on a timer expiry; `pin_high` is the level read from the
    /// line, which only matters while the line is an input.
    pub fn on_timer(self, cfg: &Settings, pin_high: bool) -> (r: Transition)
        ensures
            r.next == timer_next(self, cfg.threshold, pin_high),
            r.actions@ == timer_actions(self, *cfg, pin_high),
    {
        let mut actions: Vec<Action> = Vec::new();
        let next = match self {
            TouchpadState::Idle => {
                actions.push(Action::DriveLow);
                actions.push(Action::StartTimer(cfg.discharge));
                TouchpadState::Setup
            },
            TouchpadState::Setup => {
                actions.push(Action::FloatInput);
                actions.push(Action::StartTimer(TICK));
                actions.push(Action::ArmEdge(cfg.channel));
                TouchpadState::Sense(0)
            },
            TouchpadState::Sense(n) => {
                if pin_high || n >= cfg.threshold {
                    actions.push(Action::DisarmEdge(cfg.channel));
                    actions.push(Action::StartTimer(TICK));
                    if n >= cfg.threshold {
                        actions.push(Action::Pend(cfg.touch_interrupt));
                    }
                    TouchpadState::SenseBackoff
                } else {
                    actions.push(Action::StartTimer(TICK));
                    TouchpadState::Sense(n + 1)
                }
            },
            TouchpadState::SenseBackoff => {
                actions.push(Action::StartTimer(TICK));
                if pin_high {
                    TouchpadState::Idle
                } else {
                    TouchpadState::SenseBackoff
                }
            },
        };
        assert(actions@ =~= timer_actions(self, *cfg, pin_high));
        Transition { next, actions }
    }

    /// Step taken on a rising edge of the line: it ends a Sense phase early
    /// and is ignored in every other phase.
    pub fn on_edge(self, cfg: &Settings) -> (r: Transition)
        ensures
            r.next == edge_next(self),
            r.actions@ == edge_actions(self, *cfg),
    {
        let mut actions: Vec<Action> = Vec::new();
        let next = match self {
            TouchpadState::Sense(n) => {
                actions.push(Action::DisarmEdge(cfg.channel));
                actions.push(Action::StopTimer);
                actions.push(Action::StartTimer(TICK));
                if n >= cfg.threshold {
                    actions.push(Action::Pend(cfg.touch_interrupt));
                }
                TouchpadState::SenseBackoff
            },
            _ => self,
        };
        assert(actions@ =~= edge_actions(self, *cfg));
        Transition { next, actions }
    }
}

/// What a [`Touchpad`] holds, seen as plain values.
pub struct TouchpadView {
    pub state: TouchpadState,
    pub pin: TouchPin,
    pub settings: Settings,
    pub pressed: TouchEvent,
    pub event: Option<TouchEvent>,
}

impl TouchpadView {
    /// The line is in the mode that the current phase needs.
    pub open spec fn wf(self) -> bool {
        self.pin == line_mode(self.state)
    }
}

/// The debounced status after a measurement of `n` ticks.
pub open spec fn pressed_after(pressed: TouchEvent, n: u32, threshold: u32) -> TouchEvent {
    if n >= threshold {
        if pressed is Press {
            pressed
        } else {
            TouchEvent::Press(n)
        }
    } else {
        if pressed is Release {
            pressed
        } else {
            TouchEvent::Release(n)
        }
    }
}

/// The published event after a measurement of `n` ticks: a new status is
/// published, an unchanged one leaves the last event as it was.
pub open spec fn event_after(
    pressed: TouchEvent,
    event: Option<TouchEvent>,
    n: u32,
    threshold: u32,
) -> Option<TouchEvent> {
    let p = pressed_after(pressed, n, threshold);
    if p == pressed {
        event
    } else {
        Some(p)
    }
}

/// The touchpad after moving to phase `next`: the line follows the phase,
/// and a measurement that ends updates the debounced status.
pub open spec fn advance(v: TouchpadView, next: TouchpadState) -> TouchpadView {
    let ends = v.state is Sense && next is SenseBackoff;
    TouchpadView {
        state: next,
        pin: line_mode(next),
        settings: v.settings,
        pressed: if ends {
            pressed_after(v.pressed, v.state->Sense_0, v.settings.threshold)
        } else {
            v.pressed
        },
        event: if ends {
            event_after(v.pressed, v.event, v.state->Sense_0, v.settings.threshold)
        } else {
            v.event
        },
    }
}

/// The touchpad after a timer expiry with the line read as `high`.
pub open spec fn timer_view(v: TouchpadView, high: bool) -> TouchpadView {
    advance(v, timer_next(v.state, v.settings.threshold, high))
}

/// The touchpad after a rising edge of the line.
pub open spec fn edge_view(v: TouchpadView) -> TouchpadView {
    advance(v, edge_next(v.state))
}

/// A capacitive touchpad driven by a timer interrupt and an edge interrupt.
pub struct Touchpad {
    state: TouchpadState,
    pin: TouchPin,
    settings: Settings,
    pressed: TouchEvent,
    event: Option<TouchEvent>,
}

impl View for Touchpad {
    type V = TouchpadView;

    closed spec fn view(&self) -> TouchpadView {
        TouchpadView {
            state: self.state,
            pin: self.pin,
            settings: self.settings,
            pressed: self.pressed,
            event: self.event,
        }
    }
}

impl Touchpad {
    /// Takes the line, which must be a floating input, and primes the first
    /// cycle at once, as if the timer had expired in Idle: the returned
    /// actions start the discharge.
    pub fn new(pin: TouchPin, settings: Settings) -> (r: (Touchpad, Vec<Action>))
        requires
            pin == TouchPin::Input,
        ensures
            r.0@ == (TouchpadView {
                state: TouchpadState::Setup,
                pin: TouchPin::Output,
                settings,
                pressed: TouchEvent::Release(0),
                event: None,
            }),
            r.0@.wf(),
            r.1@ == seq![Action::DriveLow, Action::StartTimer(settings.discharge)],
    {
        let mut touchpad = Touchpad {
            state: TouchpadState::Idle,
            pin,
            settings,
            pressed: TouchEvent::Release(0),
            event: None,
        };
        let actions = touchpad.start_measurement();
        (touchpad, actions)
    }

    /// Moves to phase `next`, keeping the line and the debounced status in
    /// step with it.
    fn enter(&mut self, next: TouchpadState)
        ensures
            final(self)@ == advance(old(self)@, next),
    {
        if let TouchpadState::Sense(n) = self.state {
            if let TouchpadState::SenseBackoff = next {
                let pressed = if n >= self.settings.threshold {
                    if let TouchEvent::Press(_) = self.pressed {
                        self.pressed
                    } else {
                        TouchEvent::Press(n)
                    }
                } else {
                    if let TouchEvent::Release(_) = self.pressed {
                        self.pressed
                    } else {
                        TouchEvent::Release(n)
                    }
                };
                if pressed != self.pressed {
                    self.pressed = pressed;
                    self.event = Some(pressed);
                }
            }
        }
        self.state = next;
        self.pin = match next {
            TouchpadState::Setup => TouchPin::Output,
            _ => TouchPin::Input,
        };
    }

    /// Begins a cycle now if the touchpad is Idle, exactly as a timer expiry
    /// would; does nothing while a cycle is under way.
    pub fn start_measurement(&mut self) -> (r: Vec<Action>)
        requires
            old(self)@.wf(),
        ensures
            final(self)@.wf(),
            old(self)@.state is Idle ==> final(self)@ == timer_view(old(self)@, false),
            old(self)@.state is Idle ==> r@ == timer_actions(
                TouchpadState::Idle,
                old(self)@.settings,
                false,
            ),
            !(old(self)@.state is Idle) ==> final(self)@ == old(self)@ && r@.len() == 0,
    {
        if let TouchpadState::Idle = self.state {
            let t = self.state.on_timer(&self.settings, false);
            self.enter(t.next);
            t.actions
        } else {
            Vec::new()
        }
    }

    /// Handles a timer expiry: exactly one step of the cycle. `pin_high` is
    /// the level of the line, read by the caller while the line is an input.
    pub fn timer_interrupt(&mut self, pin_high: bool) -> (r: Vec<Action>)
        requires
            old(self)@.wf(),
        ensures
            final(self)@ == timer_view(old(self)@, pin_high),
            final(self)@.wf(),
            r@ == timer_actions(old(self)@.state, old(self)@.settings, pin_high),
    {
        let t = self.state.on_timer(&self.settings, pin_high);
        self.enter(t.next);
        t.actions
    }

    /// Handles a rising edge of the line: ends a Sense phase early, and is
    /// ignored in every other phase.
    pub fn gpiote_interrupt(&mut self) -> (r: Vec<Action>)
        requires
            old(self)@.wf(),
        ensures
            final(self)@ == edge_view(old(self)@),
            final(self)@.wf(),
            r@ == edge_actions(old(self)@.state, old(self)@.settings),
    {
        let t = self.state.on_edge(&self.settings);
        self.enter(t.next);
        t.actions
    }

    /// The current phase.
    pub fn state(&self) -> (r: TouchpadState)
        ensures
            r == self@.state,
    {
        self.state
    }

    /// The mode the line is in.
    pub fn pin(&self) -> (r: TouchPin)
        ensures
            r == self@.pin,
    {
        self.pin
    }

    /// The settings the touchpad was made with.
    pub fn settings(&self) -> (r: Settings)
        ensures
            r == self@.settings,
    {
        self.settings
    }

    /// The debounced status: pressed or released, with the tick count of
    /// the measurement that set it.
    pub fn status(&self) -> (r: TouchEvent)
        ensures
            r == self@.pressed,
    {
        self.pressed
    }

    /// The most recent change of status not yet cleared.
    pub fn get_event(&self) -> (r: Option<TouchEvent>)
        ensures
            r == self@.event,
    {
        self.event
    }

    /// Forgets the most recent change of status.
    pub fn clear_event(&mut self)
        ensures
            final(self)@ == (TouchpadView { event: None, ..old(self)@ }),
    {
        self.event = None;
    }
}

} // verus!
