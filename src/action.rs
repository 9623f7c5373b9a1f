//! The values exchanged with the hardware driver.
use vstd::prelude::*;

verus! {

/// Electrical mode of the touch line.
#[derive(Clone, Copy, Debug, PartialEq, Eq, Structural)]
pub enum TouchPin {
    /// Push-pull output driven low: the pad discharges.
    Output,
    /// Floating input: the pad charges and can be read.
    Input,
}

/// Debounced press and release reports, each with the tick count of the
/// measurement that produced it.
#[derive(Clone, Copy, Debug, PartialEq, Eq, Structural)]
pub enum TouchEvent {
    Press(u32),
    Release(u32),
}

/// One hardware operation that the driver performs for the library.
#[derive(Clone, Copy, Debug, PartialEq, Eq, Structural)]
pub enum Action {
    /// Switch the line to push-pull output, driven low.
    DriveLow,
    /// Switch the line to floating input.
    FloatInput,
    /// Start the one-shot timer for this many ticks, with its interrupt
    /// enabled. Starting it cancels any countdown in progress.
    StartTimer(u32),
    /// Disable the timer's interrupt.
    StopTimer,
    /// Arm the edge-detection channel for a rising edge on the line.
    ArmEdge(usize),
    /// Disarm the edge-detection channel.
    DisarmEdge(usize),
    /// Pend this interrupt number to report a confirmed touch.
    Pend(u16),
    /// Busy-wait this many microseconds.
    Delay(u32),
}

} // verus!
