//! Capacitive touch sensing on a single GPIO line.
//!
//! The pad is discharged by driving the line low, then left floating while
//! it charges through the board's pull-up resistor. The number of timer ticks
//! it takes to read high tells a bare pad from a touched one.
//!
//! The library holds the decisions only: every entry point returns the
//! hardware [`Action`]s that the driver around it must carry out, in order,
//! on the line, the timer and the interrupt controller.
pub mod action;
pub mod cycle;
pub mod fsm;
pub mod polling;

pub use action::{Action, TouchEvent, TouchPin};
pub use fsm::{Settings, Touchpad, TouchpadState, TouchpadView, Transition};
