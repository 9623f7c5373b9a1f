use mb2_touch::{Action, Settings, TouchEvent, TouchPin, Touchpad, TouchpadState};

fn settings(threshold: u32) -> Settings {
    Settings { threshold, discharge: 1000, channel: 0, touch_interrupt: 7 }
}

fn pends(actions: &[Action]) -> usize {
    actions.iter().filter(|a| matches!(a, Action::Pend(_))).count()
}

#[test]
fn scenario_full_touch_cycle() {
    let (mut tp, primed) = Touchpad::new(TouchPin::Input, settings(100));
    assert_eq!(tp.state(), TouchpadState::Setup);
    assert_eq!(tp.pin(), TouchPin::Output);
    assert_eq!(primed, vec![Action::DriveLow, Action::StartTimer(1000)]);

    let acts = tp.timer_interrupt(false);
    assert_eq!(tp.state(), TouchpadState::Sense(0));
    assert_eq!(tp.pin(), TouchPin::Input);
    assert_eq!(acts, vec![Action::FloatInput, Action::StartTimer(1), Action::ArmEdge(0)]);

    let mut total = 0;
    for i in 0..100u32 {
        let acts = tp.timer_interrupt(false);
        assert_eq!(acts, vec![Action::StartTimer(1)]);
        assert_eq!(tp.state(), TouchpadState::Sense(i + 1));
        total += pends(&acts);
    }
    assert_eq!(total, 0);
    let acts = tp.timer_interrupt(false);
    total += pends(&acts);
    assert_eq!(tp.state(), TouchpadState::SenseBackoff);
    assert_eq!(acts, vec![Action::DisarmEdge(0), Action::StartTimer(1), Action::Pend(7)]);
    assert_eq!(total, 1);
    assert_eq!(tp.get_event(), Some(TouchEvent::Press(100)));

    // The line stays low: backoff goes on, with no further report.
    for _ in 0..5 {
        let acts = tp.timer_interrupt(false);
        assert_eq!(acts, vec![Action::StartTimer(1)]);
        assert_eq!(tp.state(), TouchpadState::SenseBackoff);
    }
    let acts = tp.timer_interrupt(true);
    assert_eq!(acts, vec![Action::StartTimer(1)]);
    assert_eq!(tp.state(), TouchpadState::Idle);
    assert_eq!(tp.pin(), TouchPin::Input);
}

#[test]
fn scenario_edge_below_threshold() {
    let cfg = settings(100);
    let t = TouchpadState::Sense(50).on_edge(&cfg);
    assert_eq!(t.next, TouchpadState::SenseBackoff);
    assert_eq!(t.actions, vec![Action::DisarmEdge(0), Action::StopTimer, Action::StartTimer(1)]);
    assert_eq!(pends(&t.actions), 0);
}

#[test]
fn scenario_edge_above_threshold() {
    let cfg = settings(100);
    let t = TouchpadState::Sense(150).on_edge(&cfg);
    assert_eq!(t.next, TouchpadState::SenseBackoff);
    assert_eq!(
        t.actions,
        vec![Action::DisarmEdge(0), Action::StopTimer, Action::StartTimer(1), Action::Pend(7)]
    );
}

#[test]
fn edge_on_touchpad_during_sense() {
    let (mut tp, _) = Touchpad::new(TouchPin::Input, settings(100));
    tp.timer_interrupt(false);
    for _ in 0..50 {
        tp.timer_interrupt(false);
    }
    assert_eq!(tp.state(), TouchpadState::Sense(50));
    let acts = tp.gpiote_interrupt();
    assert_eq!(acts, vec![Action::DisarmEdge(0), Action::StopTimer, Action::StartTimer(1)]);
    assert_eq!(tp.state(), TouchpadState::SenseBackoff);
    assert_eq!(tp.status(), TouchEvent::Release(0));
    assert_eq!(tp.get_event(), None);
}

#[test]
fn edge_ignored_outside_sense() {
    let (mut tp, _) = Touchpad::new(TouchPin::Input, settings(100));
    assert!(tp.gpiote_interrupt().is_empty());
    assert_eq!(tp.state(), TouchpadState::Setup);
    assert_eq!(tp.pin(), TouchPin::Output);
    let cfg = settings(100);
    for s in [TouchpadState::Idle, TouchpadState::Setup, TouchpadState::SenseBackoff] {
        let t = s.on_edge(&cfg);
        assert_eq!(t.next, s);
        assert!(t.actions.is_empty());
    }
}

#[test]
fn no_touch_round_trip() {
    let (mut tp, _) = Touchpad::new(TouchPin::Input, settings(100));
    tp.timer_interrupt(false);
    assert_eq!(tp.state(), TouchpadState::Sense(0));
    let acts = tp.timer_interrupt(true);
    assert_eq!(tp.state(), TouchpadState::SenseBackoff);
    assert_eq!(acts, vec![Action::DisarmEdge(0), Action::StartTimer(1)]);
    assert_eq!(pends(&acts), 0);
    assert_eq!(tp.get_event(), None);
}

#[test]
fn zero_threshold_reports_at_once() {
    let cfg = settings(0);
    let t = TouchpadState::Sense(0).on_timer(&cfg, true);
    assert_eq!(t.next, TouchpadState::SenseBackoff);
    assert_eq!(pends(&t.actions), 1);
}

#[test]
fn count_does_not_wrap() {
    let cfg = settings(u32::MAX);
    let t = TouchpadState::Sense(u32::MAX - 1).on_timer(&cfg, false);
    assert_eq!(t.next, TouchpadState::Sense(u32::MAX));
    let t = TouchpadState::Sense(u32::MAX).on_timer(&cfg, false);
    assert_eq!(t.next, TouchpadState::SenseBackoff);
    assert_eq!(pends(&t.actions), 1);
}

#[test]
fn cycle_closes_and_restarts() {
    let (mut tp, _) = Touchpad::new(TouchPin::Input, settings(3));
    let mut states = vec![tp.state()];
    let mut total = 0;
    for _ in 0..6 {
        total += pends(&tp.timer_interrupt(false));
        states.push(tp.state());
    }
    total += pends(&tp.timer_interrupt(true));
    states.push(tp.state());
    assert_eq!(
        states,
        vec![
            TouchpadState::Setup,
            TouchpadState::Sense(0),
            TouchpadState::Sense(1),
            TouchpadState::Sense(2),
            TouchpadState::Sense(3),
            TouchpadState::SenseBackoff,
            TouchpadState::SenseBackoff,
            TouchpadState::Idle,
        ]
    );
    assert_eq!(total, 1);
    let acts = tp.timer_interrupt(false);
    assert_eq!(acts, vec![Action::DriveLow, Action::StartTimer(1000)]);
    assert_eq!(tp.state(), TouchpadState::Setup);
}

#[test]
fn press_then_release_events() {
    let (mut tp, _) = Touchpad::new(TouchPin::Input, settings(2));
    // First cycle: touched.
    tp.timer_interrupt(false);
    tp.timer_interrupt(false);
    tp.timer_interrupt(false);
    tp.timer_interrupt(false);
    assert_eq!(tp.state(), TouchpadState::SenseBackoff);
    assert_eq!(tp.status(), TouchEvent::Press(2));
    assert_eq!(tp.get_event(), Some(TouchEvent::Press(2)));
    tp.clear_event();
    assert_eq!(tp.get_event(), None);
    tp.timer_interrupt(true);
    assert_eq!(tp.state(), TouchpadState::Idle);
    // Second cycle: touched again, no new event.
    tp.timer_interrupt(false);
    tp.timer_interrupt(false);
    tp.timer_interrupt(false);
    tp.timer_interrupt(false);
    tp.timer_interrupt(false);
    assert_eq!(tp.state(), TouchpadState::SenseBackoff);
    assert_eq!(tp.get_event(), None);
    tp.timer_interrupt(true);
    // Third cycle: released after one tick.
    tp.timer_interrupt(false);
    tp.timer_interrupt(false);
    tp.timer_interrupt(false);
    tp.timer_interrupt(true);
    assert_eq!(tp.state(), TouchpadState::SenseBackoff);
    assert_eq!(tp.status(), TouchEvent::Release(1));
    assert_eq!(tp.get_event(), Some(TouchEvent::Release(1)));
}

#[test]
fn start_measurement_only_from_idle() {
    let (mut tp, _) = Touchpad::new(TouchPin::Input, settings(1));
    assert!(tp.start_measurement().is_empty());
    assert_eq!(tp.state(), TouchpadState::Setup);
    tp.timer_interrupt(false);
    tp.timer_interrupt(true);
    tp.timer_interrupt(true);
    assert_eq!(tp.state(), TouchpadState::Idle);
    let acts = tp.start_measurement();
    assert_eq!(acts, vec![Action::DriveLow, Action::StartTimer(1000)]);
    assert_eq!(tp.state(), TouchpadState::Setup);
    assert_eq!(tp.pin(), TouchPin::Output);
}

#[test]
fn settings_are_kept() {
    let cfg = Settings { threshold: 9, discharge: 64000, channel: 2, touch_interrupt: 20 };
    let (mut tp, primed) = Touchpad::new(TouchPin::Input, cfg);
    assert_eq!(primed, vec![Action::DriveLow, Action::StartTimer(64000)]);
    let acts = tp.timer_interrupt(false);
    assert_eq!(acts, vec![Action::FloatInput, Action::StartTimer(1), Action::ArmEdge(2)]);
    assert_eq!(tp.settings(), cfg);
}

#[test]
fn debounce_high_one_tick_short() {
    let cfg = settings(4);
    let samples = [false, false, false, true, false, false];
    let mut state = TouchpadState::Sense(0);
    let mut total = 0;
    for &high in &samples {
        if state == TouchpadState::Idle {
            break;
        }
        let t = state.on_timer(&cfg, high);
        total += pends(&t.actions);
        state = t.next;
    }
    assert_eq!(total, 0);
    assert_eq!(state, TouchpadState::SenseBackoff);
}

#[test]
fn debounce_counts_from_sense_zero() {
    let cfg = settings(4);
    let samples = [false, false, false, false, true, true, false];
    let mut state = TouchpadState::Sense(0);
    let mut total = 0;
    for &high in &samples {
        if state == TouchpadState::Idle {
            break;
        }
        let t = state.on_timer(&cfg, high);
        total += pends(&t.actions);
        state = t.next;
    }
    assert_eq!(total, 1);
    assert_eq!(state, TouchpadState::Idle);
}
