//! Runs of the state machine over a sequence of line readings, one per
//! timer expiry, and what holds of them.
use vstd::prelude::*;

use crate::action::Action;
use crate::fsm::{edge_actions, edge_next, timer_actions, timer_next, Settings, TouchpadState, TICK};

verus! {

/// Number of touch reports among `actions`.
pub open spec fn touch_reports(actions: Seq<Action>) -> nat
    decreases actions.len(),
{
    if actions.len() == 0 {
        0
    } else {
        touch_reports(actions.drop_last()) + if actions.last() is Pend {
            1nat
        } else {
            0nat
        }
    }
}

/// The phase reached from `s` after one timer expiry per reading in
/// `samples`.
pub open spec fn run(s: TouchpadState, threshold: u32, samples: Seq<bool>) -> TouchpadState
    decreases samples.len(),
{
    if samples.len() == 0 {
        s
    } else {
        timer_next(run(s, threshold, samples.drop_last()), threshold, samples.last())
    }
}

/// Number of touch reports made along [`run`].
pub open spec fn run_reports(s: TouchpadState, cfg: Settings, samples: Seq<bool>) -> nat
    decreases samples.len(),
{
    if samples.len() == 0 {
        0
    } else {
        run_reports(s, cfg, samples.drop_last()) + touch_reports(
            timer_actions(run(s, cfg.threshold, samples.drop_last()), cfg, samples.last()),
        )
    }
}

/// The phase reached like [`run`], except that the run stops once it is
/// back in Idle: the end of one cycle.
pub open spec fn cycle_state(s: TouchpadState, threshold: u32, samples: Seq<bool>) -> TouchpadState
    decreases samples.len(),
{
    if samples.len() == 0 {
        s
    } else {
        let st = cycle_state(s, threshold, samples.drop_last());
        if st is Idle {
            st
        } else {
            timer_next(st, threshold, samples.last())
        }
    }
}

/// Number of touch reports made along [`cycle_state`].
pub open spec fn cycle_reports(s: TouchpadState, cfg: Settings, samples: Seq<bool>) -> nat
    decreases samples.len(),
{
    if samples.len() == 0 {
        0
    } else {
        let st = cycle_state(s, cfg.threshold, samples.drop_last());
        cycle_reports(s, cfg, samples.drop_last()) + if st is Idle {
            0nat
        } else {
            touch_reports(timer_actions(st, cfg, samples.last()))
        }
    }
}

/// `k` readings of a line that stays low.
pub open spec fn lows(k: nat) -> Seq<bool> {
    Seq::new(k, |i: int| false)
}

/// A timer expiry reports a touch exactly when it ends a Sense phase whose
/// count has reached the threshold, and then only once.
pub proof fn lemma_timer_reports(s: TouchpadState, cfg: Settings, high: bool)
    ensures
        touch_reports(timer_actions(s, cfg, high)) == if s matches TouchpadState::Sense(n)
            && n >= cfg.threshold {
            1nat
        } else {
            0nat
        },
{
    reveal_with_fuel(touch_reports, 5);
    let a = timer_actions(s, cfg, high);
    match s {
        TouchpadState::Sense(n) => {
            if high || n >= cfg.threshold {
                let head = seq![Action::DisarmEdge(cfg.channel), Action::StartTimer(TICK)];
                assert(head.drop_last() =~= seq![Action::DisarmEdge(cfg.channel)]);
                assert(head.drop_last().drop_last() =~= Seq::<Action>::empty());
                if n >= cfg.threshold {
                    assert(a.drop_last() =~= head);
                } else {
                    assert(a =~= head);
                }
            } else {
                assert(a.drop_last() =~= Seq::<Action>::empty());
            }
        },
        TouchpadState::Idle => {
            assert(a.drop_last().drop_last() =~= Seq::<Action>::empty());
        },
        TouchpadState::Setup => {
            assert(a.drop_last().drop_last().drop_last() =~= Seq::<Action>::empty());
        },
        TouchpadState::SenseBackoff => {
            assert(a.drop_last() =~= Seq::<Action>::empty());
        },
    }
}

/// A rising edge during Sense acts on the phase and on touch reports as a
/// timer expiry that reads the line high; in any other phase it changes
/// nothing and reports nothing.
pub proof fn lemma_edge_is_high_reading(s: TouchpadState, cfg: Settings)
    ensures
        s is Sense ==> edge_next(s) == timer_next(s, cfg.threshold, true),
        s is Sense ==> touch_reports(edge_actions(s, cfg)) == touch_reports(
            timer_actions(s, cfg, true),
        ),
        !(s is Sense) ==> edge_next(s) == s && touch_reports(edge_actions(s, cfg)) == 0,
{
    reveal_with_fuel(touch_reports, 5);
    lemma_timer_reports(s, cfg, true);
    let a = edge_actions(s, cfg);
    if let TouchpadState::Sense(n) = s {
        let head = seq![Action::DisarmEdge(cfg.channel), Action::StopTimer, Action::StartTimer(TICK)];
        assert(head.drop_last().drop_last().drop_last() =~= Seq::<Action>::empty());
        if n >= cfg.threshold {
            assert(a.drop_last() =~= head);
        } else {
            assert(a =~= head);
        }
    }
}

/// Every reading among the first `k` of `samples` is low.
pub open spec fn low_through(samples: Seq<bool>, k: int) -> bool {
    forall|i: int| 0 <= i < k ==> !(#[trigger] samples[i])
}

/// Where one cycle from Sense(0) stands after `samples`: still counting
/// while every reading so far was low and under the threshold, past the
/// Sense phase otherwise, with the touch reports made so far.
proof fn lemma_sense_cycle(cfg: Settings, samples: Seq<bool>)
    ensures
        cycle_reports(TouchpadState::Sense(0), cfg, samples) == if samples.len() > cfg.threshold
            && low_through(samples, cfg.threshold as int) {
            1nat
        } else {
            0nat
        },
        low_through(samples, samples.len() as int) && samples.len() <= cfg.threshold
            ==> cycle_state(TouchpadState::Sense(0), cfg.threshold, samples)
            == TouchpadState::Sense(samples.len() as u32),
        !(low_through(samples, samples.len() as int) && samples.len() <= cfg.threshold) ==> {
            let st = cycle_state(TouchpadState::Sense(0), cfg.threshold, samples);
            st is SenseBackoff || st is Idle
        },
    decreases samples.len(),
{
    if samples.len() > 0 {
        let prev = samples.drop_last();
        let m = prev.len();
        let b = samples.last();
        lemma_sense_cycle(cfg, prev);
        let st = cycle_state(TouchpadState::Sense(0), cfg.threshold, prev);
        lemma_timer_reports(st, cfg, b);
        assert forall|i: int| 0 <= i < m implies prev[i] == samples[i] by {}
        if low_through(prev, m as int) && m <= cfg.threshold {
            if m < cfg.threshold && b {
                assert(samples[m as int] == b);
            }
        } else if low_through(samples, samples.len() as int) || (m >= cfg.threshold
            && low_through(samples, cfg.threshold as int)) {
            assert(low_through(prev, m as int) || low_through(prev, cfg.threshold as int));
        }
    }
}

/// Debounce: within one cycle that starts at Sense(0), with the line read
/// once per timer expiry, a touch is reported exactly when the first
/// `threshold` readings are all low and the phase lasts long enough to
/// count them; it is never reported twice.
pub proof fn lemma_debounce(cfg: Settings, samples: Seq<bool>)
    ensures
        cycle_reports(TouchpadState::Sense(0), cfg, samples) == if samples.len() > cfg.threshold
            && low_through(samples, cfg.threshold as int) {
            1nat
        } else {
            0nat
        },
        cycle_reports(TouchpadState::Sense(0), cfg, samples) <= 1,
{
    lemma_sense_cycle(cfg, samples);
}

proof fn lemma_low_run(cfg: Settings, k: nat)
    requires
        k <= cfg.threshold + 2,
    ensures
        k == 0 ==> run(TouchpadState::Idle, cfg.threshold, lows(k)) == TouchpadState::Idle,
        k == 1 ==> run(TouchpadState::Idle, cfg.threshold, lows(k)) == TouchpadState::Setup,
        k >= 2 ==> run(TouchpadState::Idle, cfg.threshold, lows(k)) == TouchpadState::Sense(
            (k - 2) as u32,
        ),
        run_reports(TouchpadState::Idle, cfg, lows(k)) == 0,
    decreases k,
{
    if k > 0 {
        assert(lows(k).drop_last() =~= lows((k - 1) as nat));
        lemma_low_run(cfg, (k - 1) as nat);
        lemma_timer_reports(run(TouchpadState::Idle, cfg.threshold, lows((k - 1) as nat)), cfg, false);
    }
}

/// Cycle closure: from Idle, with the line held low, the timer expiries
/// lead through Setup and Sense(0), Sense(1), ... up to Sense(threshold),
/// then to SenseBackoff with one touch report; the first high reading after
/// that returns to Idle.
pub proof fn lemma_cycle_closure(cfg: Settings)
    ensures
        run(TouchpadState::Idle, cfg.threshold, lows(1)) == TouchpadState::Setup,
        forall|k: nat|
            2 <= k <= cfg.threshold + 2 ==> #[trigger] run(TouchpadState::Idle, cfg.threshold, lows(k))
                == TouchpadState::Sense((k - 2) as u32),
        run(TouchpadState::Idle, cfg.threshold, lows((cfg.threshold + 3) as nat))
            == TouchpadState::SenseBackoff,
        run(TouchpadState::Idle, cfg.threshold, lows((cfg.threshold + 3) as nat).push(true))
            == TouchpadState::Idle,
        run_reports(TouchpadState::Idle, cfg, lows((cfg.threshold + 3) as nat).push(true)) == 1,
{
    lemma_low_run(cfg, 1);
    assert forall|k: nat| 2 <= k <= cfg.threshold + 2 implies #[trigger] run(
        TouchpadState::Idle,
        cfg.threshold,
        lows(k),
    ) == TouchpadState::Sense((k - 2) as u32) by {
        lemma_low_run(cfg, k);
    }
    let n: nat = (cfg.threshold + 3) as nat;
    let last = lows(n);
    assert(last.drop_last() =~= lows((n - 1) as nat));
    lemma_low_run(cfg, (n - 1) as nat);
    lemma_timer_reports(TouchpadState::Sense(cfg.threshold), cfg, false);
    assert(last.last() == false);
    assert(run(TouchpadState::Idle, cfg.threshold, last) == TouchpadState::SenseBackoff);
    assert(run_reports(TouchpadState::Idle, cfg, last) == 1);
    let high = last.push(true);
    assert(high.drop_last() =~= last);
    assert(high.last() == true);
    lemma_timer_reports(TouchpadState::SenseBackoff, cfg, true);
}

/// No touch: when the line reads high at the first expiry of the Sense
/// phase, the cycle goes Idle, Setup, Sense(0), SenseBackoff and reports
/// nothing, for any threshold above zero. The readings taken in Idle and
/// Setup do not matter.
pub proof fn lemma_no_touch(cfg: Settings, a: bool, b: bool)
    requires
        cfg.threshold > 0,
    ensures
        run(TouchpadState::Idle, cfg.threshold, seq![a, b]) == TouchpadState::Sense(0),
        run(TouchpadState::Idle, cfg.threshold, seq![a, b, true]) == TouchpadState::SenseBackoff,
        run_reports(TouchpadState::Idle, cfg, seq![a, b, true]) == 0,
{
    let s1 = seq![a];
    let s2 = seq![a, b];
    let s3 = seq![a, b, true];
    assert(s1.drop_last() =~= Seq::<bool>::empty());
    assert(s2.drop_last() =~= s1);
    assert(s3.drop_last() =~= s2);
    assert(s1.last() == a && s2.last() == b && s3.last() == true);
    lemma_timer_reports(TouchpadState::Idle, cfg, a);
    lemma_timer_reports(TouchpadState::Setup, cfg, b);
    lemma_timer_reports(TouchpadState::Sense(0), cfg, true);
    assert(run(TouchpadState::Idle, cfg.threshold, Seq::<bool>::empty()) == TouchpadState::Idle);
    assert(run(TouchpadState::Idle, cfg.threshold, s1) == TouchpadState::Setup);
    assert(run(TouchpadState::Idle, cfg.threshold, s2) == TouchpadState::Sense(0));
    assert(run_reports(TouchpadState::Idle, cfg, Seq::<bool>::empty()) == 0);
    assert(run_reports(TouchpadState::Idle, cfg, s1) == 0);
    assert(run_reports(TouchpadState::Idle, cfg, s2) == 0);
}

/// The tick count never wraps: a timer expiry in Sense(n) either moves to
/// Sense(n + 1) with n + 1 representable, or to SenseBackoff; at the
/// largest count it always moves to SenseBackoff and reports a touch.
pub proof fn lemma_count_never_wraps(n: u32, cfg: Settings, high: bool)
    ensures
        timer_next(TouchpadState::Sense(n), cfg.threshold, high) matches TouchpadState::Sense(m)
            ==> m == n + 1,
        timer_next(TouchpadState::Sense(n), cfg.threshold, high) is Sense
            || timer_next(TouchpadState::Sense(n), cfg.threshold, high) is SenseBackoff,
        n == u32::MAX ==> timer_next(TouchpadState::Sense(n), cfg.threshold, high)
            == TouchpadState::SenseBackoff,
        n == u32::MAX ==> touch_reports(timer_actions(TouchpadState::Sense(n), cfg, high)) == 1,
{
    lemma_timer_reports(TouchpadState::Sense(n), cfg, high);
}

} // verus!
