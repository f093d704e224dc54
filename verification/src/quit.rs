//! The quit gesture: two presses of the quit key less than a fifth of a
//! second apart.

use vstd::prelude::*;
use crate::event::{DeviceEvent, EventView};
use crate::time::Timestamp;

verus! {

/// Two presses of the quit key closer together than this many microseconds
/// make the quit gesture.
pub const QUIT_WINDOW_MICROS: u64 = 200_000;

/// Whether a press at `now` follows a press at `last` closely enough to
/// complete the gesture. A `now` that lies before `last` never does.
pub open spec fn completes_gesture(last: Timestamp, now: Timestamp) -> bool {
    0 <= now.micros_after(last) < QUIT_WINDOW_MICROS
}

/// Whether a detector that last saw a press at `last` asks to quit on `ev`.
pub open spec fn quits(last: Timestamp, ev: EventView) -> bool {
    ev.is_quit_press() && completes_gesture(last, ev.time)
}

/// The press that a detector remembers after `ev`, having remembered `last`
/// before: the time of `ev` if it is a press of the quit key that does not
/// complete the gesture, and `last` otherwise.
pub open spec fn remembered(last: Timestamp, ev: EventView) -> Timestamp {
    if ev.is_quit_press() && !completes_gesture(last, ev.time) {
        ev.time
    } else {
        last
    }
}

/// Remembers the last press of the quit key. Its view is the time of that
/// press, zero before the first one.
#[derive(Clone, Copy, Debug)]
pub struct QuitDetector {
    last_press: Timestamp,
}

impl View for QuitDetector {
    type V = Timestamp;

    closed spec fn view(&self) -> Timestamp {
        self.last_press
    }
}

impl QuitDetector {
    /// A detector that has seen no press yet.
    pub fn new() -> (d: QuitDetector)
        ensures
            d@ == (Timestamp { seconds: 0, microseconds: 0 }),
    {
        QuitDetector { last_press: Timestamp::zero() }
    }

    /// The time of the last press remembered.
    pub fn last_press(&self) -> (t: Timestamp)
        ensures
            t == self@,
    {
        self.last_press
    }

    /// Takes note of `ev` and says whether it completes the quit gesture.
    /// Only a press of the quit key that does not complete the gesture
    /// changes what is remembered.
    pub fn observe(&mut self, ev: &DeviceEvent) -> (quit: bool)
        ensures
            quit == quits(old(self)@, ev@),
            final(self)@ == remembered(old(self)@, ev@),
    {
        if !ev.is_quit_press() {
            return false;
        }
        let close: bool = match ev.time.elapsed_since(&self.last_press) {
            Some(elapsed) => elapsed < QUIT_WINDOW_MICROS as u128,
            None => false,
        };
        if !close {
            self.last_press = ev.time;
        }
        close
    }
}

/// A first press of the quit key, at least the length of the window after
/// time zero, never completes the gesture: it is remembered instead.
pub proof fn lemma_first_press_arms(ev: EventView)
    requires
        ev.is_quit_press(),
        ev.time.micros() >= QUIT_WINDOW_MICROS,
    ensures
        !quits(Timestamp { seconds: 0, microseconds: 0 }, ev),
        remembered(Timestamp { seconds: 0, microseconds: 0 }, ev) == ev.time,
{
}

/// Of two presses of the quit key, the second later than the first, where
/// the first did not itself complete the gesture: the second completes it
/// exactly when it comes less than the length of the window after the first.
pub proof fn lemma_second_press_decides(last: Timestamp, first: EventView, second: EventView)
    requires
        first.is_quit_press(),
        second.is_quit_press(),
        first.time.micros() < second.time.micros(),
        !quits(last, first),
    ensures
        quits(remembered(last, first), second) <==> second.time.micros() - first.time.micros()
            < QUIT_WINDOW_MICROS,
        !quits(remembered(last, first), second) <==> second.time.micros() - first.time.micros()
            >= QUIT_WINDOW_MICROS,
        !quits(remembered(last, first), second) ==> remembered(remembered(last, first), second)
            == second.time,
{
}

/// A release or a repeat of the quit key, and any event of another key or
/// category, neither completes the gesture nor changes what is remembered.
pub proof fn lemma_only_presses_count(last: Timestamp, ev: EventView)
    requires
        !ev.is_quit_press(),
    ensures
        !quits(last, ev),
        remembered(last, ev) == last,
{
}

/// While events come in the order of their times, what is remembered never
/// moves back.
pub proof fn lemma_remembered_moves_forward(last: Timestamp, ev: EventView)
    requires
        last.micros() <= ev.time.micros(),
    ensures
        last.micros() <= remembered(last, ev).micros(),
{
}

} // verus!
