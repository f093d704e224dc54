//! The event loop as a state machine: from the loop's state and the outcome
//! of one read to the next state and what is to be written.

use vstd::prelude::*;
use vstd::string::*;
use crate::event::{EventView, Outcome, OutcomeView};
use crate::quit::{quits, remembered, QuitDetector, QUIT_WINDOW_MICROS};
use crate::render::{event_line, format_event};
use crate::time::Timestamp;

verus! {

/// Hint written to standard error before the first read.
pub const STARTUP_HINT: &'static str = "Press Q twice to quit...";

/// Notice written to standard error once the loop has stopped.
pub const FAREWELL: &'static str = "Exiting...";

/// The notice for a read that failed for good, where `description` says
/// what went wrong.
pub fn error_notice(description: &str) -> (notice: String)
    ensures
        notice@ == "an error has occured: "@ + description@,
{
    let mut notice = String::from_str("an error has occured: ");
    notice.append(description);
    notice
}

/// Whether the loop still reads events.
#[derive(Clone, Copy, Debug, PartialEq, Eq, Structural)]
pub enum LoopState {
    Running,
    /// The loop has ended, by the quit gesture or by a failed read. Nothing
    /// leads out of this state.
    Stopped,
}

/// What contracts say of a [`Monitor`]: the loop's state and the last press
/// of the quit key that its detector remembers.
pub struct MonitorView {
    pub state: LoopState,
    pub last_press: Timestamp,
}

/// What the caller is to do after one outcome was handled.
#[derive(Clone, Debug, PartialEq, Eq)]
pub enum Action {
    /// Write this line to standard output.
    Print(String),
    /// Write nothing.
    Nothing,
    /// Tell the user on standard error that reading failed with this error
    /// number.
    ReportError(i32),
}

/// What contracts say of an [`Action`].
pub enum ActionView {
    Print(Seq<char>),
    Nothing,
    ReportError(i32),
}

impl View for Action {
    type V = ActionView;

    open spec fn view(&self) -> ActionView {
        match self {
            Action::Print(line) => ActionView::Print(line@),
            Action::Nothing => ActionView::Nothing,
            Action::ReportError(errno) => ActionView::ReportError(*errno),
        }
    }
}

/// The state in which every monitor starts: running, no press remembered.
pub open spec fn initial() -> MonitorView {
    MonitorView { state: LoopState::Running, last_press: Timestamp { seconds: 0, microseconds: 0 } }
}

/// The state after one outcome.
pub open spec fn next_state(s: MonitorView, o: OutcomeView) -> MonitorView {
    match s.state {
        LoopState::Stopped => s,
        LoopState::Running => match o {
            OutcomeView::Event(ev) => MonitorView {
                state: if quits(s.last_press, ev) {
                    LoopState::Stopped
                } else {
                    LoopState::Running
                },
                last_press: remembered(s.last_press, ev),
            },
            OutcomeView::ResyncNeeded => s,
            OutcomeView::WouldBlock => s,
            OutcomeView::Fatal(_) => MonitorView {
                state: LoopState::Stopped,
                last_press: s.last_press,
            },
        },
    }
}

/// What is to be written for one outcome: the line of every event that
/// arrives while the loop runs, the quit key's own presses included; the
/// error of a failed read; nothing otherwise.
pub open spec fn action_for(s: MonitorView, o: OutcomeView) -> ActionView {
    match s.state {
        LoopState::Stopped => ActionView::Nothing,
        LoopState::Running => match o {
            OutcomeView::Event(ev) => ActionView::Print(event_line(ev)),
            OutcomeView::ResyncNeeded => ActionView::Nothing,
            OutcomeView::WouldBlock => ActionView::Nothing,
            OutcomeView::Fatal(errno) => ActionView::ReportError(errno),
        },
    }
}

/// The state after a sequence of outcomes, handled in order.
pub open spec fn run(s: MonitorView, outcomes: Seq<OutcomeView>) -> MonitorView
    decreases outcomes.len(),
{
    if outcomes.len() == 0 {
        s
    } else {
        next_state(run(s, outcomes.drop_last()), outcomes.last())
    }
}

/// The lines written to standard output over a sequence of outcomes.
pub open spec fn printed(s: MonitorView, outcomes: Seq<OutcomeView>) -> Seq<Seq<char>>
    decreases outcomes.len(),
{
    if outcomes.len() == 0 {
        Seq::empty()
    } else {
        let before = printed(s, outcomes.drop_last());
        match action_for(run(s, outcomes.drop_last()), outcomes.last()) {
            ActionView::Print(line) => before.push(line),
            _ => before,
        }
    }
}

/// The views of a sequence of outcomes.
pub open spec fn outcome_views(outcomes: Seq<Outcome>) -> Seq<OutcomeView> {
    outcomes.map_values(|o: Outcome| o@)
}

/// The texts of a sequence of lines.
pub open spec fn line_texts(lines: Seq<String>) -> Seq<Seq<char>> {
    lines.map_values(|l: String| l@)
}

/// The event loop's state: whether it still runs, and its quit detector.
#[derive(Clone, Copy, Debug)]
pub struct Monitor {
    state: LoopState,
    detector: QuitDetector,
}

impl View for Monitor {
    type V = MonitorView;

    closed spec fn view(&self) -> MonitorView {
        MonitorView { state: self.state, last_press: self.detector@ }
    }
}

impl Monitor {
    /// A running monitor that has seen nothing yet.
    pub fn new() -> (m: Monitor)
        ensures
            m@ == initial(),
    {
        Monitor { state: LoopState::Running, detector: QuitDetector::new() }
    }

    pub fn state(&self) -> (s: LoopState)
        ensures
            s == self@.state,
    {
        self.state
    }

    pub fn is_stopped(&self) -> (b: bool)
        ensures
            b == (self@.state is Stopped),
    {
        match self.state {
            LoopState::Stopped => true,
            LoopState::Running => false,
        }
    }

    /// The last press of the quit key that the detector remembers.
    pub fn last_press(&self) -> (t: Timestamp)
        ensures
            t == self@.last_press,
    {
        self.detector.last_press()
    }

    /// Handles the outcome of one read: moves to the next state and says
    /// what is to be written.
    pub fn handle(&mut self, outcome: &Outcome) -> (action: Action)
        ensures
            final(self)@ == next_state(old(self)@, outcome@),
            action@ == action_for(old(self)@, outcome@),
    {
        if self.is_stopped() {
            return Action::Nothing;
        }
        match outcome {
            Outcome::Event(ev) => {
                let line = format_event(ev);
                if self.detector.observe(ev) {
                    self.state = LoopState::Stopped;
                }
                Action::Print(line)
            },
            Outcome::ResyncNeeded => Action::Nothing,
            Outcome::WouldBlock => Action::Nothing,
            Outcome::Fatal(errno) => {
                self.state = LoopState::Stopped;
                Action::ReportError(*errno)
            },
        }
    }

    /// Runs the loop over outcomes that were recorded beforehand, up to the
    /// one that stops it, and returns the lines written to standard output.
    pub fn replay(&mut self, outcomes: &Vec<Outcome>) -> (lines: Vec<String>)
        ensures
            final(self)@ == run(old(self)@, outcome_views(outcomes@)),
            line_texts(lines@) == printed(old(self)@, outcome_views(outcomes@)),
    {
        let ghost all = outcome_views(outcomes@);
        let mut lines: Vec<String> = Vec::new();
        let mut i: usize = 0;
        while i < outcomes.len() && !self.is_stopped()
            invariant
                i <= outcomes.len(),
                all == outcome_views(outcomes@),
                self@ == run(old(self)@, all.take(i as int)),
                line_texts(lines@) == printed(old(self)@, all.take(i as int)),
            decreases outcomes.len() - i,
        {
            let action = self.handle(&outcomes[i]);
            if let Action::Print(line) = action {
                lines.push(line);
            }
            i = i + 1;
            assert(all.take(i as int).drop_last() =~= all.take(i - 1));
        }
        proof {
            assert(all.take(all.len() as int) =~= all);
            if i < outcomes.len() {
                lemma_run_splits(old(self)@, all.take(i as int), all.skip(i as int));
                lemma_stopped_stays(self@, all.skip(i as int));
                assert(all.take(i as int) + all.skip(i as int) =~= all);
            }
        }
        lines
    }
}

/// A stopped loop stays as it is and writes nothing, whatever comes.
pub proof fn lemma_stopped_stays(s: MonitorView, outcomes: Seq<OutcomeView>)
    requires
        s.state is Stopped,
    ensures
        run(s, outcomes) == s,
        printed(s, outcomes) == Seq::<Seq<char>>::empty(),
    decreases outcomes.len(),
{
    if outcomes.len() > 0 {
        lemma_stopped_stays(s, outcomes.drop_last());
    }
}

/// Handling one sequence of outcomes and then another is handling the two
/// joined: the states agree, and the lines of the second follow those of the
/// first.
pub proof fn lemma_run_splits(s: MonitorView, first: Seq<OutcomeView>, second: Seq<OutcomeView>)
    ensures
        run(s, first + second) == run(run(s, first), second),
        printed(s, first + second) == printed(s, first) + printed(run(s, first), second),
    decreases second.len(),
{
    if second.len() > 0 {
        lemma_run_splits(s, first, second.drop_last());
        assert((first + second).drop_last() =~= first + second.drop_last());
        let before = printed(s, first) + printed(run(s, first), second.drop_last());
        match action_for(run(s, first + second.drop_last()), second.last()) {
            ActionView::Print(line) => {
                assert(before.push(line) =~= printed(s, first) + printed(
                    run(s, first),
                    second.drop_last(),
                ).push(line));
            },
            _ => {},
        }
    }
}

/// Over events of which none is a press of the quit key, a running loop
/// keeps running, writes one line for each event, and remembers the press
/// it remembered before.
pub proof fn lemma_other_events_keep_running(s: MonitorView, outcomes: Seq<OutcomeView>)
    requires
        s.state is Running,
        forall|i: int|
            0 <= i < outcomes.len() ==> (#[trigger] outcomes[i] matches OutcomeView::Event(ev)
                && !ev.is_quit_press()),
    ensures
        run(s, outcomes) == s,
        printed(s, outcomes).len() == outcomes.len(),
        forall|i: int|
            0 <= i < outcomes.len() ==> (#[trigger] outcomes[i] matches OutcomeView::Event(ev)
                && printed(s, outcomes)[i] == event_line(ev)),
    decreases outcomes.len(),
{
    if outcomes.len() > 0 {
        let front = outcomes.drop_last();
        lemma_other_events_keep_running(s, front);
        assert forall|i: int| 0 <= i < outcomes.len() implies (#[trigger] outcomes[i] matches OutcomeView::Event(ev)
            && printed(s, outcomes)[i] == event_line(ev)) by {
            if i < front.len() {
                assert(front[i] == outcomes[i]);
            }
        }
    }
}

/// Over events only, a loop that started running and runs at the end has
/// written one line for each event.
pub proof fn lemma_one_line_per_event(s: MonitorView, outcomes: Seq<OutcomeView>)
    requires
        s.state is Running,
        forall|i: int| 0 <= i < outcomes.len() ==> #[trigger] outcomes[i] is Event,
        run(s, outcomes).state is Running,
    ensures
        printed(s, outcomes).len() == outcomes.len(),
    decreases outcomes.len(),
{
    if outcomes.len() > 0 {
        lemma_one_line_per_event(s, outcomes.drop_last());
    }
}

/// From the start, two presses of the quit key, the first at least the
/// length of the window after time zero and the second later than the first:
/// both are printed, and the loop stops exactly when the second comes less
/// than the length of the window after the first. Otherwise it remembers the
/// second.
pub proof fn lemma_double_tap_stops(first: EventView, second: EventView)
    requires
        first.is_quit_press(),
        second.is_quit_press(),
        first.time.micros() >= QUIT_WINDOW_MICROS,
        first.time.micros() < second.time.micros(),
    ensures
        ({
            let taps = seq![OutcomeView::Event(first), OutcomeView::Event(second)];
            &&& run(initial(), taps).state is Stopped <==> second.time.micros()
                - first.time.micros() < QUIT_WINDOW_MICROS
            &&& run(initial(), taps).state is Running ==> run(initial(), taps).last_press
                == second.time
            &&& printed(initial(), taps) == seq![event_line(first), event_line(second)]
        }),
{
    let taps = seq![OutcomeView::Event(first), OutcomeView::Event(second)];
    let one = seq![OutcomeView::Event(first)];
    assert(taps.drop_last() =~= one);
    assert(printed(initial(), one.drop_last()) =~= Seq::<Seq<char>>::empty());
    assert(printed(initial(), one) =~= seq![event_line(first)]);
    assert(printed(initial(), taps) =~= seq![event_line(first), event_line(second)]);
}

/// A read that found nothing, or one that asks for a resynchronisation,
/// writes nothing and leaves the state, with the press remembered, as it was.
pub proof fn lemma_transient_outcome_is_silent(s: MonitorView, o: OutcomeView)
    requires
        o is ResyncNeeded || o is WouldBlock,
    ensures
        next_state(s, o) == s,
        action_for(s, o) is Nothing,
{
}

/// Over any number of reads that found nothing or asked for a
/// resynchronisation, no line is written and the state stays as it was.
pub proof fn lemma_transient_outcomes_are_silent(s: MonitorView, outcomes: Seq<OutcomeView>)
    requires
        forall|i: int|
            0 <= i < outcomes.len() ==> (#[trigger] outcomes[i] is ResyncNeeded
                || outcomes[i] is WouldBlock),
    ensures
        run(s, outcomes) == s,
        printed(s, outcomes).len() == 0,
    decreases outcomes.len(),
{
    if outcomes.len() > 0 {
        lemma_transient_outcomes_are_silent(s, outcomes.drop_last());
    }
}

/// A failed read stops a running loop, writes no line, and leaves the press
/// remembered as it was.
pub proof fn lemma_failure_stops(s: MonitorView, errno: i32)
    requires
        s.state is Running,
    ensures
        next_state(s, OutcomeView::Fatal(errno)).state is Stopped,
        next_state(s, OutcomeView::Fatal(errno)).last_press == s.last_press,
        action_for(s, OutcomeView::Fatal(errno)) == ActionView::ReportError(errno),
{
}

} // verus!
