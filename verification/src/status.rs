//! What the caller shows of a run: whether one is going on, how far it is,
//! and the line of text that tells what it does.

use vstd::prelude::*;
use crate::event::{Event, Fraction, ProgressUpdate};
use crate::parser::{law_run_ends_once, run_events, terminal_only_last};
use crate::recognizer::ProfileView;

verus! {

/// The line of text shown for a run.
#[derive(Clone, Debug, PartialEq, Eq)]
pub enum StatusLine {
    /// This text.
    Text(String),
    /// How far the run is, for the caller to put in words.
    Progress(Fraction),
}

/// A status line with its text as a sequence of characters.
pub enum StatusLineView {
    Text(Seq<char>),
    Progress(Fraction),
}

impl View for StatusLine {
    type V = StatusLineView;

    open spec fn view(&self) -> StatusLineView {
        match *self {
            StatusLine::Text(text) => StatusLineView::Text(text@),
            StatusLine::Progress(fraction) => StatusLineView::Progress(fraction),
        }
    }
}

/// What is shown of a run. A run is going on exactly while there is a
/// progress to show.
#[derive(Clone, Debug, PartialEq, Eq)]
pub struct RunStatus {
    pub progress: Option<Fraction>,
    pub line: StatusLine,
}

/// A status with its text as a sequence of characters.
pub struct StatusView {
    pub progress: Option<Fraction>,
    pub line: StatusLineView,
}

impl View for RunStatus {
    type V = StatusView;

    open spec fn view(&self) -> StatusView {
        StatusView { progress: self.progress, line: self.line@ }
    }
}

impl StatusView {
    /// A run is going on.
    pub open spec fn running(self) -> bool {
        self.progress is Some
    }
}

/// The status before any run.
pub open spec fn idle_status() -> StatusView {
    StatusView { progress: None, line: StatusLineView::Text("Idle"@) }
}

/// The status at the start of a run, announced by `line`.
pub open spec fn started_status(line: Seq<char>) -> StatusView {
    StatusView {
        progress: Some(Fraction { current: 0, total: 1 }),
        line: StatusLineView::Text(line),
    }
}

/// The status after an event. A phase changes the line, progress changes
/// both, and the end of the run leaves its summary and nothing going on.
/// Where no run is going on the event is ignored.
pub open spec fn after_event(status: StatusView, event: Event) -> StatusView {
    if !status.running() {
        status
    } else {
        match event {
            Event::StageChanged(label) => StatusView {
                progress: status.progress,
                line: StatusLineView::Text(label),
            },
            Event::ProgressUpdated(fraction) => StatusView {
                progress: Some(fraction),
                line: StatusLineView::Progress(fraction),
            },
            Event::Completed(summary, _) => StatusView {
                progress: None,
                line: StatusLineView::Text(summary),
            },
        }
    }
}

/// The status after several events, taken in order.
pub open spec fn after_events(status: StatusView, events: Seq<Event>) -> StatusView
    decreases events.len(),
{
    if events.len() == 0 {
        status
    } else {
        after_event(after_events(status, events.drop_last()), events.last())
    }
}

/// Events that are not terminal leave a run going on.
pub proof fn lemma_still_running(status: StatusView, events: Seq<Event>)
    requires
        status.running(),
        forall|i: int| 0 <= i < events.len() ==> !(#[trigger] events[i]).is_terminal(),
    ensures
        after_events(status, events).running(),
    decreases events.len(),
{
    if events.len() > 0 {
        let front = events.drop_last();
        assert forall|i: int| 0 <= i < front.len() implies !(#[trigger] front[i]).is_terminal() by {
            assert(front[i] == events[i]);
        }
        lemma_still_running(status, front);
    }
}

/// Whatever the tool prints, a caller that takes all the events of a run
/// comes to rest: no run is going on any more, and the line shown is the
/// summary of the event that ended the run.
pub proof fn law_run_comes_to_rest(status: StatusView, profile: ProfileView, lines: Seq<Seq<char>>)
    requires
        status.running(),
    ensures
        !after_events(status, run_events(profile, lines)).running(),
        run_events(profile, lines).last() matches Event::Completed(summary, _) && after_events(
            status,
            run_events(profile, lines),
        ).line == StatusLineView::Text(summary),
{
    let events = run_events(profile, lines);
    law_run_ends_once(profile, lines);
    assert(terminal_only_last(events));
    let front = events.drop_last();
    assert forall|i: int| 0 <= i < front.len() implies !(#[trigger] front[i]).is_terminal() by {
        assert(front[i] == events[i]);
    }
    lemma_still_running(status, front);
}

impl RunStatus {
    /// The status before any run.
    pub fn idle() -> (status: RunStatus)
        ensures
            status@ == idle_status(),
    {
        RunStatus { progress: None, line: StatusLine::Text("Idle".to_owned()) }
    }

    /// Whether a run is going on.
    pub fn is_running(&self) -> (r: bool)
        ensures
            r == self@.running(),
    {
        self.progress.is_some()
    }

    /// Starts to show a run, announced by `line`. One run is shown at a
    /// time: while one is going on nothing changes and the answer is `false`.
    pub fn begin(&mut self, line: &str) -> (started: bool)
        ensures
            started == !old(self)@.running(),
            final(self)@ == if started {
                started_status(line@)
            } else {
                old(self)@
            },
    {
        if self.progress.is_some() {
            false
        } else {
            self.progress = Some(Fraction { current: 0, total: 1 });
            self.line = StatusLine::Text(line.to_owned());
            true
        }
    }

    /// Takes one event of the run.
    pub fn apply(&mut self, update: &ProgressUpdate)
        ensures
            final(self)@ == after_event(old(self)@, update@),
    {
        if self.progress.is_none() {
            return ;
        }
        match update {
            ProgressUpdate::StageChanged(label) => {
                self.line = StatusLine::Text(label.clone());
            },
            ProgressUpdate::ProgressUpdated(fraction) => {
                self.progress = Some(*fraction);
                self.line = StatusLine::Progress(*fraction);
            },
            ProgressUpdate::Completed(summary, _) => {
                self.progress = None;
                self.line = StatusLine::Text(summary.clone());
            },
        }
    }

    /// Takes the events that have come since the last look, in order, and
    /// tells whether a run is still going on.
    pub fn absorb(&mut self, updates: &Vec<ProgressUpdate>) -> (running: bool)
        ensures
            final(self)@ == after_events(old(self)@, updates.deep_view()),
            running == final(self)@.running(),
    {
        let mut i: usize = 0;
        assert(updates.deep_view().take(0) =~= Seq::<Event>::empty());
        while i < updates.len()
            invariant
                i <= updates.len(),
                self@ == after_events(old(self)@, updates.deep_view().take(i as int)),
            decreases updates.len() - i,
        {
            self.apply(&updates[i]);
            proof {
                let next = updates.deep_view().take(i + 1);
                assert(next.drop_last() =~= updates.deep_view().take(i as int));
                assert(next.last() == updates@[i as int]@);
            }
            i += 1;
        }
        assert(updates.deep_view().take(i as int) =~= updates.deep_view());
        self.progress.is_some()
    }
}

} // verus!
