//! The status events of one run.

use vstd::prelude::*;

verus! {

/// How a run ended.
#[derive(Clone, Copy, Debug, PartialEq, Eq, Structural)]
pub enum Outcome {
    Success,
    Failure,
}

/// How much of the work is done: `current` parts of `total`. The library
/// only makes fractions with a `total` above zero. A tool may report more
/// parts than the total; the fraction is then above one and is passed on as
/// it is.
#[derive(Clone, Copy, Debug, PartialEq, Eq, Structural)]
pub struct Fraction {
    pub current: u128,
    pub total: u128,
}

impl Fraction {
    /// The fraction has a value: its total is not zero.
    pub open spec fn wf(self) -> bool {
        self.total > 0
    }
}

/// One status event of a run.
#[derive(Clone, Debug, PartialEq, Eq)]
pub enum ProgressUpdate {
    /// The run entered the phase with this label.
    StageChanged(String),
    /// The run got this far.
    ProgressUpdated(Fraction),
    /// The run is over; the text sums it up. No event follows this one.
    Completed(String, Outcome),
}

/// A status event with its texts as sequences of characters.
pub enum Event {
    StageChanged(Seq<char>),
    ProgressUpdated(Fraction),
    Completed(Seq<char>, Outcome),
}

impl Event {
    /// The event ends its run.
    pub open spec fn is_terminal(self) -> bool {
        self is Completed
    }
}

impl View for ProgressUpdate {
    type V = Event;

    open spec fn view(&self) -> Event {
        match *self {
            ProgressUpdate::StageChanged(label) => Event::StageChanged(label@),
            ProgressUpdate::ProgressUpdated(fraction) => Event::ProgressUpdated(fraction),
            ProgressUpdate::Completed(summary, outcome) => Event::Completed(summary@, outcome),
        }
    }
}

impl DeepView for ProgressUpdate {
    type V = Event;

    open spec fn deep_view(&self) -> Event {
        self@
    }
}

impl ProgressUpdate {
    /// Whether the event ends its run.
    pub fn is_terminal(&self) -> (r: bool)
        ensures
            r == self@.is_terminal(),
    {
        match self {
            ProgressUpdate::Completed(_, _) => true,
            _ => false,
        }
    }
}

} // verus!
