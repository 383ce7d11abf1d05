//! The parser of one run: it takes the lines of the tool's output one by one
//! and gives the events of the run, the last of which ends it.

use vstd::prelude::*;
use crate::event::{Event, Outcome, ProgressUpdate};
use crate::pattern;
use crate::recognizer::{classify, fraction_from, first_stage, ProfileView, RecognizerProfile};
use crate::text::{chars_of, contains};

verus! {

/// What a parser knows between two lines: its recognizers, and whether the
/// event that ends the run has been given.
pub struct ParserState {
    pub profile: ProfileView,
    pub done: bool,
}

/// The state before the first line.
pub open spec fn fresh(profile: ProfileView) -> ParserState {
    ParserState { profile, done: false }
}

/// The summary of a run whose output ended, or could not be read any
/// further, before the tool reported success.
pub open spec fn ended_summary() -> Seq<char> {
    "process ended unexpectedly"@
}

/// The summary of a run that was cancelled.
pub open spec fn cancelled_summary() -> Seq<char> {
    "run cancelled"@
}

/// One line: the state after it and the event it gives. While the run goes
/// on a line gives the event it means; once the run is over every line is
/// ignored.
pub open spec fn step(state: ParserState, line: Seq<char>) -> (ParserState, Option<Event>) {
    if state.done {
        (state, None)
    } else {
        match classify(state.profile, line) {
            Some(event) => (
                ParserState { profile: state.profile, done: event.is_terminal() },
                Some(event),
            ),
            None => (state, None),
        }
    }
}

/// The end of a run from outside, with the summary that tells why: a run
/// that goes on fails, a run that is over stays as it is.
pub open spec fn stop(state: ParserState, summary: Seq<char>) -> (ParserState, Option<Event>) {
    if state.done {
        (state, None)
    } else {
        (
            ParserState { profile: state.profile, done: true },
            Some(Event::Completed(summary, Outcome::Failure)),
        )
    }
}

/// What comes in for a run: a line of output, the end of the output (or an
/// error in reading it), or the cancellation of the run.
pub enum Input {
    Line(Seq<char>),
    Ended,
    Cancelled,
}

impl Input {
    /// The input ends a run that goes on.
    pub open spec fn closes(self) -> bool {
        self is Ended || self is Cancelled
    }
}

/// One input: the state after it and the event it gives.
pub open spec fn react(state: ParserState, input: Input) -> (ParserState, Option<Event>) {
    match input {
        Input::Line(line) => step(state, line),
        Input::Ended => stop(state, ended_summary()),
        Input::Cancelled => stop(state, cancelled_summary()),
    }
}

/// `events` with `event` at its end, where there is one.
pub open spec fn with_event(events: Seq<Event>, event: Option<Event>) -> Seq<Event> {
    match event {
        Some(e) => events.push(e),
        None => events,
    }
}

/// Several inputs, one after the other: the state after them and the events
/// they give, in the order in which the inputs came.
pub open spec fn drive(state: ParserState, inputs: Seq<Input>) -> (ParserState, Seq<Event>)
    decreases inputs.len(),
{
    if inputs.len() == 0 {
        (state, Seq::empty())
    } else {
        let (before, events) = drive(state, inputs.drop_last());
        let (after, event) = react(before, inputs.last());
        (after, with_event(events, event))
    }
}

/// The lines as inputs.
pub open spec fn as_inputs(lines: Seq<Seq<char>>) -> Seq<Input> {
    Seq::new(lines.len(), |i: int| Input::Line(lines[i]))
}

/// Several lines, one after the other: the state after them and the events
/// they give, in the order of the lines.
pub open spec fn feed(state: ParserState, lines: Seq<Seq<char>>) -> (ParserState, Seq<Event>) {
    drive(state, as_inputs(lines))
}

/// The events of a whole run: those of its lines, then the failure of the
/// run where no line ended it.
pub open spec fn run_events(profile: ProfileView, lines: Seq<Seq<char>>) -> Seq<Event> {
    drive(fresh(profile), as_inputs(lines).push(Input::Ended)).1
}

/// The line makes the run succeed: it holds the success marker and no
/// banner.
pub open spec fn reports_success(profile: ProfileView, line: Seq<char>) -> bool {
    first_stage(profile.stages, line) is None && contains(line, profile.success_marker)
}

/// No event but the last is terminal.
pub open spec fn terminal_only_last(events: Seq<Event>) -> bool {
    forall|i: int| 0 <= i < events.len() - 1 ==> !(#[trigger] events[i]).is_terminal()
}

/// The lines but the last are the inputs but the last.
pub proof fn lemma_as_inputs_step(lines: Seq<Seq<char>>)
    requires
        lines.len() > 0,
    ensures
        as_inputs(lines).drop_last() == as_inputs(lines.drop_last()),
        as_inputs(lines).last() == Input::Line(lines.last()),
{
    assert(as_inputs(lines).drop_last() =~= as_inputs(lines.drop_last()));
}

/// Feeding one line more is one step more.
pub proof fn lemma_feed_step(state: ParserState, lines: Seq<Seq<char>>)
    requires
        lines.len() > 0,
    ensures
        feed(state, lines).0 == step(feed(state, lines.drop_last()).0, lines.last()).0,
        feed(state, lines).1 == with_event(
            feed(state, lines.drop_last()).1,
            step(feed(state, lines.drop_last()).0, lines.last()).1,
        ),
{
    lemma_as_inputs_step(lines);
}

/// A whole run is its lines and then the end of the output.
pub proof fn lemma_run_events(profile: ProfileView, lines: Seq<Seq<char>>)
    ensures
        run_events(profile, lines) == with_event(
            feed(fresh(profile), lines).1,
            stop(feed(fresh(profile), lines).0, ended_summary()).1,
        ),
{
    let inputs = as_inputs(lines).push(Input::Ended);
    assert(inputs.drop_last() =~= as_inputs(lines));
}

/// The events given so far tell whether the run is over: it is over exactly
/// when the last of them is terminal, and none before the last is.
pub proof fn lemma_drive_shape(profile: ProfileView, inputs: Seq<Input>)
    ensures
        drive(fresh(profile), inputs).0.profile == profile,
        drive(fresh(profile), inputs).0.done <==> (drive(fresh(profile), inputs).1.len() > 0
            && drive(fresh(profile), inputs).1.last().is_terminal()),
        terminal_only_last(drive(fresh(profile), inputs).1),
    decreases inputs.len(),
{
    if inputs.len() > 0 {
        lemma_drive_shape(profile, inputs.drop_last());
    }
}

/// Inputs taken in two parts give what they give when taken at once.
pub proof fn law_drive_in_parts(state: ParserState, first: Seq<Input>, second: Seq<Input>)
    ensures
        drive(state, first + second).0 == drive(drive(state, first).0, second).0,
        drive(state, first + second).1 == drive(state, first).1 + drive(
            drive(state, first).0,
            second,
        ).1,
    decreases second.len(),
{
    if second.len() == 0 {
        assert(first + second =~= first);
        assert(drive(state, first).1 + Seq::<Event>::empty() =~= drive(state, first).1);
    } else {
        assert((first + second).drop_last() =~= first + second.drop_last());
        assert((first + second).last() == second.last());
        law_drive_in_parts(state, first, second.drop_last());
        let middle = drive(state, first).0;
        let (before, events) = drive(middle, second.drop_last());
        let event = react(before, second.last()).1;
        assert(with_event(drive(state, first).1 + events, event) =~= drive(state, first).1
            + with_event(events, event));
    }
}

/// Lines fed in two parts give what they give when fed at once.
pub proof fn law_feed_in_parts(state: ParserState, first: Seq<Seq<char>>, second: Seq<Seq<char>>)
    ensures
        feed(state, first + second).0 == feed(feed(state, first).0, second).0,
        feed(state, first + second).1 == feed(state, first).1 + feed(
            feed(state, first).0,
            second,
        ).1,
{
    assert(as_inputs(first + second) =~= as_inputs(first) + as_inputs(second));
    law_drive_in_parts(state, as_inputs(first), as_inputs(second));
}

/// A parser that is done gives no event, whatever comes in.
pub proof fn law_silent_when_done(state: ParserState, inputs: Seq<Input>)
    requires
        state.done,
    ensures
        drive(state, inputs) == (state, Seq::<Event>::empty()),
    decreases inputs.len(),
{
    if inputs.len() > 0 {
        law_silent_when_done(state, inputs.drop_last());
    }
}

/// Once the end of the output or a cancellation has come in, the run is
/// over.
pub proof fn law_closed_is_done(profile: ProfileView, inputs: Seq<Input>, at: int)
    requires
        0 <= at < inputs.len(),
        inputs[at].closes(),
    ensures
        drive(fresh(profile), inputs).0.done,
    decreases inputs.len(),
{
    let front = inputs.drop_last();
    if at < inputs.len() - 1 {
        assert(front[at] == inputs[at]);
        law_closed_is_done(profile, front, at);
    }
}

/// A run that is over has exactly one terminal event, whatever came in and
/// in whatever order, and it is the last event of the run.
pub proof fn law_one_terminal_event(profile: ProfileView, inputs: Seq<Input>)
    requires
        drive(fresh(profile), inputs).0.done,
    ensures
        drive(fresh(profile), inputs).1.len() > 0,
        drive(fresh(profile), inputs).1.last().is_terminal(),
        terminal_only_last(drive(fresh(profile), inputs).1),
{
    lemma_drive_shape(profile, inputs);
}

/// The events of a whole run hold exactly one terminal event, and it is the
/// last of them.
pub proof fn law_run_ends_once(profile: ProfileView, lines: Seq<Seq<char>>)
    ensures
        run_events(profile, lines).len() > 0,
        run_events(profile, lines).last().is_terminal(),
        terminal_only_last(run_events(profile, lines)),
{
    let inputs = as_inputs(lines).push(Input::Ended);
    law_closed_is_done(profile, inputs, inputs.len() - 1);
    law_one_terminal_event(profile, inputs);
}

/// While no line reports success the run goes on.
pub proof fn lemma_goes_on(profile: ProfileView, lines: Seq<Seq<char>>)
    requires
        forall|i: int| 0 <= i < lines.len() ==> !reports_success(profile, #[trigger] lines[i]),
    ensures
        !feed(fresh(profile), lines).0.done,
    decreases lines.len(),
{
    if lines.len() > 0 {
        let front = lines.drop_last();
        assert forall|i: int| 0 <= i < front.len() implies !reports_success(
            profile,
            #[trigger] front[i],
        ) by {
            assert(front[i] == lines[i]);
        }
        lemma_goes_on(profile, front);
        lemma_drive_shape(profile, as_inputs(front));
        lemma_feed_step(fresh(profile), lines);
        assert(!reports_success(profile, lines[lines.len() - 1]));
    }
}

/// A run whose output ends without a line that reports success ends in
/// failure, with the summary of an output that ended.
pub proof fn law_failure_without_success(profile: ProfileView, lines: Seq<Seq<char>>)
    requires
        forall|i: int| 0 <= i < lines.len() ==> !reports_success(profile, #[trigger] lines[i]),
    ensures
        run_events(profile, lines).last() == Event::Completed(ended_summary(), Outcome::Failure),
{
    lemma_goes_on(profile, lines);
    lemma_run_events(profile, lines);
}

/// A run in whose output the success marker never occurs ends in failure.
pub proof fn law_failure_without_marker(profile: ProfileView, lines: Seq<Seq<char>>)
    requires
        forall|i: int| 0 <= i < lines.len() ==> !contains(#[trigger] lines[i], profile.success_marker),
    ensures
        run_events(profile, lines).last() == Event::Completed(ended_summary(), Outcome::Failure),
{
    law_failure_without_success(profile, lines);
}

/// Lines alone end a run only in success.
pub proof fn lemma_done_is_success(profile: ProfileView, lines: Seq<Seq<char>>)
    requires
        feed(fresh(profile), lines).0.done,
    ensures
        feed(fresh(profile), lines).1.len() > 0,
        feed(fresh(profile), lines).1.last() == Event::Completed(
            profile.success_summary,
            Outcome::Success,
        ),
    decreases lines.len(),
{
    if lines.len() > 0 {
        let front = lines.drop_last();
        lemma_drive_shape(profile, as_inputs(front));
        lemma_feed_step(fresh(profile), lines);
        if feed(fresh(profile), front).0.done {
            lemma_done_is_success(profile, front);
        }
    }
}

/// A run in whose output a line reports success ends in success.
pub proof fn law_success_with_marker(profile: ProfileView, lines: Seq<Seq<char>>, at: int)
    requires
        0 <= at < lines.len(),
        reports_success(profile, lines[at]),
    ensures
        run_events(profile, lines).last() == Event::Completed(
            profile.success_summary,
            Outcome::Success,
        ),
    decreases lines.len(),
{
    let front = lines.drop_last();
    lemma_drive_shape(profile, as_inputs(front));
    lemma_drive_shape(profile, as_inputs(lines));
    lemma_feed_step(fresh(profile), lines);
    lemma_run_events(profile, lines);
    lemma_run_events(profile, front);
    if at < lines.len() - 1 {
        assert(front[at] == lines[at]);
        law_success_with_marker(profile, front, at);
    } else if feed(fresh(profile), front).0.done {
        lemma_done_is_success(profile, front);
    }
}

/// A line that means something short of the end of the run gives its event
/// each time it comes: events that repeat are passed on as they are.
pub proof fn law_repeated_line(state: ParserState, line: Seq<char>, event: Event)
    requires
        !state.done,
        classify(state.profile, line) == Some(event),
        !event.is_terminal(),
    ensures
        feed(state, seq![line, line]).1 == seq![event, event],
{
    let twice = seq![line, line];
    lemma_feed_step(state, twice);
    assert(twice.drop_last() =~= seq![line]);
    lemma_feed_step(state, seq![line]);
    assert(seq![line].drop_last() =~= Seq::<Seq<char>>::empty());
    assert(as_inputs(Seq::<Seq<char>>::empty()) =~= Seq::<Input>::empty());
    assert(feed(state, seq![line]).1 =~= seq![event]);
    assert(feed(state, twice).1 =~= seq![event, event]);
}

/// A run that is cancelled while it goes on fails at once, and nothing that
/// comes in after the cancellation gives an event.
pub proof fn law_cancel_ends_run(state: ParserState, later: Seq<Input>)
    requires
        !state.done,
    ensures
        react(state, Input::Cancelled).1 == Some(
            Event::Completed(cancelled_summary(), Outcome::Failure),
        ),
        react(state, Input::Cancelled).0.done,
        drive(react(state, Input::Cancelled).0, later).1 == Seq::<Event>::empty(),
{
    law_silent_when_done(react(state, Input::Cancelled).0, later);
}

/// Why a parser was not made.
#[derive(Clone, Copy, Debug, PartialEq, Eq, Structural)]
pub enum ParserError {
    /// The regular expression of the numeric shape was not accepted.
    PatternRejected,
}

/// The parser of one run.
pub struct Parser {
    profile: RecognizerProfile,
    matcher: regex::Regex,
    done: bool,
}

impl View for Parser {
    type V = ParserState;

    closed spec fn view(&self) -> ParserState {
        ParserState { profile: self.profile@, done: self.done }
    }
}

/// Two parsers with the same recognizers that are equally far in their runs
/// give the same events for the same inputs, whatever else they hold; and two
/// whole runs with the same recognizers and the same lines have the same
/// events.
pub proof fn law_same_lines_same_events(
    one: Parser,
    other: Parser,
    inputs: Seq<Input>,
    lines: Seq<Seq<char>>,
)
    requires
        one@ == other@,
    ensures
        drive(one@, inputs) == drive(other@, inputs),
        feed(one@, lines) == feed(other@, lines),
        run_events(one@.profile, lines) == run_events(other@.profile, lines),
{
}

impl Parser {
    /// The compiled expression is the one of the profile's numeric shape.
    #[verifier::type_invariant]
    spec fn matcher_fits(self) -> bool {
        pattern::source(self.matcher) == self.profile.numeric.pattern_text()
    }

    /// A parser for a run with these recognizers, before the first line.
    pub fn new(profile: RecognizerProfile) -> (r: Result<Parser, ParserError>)
        ensures
            r is Ok <==> pattern::compiles(profile.numeric.pattern_text()),
            r matches Ok(parser) ==> parser@ == fresh(profile@),
    {
        match regex::Regex::new(profile.numeric.pattern()) {
            Ok(matcher) => Ok(Parser { profile, matcher, done: false }),
            Err(_) => Err(ParserError::PatternRejected),
        }
    }

    /// The recognizers of the run.
    pub fn profile(&self) -> (profile: &RecognizerProfile)
        ensures
            profile@ == self@.profile,
    {
        &self.profile
    }

    /// Whether the event that ends the run has been given.
    pub fn is_done(&self) -> (done: bool)
        ensures
            done == self@.done,
    {
        self.done
    }

    /// Takes the next line of output and gives the event it means, if any.
    pub fn feed_line(&mut self, line: &str) -> (update: Option<ProgressUpdate>)
        ensures
            final(self)@ == react(old(self)@, Input::Line(line@)).0,
            update.deep_view() == react(old(self)@, Input::Line(line@)).1,
    {
        proof {
            use_type_invariant(&*self);
        }
        if self.done {
            return None;
        }
        let chars = chars_of(line);
        match self.profile.banner_event(chars.as_slice()) {
            Some(update) => {
                if update.is_terminal() {
                    self.done = true;
                }
                Some(update)
            },
            None => {
                let found = pattern::captures(&self.matcher, line);
                match fraction_from(self.profile.numeric, &found) {
                    Some(fraction) => Some(ProgressUpdate::ProgressUpdated(fraction)),
                    None => None,
                }
            },
        }
    }

    /// Takes the end of the output, or an error in reading it: a run that
    /// goes on fails.
    pub fn end_of_stream(&mut self) -> (update: Option<ProgressUpdate>)
        ensures
            final(self)@ == react(old(self)@, Input::Ended).0,
            update.deep_view() == react(old(self)@, Input::Ended).1,
    {
        self.fail("process ended unexpectedly")
    }

    /// Takes the cancellation of the run: a run that goes on fails, and the
    /// lines that still come are ignored.
    pub fn cancel(&mut self) -> (update: Option<ProgressUpdate>)
        ensures
            final(self)@ == react(old(self)@, Input::Cancelled).0,
            update.deep_view() == react(old(self)@, Input::Cancelled).1,
    {
        self.fail("run cancelled")
    }

    /// Ends a run that goes on, in failure.
    fn fail(&mut self, summary: &str) -> (update: Option<ProgressUpdate>)
        ensures
            final(self)@ == stop(old(self)@, summary@).0,
            update.deep_view() == stop(old(self)@, summary@).1,
    {
        proof {
            use_type_invariant(&*self);
        }
        if self.done {
            None
        } else {
            self.done = true;
            Some(ProgressUpdate::Completed(summary.to_owned(), Outcome::Failure))
        }
    }
}

/// The events of a run whose output was these lines and then ended.
pub fn parse_stream(profile: RecognizerProfile, lines: &Vec<String>) -> (r: Result<
    Vec<ProgressUpdate>,
    ParserError,
>)
    ensures
        r is Ok <==> pattern::compiles(profile.numeric.pattern_text()),
        r matches Ok(updates) ==> updates.deep_view() == run_events(profile@, lines.deep_view()),
{
    let ghost start = fresh(profile@);
    let mut parser = match Parser::new(profile) {
        Ok(parser) => parser,
        Err(e) => { return Err(e); },
    };
    let mut updates: Vec<ProgressUpdate> = Vec::new();
    let mut i: usize = 0;
    proof {
        assert(lines.deep_view().take(0) =~= Seq::<Seq<char>>::empty());
        assert(as_inputs(Seq::<Seq<char>>::empty()) =~= Seq::<Input>::empty());
        assert(updates.deep_view() =~= Seq::<Event>::empty());
    }
    while i < lines.len()
        invariant
            i <= lines.len(),
            parser@ == feed(start, lines.deep_view().take(i as int)).0,
            updates.deep_view() == feed(start, lines.deep_view().take(i as int)).1,
        decreases lines.len() - i,
    {
        let ghost before = updates.deep_view();
        let ghost next = lines.deep_view().take(i + 1);
        let update = parser.feed_line(lines[i].as_str());
        proof {
            assert(next.drop_last() =~= lines.deep_view().take(i as int));
            assert(next.last() == lines@[i as int]@);
            lemma_feed_step(start, next);
        }
        match update {
            Some(u) => {
                updates.push(u);
                assert(updates.deep_view() =~= before.push(u@));
            },
            None => {},
        }
        i += 1;
    }
    let ghost before = updates.deep_view();
    proof {
        assert(lines.deep_view().take(i as int) =~= lines.deep_view());
        lemma_run_events(start.profile, lines.deep_view());
    }
    match parser.end_of_stream() {
        Some(u) => {
            updates.push(u);
            assert(updates.deep_view() =~= before.push(u@));
        },
        None => {},
    }
    Ok(updates)
}

} // verus!
