//! What one line of tool output means: the banner table, the success marker
//! and the two shapes of numeric progress.

use vstd::prelude::*;
use crate::event::{Event, Fraction, Outcome, ProgressUpdate};
use crate::pattern;
use crate::text::{chars_of, contains, is_within, number, parse_number};

verus! {

/// The shape in which a tool reports numeric progress. One shape is active
/// for a run.
#[derive(Clone, Copy, Debug, PartialEq, Eq, Structural)]
pub enum NumericShape {
    /// A counter in square brackets, `[current/total]`.
    BracketCounter,
    /// A number followed by a percent sign.
    Percent,
}

impl NumericShape {
    /// The regular expression that finds the shape in a line.
    pub open spec fn pattern_text(self) -> Seq<char> {
        match self {
            NumericShape::BracketCounter => r"\[([0-9]+)/([0-9]+)\]"@,
            NumericShape::Percent => r"(\d+)%"@,
        }
    }

    /// The regular expression that finds the shape in a line.
    pub fn pattern(self) -> (p: &'static str)
        ensures
            p@ == self.pattern_text(),
    {
        match self {
            NumericShape::BracketCounter => r"\[([0-9]+)/([0-9]+)\]",
            NumericShape::Percent => r"(\d+)%",
        }
    }
}

/// The number written in capture group `index`, `None` where there is no
/// such group, the group took no part in the match, or its text is no number.
pub open spec fn group_number(groups: Seq<Option<Seq<char>>>, index: int) -> Option<u128> {
    if 0 <= index < groups.len() {
        match groups[index] {
            Some(text) => number(text),
            None => None,
        }
    } else {
        None
    }
}

/// The progress that the capture groups of a match report. A bracket counter
/// gives `current` of `total` and nothing where the total is zero; a percent
/// token gives that many of a hundred. Text that is no number gives nothing.
pub open spec fn fraction_of(shape: NumericShape, found: Option<Seq<Option<Seq<char>>>>) -> Option<
    Fraction,
> {
    match found {
        None => None,
        Some(groups) => match shape {
            NumericShape::BracketCounter => match (group_number(groups, 1), group_number(groups, 2)) {
                (Some(current), Some(total)) => if total > 0 {
                    Some(Fraction { current, total })
                } else {
                    None
                },
                _ => None,
            },
            NumericShape::Percent => match group_number(groups, 1) {
                Some(percent) => Some(Fraction { current: percent, total: 100 }),
                None => None,
            },
        },
    }
}

/// The number written in capture group `index`.
fn number_in_group(groups: &Vec<Option<String>>, index: usize) -> (r: Option<u128>)
    ensures
        r == group_number(groups.deep_view(), index as int),
{
    if index < groups.len() {
        match &groups[index] {
            Some(text) => {
                let chars = chars_of(text.as_str());
                parse_number(chars.as_slice())
            },
            None => None,
        }
    } else {
        None
    }
}

/// The progress that the capture groups of a match report.
pub fn fraction_from(shape: NumericShape, found: &Option<Vec<Option<String>>>) -> (r: Option<Fraction>)
    ensures
        r == fraction_of(shape, found.deep_view()),
        r matches Some(fraction) ==> fraction.wf(),
{
    match found {
        None => None,
        Some(groups) => match shape {
            NumericShape::BracketCounter => {
                let current = number_in_group(groups, 1);
                let total = number_in_group(groups, 2);
                match (current, total) {
                    (Some(current), Some(total)) => if total > 0 {
                        Some(Fraction { current, total })
                    } else {
                        None
                    },
                    _ => None,
                }
            },
            NumericShape::Percent => match number_in_group(groups, 1) {
                Some(percent) => Some(Fraction { current: percent, total: 100 }),
                None => None,
            },
        },
    }
}

/// One row of the banner table: a line that holds `marker` starts the phase
/// called `label`.
#[derive(Clone, Debug, PartialEq, Eq)]
pub struct StageRule {
    pub marker: Vec<char>,
    pub label: String,
}

/// A row of the banner table with its texts as sequences of characters.
pub struct StageRuleView {
    pub marker: Seq<char>,
    pub label: Seq<char>,
}

impl View for StageRule {
    type V = StageRuleView;

    open spec fn view(&self) -> StageRuleView {
        StageRuleView { marker: self.marker@, label: self.label@ }
    }
}

impl DeepView for StageRule {
    type V = StageRuleView;

    open spec fn deep_view(&self) -> StageRuleView {
        self@
    }
}

impl StageRule {
    /// The row for this marker and label.
    pub fn new(marker: &str, label: &str) -> (rule: StageRule)
        ensures
            rule@ == (StageRuleView { marker: marker@, label: label@ }),
    {
        StageRule { marker: chars_of(marker), label: label.to_owned() }
    }
}

/// The recognizers of one kind of run.
#[derive(Clone, Debug, PartialEq, Eq)]
pub struct RecognizerProfile {
    /// The banner table. Where a line holds several markers, the first row
    /// among them counts.
    pub stages: Vec<StageRule>,
    /// The text that tells that the tool succeeded.
    pub success_marker: Vec<char>,
    /// The summary of a run that succeeded.
    pub success_summary: String,
    /// The shape of numeric progress.
    pub numeric: NumericShape,
    /// Whether the run leaves output that is worth showing to the user once
    /// it has succeeded.
    pub reveals_output: bool,
}

/// A profile with its texts as sequences of characters.
pub struct ProfileView {
    pub stages: Seq<StageRuleView>,
    pub success_marker: Seq<char>,
    pub success_summary: Seq<char>,
    pub numeric: NumericShape,
    pub reveals_output: bool,
}

impl View for RecognizerProfile {
    type V = ProfileView;

    open spec fn view(&self) -> ProfileView {
        ProfileView {
            stages: self.stages.deep_view(),
            success_marker: self.success_marker@,
            success_summary: self.success_summary@,
            numeric: self.numeric,
            reveals_output: self.reveals_output,
        }
    }
}

/// The recognizers of a build: no banners, a bracket counter.
pub open spec fn build_profile() -> ProfileView {
    ProfileView {
        stages: Seq::empty(),
        success_marker: "BUILD SUCCESSFUL"@,
        success_summary: "Build finished"@,
        numeric: NumericShape::BracketCounter,
        reveals_output: false,
    }
}

/// The banner table of a package run.
pub open spec fn package_stages() -> Seq<StageRuleView> {
    seq![
        StageRuleView {
            marker: "********** BUILD COMMAND STARTED **********"@,
            label: "Build started"@,
        },
        StageRuleView {
            marker: "********** BUILD COMMAND COMPLETED **********"@,
            label: "Build completed"@,
        },
        StageRuleView {
            marker: "********** COOK COMMAND STARTED **********"@,
            label: "Cooking..."@,
        },
        StageRuleView {
            marker: "********** COOK COMMAND COMPLETED **********"@,
            label: "Cook completed"@,
        },
        StageRuleView {
            marker: "********** STAGE COMMAND STARTED **********"@,
            label: "Staging..."@,
        },
        StageRuleView {
            marker: "********** PACKAGE COMMAND STARTED **********"@,
            label: "Packaging..."@,
        },
        StageRuleView {
            marker: "********** PACKAGE COMMAND COMPLETED **********"@,
            label: "Package completed"@,
        },
    ]
}

/// The recognizers of a package run: the banners of its phases, a percent
/// token.
pub open spec fn package_profile() -> ProfileView {
    ProfileView {
        stages: package_stages(),
        success_marker: "BUILD SUCCESSFUL"@,
        success_summary: "Package finished"@,
        numeric: NumericShape::Percent,
        reveals_output: true,
    }
}

/// The first row at or after `from` whose marker `line` holds.
pub open spec fn first_stage_from(stages: Seq<StageRuleView>, line: Seq<char>, from: int) -> Option<
    int,
>
    decreases stages.len() - from,
{
    if from < 0 || from >= stages.len() {
        None
    } else if contains(line, stages[from].marker) {
        Some(from)
    } else {
        first_stage_from(stages, line, from + 1)
    }
}

/// The first row of the table whose marker `line` holds.
pub open spec fn first_stage(stages: Seq<StageRuleView>, line: Seq<char>) -> Option<int> {
    first_stage_from(stages, line, 0)
}

/// What the banners and the success marker make of a line: the label of the
/// first row whose marker it holds; else, where it holds the success marker,
/// the end of the run; else nothing.
pub open spec fn banner_of(profile: ProfileView, line: Seq<char>) -> Option<Event> {
    match first_stage(profile.stages, line) {
        Some(row) => Some(Event::StageChanged(profile.stages[row].label)),
        None => if contains(line, profile.success_marker) {
            Some(Event::Completed(profile.success_summary, Outcome::Success))
        } else {
            None
        },
    }
}

/// What a line means, given what the numeric pattern found in it. Banners
/// come first, then the success marker, then numeric progress. A line that
/// holds none of them means nothing.
pub open spec fn line_event(
    profile: ProfileView,
    line: Seq<char>,
    found: Option<Seq<Option<Seq<char>>>>,
) -> Option<Event> {
    match banner_of(profile, line) {
        Some(event) => Some(event),
        None => match fraction_of(profile.numeric, found) {
            Some(fraction) => Some(Event::ProgressUpdated(fraction)),
            None => None,
        },
    }
}

/// What a line means.
pub open spec fn classify(profile: ProfileView, line: Seq<char>) -> Option<Event> {
    line_event(profile, line, pattern::first_match(profile.numeric.pattern_text(), line))
}

/// No line gives a fraction without a value: a total of zero is never
/// passed on.
pub proof fn law_no_zero_total(profile: ProfileView, line: Seq<char>)
    ensures
        classify(profile, line) matches Some(Event::ProgressUpdated(fraction)) ==> fraction.wf(),
{
}

/// Where a line holds a banner of the table it means the phase of the first
/// such row, whatever else it holds; no progress is reported for it.
pub proof fn law_banner_first(profile: ProfileView, line: Seq<char>, row: int)
    requires
        0 <= row < profile.stages.len(),
        contains(line, profile.stages[row].marker),
        forall|k: int| 0 <= k < row ==> !contains(line, #[trigger] profile.stages[k].marker),
    ensures
        classify(profile, line) == Some(Event::StageChanged(profile.stages[row].label)),
{
    lemma_first_stage_from(profile.stages, line, 0);
}

/// The row that `first_stage_from` gives is the first one from `from` on
/// whose marker the line holds.
pub proof fn lemma_first_stage_from(stages: Seq<StageRuleView>, line: Seq<char>, from: int)
    requires
        0 <= from <= stages.len(),
    ensures
        match first_stage_from(stages, line, from) {
            Some(row) => {
                &&& from <= row < stages.len()
                &&& contains(line, stages[row].marker)
                &&& forall|k: int| from <= k < row ==> !contains(line, #[trigger] stages[k].marker)
            },
            None => forall|k: int|
                from <= k < stages.len() ==> !contains(line, #[trigger] stages[k].marker),
        },
    decreases stages.len() - from,
{
    if from < stages.len() && !contains(line, stages[from].marker) {
        lemma_first_stage_from(stages, line, from + 1);
    }
}

impl RecognizerProfile {
    /// The recognizers with this banner table, success marker and summary,
    /// and numeric shape.
    pub fn new(
        stages: Vec<StageRule>,
        success_marker: &str,
        success_summary: &str,
        numeric: NumericShape,
        reveals_output: bool,
    ) -> (profile: RecognizerProfile)
        ensures
            profile@ == (ProfileView {
                stages: stages.deep_view(),
                success_marker: success_marker@,
                success_summary: success_summary@,
                numeric,
                reveals_output,
            }),
    {
        RecognizerProfile {
            stages,
            success_marker: chars_of(success_marker),
            success_summary: success_summary.to_owned(),
            numeric,
            reveals_output,
        }
    }

    /// The recognizers of a build.
    pub fn build() -> (profile: RecognizerProfile)
        ensures
            profile@ == build_profile(),
    {
        let stages: Vec<StageRule> = Vec::new();
        assert(stages.deep_view() =~= Seq::empty());
        RecognizerProfile::new(
            stages,
            "BUILD SUCCESSFUL",
            "Build finished",
            NumericShape::BracketCounter,
            false,
        )
    }

    /// The recognizers of a package run.
    pub fn package() -> (profile: RecognizerProfile)
        ensures
            profile@ == package_profile(),
    {
        let mut stages: Vec<StageRule> = Vec::new();
        stages.push(StageRule::new("********** BUILD COMMAND STARTED **********", "Build started"));
        stages.push(
            StageRule::new("********** BUILD COMMAND COMPLETED **********", "Build completed"),
        );
        stages.push(StageRule::new("********** COOK COMMAND STARTED **********", "Cooking..."));
        stages.push(
            StageRule::new("********** COOK COMMAND COMPLETED **********", "Cook completed"),
        );
        stages.push(StageRule::new("********** STAGE COMMAND STARTED **********", "Staging..."));
        stages.push(
            StageRule::new("********** PACKAGE COMMAND STARTED **********", "Packaging..."),
        );
        stages.push(
            StageRule::new(
                "********** PACKAGE COMMAND COMPLETED **********",
                "Package completed",
            ),
        );
        assert(stages.deep_view() =~= package_stages());
        RecognizerProfile::new(
            stages,
            "BUILD SUCCESSFUL",
            "Package finished",
            NumericShape::Percent,
            true,
        )
    }

    /// The first row of the banner table whose marker `line` holds.
    pub fn find_stage(&self, line: &[char]) -> (r: Option<usize>)
        ensures
            match r {
                Some(row) => first_stage(self@.stages, line@) == Some(row as int) && row
                    < self.stages@.len(),
                None => first_stage(self@.stages, line@) is None,
            },
    {
        let mut row: usize = 0;
        while row < self.stages.len()
            invariant
                row <= self.stages@.len(),
                first_stage(self@.stages, line@) == first_stage_from(
                    self@.stages,
                    line@,
                    row as int,
                ),
            decreases self.stages@.len() - row,
        {
            if is_within(self.stages[row].marker.as_slice(), line) {
                return Some(row);
            }
            row += 1;
        }
        None
    }

    /// What the banners and the success marker make of a line.
    pub fn banner_event(&self, line: &[char]) -> (r: Option<ProgressUpdate>)
        ensures
            r.deep_view() == banner_of(self@, line@),
    {
        match self.find_stage(line) {
            Some(row) => Some(ProgressUpdate::StageChanged(self.stages[row].label.clone())),
            None => if is_within(self.success_marker.as_slice(), line) {
                Some(ProgressUpdate::Completed(self.success_summary.clone(), Outcome::Success))
            } else {
                None
            },
        }
    }

    /// Whether the output of the run is to be shown to the user after this
    /// event: after the success of a run that leaves such output.
    pub fn reveals_after(&self, update: &ProgressUpdate) -> (r: bool)
        ensures
            r == (self.reveals_output && update@ matches Event::Completed(_, Outcome::Success)),
    {
        match update {
            ProgressUpdate::Completed(_, Outcome::Success) => self.reveals_output,
            _ => false,
        }
    }
}

} // verus!
