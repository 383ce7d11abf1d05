use build_runner::event::{Fraction, Outcome, ProgressUpdate};
use build_runner::parser::{parse_stream, Parser};
use build_runner::recognizer::{NumericShape, RecognizerProfile, StageRule};

fn ratio(fraction: &Fraction) -> f64 {
    fraction.current as f64 / fraction.total as f64
}

fn lines(text: &[&str]) -> Vec<String> {
    text.iter().map(|l| l.to_string()).collect()
}

fn ended() -> ProgressUpdate {
    ProgressUpdate::Completed("process ended unexpectedly".to_string(), Outcome::Failure)
}

#[test]
fn bracket_counter_gives_quarter() {
    let mut parser = Parser::new(RecognizerProfile::build()).unwrap();
    let update = parser.feed_line("[12/48] Compile Module.Core.cpp");
    match update {
        Some(ProgressUpdate::ProgressUpdated(fraction)) => {
            assert_eq!(fraction, Fraction { current: 12, total: 48 });
            assert!((ratio(&fraction) - 0.25).abs() < 1e-6);
            assert!((ratio(&fraction) - 12.0 / 48.0).abs() < 1e-6);
        }
        other => panic!("no progress: {:?}", other),
    }
    assert!(!parser.is_done());
}

#[test]
fn bracket_counter_in_the_middle_of_a_line() {
    let mut parser = Parser::new(RecognizerProfile::build()).unwrap();
    assert_eq!(
        parser.feed_line("------ building [3/7] and later [5/7]"),
        Some(ProgressUpdate::ProgressUpdated(Fraction { current: 3, total: 7 }))
    );
}

#[test]
fn percent_token_gives_hundredths() {
    let mut parser = Parser::new(RecognizerProfile::package()).unwrap();
    let update = parser.feed_line("Cooking content 67% done");
    match update {
        Some(ProgressUpdate::ProgressUpdated(fraction)) => {
            assert_eq!(fraction, Fraction { current: 67, total: 100 });
            assert!((ratio(&fraction) - 0.67).abs() < 1e-6);
        }
        other => panic!("no progress: {:?}", other),
    }
}

#[test]
fn zero_total_gives_no_event() {
    let mut parser = Parser::new(RecognizerProfile::build()).unwrap();
    assert_eq!(parser.feed_line("[0/0]"), None);
    assert_eq!(parser.feed_line("[5/0]"), None);
    assert!(!parser.is_done());
}

#[test]
fn zero_of_some_is_progress() {
    let mut parser = Parser::new(RecognizerProfile::build()).unwrap();
    assert_eq!(
        parser.feed_line("[0/9]"),
        Some(ProgressUpdate::ProgressUpdated(Fraction { current: 0, total: 9 }))
    );
}

#[test]
fn cook_banner_changes_stage_only() {
    let mut parser = Parser::new(RecognizerProfile::package()).unwrap();
    let update = parser.feed_line("********** COOK COMMAND STARTED **********");
    assert_eq!(update, Some(ProgressUpdate::StageChanged("Cooking...".to_string())));
    assert!(!matches!(update, Some(ProgressUpdate::ProgressUpdated(_))));
}

#[test]
fn banner_wins_over_percent_on_the_same_line() {
    let mut parser = Parser::new(RecognizerProfile::package()).unwrap();
    let update = parser.feed_line("50% ********** COOK COMMAND STARTED ********** 75%");
    assert_eq!(update, Some(ProgressUpdate::StageChanged("Cooking...".to_string())));
}

#[test]
fn every_package_banner_has_its_label() {
    let table = [
        ("********** BUILD COMMAND STARTED **********", "Build started"),
        ("********** BUILD COMMAND COMPLETED **********", "Build completed"),
        ("********** COOK COMMAND STARTED **********", "Cooking..."),
        ("********** COOK COMMAND COMPLETED **********", "Cook completed"),
        ("********** STAGE COMMAND STARTED **********", "Staging..."),
        ("********** PACKAGE COMMAND STARTED **********", "Packaging..."),
        ("********** PACKAGE COMMAND COMPLETED **********", "Package completed"),
    ];
    let mut parser = Parser::new(RecognizerProfile::package()).unwrap();
    for (banner, label) in table {
        let line = format!("UAT: {} (0s)", banner);
        assert_eq!(
            parser.feed_line(&line),
            Some(ProgressUpdate::StageChanged(label.to_string()))
        );
    }
}

#[test]
fn build_profile_knows_no_banner() {
    let mut parser = Parser::new(RecognizerProfile::build()).unwrap();
    assert_eq!(parser.feed_line("********** COOK COMMAND STARTED **********"), None);
}

#[test]
fn banner_wins_over_success_marker() {
    let mut parser = Parser::new(RecognizerProfile::package()).unwrap();
    let update = parser.feed_line("BUILD SUCCESSFUL ********** STAGE COMMAND STARTED **********");
    assert_eq!(update, Some(ProgressUpdate::StageChanged("Staging...".to_string())));
    assert!(!parser.is_done());
}

#[test]
fn success_marker_wins_over_numbers() {
    let mut build = Parser::new(RecognizerProfile::build()).unwrap();
    assert_eq!(
        build.feed_line("[48/48] BUILD SUCCESSFUL"),
        Some(ProgressUpdate::Completed("Build finished".to_string(), Outcome::Success))
    );
    let mut package = Parser::new(RecognizerProfile::package()).unwrap();
    assert_eq!(
        package.feed_line("100% BUILD SUCCESSFUL"),
        Some(ProgressUpdate::Completed("Package finished".to_string(), Outcome::Success))
    );
}

#[test]
fn lines_after_success_are_ignored() {
    let mut parser = Parser::new(RecognizerProfile::build()).unwrap();
    assert!(parser.feed_line("BUILD SUCCESSFUL").is_some());
    assert!(parser.is_done());
    assert_eq!(parser.feed_line("[1/2]"), None);
    assert_eq!(parser.feed_line("BUILD SUCCESSFUL"), None);
    assert_eq!(parser.end_of_stream(), None);
    assert_eq!(parser.cancel(), None);
}

#[test]
fn only_the_active_shape_is_recognized() {
    let mut build = Parser::new(RecognizerProfile::build()).unwrap();
    assert_eq!(build.feed_line("progress 67%"), None);
    let mut package = Parser::new(RecognizerProfile::package()).unwrap();
    assert_eq!(package.feed_line("[12/48]"), None);
}

#[test]
fn unrecognized_lines_are_dropped() {
    let mut parser = Parser::new(RecognizerProfile::package()).unwrap();
    assert_eq!(parser.feed_line(""), None);
    assert_eq!(parser.feed_line("Running AutomationTool..."), None);
    assert_eq!(parser.feed_line("% 12 %"), None);
    assert!(!parser.is_done());
}

#[test]
fn digits_beyond_128_bits_are_no_progress() {
    let mut build = Parser::new(RecognizerProfile::build()).unwrap();
    assert_eq!(build.feed_line("[1/999999999999999999999999999999999999999]"), None);
    assert_eq!(
        build.feed_line(
            "[340282366920938463463374607431768211455/340282366920938463463374607431768211455]"
        ),
        Some(ProgressUpdate::ProgressUpdated(Fraction {
            current: u128::MAX,
            total: u128::MAX
        }))
    );
    assert_eq!(build.feed_line("[340282366920938463463374607431768211456/2]"), None);
    assert_eq!(
        build.feed_line("[18446744073709551616/36893488147419103232]"),
        Some(ProgressUpdate::ProgressUpdated(Fraction {
            current: 1u128 << 64,
            total: 1u128 << 65
        }))
    );
}

#[test]
fn digits_of_other_scripts_are_no_progress() {
    let mut package = Parser::new(RecognizerProfile::package()).unwrap();
    assert_eq!(package.feed_line("\u{0663}\u{0664}%"), None);
}

#[test]
fn fraction_above_one_is_passed_on() {
    let mut build = Parser::new(RecognizerProfile::build()).unwrap();
    assert_eq!(
        build.feed_line("[48/12]"),
        Some(ProgressUpdate::ProgressUpdated(Fraction { current: 48, total: 12 }))
    );
    let mut package = Parser::new(RecognizerProfile::package()).unwrap();
    assert_eq!(
        package.feed_line("250%"),
        Some(ProgressUpdate::ProgressUpdated(Fraction { current: 250, total: 100 }))
    );
}

#[test]
fn repeated_events_pass_unfiltered() {
    let out = parse_stream(RecognizerProfile::package(), &lines(&["42%", "42%"])).unwrap();
    assert_eq!(
        out,
        vec![
            ProgressUpdate::ProgressUpdated(Fraction { current: 42, total: 100 }),
            ProgressUpdate::ProgressUpdated(Fraction { current: 42, total: 100 }),
            ended(),
        ]
    );
}

#[test]
fn stream_without_success_ends_in_failure() {
    let out = parse_stream(
        RecognizerProfile::build(),
        &lines(&["[1/3] a.cpp", "[2/3] b.cpp", "error C2065: undeclared identifier"]),
    )
    .unwrap();
    assert_eq!(
        out,
        vec![
            ProgressUpdate::ProgressUpdated(Fraction { current: 1, total: 3 }),
            ProgressUpdate::ProgressUpdated(Fraction { current: 2, total: 3 }),
            ended(),
        ]
    );
}

#[test]
fn empty_stream_is_one_failure() {
    let out = parse_stream(RecognizerProfile::package(), &Vec::new()).unwrap();
    assert_eq!(out, vec![ended()]);
}

#[test]
fn package_run_in_arrival_order() {
    let out = parse_stream(
        RecognizerProfile::package(),
        &lines(&[
            "********** BUILD COMMAND STARTED **********",
            "10%",
            "********** BUILD COMMAND COMPLETED **********",
            "********** COOK COMMAND STARTED **********",
            "55%",
            "noise",
            "BUILD SUCCESSFUL",
            "99%",
            "********** PACKAGE COMMAND COMPLETED **********",
        ]),
    )
    .unwrap();
    assert_eq!(
        out,
        vec![
            ProgressUpdate::StageChanged("Build started".to_string()),
            ProgressUpdate::ProgressUpdated(Fraction { current: 10, total: 100 }),
            ProgressUpdate::StageChanged("Build completed".to_string()),
            ProgressUpdate::StageChanged("Cooking...".to_string()),
            ProgressUpdate::ProgressUpdated(Fraction { current: 55, total: 100 }),
            ProgressUpdate::Completed("Package finished".to_string(), Outcome::Success),
        ]
    );
}

#[test]
fn exactly_one_terminal_event_and_it_is_last() {
    let streams: Vec<Vec<String>> = vec![
        lines(&[]),
        lines(&["[1/2]", "BUILD SUCCESSFUL", "BUILD SUCCESSFUL", "[2/2]"]),
        lines(&["BUILD SUCCESSFUL"]),
        lines(&["x", "y", "[3/4]"]),
    ];
    for stream in streams.iter() {
        let out = parse_stream(RecognizerProfile::build(), stream).unwrap();
        let terminal = out.iter().filter(|u| u.is_terminal()).count();
        assert_eq!(terminal, 1);
        assert!(out.last().unwrap().is_terminal());
    }
}

#[test]
fn same_stream_twice_gives_same_events() {
    let stream = lines(&[
        "********** COOK COMMAND STARTED **********",
        "12%",
        "12%",
        "garbage",
        "********** COOK COMMAND COMPLETED **********",
    ]);
    let first = parse_stream(RecognizerProfile::package(), &stream).unwrap();
    let second = parse_stream(RecognizerProfile::package(), &stream).unwrap();
    assert_eq!(first, second);

    let mut one = Parser::new(RecognizerProfile::package()).unwrap();
    let mut other = Parser::new(RecognizerProfile::package()).unwrap();
    for line in stream.iter() {
        assert_eq!(one.feed_line(line), other.feed_line(line));
    }
    assert_eq!(one.end_of_stream(), other.end_of_stream());
}

#[test]
fn line_by_line_equals_whole_stream() {
    let stream = lines(&["[1/4]", "nothing", "[2/4]", "BUILD SUCCESSFUL", "[3/4]"]);
    let whole = parse_stream(RecognizerProfile::build(), &stream).unwrap();
    let mut parser = Parser::new(RecognizerProfile::build()).unwrap();
    let mut stepwise = Vec::new();
    for line in stream.iter() {
        if let Some(update) = parser.feed_line(line) {
            stepwise.push(update);
        }
    }
    if let Some(update) = parser.end_of_stream() {
        stepwise.push(update);
    }
    assert_eq!(whole, stepwise);
}

#[test]
fn cancel_in_flight_fails_at_once() {
    let mut parser = Parser::new(RecognizerProfile::package()).unwrap();
    assert!(parser.feed_line("30%").is_some());
    assert_eq!(
        parser.cancel(),
        Some(ProgressUpdate::Completed("run cancelled".to_string(), Outcome::Failure))
    );
    assert!(parser.is_done());
    assert_eq!(parser.feed_line("BUILD SUCCESSFUL"), None);
    assert_eq!(parser.feed_line("40%"), None);
    assert_eq!(parser.end_of_stream(), None);
    assert_eq!(parser.cancel(), None);
}

#[test]
fn cancel_before_first_line() {
    let mut parser = Parser::new(RecognizerProfile::build()).unwrap();
    assert_eq!(
        parser.cancel(),
        Some(ProgressUpdate::Completed("run cancelled".to_string(), Outcome::Failure))
    );
}

#[test]
fn end_of_stream_fails_once() {
    let mut parser = Parser::new(RecognizerProfile::build()).unwrap();
    assert_eq!(parser.end_of_stream(), Some(ended()));
    assert_eq!(parser.end_of_stream(), None);
}

#[test]
fn custom_table_first_row_wins() {
    let profile = RecognizerProfile::new(
        vec![
            StageRule::new("LINK", "Linking"),
            StageRule::new("LINK STARTED", "Link started"),
            StageRule::new("COMPILE", "Compiling"),
        ],
        "ALL DONE",
        "Done",
        NumericShape::Percent,
        false,
    );
    let mut parser = Parser::new(profile).unwrap();
    assert_eq!(
        parser.feed_line("== LINK STARTED =="),
        Some(ProgressUpdate::StageChanged("Linking".to_string()))
    );
    assert_eq!(
        parser.feed_line("COMPILE then LINK"),
        Some(ProgressUpdate::StageChanged("Linking".to_string()))
    );
    assert_eq!(
        parser.feed_line("COMPILE 10%"),
        Some(ProgressUpdate::StageChanged("Compiling".to_string()))
    );
    assert_eq!(
        parser.feed_line("ALL DONE"),
        Some(ProgressUpdate::Completed("Done".to_string(), Outcome::Success))
    );
}

#[test]
fn parser_keeps_its_profile() {
    let parser = Parser::new(RecognizerProfile::package()).unwrap();
    assert_eq!(parser.profile(), &RecognizerProfile::package());
    assert!(!parser.is_done());
}
