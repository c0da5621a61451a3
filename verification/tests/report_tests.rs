//! Aggregation and report rendering: exact means, fixed-point splitting,
//! two-decimal formatting, and the per-adapter report line — plus the
//! configuration defaults and the wait vocabulary.

use capbench::config::Cli;
use capbench::counter::{CounterSource, PollOutcome};
use capbench::event::{EventTimeout, WaitResult};
use capbench::names::name_prefix_len;
use capbench::report::{format_centi, mean_centi, report_line, split_centi, summarize};
use capbench::session::SessionState;
use capbench::tracker::TrackerBundle;

/// The scenario means: 10%, 20%, 30%, 40% average to exactly 25.00%, and
/// an adapter whose counter never opened averages exactly 0.00%.
#[test]
fn two_adapter_scenario_means() {
    let open_results = vec![CounterSource::open(false), CounterSource::open(true)];
    let bundle = TrackerBundle::new(open_results);
    let mut session = SessionState::new(2000, 500, bundle).unwrap();
    let ticks = vec![
        vec![PollOutcome::Invalid, PollOutcome::Valid(vec![1000])],
        vec![PollOutcome::Invalid, PollOutcome::Valid(vec![2000])],
        vec![PollOutcome::Invalid, PollOutcome::Valid(vec![3000])],
        vec![PollOutcome::Invalid, PollOutcome::Valid(vec![4000])],
    ];
    let (matrix, used) = session.run_to_completion(&ticks);
    assert_eq!(used, 4);
    assert_eq!(matrix.len(), 2);
    assert_eq!(matrix.row(0).len(), 0);
    assert_eq!(matrix.row(1).len(), 4);
    let means = summarize(&matrix);
    assert_eq!(means, vec![0, 2500]);
    assert_eq!(format_centi(means[0]), "0.00");
    assert_eq!(format_centi(means[1]), "25.00");
}

/// The mean is rounded to the nearest hundredth of a percent.
#[test]
fn mean_rounds_to_nearest() {
    let open_results = vec![CounterSource::open(true)];
    let mut bundle = TrackerBundle::new(open_results);
    bundle.start();
    bundle.tick(&vec![PollOutcome::Valid(vec![1000])]).unwrap();
    bundle.tick(&vec![PollOutcome::Valid(vec![2001])]).unwrap();
    let matrix = bundle.drain();
    // (1000 + 2001 + 1) / 2 = 1501
    assert_eq!(mean_centi(matrix.row(0)), 1501);
}

/// An empty series has a defined mean of exactly zero.
#[test]
fn empty_series_means_zero() {
    let open_results = vec![CounterSource::open(false)];
    let mut bundle = TrackerBundle::new(open_results);
    bundle.start();
    let matrix = bundle.drain();
    assert_eq!(mean_centi(matrix.row(0)), 0);
}

/// The mean is exact even at the top of the sample range: summing does
/// not overflow and the mean of equal values is that value.
#[test]
fn mean_of_extreme_values_is_exact() {
    let mut series = capbench::samples::SampleSeries::new();
    series.push(u64::MAX);
    series.push(u64::MAX);
    series.push(u64::MAX);
    assert_eq!(mean_centi(&series), u64::MAX);
}

/// Fixed-point splitting: whole percents and the two fraction digits.
#[test]
fn split_centi_parts() {
    assert_eq!(split_centi(2500), (25, 0));
    assert_eq!(split_centi(12345), (123, 45));
    assert_eq!(split_centi(5), (0, 5));
    assert_eq!(split_centi(0), (0, 0));
}

/// Two-decimal rendering, including the padding of small fractions.
#[test]
fn format_centi_renders_two_decimals() {
    assert_eq!(format_centi(0), "0.00");
    assert_eq!(format_centi(5), "0.05");
    assert_eq!(format_centi(50), "0.50");
    assert_eq!(format_centi(2500), "25.00");
    assert_eq!(format_centi(12345), "123.45");
    assert_eq!(format_centi(1000000), "10000.00");
}

/// One line per adapter: index, mean with two decimals, display name.
#[test]
fn report_line_layout() {
    assert_eq!(report_line(0, 2500, "Iris Xe"), "  0 - 25.00% - Iris Xe");
    assert_eq!(report_line(12, 5, "GPU B"), "  12 - 0.05% - GPU B");
}

/// The command line's defaults.
#[test]
fn cli_defaults() {
    let cli = Cli::default();
    assert_eq!(cli.monitor, 0);
    assert_eq!(cli.duration, 5000);
    assert_eq!(cli.rest, 1000);
    assert!(!cli.use_dirty_rects);
    assert!(!cli.verbose);
    assert!(!cli.adhoc);
}

/// Name fields are cut at the first NUL unit; a full field is kept whole.
#[test]
fn name_prefix_scan() {
    let field: [u16; 6] = [b'G' as u16, b'P' as u16, b'U' as u16, 0, b'X' as u16, 0];
    assert_eq!(name_prefix_len(&field), 3);
    assert_eq!(String::from_utf16(&field[..3]).unwrap(), "GPU");
    let full: [u16; 3] = [b'A' as u16, b'B' as u16, b'C' as u16];
    assert_eq!(name_prefix_len(&full), 3);
    assert_eq!(name_prefix_len(&[]), 0);
    assert_eq!(name_prefix_len(&[0u16]), 0);
}

/// The wait vocabulary's millisecond encoding: zero for no wait, all-ones
/// for an unbounded wait.
#[test]
fn event_timeout_millis() {
    assert_eq!(EventTimeout::NoWait.millis(), 0);
    assert_eq!(EventTimeout::Infinite.millis(), u32::MAX);
    assert_eq!(EventTimeout::Duration(250).millis(), 250);
    assert_ne!(WaitResult::Signaled, WaitResult::TimedOut);
}
