use hedge_cli::sweep::{pace_after, run_sweep, SweepTally};

#[test]
fn a_failed_item_does_not_cut_the_batch_short() {
    // Five download items, the third fails: all five are processed, with
    // four successes and one failure in the final tally.
    let outcomes = vec![true, true, false, true, true];
    let tally = run_sweep(&outcomes);
    assert_eq!(tally.success, 4);
    assert_eq!(tally.failed, 1);
    assert_eq!(tally.success + tally.failed, 5);
}

#[test]
fn empty_batch_reports_nothing() {
    let tally = run_sweep(&vec![]);
    assert_eq!(tally.success, 0);
    assert_eq!(tally.failed, 0);
}

#[test]
fn all_failures_are_all_counted() {
    let tally = run_sweep(&vec![false, false, false]);
    assert_eq!(tally.success, 0);
    assert_eq!(tally.failed, 3);
}

#[test]
fn tally_records_in_order() {
    let mut tally = SweepTally::new();
    tally.record(true);
    tally.record(false);
    tally.record(true);
    assert_eq!(tally.success, 2);
    assert_eq!(tally.failed, 1);
}

#[test]
fn pacer_runs_after_every_item_but_the_last() {
    let count: usize = 5;
    let paced: Vec<bool> = (1..=count).map(|index| pace_after(index, count)).collect();
    assert_eq!(paced, vec![true, true, true, true, false]);
}
