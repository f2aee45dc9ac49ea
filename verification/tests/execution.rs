use query_log_replay::elapsed::Elapsed;
use query_log_replay::execution::{
    EmptySummary, QueryExecution, QueryExecutionBuilder, QueryExecutionSummary,
    QueryExecutionSummaryBuilder,
};

fn execution(millis: u64, num_rows: usize, num_frames: usize) -> QueryExecution {
    QueryExecution { duration: Elapsed::from_millis(millis), num_rows, num_frames }
}

#[test]
fn elapsed_is_counted_in_nanoseconds() {
    assert_eq!(Elapsed::zero().as_nanos(), 0);
    assert_eq!(Elapsed::from_secs(3).as_nanos(), 3_000_000_000);
    assert_eq!(Elapsed::from_millis(1_500).as_nanos(), 1_500_000_000);
    assert_eq!(Elapsed::from_nanos(1_234_567_890).as_nanos(), 1_234_567_890);
    assert_eq!(Elapsed::from_parts(2, 999_999_999).as_nanos(), 2_999_999_999);
    assert_eq!(Elapsed::new(1, 2_000_000_001).unwrap().as_nanos(), 3_000_000_001);
    assert_eq!(Elapsed::from_millis(u64::MAX).as_millis(), u128::from(u64::MAX));
}

#[test]
fn elapsed_is_taken_apart() {
    let span = Elapsed::from_nanos(7_123_456_789);
    assert_eq!(span.as_secs(), 7);
    assert_eq!(span.subsec_nanos(), 123_456_789);
    assert_eq!(span.as_millis(), 7_123);
    assert_eq!(span, Elapsed::from_parts(7, 123_456_789));
}

#[test]
fn elapsed_has_a_longest_span() {
    assert_eq!(Elapsed::new(u64::MAX, 1_000_000_000), None);
    let longest = Elapsed::new(u64::MAX, 999_999_999).unwrap();
    assert_eq!(longest.as_nanos(), u128::from(u64::MAX) * 1_000_000_000 + 999_999_999);
    assert_eq!(longest.checked_add(&Elapsed::from_nanos(1)), None);
    assert_eq!(longest.checked_add(&Elapsed::zero()), Some(longest));
}

#[test]
fn elapsed_adds_with_carry() {
    let a = Elapsed::from_parts(1, 600_000_000);
    let b = Elapsed::from_parts(2, 700_000_000);
    assert_eq!(a.plus(&b), Elapsed::from_parts(4, 300_000_000));
    assert_eq!(a.checked_add(&b), Some(Elapsed::from_parts(4, 300_000_000)));
    assert_eq!(Elapsed::from_millis(10).plus(&Elapsed::from_millis(20)), Elapsed::from_millis(30));
}

#[test]
fn elapsed_is_compared_by_length() {
    assert!(Elapsed::from_millis(999).is_shorter_than(&Elapsed::from_secs(1)));
    assert!(Elapsed::from_parts(1, 5).is_shorter_than(&Elapsed::from_parts(1, 6)));
    assert!(!Elapsed::from_secs(1).is_shorter_than(&Elapsed::from_secs(1)));
    assert!(!Elapsed::from_parts(2, 0).is_shorter_than(&Elapsed::from_parts(1, 999_999_999)));
}

#[test]
fn executions_add_up() {
    let sum = execution(10, 3, 0).aggregate(&execution(25, 4, 2));
    assert_eq!(sum, execution(35, 7, 2));
}

#[test]
fn executions_that_overflow_do_not_fit() {
    let big = QueryExecution { duration: Elapsed::zero(), num_rows: usize::MAX, num_frames: 0 };
    assert!(!big.fits_with(&execution(0, 1, 0)));
    assert!(big.fits_with(&execution(1, 0, 1)));
    let long = QueryExecution {
        duration: Elapsed::new(u64::MAX, 0).unwrap(),
        num_rows: 0,
        num_frames: 0,
    };
    assert!(!long.fits_with(&execution(1_000, 0, 0)));
    assert!(long.fits_with(&execution(999, 0, 0)));
}

#[test]
fn default_execution_is_empty() {
    assert_eq!(QueryExecution::default(), execution(0, 0, 0));
}

#[test]
fn execution_in_words() {
    assert_eq!(execution(1_500, 3, 0).to_string(), "3 rows 0 frames in 1.5s");
    assert_eq!(execution(20, 0, 12).to_string(), "0 rows 12 frames in 20ms");
    let short = QueryExecution { duration: Elapsed::from_nanos(5), num_rows: 1, num_frames: 1 };
    assert_eq!(short.to_string(), "1 rows 1 frames in 5ns");
}

#[test]
fn execution_builder_counts_rows_and_frames() {
    let mut builder = QueryExecutionBuilder::new();
    builder.add_rows(10);
    builder.add_rows(5);
    builder.add_frames(1);
    builder.add_frames(1);
    builder.add_frames(1);
    let execution = builder.build();
    assert_eq!(execution.num_rows, 15);
    assert_eq!(execution.num_frames, 3);
    assert!(execution.duration.as_secs() < 60);
}

#[test]
fn summary_of_three_executions() {
    let builder = QueryExecutionSummaryBuilder::new()
        .add(execution(10, 1, 0))
        .add(execution(30, 2, 0))
        .add(execution(20, 3, 4));
    assert_eq!(builder.total_duration(), Elapsed::from_millis(60));
    let summary = builder.build().unwrap();
    assert_eq!(
        summary,
        QueryExecutionSummary {
            inner: execution(60, 6, 4),
            min_duration: Elapsed::from_millis(10),
            max_duration: Elapsed::from_millis(30),
            count: 3,
        }
    );
}

#[test]
fn first_execution_sets_both_bounds() {
    let summary = QueryExecutionSummaryBuilder::new().add(execution(25, 7, 1)).build().unwrap();
    assert_eq!(
        summary,
        QueryExecutionSummary {
            inner: execution(25, 7, 1),
            min_duration: Elapsed::from_millis(25),
            max_duration: Elapsed::from_millis(25),
            count: 1,
        }
    );
}

#[test]
fn summary_of_nothing_fails() {
    assert_eq!(QueryExecutionSummaryBuilder::new().build(), Err(EmptySummary));
    assert_eq!(QueryExecutionSummaryBuilder::default().build(), Err(EmptySummary));
    assert_eq!(EmptySummary.to_string(), "No executions were added to the summary");
}

#[test]
fn total_duration_of_nothing_is_zero() {
    assert_eq!(QueryExecutionSummaryBuilder::new().total_duration(), Elapsed::zero());
}

#[test]
fn builder_tells_when_an_execution_cannot_be_added() {
    let builder = QueryExecutionSummaryBuilder::new();
    let big = QueryExecution { duration: Elapsed::zero(), num_rows: usize::MAX, num_frames: 0 };
    assert!(builder.can_add(&big));
    let builder = builder.add(big);
    assert!(!builder.can_add(&execution(0, 1, 0)));
    assert!(builder.can_add(&execution(5, 0, 1)));
}

#[test]
fn summary_header_names_the_columns() {
    assert_eq!(
        QueryExecutionSummary::header(),
        "total_duration_ms\tmin_duration_ms\tmax_duration_ms\tcount\ttotal_rows\ttotal_frames"
    );
}

#[test]
fn summary_row_is_tab_separated() {
    let summary = QueryExecutionSummaryBuilder::new()
        .add(execution(10, 1, 0))
        .add(execution(30, 2, 0))
        .add(execution(20, 3, 4))
        .build()
        .unwrap();
    assert_eq!(summary.to_string(), "60\t10\t30\t3\t6\t4");
}

#[test]
fn summary_row_shows_whole_milliseconds() {
    let summary = QueryExecutionSummaryBuilder::new()
        .add(QueryExecution { duration: Elapsed::from_nanos(1_999_999), num_rows: 0, num_frames: 0 })
        .add(QueryExecution {
            duration: Elapsed::from_nanos(12_345_000_001),
            num_rows: 1_000_000,
            num_frames: 0,
        })
        .build()
        .unwrap();
    assert_eq!(summary.to_string(), "12347\t1\t12345\t2\t1000000\t0");
}

#[test]
fn default_summary_is_empty() {
    let summary = QueryExecutionSummary::default();
    assert_eq!(summary.count, 0);
    assert_eq!(summary.inner, QueryExecution::default());
    assert_eq!(summary.min_duration, Elapsed::zero());
    assert_eq!(summary.max_duration, Elapsed::zero());
    assert_eq!(summary.to_string(), "0\t0\t0\t0\t0\t0");
}

#[test]
fn responses_count_their_frames_with_data() {
    let mut builder = QueryExecutionBuilder::new();
    builder.add_response(&vec![true, false, true, true]);
    builder.add_response(&vec![]);
    builder.add_response(&vec![false, false]);
    builder.add_response(&vec![true]);
    assert_eq!(builder.num_frames(), 4);
    assert_eq!(builder.num_rows(), 0);
    builder.add_rows(2);
    let execution = builder.build();
    assert_eq!((execution.num_rows, execution.num_frames), (2, 4));
}

#[test]
fn long_runs_of_executions_are_summed() {
    let mut builder = QueryExecutionSummaryBuilder::new();
    for i in 1..=100u64 {
        let run = execution(i, i as usize, 2 * i as usize);
        assert!(builder.can_add(&run));
        builder = builder.add(run);
    }
    let summary = builder.build().unwrap();
    assert_eq!(summary.count, 100);
    assert_eq!(summary.inner, execution(5050, 5050, 10100));
    assert_eq!(summary.min_duration, Elapsed::from_millis(1));
    assert_eq!(summary.max_duration, Elapsed::from_millis(100));
}
