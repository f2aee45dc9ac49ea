//! What running a query cost, and the summary of many runs.

use crate::elapsed::{max_nanos, Elapsed};
use crate::text::{decimal, decimal_text};
use std::time::{Duration, Instant};
use vstd::prelude::*;
use vstd::string::StringExecFns;

verus! {

/// `std::time::Instant`, a reading of the clock. It is carried from the start
/// of a run to its end and never looked into.
#[verifier::external_type_specification]
#[verifier::external_body]
pub struct ExInstant(Instant);

/// `Instant::now` reads the clock: nothing is known of what it returns.
pub assume_specification[ Instant::now ]() -> Instant;

/// `Instant::elapsed` reads the clock: nothing is known of what it returns.
pub assume_specification[ Instant::elapsed ](start: &Instant) -> Duration;

/// `Duration::as_secs` gives the whole seconds of a duration.
pub assume_specification[ Duration::as_secs ](duration: &Duration) -> u64;

/// `Duration::subsec_nanos` gives the part of a duration beyond its whole
/// seconds, in nanoseconds: less than a second.
pub assume_specification[ Duration::subsec_nanos ](duration: &Duration) -> (nanos: u32)
    ensures
        nanos < 1_000_000_000,
;

/// How `Duration` shows a span of `secs` seconds and `subsec_nanos`
/// nanoseconds when it is formatted for debugging, as in `1.5s` or `20ms`.
pub uninterp spec fn duration_debug_text(secs: u64, subsec_nanos: u32) -> Seq<char>;

/// Shows a span the way `Duration` does when it is formatted for debugging.
///
/// Builds the `Duration` with `Duration::new`, which takes nanoseconds below
/// a second without a carry, and formats it with `{:?}`.
#[verifier::external_body]
fn debug_duration(secs: u64, subsec_nanos: u32) -> (text: String)
    requires
        subsec_nanos < 1_000_000_000,
    ensures
        text@ == duration_debug_text(secs, subsec_nanos),
{
    format!("{:?}", Duration::new(secs, subsec_nanos))
}

/// Information on the results of running a query once.
#[derive(Clone, Copy, Debug, PartialEq, Eq, Structural)]
pub struct QueryExecution {
    /// The total time to run the query, network time included.
    pub duration: Elapsed,
    /// Total number of rows returned.
    pub num_rows: usize,
    /// Total number of frames returned.
    pub num_frames: usize,
}

impl QueryExecution {
    /// Whether this execution and `other` add up to one that can be held.
    pub open spec fn can_aggregate(self, other: QueryExecution) -> bool {
        &&& self.duration@ + other.duration@ <= max_nanos()
        &&& self.num_rows + other.num_rows <= usize::MAX
        &&& self.num_frames + other.num_frames <= usize::MAX
    }

    /// The sum of this execution and `other`, field by field.
    pub open spec fn aggregated(self, other: QueryExecution) -> QueryExecution {
        QueryExecution {
            duration: Elapsed::of_nanos(self.duration@ + other.duration@),
            num_rows: (self.num_rows + other.num_rows) as usize,
            num_frames: (self.num_frames + other.num_frames) as usize,
        }
    }

    /// The execution in words: `<rows> rows <frames> frames in <duration>`.
    pub open spec fn description(self) -> Seq<char> {
        decimal_text(self.num_rows as nat) + " rows "@ + decimal_text(self.num_frames as nat)
            + " frames in "@ + duration_debug_text(
            (self.duration@ / 1_000_000_000) as u64,
            (self.duration@ % 1_000_000_000) as u32,
        )
    }

    /// Describes the execution in words.
    pub fn to_string(&self) -> (out: String)
        ensures
            out@ == self.description(),
    {
        let mut out = decimal(self.num_rows as u128);
        out.append(" rows ");
        out.append(decimal(self.num_frames as u128).as_str());
        out.append(" frames in ");
        out.append(
            debug_duration(self.duration.as_secs(), self.duration.subsec_nanos()).as_str(),
        );
        out
    }

    /// Whether this execution and `other` add up to one that can be held.
    pub fn fits_with(&self, other: &QueryExecution) -> (fits: bool)
        ensures
            fits == self.can_aggregate(*other),
    {
        let duration = self.duration.checked_add(&other.duration);
        let num_rows = self.num_rows.checked_add(other.num_rows);
        let num_frames = self.num_frames.checked_add(other.num_frames);
        duration.is_some() && num_rows.is_some() && num_frames.is_some()
    }

    /// Adds `other` to this execution.
    pub fn aggregate(self, other: &QueryExecution) -> (sum: QueryExecution)
        requires
            self.can_aggregate(*other),
        ensures
            sum == self.aggregated(*other),
    {
        QueryExecution {
            duration: self.duration.plus(&other.duration),
            num_rows: self.num_rows + other.num_rows,
            num_frames: self.num_frames + other.num_frames,
        }
    }
}

impl Default for QueryExecution {
    fn default() -> (r: QueryExecution)
        ensures
            r.duration == Elapsed::of_nanos(0),
            r.duration@ == 0,
            r.num_rows == 0,
            r.num_frames == 0,
    {
        QueryExecution { duration: Elapsed::zero(), num_rows: 0, num_frames: 0 }
    }
}

/// The number of frames that carry data, where `frames` tells of each frame
/// of a response whether it does.
pub open spec fn frames_with_data(frames: Seq<bool>) -> nat
    decreases frames.len(),
{
    if frames.len() == 0 {
        0
    } else {
        frames_with_data(frames.drop_last()) + if frames.last() {
            1nat
        } else {
            0nat
        }
    }
}

/// The first frames of a response hold no more frames with data than the
/// whole response.
pub proof fn lemma_frames_with_data_prefix(frames: Seq<bool>, len: int)
    requires
        0 <= len <= frames.len(),
    ensures
        frames_with_data(frames.take(len)) <= frames_with_data(frames),
    decreases frames.len(),
{
    if len < frames.len() {
        assert(frames.drop_last().take(len) =~= frames.take(len));
        lemma_frames_with_data_prefix(frames.drop_last(), len);
    } else {
        assert(frames.take(len) =~= frames);
    }
}

/// Counts what a running query returns, and times the run.
#[derive(Debug)]
pub struct QueryExecutionBuilder {
    start: Instant,
    num_rows: usize,
    num_frames: usize,
}

impl QueryExecutionBuilder {
    /// The rows counted so far.
    pub closed spec fn rows(self) -> nat {
        self.num_rows as nat
    }

    /// The frames counted so far.
    pub closed spec fn frames(self) -> nat {
        self.num_frames as nat
    }

    /// Starts the clock, with nothing counted.
    pub fn new() -> (r: QueryExecutionBuilder)
        ensures
            r.rows() == 0,
            r.frames() == 0,
    {
        QueryExecutionBuilder { start: Instant::now(), num_rows: 0, num_frames: 0 }
    }

    /// The rows counted so far.
    pub fn num_rows(&self) -> (num_rows: usize)
        ensures
            num_rows == self.rows(),
    {
        self.num_rows
    }

    /// The frames counted so far.
    pub fn num_frames(&self) -> (num_frames: usize)
        ensures
            num_frames == self.frames(),
    {
        self.num_frames
    }

    /// Records that the query produced `num_rows` more rows.
    pub fn add_rows(&mut self, num_rows: usize)
        requires
            old(self).rows() + num_rows <= usize::MAX,
        ensures
            final(self).rows() == old(self).rows() + num_rows,
            final(self).frames() == old(self).frames(),
    {
        self.num_rows += num_rows;
    }

    /// Records that the query produced `num_frames` more frames.
    pub fn add_frames(&mut self, num_frames: usize)
        requires
            old(self).frames() + num_frames <= usize::MAX,
        ensures
            final(self).frames() == old(self).frames() + num_frames,
            final(self).rows() == old(self).rows(),
    {
        self.num_frames += num_frames;
    }

    /// Records one response of a storage request, where `frames` tells of
    /// each of its frames whether it carries data: each frame that does
    /// counts as one, whatever its size.
    pub fn add_response(&mut self, frames: &Vec<bool>)
        requires
            old(self).frames() + frames_with_data(frames@) <= usize::MAX,
        ensures
            final(self).frames() == old(self).frames() + frames_with_data(frames@),
            final(self).rows() == old(self).rows(),
    {
        let mut i: usize = 0;
        while i < frames.len()
            invariant
                i <= frames.len(),
                old(self).frames() + frames_with_data(frames@) <= usize::MAX,
                self.frames() == old(self).frames() + frames_with_data(frames@.take(i as int)),
                self.rows() == old(self).rows(),
            decreases frames.len() - i,
        {
            proof {
                let now = frames@.take(i + 1);
                assert(now.drop_last() =~= frames@.take(i as int));
                assert(now.last() == frames@[i as int]);
                lemma_frames_with_data_prefix(frames@, i + 1);
            }
            if frames[i] {
                self.num_frames += 1;
            }
            i += 1;
        }
        assert(frames@.take(frames.len() as int) =~= frames@);
    }

    /// Stops the clock. The execution holds what was counted and the time
    /// since `new`, whatever that time is.
    pub fn build(self) -> (r: QueryExecution)
        ensures
            r.num_rows == self.rows(),
            r.num_frames == self.frames(),
    {
        let elapsed = self.start.elapsed();
        let duration = Elapsed::from_parts(elapsed.as_secs(), elapsed.subsec_nanos());
        QueryExecution { duration, num_rows: self.num_rows, num_frames: self.num_frames }
    }
}

/// The summary of one or more executions of a query.
#[derive(Clone, Copy, Debug, PartialEq, Eq, Structural)]
pub struct QueryExecutionSummary {
    /// Total duration, rows and frames.
    pub inner: QueryExecution,
    /// The shortest time that an execution took.
    pub min_duration: Elapsed,
    /// The longest time that an execution took.
    pub max_duration: Elapsed,
    /// The number of executions summed up.
    pub count: usize,
}

impl QueryExecutionSummary {
    /// The column titles of the row that `to_string` writes, with a tab
    /// between two columns.
    pub open spec fn header_text() -> Seq<char> {
        "total_duration_ms\tmin_duration_ms\tmax_duration_ms\tcount\ttotal_rows\ttotal_frames"@
    }

    /// The column titles of the row that `to_string` writes.
    pub fn header() -> (out: String)
        ensures
            out@ == Self::header_text(),
    {
        "total_duration_ms\tmin_duration_ms\tmax_duration_ms\tcount\ttotal_rows\ttotal_frames".to_owned()
    }

    /// The summary as a row of a table: total, shortest and longest duration
    /// in whole milliseconds, then count, rows and frames, with a tab between
    /// two columns.
    pub open spec fn row(self) -> Seq<char> {
        decimal_text(self.inner.duration@ / 1_000_000) + "\t"@ + decimal_text(
            self.min_duration@ / 1_000_000,
        ) + "\t"@ + decimal_text(self.max_duration@ / 1_000_000) + "\t"@ + decimal_text(
            self.count as nat,
        ) + "\t"@ + decimal_text(self.inner.num_rows as nat) + "\t"@ + decimal_text(
            self.inner.num_frames as nat,
        )
    }

    /// Writes the summary as a row of a table.
    pub fn to_string(&self) -> (out: String)
        ensures
            out@ == self.row(),
    {
        let mut out = decimal(self.inner.duration.as_millis());
        out.append("\t");
        out.append(decimal(self.min_duration.as_millis()).as_str());
        out.append("\t");
        out.append(decimal(self.max_duration.as_millis()).as_str());
        out.append("\t");
        out.append(decimal(self.count as u128).as_str());
        out.append("\t");
        out.append(decimal(self.inner.num_rows as u128).as_str());
        out.append("\t");
        out.append(decimal(self.inner.num_frames as u128).as_str());
        out
    }
}

impl Default for QueryExecutionSummary {
    fn default() -> (r: QueryExecutionSummary)
        ensures
            r.inner.duration@ == 0,
            r.inner.num_rows == 0,
            r.inner.num_frames == 0,
            r.min_duration@ == 0,
            r.max_duration@ == 0,
            r.count == 0,
    {
        QueryExecutionSummary {
            inner: QueryExecution::default(),
            min_duration: Elapsed::zero(),
            max_duration: Elapsed::zero(),
            count: 0,
        }
    }
}

/// A summary was asked of no execution at all.
#[derive(Clone, Copy, Debug, PartialEq, Eq, Structural)]
pub struct EmptySummary;

impl EmptySummary {
    /// Says the fault in words.
    pub fn to_string(&self) -> (out: String)
        ensures
            out@ == "No executions were added to the summary"@,
    {
        "No executions were added to the summary".to_owned()
    }
}

/// The shorter of two spans.
pub open spec fn shorter(a: Elapsed, b: Elapsed) -> Elapsed {
    if b@ < a@ {
        b
    } else {
        a
    }
}

/// The longer of two spans.
pub open spec fn longer(a: Elapsed, b: Elapsed) -> Elapsed {
    if b@ > a@ {
        b
    } else {
        a
    }
}

/// Whether one more execution can be added to a running summary and held.
pub open spec fn can_accumulate(running: Option<QueryExecutionSummary>, new: QueryExecution) -> bool {
    running matches Some(summary) ==> summary.inner.can_aggregate(new) && summary.count
        < usize::MAX
}

/// The running summary with one more execution: the totals grow by it, the
/// bounds widen to it, and the first execution sets both bounds.
pub open spec fn accumulated(
    running: Option<QueryExecutionSummary>,
    new: QueryExecution,
) -> QueryExecutionSummary {
    match running {
        Some(summary) => QueryExecutionSummary {
            inner: summary.inner.aggregated(new),
            min_duration: shorter(summary.min_duration, new.duration),
            max_duration: longer(summary.max_duration, new.duration),
            count: (summary.count + 1) as usize,
        },
        None => QueryExecutionSummary {
            inner: new,
            min_duration: new.duration,
            max_duration: new.duration,
            count: 1,
        },
    }
}

/// The summary of `executions`, added one by one in their order; none of no
/// execution.
pub open spec fn summary_of(executions: Seq<QueryExecution>) -> Option<QueryExecutionSummary>
    decreases executions.len(),
{
    if executions.len() == 0 {
        None
    } else {
        Some(accumulated(summary_of(executions.drop_last()), executions.last()))
    }
}

/// The summary of executions to which one more is added is the summary of
/// the executions before, with that one taken in.
pub proof fn lemma_summary_of_push(executions: Seq<QueryExecution>, new: QueryExecution)
    ensures
        summary_of(executions.push(new)) == Some(accumulated(summary_of(executions), new)),
{
    assert(executions.push(new).drop_last() =~= executions);
}

/// The durations of `executions` together, in nanoseconds.
pub open spec fn total_nanos(executions: Seq<QueryExecution>) -> nat
    decreases executions.len(),
{
    if executions.len() == 0 {
        0
    } else {
        total_nanos(executions.drop_last()) + executions.last().duration@
    }
}

/// The rows of `executions` together.
pub open spec fn total_rows(executions: Seq<QueryExecution>) -> nat
    decreases executions.len(),
{
    if executions.len() == 0 {
        0
    } else {
        total_rows(executions.drop_last()) + executions.last().num_rows as nat
    }
}

/// The frames of `executions` together.
pub open spec fn total_frames(executions: Seq<QueryExecution>) -> nat
    decreases executions.len(),
{
    if executions.len() == 0 {
        0
    } else {
        total_frames(executions.drop_last()) + executions.last().num_frames as nat
    }
}

/// Whether the totals of `executions` can be held in a summary.
pub open spec fn totals_fit(executions: Seq<QueryExecution>) -> bool {
    &&& executions.len() <= usize::MAX
    &&& total_nanos(executions) <= max_nanos()
    &&& total_rows(executions) <= usize::MAX
    &&& total_frames(executions) <= usize::MAX
}

/// The summary of one or more executions counts them, holds the sums of their
/// durations, rows and frames, and its bounds are the shortest and the longest
/// of their durations.
pub proof fn lemma_summary_of(executions: Seq<QueryExecution>)
    requires
        executions.len() > 0,
        forall|i: int| 0 <= i < executions.len() ==> (#[trigger] executions[i]).duration.wf(),
        totals_fit(executions),
    ensures
        summary_of(executions) matches Some(summary) && {
            &&& summary.count == executions.len()
            &&& summary.inner.duration@ == total_nanos(executions)
            &&& summary.inner.num_rows == total_rows(executions)
            &&& summary.inner.num_frames == total_frames(executions)
            &&& forall|i: int|
                0 <= i < executions.len() ==> summary.min_duration@ <= (
                #[trigger] executions[i]).duration@ <= summary.max_duration@
            &&& exists|i: int|
                0 <= i < executions.len() && (#[trigger] executions[i]).duration
                    == summary.min_duration
            &&& exists|i: int|
                0 <= i < executions.len() && (#[trigger] executions[i]).duration
                    == summary.max_duration
        },
    decreases executions.len(),
{
    let last = executions.last();
    let before = executions.drop_last();
    assert(last == executions[executions.len() - 1]);
    if before.len() == 0 {
        assert(total_nanos(before) == 0 && total_rows(before) == 0 && total_frames(before) == 0);
    } else {
        assert forall|i: int| 0 <= i < before.len() implies (#[trigger] before[i]).duration.wf() by {
            assert(before[i] == executions[i]);
        }
        lemma_summary_of(before);
        let running = summary_of(before)->0;
        let summary = accumulated(Some(running), last);
        Elapsed::lemma_of_nanos(total_nanos(executions));
        assert forall|i: int| 0 <= i < executions.len() implies summary.min_duration@ <= (
        #[trigger] executions[i]).duration@ <= summary.max_duration@ by {
            if i < before.len() {
                assert(before[i] == executions[i]);
            }
        }
        let low = choose|i: int| 0 <= i < before.len() && (#[trigger] before[i]).duration
            == running.min_duration;
        let high = choose|i: int| 0 <= i < before.len() && (#[trigger] before[i]).duration
            == running.max_duration;
        assert(before[low] == executions[low] && before[high] == executions[high]);
        let least = if last.duration@ < running.min_duration@ {
            executions.len() - 1
        } else {
            low
        };
        let most = if last.duration@ > running.max_duration@ {
            executions.len() - 1
        } else {
            high
        };
        assert(executions[least].duration == summary.min_duration);
        assert(executions[most].duration == summary.max_duration);
    }
}

/// Sums up executions one by one, keeping no single one.
#[derive(Debug)]
pub struct QueryExecutionSummaryBuilder {
    summary: Option<QueryExecutionSummary>,
}

impl View for QueryExecutionSummaryBuilder {
    type V = Option<QueryExecutionSummary>;

    /// The summary of what was added so far; none before the first.
    closed spec fn view(&self) -> Option<QueryExecutionSummary> {
        self.summary
    }
}

impl QueryExecutionSummaryBuilder {
    /// A builder to which nothing was added yet.
    pub fn new() -> (r: QueryExecutionSummaryBuilder)
        ensures
            r@ is None,
    {
        QueryExecutionSummaryBuilder { summary: None }
    }

    /// The total duration of the executions added so far.
    pub fn total_duration(&self) -> (total: Elapsed)
        ensures
            total == match self@ {
                Some(summary) => summary.inner.duration,
                None => Elapsed::of_nanos(0),
            },
    {
        match &self.summary {
            Some(summary) => summary.inner.duration,
            None => Elapsed::zero(),
        }
    }

    /// The summary of the executions added so far. There is none of no
    /// execution.
    pub fn build(self) -> (r: Result<QueryExecutionSummary, EmptySummary>)
        ensures
            r == match self@ {
                Some(summary) => Ok::<QueryExecutionSummary, EmptySummary>(summary),
                None => Err::<QueryExecutionSummary, EmptySummary>(EmptySummary),
            },
    {
        match self.summary {
            Some(summary) => Ok(summary),
            None => Err(EmptySummary),
        }
    }

    /// Whether one more execution can be added and held.
    pub fn can_add(&self, execution: &QueryExecution) -> (can: bool)
        ensures
            can == can_accumulate(self@, *execution),
    {
        match &self.summary {
            Some(summary) => summary.inner.fits_with(execution) && summary.count < usize::MAX,
            None => true,
        }
    }

    /// Adds one execution to the summary.
    pub fn add(self, execution: QueryExecution) -> (r: QueryExecutionSummaryBuilder)
        requires
            can_accumulate(self@, execution),
        ensures
            r@ == Some(accumulated(self@, execution)),
    {
        let summary = match self.summary {
            Some(summary) => {
                let min_duration = if execution.duration.is_shorter_than(&summary.min_duration) {
                    execution.duration
                } else {
                    summary.min_duration
                };
                let max_duration = if summary.max_duration.is_shorter_than(&execution.duration) {
                    execution.duration
                } else {
                    summary.max_duration
                };
                QueryExecutionSummary {
                    inner: summary.inner.aggregate(&execution),
                    min_duration,
                    max_duration,
                    count: summary.count + 1,
                }
            },
            None => QueryExecutionSummary {
                inner: execution,
                min_duration: execution.duration,
                max_duration: execution.duration,
                count: 1,
            },
        };
        QueryExecutionSummaryBuilder { summary: Some(summary) }
    }
}

impl Default for QueryExecutionSummaryBuilder {
    fn default() -> (r: QueryExecutionSummaryBuilder)
        ensures
            r@ is None,
    {
        QueryExecutionSummaryBuilder::new()
    }
}

} // verus!
