//! Replaying a log: every query is run again and again until its runs add
//! up to the test window, and then reported with the summary of its runs.
//!
//! The runs themselves are made elsewhere. A `ReplayRun` says which query is
//! to be run next, takes what the run cost, and hands out the report when a
//! query is done.

use crate::elapsed::Elapsed;
use crate::execution::{
    accumulated, can_accumulate, QueryExecution, QueryExecutionSummary,
    QueryExecutionSummaryBuilder,
};
use crate::query::{Query, QueryView};
use crate::query_log::{rows_view, QueryLog, QueryRowView};
use crate::text::{chars_of, decimal, decimal_text, string_of};
use vstd::pervasive::unreached;
use vstd::prelude::*;
use vstd::string::StringExecFns;

verus! {

/// The test window: a query is run until its runs have taken this many
/// seconds together.
pub const TEST_DURATION_SECS: u64 = 5;

/// The number of characters of a query's label that a report shows.
pub const SHOWN_LABEL_CHARS: usize = 10;

/// Whether runs that took `total` together fill the test window.
pub open spec fn window_filled(total: Elapsed) -> bool {
    total@ >= TEST_DURATION_SECS * 1_000_000_000
}

/// The first `SHOWN_LABEL_CHARS` characters of a label, or all of a shorter
/// one.
pub open spec fn shown_label(label: Seq<char>) -> Seq<char> {
    if label.len() > SHOWN_LABEL_CHARS {
        label.take(SHOWN_LABEL_CHARS as int)
    } else {
        label
    }
}

/// The line that reports the query at place `index` of the log:
/// `query <index>: <label>,<summary>`.
pub open spec fn report_line(index: nat, query: QueryView, summary: QueryExecutionSummary) -> Seq<
    char,
> {
    "query "@ + decimal_text(index) + ": "@ + shown_label(query.description()) + ","@
        + summary.row()
}

/// The line that stands above the reports.
pub fn header_line() -> (out: String)
    ensures
        out@ == "description,"@ + QueryExecutionSummary::header_text(),
{
    let mut out = "description,".to_owned();
    out.append(QueryExecutionSummary::header().as_str());
    out
}

/// Writes the line that reports a query.
pub fn format_report(index: usize, query: &Query, summary: &QueryExecutionSummary) -> (out: String)
    ensures
        out@ == report_line(index as nat, query@, *summary),
{
    let label = query.to_string();
    let chars = chars_of(label.as_str());
    let shown = if chars.len() > SHOWN_LABEL_CHARS {
        string_of(&chars, 0, SHOWN_LABEL_CHARS)
    } else {
        label
    };
    let mut out = "query ".to_owned();
    out.append(decimal(index as u128).as_str());
    out.append(": ");
    out.append(shown.as_str());
    out.append(",");
    out.append(summary.to_string().as_str());
    out
}

/// Where a replay stands.
pub struct ReplayState {
    /// The queries of the log, in their order.
    pub queries: Seq<QueryView>,
    /// The place of the query that is being replayed; the number of queries
    /// when all are done.
    pub position: nat,
    /// The summary of the runs of that query so far.
    pub running: Option<QueryExecutionSummary>,
}

impl ReplayState {
    /// Whether every query is done.
    pub open spec fn finished(self) -> bool {
        self.position >= self.queries.len()
    }

    /// Whether one more run can be taken in.
    pub open spec fn can_record(self, execution: QueryExecution) -> bool {
        !self.finished() && can_accumulate(self.running, execution)
    }

    /// The summary of the current query with one more run.
    pub open spec fn summary_with(self, execution: QueryExecution) -> QueryExecutionSummary {
        accumulated(self.running, execution)
    }

    /// Whether one more run completes the current query.
    pub open spec fn completes(self, execution: QueryExecution) -> bool {
        window_filled(self.summary_with(execution).inner.duration)
    }

    /// The state after one more run of the current query: the run is added to
    /// the summary; once the summary fills the test window the query is done
    /// and the next one begins with no runs.
    pub open spec fn recorded(self, execution: QueryExecution) -> ReplayState {
        if self.completes(execution) {
            ReplayState { queries: self.queries, position: self.position + 1, running: None }
        } else {
            ReplayState { running: Some(self.summary_with(execution)), ..self }
        }
    }

    /// The report that one more run of the current query brings: none until
    /// the run completes the query.
    pub open spec fn report(self, execution: QueryExecution) -> Option<Seq<char>> {
        if self.completes(execution) {
            Some(
                report_line(
                    self.position,
                    self.queries[self.position as int],
                    self.summary_with(execution),
                ),
            )
        } else {
            None
        }
    }

    /// The state after the runs `executions`, taken in one after the other.
    pub open spec fn recorded_all(self, executions: Seq<QueryExecution>) -> ReplayState
        decreases executions.len(),
    {
        if executions.len() == 0 {
            self
        } else {
            self.recorded_all(executions.drop_last()).recorded(executions.last())
        }
    }
}

/// A query whose every run takes exactly one second is done with its fifth
/// run, no sooner and no later: up to four runs leave it the current query and
/// bring no report, and the fifth brings the report and makes the next query
/// the current one.
pub proof fn lemma_one_second_runs(state: ReplayState, executions: Seq<QueryExecution>)
    requires
        !state.finished(),
        state.running is None,
        1 <= executions.len() <= TEST_DURATION_SECS,
        forall|i: int|
            0 <= i < executions.len() ==> (#[trigger] executions[i]).duration.wf()
                && executions[i].duration@ == 1_000_000_000,
    ensures
        state.recorded_all(executions.drop_last()).position == state.position,
        state.recorded_all(executions.drop_last()).report(executions.last()) is Some
            <==> executions.len() == TEST_DURATION_SECS,
        state.recorded_all(executions).queries == state.queries,
        state.recorded_all(executions).position == if executions.len() == TEST_DURATION_SECS {
            state.position + 1
        } else {
            state.position
        },
        match state.recorded_all(executions).running {
            Some(summary) => executions.len() < TEST_DURATION_SECS && summary.inner.duration@
                == executions.len() * 1_000_000_000,
            None => executions.len() == TEST_DURATION_SECS,
        },
    decreases executions.len(),
{
    let before = executions.drop_last();
    let last = executions.last();
    assert(last == executions[executions.len() - 1]);
    Elapsed::lemma_of_nanos((executions.len() * 1_000_000_000) as nat);
    if before.len() == 0 {
        assert(state.recorded_all(before) == state);
    } else {
        assert forall|i: int| 0 <= i < before.len() implies (#[trigger] before[i]).duration.wf()
            && before[i].duration@ == 1_000_000_000 by {
            assert(before[i] == executions[i]);
        }
        lemma_one_second_runs(state, before);
    }
}

/// What queries hold, query by query.
pub open spec fn queries_view(queries: Seq<Query>) -> Seq<QueryView> {
    Seq::new(queries.len(), |i: int| queries[i]@)
}

/// The queries of the rows of a log.
pub open spec fn queries_of(log: Seq<QueryRowView>) -> Seq<QueryView> {
    Seq::new(log.len(), |i: int| log[i].query)
}

/// A replay of a log in progress.
pub struct ReplayRun {
    queries: Vec<Query>,
    position: usize,
    summary: QueryExecutionSummaryBuilder,
}

impl View for ReplayRun {
    type V = ReplayState;

    closed spec fn view(&self) -> ReplayState {
        ReplayState {
            queries: queries_view(self.queries@),
            position: self.position as nat,
            running: self.summary@,
        }
    }
}

impl ReplayRun {
    /// The current query is one of the log, or the log is done.
    #[verifier::type_invariant]
    closed spec fn wf(self) -> bool {
        self.position <= self.queries.len()
    }

    /// Begins the replay of `log` at its first query.
    pub fn new(log: QueryLog) -> (run: ReplayRun)
        ensures
            run@ == (ReplayState { queries: queries_of(log@), position: 0, running: None }),
    {
        let mut queries: Vec<Query> = Vec::new();
        let ghost rows = log.queries@;
        for row in it: log.queries
            invariant
                it.seq() == rows,
                queries.len() == it.index(),
                forall|i: int| 0 <= i < queries.len() ==> (#[trigger] queries[i]) == rows[i].query,
        {
            queries.push(row.into_inner());
        }
        assert(queries_view(queries@) =~= queries_of(rows_view(rows)));
        ReplayRun { queries, position: 0, summary: QueryExecutionSummaryBuilder::new() }
    }

    /// The query to run next; none when every query is done.
    pub fn current(&self) -> (query: Option<&Query>)
        ensures
            match query {
                Some(query) => !self@.finished() && query@ == self@.queries[self@.position as int],
                None => self@.finished(),
            },
    {
        proof {
            use_type_invariant(self);
        }
        if self.position < self.queries.len() {
            Some(&self.queries[self.position])
        } else {
            None
        }
    }

    /// Whether a run of the current query can be taken in.
    pub fn can_record(&self, execution: &QueryExecution) -> (can: bool)
        ensures
            can == self@.can_record(*execution),
    {
        proof {
            use_type_invariant(self);
        }
        self.position < self.queries.len() && self.summary.can_add(execution)
    }

    /// Takes in what a run of the current query cost. Hands back the line
    /// that reports the query if the run completes it.
    pub fn record(self, execution: QueryExecution) -> (r: (ReplayRun, Option<String>))
        requires
            self@.can_record(execution),
        ensures
            r.0@ == self@.recorded(execution),
            match r.1 {
                Some(line) => self@.report(execution) == Some(line@),
                None => self@.report(execution) is None,
            },
    {
        proof {
            use_type_invariant(&self);
        }
        let ReplayRun { queries, position, summary } = self;
        let summary = summary.add(execution);
        let window = Elapsed::from_secs(TEST_DURATION_SECS);
        if summary.total_duration().is_shorter_than(&window) {
            (ReplayRun { queries, position, summary }, None)
        } else {
            let line = match summary.build() {
                Ok(summary) => format_report(position, &queries[position], &summary),
                Err(_) => unreached(),
            };
            (
                ReplayRun {
                    queries,
                    position: position + 1,
                    summary: QueryExecutionSummaryBuilder::new(),
                },
                Some(line),
            )
        }
    }
}

} // verus!
