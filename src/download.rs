//! Decisions of a group download: what to write before the per-event work
//! fans out, and how the per-event results add up to the group's outcome.

use vstd::prelude::*;
use crate::event::{index_document, index_csv, EventSummary};

verus! {

/// Kinds of failure.
#[derive(Clone, Copy, Debug, PartialEq, Eq, Structural)]
pub enum ErrorKind {
    /// The bearer credential is missing or was rejected.
    Auth,
    /// A transport failure on any call.
    Network,
    /// A response did not have the expected shape.
    Decode,
    /// Creating or writing a directory or file failed.
    Filesystem,
}

pub open spec fn strings(v: Seq<String>) -> Seq<Seq<char>> {
    v.map_values(|s: String| s@)
}

pub open spec fn summary_ids(es: Seq<EventSummary>) -> Seq<Seq<char>> {
    es.map_values(|e: EventSummary| e.id@)
}

/// The work for one listed group: the index file's contents, and the events
/// to fetch concurrently, every listed one in listing order.
#[derive(Clone, Debug)]
pub struct GroupPlan {
    pub index: String,
    pub event_ids: Vec<String>,
}

pub fn plan_group(events: &Vec<EventSummary>) -> (r: GroupPlan)
    ensures
        r.index@ == index_document(events@),
        strings(r.event_ids@) == summary_ids(events@),
{
    let index = index_csv(events);
    let mut event_ids: Vec<String> = Vec::new();
    let mut i: usize = 0;
    while i < events.len()
        invariant
            i <= events@.len(),
            strings(event_ids@) == summary_ids(events@.take(i as int)),
        decreases events@.len() - i,
    {
        let ghost before = event_ids@;
        let id = events[i].id.clone();
        event_ids.push(id);
        proof {
            let next = events@.take(i as int + 1);
            assert(strings(before).len() == i);
            assert(event_ids@.len() == i + 1);
            assert forall|j: int| 0 <= j < next.len() implies #[trigger] strings(event_ids@)[j]
                == summary_ids(next)[j] by {
                if j < i {
                    assert(strings(before)[j] == summary_ids(events@.take(i as int))[j]);
                }
            }
            assert(strings(event_ids@) =~= summary_ids(next));
        }
        i = i + 1;
    }
    assert(events@.take(i as int) =~= events@);
    GroupPlan { index, event_ids }
}

/// The IDs of the events whose task failed, in listing order.
pub open spec fn failed_ids(es: Seq<EventSummary>, rs: Seq<Result<(), ErrorKind>>) -> Seq<
    Seq<char>,
>
    decreases es.len(),
{
    if es.len() == 0 || rs.len() == 0 {
        Seq::empty()
    } else {
        failed_ids(es.drop_last(), rs.drop_last()) + if rs.last() is Err {
            seq![es.last().id@]
        } else {
            Seq::empty()
        }
    }
}

/// What the per-event tasks of one group came to.
#[derive(Clone, Debug)]
pub struct GroupReport {
    /// How many events were attempted.
    pub events: usize,
    /// The IDs of those that failed.
    pub failed: Vec<String>,
}

/// A group fails as a whole when all of its events failed, and there was at least one.
pub open spec fn all_failed(r: GroupReport) -> bool {
    r.events > 0 && r.failed@.len() == r.events
}

impl GroupReport {
    pub fn all_failed(&self) -> (r: bool)
        ensures
            r == all_failed(*self),
    {
        self.events > 0 && self.failed.len() == self.events
    }
}

/// Pairs each listed event with the result of its task.
pub fn summarize_group(events: &Vec<EventSummary>, results: &Vec<Result<(), ErrorKind>>) -> (r:
    GroupReport)
    requires
        events@.len() == results@.len(),
    ensures
        r.events == events@.len(),
        strings(r.failed@) == failed_ids(events@, results@),
{
    let mut failed: Vec<String> = Vec::new();
    let mut i: usize = 0;
    while i < events.len()
        invariant
            i <= events@.len(),
            events@.len() == results@.len(),
            strings(failed@) == failed_ids(events@.take(i as int), results@.take(i as int)),
        decreases events@.len() - i,
    {
        proof {
            let es = events@.take(i as int + 1);
            let rs = results@.take(i as int + 1);
            assert(es.drop_last() =~= events@.take(i as int));
            assert(rs.drop_last() =~= results@.take(i as int));
        }
        if results[i].is_err() {
            failed.push(events[i].id.clone());
        }
        assert(strings(failed@) =~= failed_ids(
            events@.take(i as int + 1),
            results@.take(i as int + 1),
        ));
        i = i + 1;
    }
    assert(events@.take(i as int) =~= events@);
    assert(results@.take(i as int) =~= results@);
    GroupReport { events: events.len(), failed }
}

proof fn lemma_all_ok(es: Seq<EventSummary>, rs: Seq<Result<(), ErrorKind>>)
    requires
        es.len() == rs.len(),
        forall|i: int| 0 <= i < rs.len() ==> #[trigger] rs[i] is Ok,
    ensures
        failed_ids(es, rs) == Seq::<Seq<char>>::empty(),
    decreases es.len(),
{
    if es.len() > 0 {
        lemma_all_ok(es.drop_last(), rs.drop_last());
        assert(rs.last() is Ok);
        assert(failed_ids(es, rs) =~= Seq::<Seq<char>>::empty());
    }
}

/// Failures stay with their own events: when exactly one task failed, the
/// report names that event and no other.
pub proof fn lemma_single_failure(es: Seq<EventSummary>, rs: Seq<Result<(), ErrorKind>>, k: int)
    requires
        es.len() == rs.len(),
        0 <= k < rs.len(),
        rs[k] is Err,
        forall|i: int| 0 <= i < rs.len() && i != k ==> #[trigger] rs[i] is Ok,
    ensures
        failed_ids(es, rs) == seq![es[k].id@],
    decreases es.len(),
{
    let n = es.len() - 1;
    if k == n {
        lemma_all_ok(es.drop_last(), rs.drop_last());
        assert(failed_ids(es, rs) =~= seq![es[k].id@]);
    } else {
        lemma_single_failure(es.drop_last(), rs.drop_last(), k);
        assert(rs[n] is Ok);
        assert(failed_ids(es, rs) =~= seq![es[k].id@]);
    }
}

/// How one group's processing ended.
#[derive(Clone, Debug)]
pub enum GroupOutcome {
    /// Listing the group's events failed; nothing was written.
    ListingFailed(ErrorKind),
    /// The group's directory or index file could not be written.
    PrepareFailed(ErrorKind),
    /// The per-event tasks ran.
    Downloaded(GroupReport),
}

pub open spec fn group_failed(o: GroupOutcome) -> bool {
    match o {
        GroupOutcome::Downloaded(r) => all_failed(r),
        _ => true,
    }
}

impl GroupOutcome {
    pub fn is_failure(&self) -> (r: bool)
        ensures
            r == group_failed(*self),
    {
        match self {
            GroupOutcome::Downloaded(r) => r.all_failed(),
            _ => true,
        }
    }
}

/// A run succeeds when no group failed; single failed events do not fail it.
pub fn run_succeeded(outcomes: &Vec<GroupOutcome>) -> (r: bool)
    ensures
        r == (forall|i: int| 0 <= i < outcomes@.len() ==> !#[trigger] group_failed(outcomes@[i])),
{
    let mut i: usize = 0;
    while i < outcomes.len()
        invariant
            i <= outcomes@.len(),
            forall|j: int| 0 <= j < i ==> !#[trigger] group_failed(outcomes@[j]),
        decreases outcomes@.len() - i,
    {
        if outcomes[i].is_failure() {
            return false;
        }
        i = i + 1;
    }
    true
}

/// A download over several groups, taken one after another in the order
/// given. Each group gets an outcome, whatever the outcomes before it were.
#[derive(Clone, Debug)]
pub struct DownloadRun {
    pub groups: Vec<String>,
    pub outcomes: Vec<GroupOutcome>,
}

impl DownloadRun {
    pub open spec fn well_formed(&self) -> bool {
        self.outcomes@.len() <= self.groups@.len()
    }

    pub fn new(groups: Vec<String>) -> (r: Self)
        ensures
            r.groups == groups,
            r.outcomes@.len() == 0,
            r.well_formed(),
    {
        DownloadRun { groups, outcomes: Vec::new() }
    }

    /// The group to process next, or `None` once every group has an outcome.
    pub fn current_group(&self) -> (r: Option<&String>)
        requires
            self.well_formed(),
        ensures
            r is None <==> self.outcomes@.len() == self.groups@.len(),
            r is Some ==> *r->0 == self.groups@[self.outcomes@.len() as int],
    {
        if self.outcomes.len() < self.groups.len() {
            Some(&self.groups[self.outcomes.len()])
        } else {
            None
        }
    }

    /// Records how the current group ended and moves on to the next one.
    pub fn record(&mut self, outcome: GroupOutcome)
        requires
            old(self).outcomes@.len() < old(self).groups@.len(),
        ensures
            final(self).groups == old(self).groups,
            final(self).outcomes@ == old(self).outcomes@.push(outcome),
            final(self).well_formed(),
    {
        self.outcomes.push(outcome);
    }

    /// Whether the run is over and no group failed.
    pub fn succeeded(&self) -> (r: bool)
        ensures
            r == (self.outcomes@.len() == self.groups@.len() && forall|i: int|
                0 <= i < self.outcomes@.len() ==> !#[trigger] group_failed(self.outcomes@[i])),
    {
        self.outcomes.len() == self.groups.len() && run_succeeded(&self.outcomes)
    }
}

/// A failed group does not stop the run: after any outcome is recorded for
/// group `k`, the next group to process is group `k + 1`, if there is one.
pub proof fn lemma_failure_moves_on(before: DownloadRun, after: DownloadRun, outcome: GroupOutcome)
    requires
        before.outcomes@.len() < before.groups@.len(),
        after.groups == before.groups,
        after.outcomes@ == before.outcomes@.push(outcome),
    ensures
        after.well_formed(),
        after.outcomes@.len() == before.outcomes@.len() + 1,
        after.outcomes@.len() < after.groups@.len() ==> after.groups@[after.outcomes@.len() as int]
            == before.groups@[before.outcomes@.len() + 1 as int],
{
}

} // verus!
