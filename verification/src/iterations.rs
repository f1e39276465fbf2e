//! Planning iterations: refusing overlapping ones, what may change in an
//! iteration, and what closing one reports.

use vstd::prelude::*;

use crate::error::AppError;
use crate::model::{Day, Iteration, IterationId, IterationStatus, IterationSummary, Status, WorkItem, WorkItemId};

verus! {

/// Refuses a new or moved iteration that other iterations block, naming the
/// first of them.
pub fn check_no_conflict(conflicts: &[Iteration]) -> (r: Result<(), AppError>)
    ensures
        conflicts@.len() == 0 ==> r is Ok,
        conflicts@.len() > 0 ==> (r matches Err(AppError::IterationConflict { conflict_name })
            && conflict_name@ == conflicts@[0].name@),
{
    if conflicts.len() > 0 {
        Err(AppError::IterationConflict { conflict_name: conflicts[0].name.clone() })
    } else {
        Ok(())
    }
}

/// What updating an iteration leads to: refused when it is missing or has
/// started; otherwise, when new dates are given, the range to check for
/// conflicts, the dates not given kept from the iteration.
pub open spec fn iteration_update_plan(
    it: Option<Iteration>,
    start: Option<Day>,
    end: Option<Day>,
) -> Result<Option<(Day, Day)>, AppError> {
    match it {
        None => Err(AppError::NotFound),
        Some(i) => if i.status != IterationStatus::NotStarted {
            Err(AppError::Forbidden)
        } else if start is Some || end is Some {
            Ok(Some((
                if start is Some { start.unwrap() } else { i.start_date },
                if end is Some { end.unwrap() } else { i.end_date },
            )))
        } else {
            Ok(None)
        },
    }
}

/// Decides whether an iteration may be updated, and which date range must
/// then be free of conflicts.
pub fn plan_iteration_update(it: Option<&Iteration>, start: Option<Day>, end: Option<Day>) -> (r: Result<
    Option<(Day, Day)>,
    AppError,
>)
    ensures
        r == iteration_update_plan(
            match it {
                Some(i) => Some(*i),
                None => None,
            },
            start,
            end,
        ),
{
    match it {
        None => Err(AppError::NotFound),
        Some(i) => {
            if i.status != IterationStatus::NotStarted {
                return Err(AppError::Forbidden);
            }
            if start.is_some() || end.is_some() {
                let new_start = match start {
                    Some(d) => d,
                    None => i.start_date,
                };
                let new_end = match end {
                    Some(d) => d,
                    None => i.end_date,
                };
                Ok(Some((new_start, new_end)))
            } else {
                Ok(None)
            }
        },
    }
}

/// Once an iteration has started, it can no longer be updated.
pub proof fn lemma_started_iteration_frozen(i: Iteration, start: Option<Day>, end: Option<Day>)
    requires
        i.status != IterationStatus::NotStarted,
    ensures
        iteration_update_plan(Some(i), start, end) == Err::<Option<(Day, Day)>, AppError>(AppError::Forbidden),
{
}

/// A story counts as completed when it is done or closed.
pub open spec fn story_completed(s: WorkItem) -> bool {
    s.status == Status::Done || s.status == Status::Closed
}

/// How many of `stories` are completed.
pub open spec fn count_completed(stories: Seq<WorkItem>) -> nat
    decreases stories.len(),
{
    if stories.len() == 0 {
        0
    } else {
        count_completed(stories.drop_last()) + if story_completed(stories.last()) { 1nat } else { 0nat }
    }
}

/// The ids of the stories that are not completed, in order: those that go
/// back to the backlog when the iteration closes.
pub open spec fn backlog_ids(stories: Seq<WorkItem>) -> Seq<WorkItemId>
    decreases stories.len(),
{
    if stories.len() == 0 {
        Seq::empty()
    } else if story_completed(stories.last()) {
        backlog_ids(stories.drop_last())
    } else {
        backlog_ids(stories.drop_last()).push(stories.last().id)
    }
}

/// The ids of the stories of a closing iteration that go back to the backlog:
/// all those neither done nor closed, in order.
pub fn backlog_stories(stories: &[WorkItem]) -> (r: Vec<WorkItemId>)
    ensures
        r@ == backlog_ids(stories@),
{
    let mut r: Vec<WorkItemId> = Vec::new();
    let mut i: usize = 0;
    while i < stories.len()
        invariant
            i <= stories@.len(),
            r@ == backlog_ids(stories@.subrange(0, i as int)),
        decreases stories.len() - i,
    {
        proof {
            assert(stories@.subrange(0, i + 1).drop_last() =~= stories@.subrange(0, i as int));
        }
        if !(stories[i].status == Status::Done || stories[i].status == Status::Closed) {
            r.push(stories[i].id);
        }
        i = i + 1;
    }
    proof {
        assert(stories@.subrange(0, stories@.len() as int) =~= stories@);
    }
    r
}

/// The summary of a closed iteration: its stories, the completed ones, and
/// the others, which go back to the backlog.
pub fn summarize_closed_iteration(iteration_id: IterationId, stories: &[WorkItem]) -> (r: IterationSummary)
    ensures
        r.iteration_id == iteration_id,
        r.total_stories == stories@.len() as i32,
        r.completed_stories == count_completed(stories@) as i32,
        r.moved_to_backlog == (stories@.len() - count_completed(stories@)) as i32,
{
    let mut completed: usize = 0;
    let mut i: usize = 0;
    while i < stories.len()
        invariant
            i <= stories@.len(),
            completed == count_completed(stories@.subrange(0, i as int)),
            completed <= i,
        decreases stories.len() - i,
    {
        proof {
            assert(stories@.subrange(0, i + 1).drop_last() =~= stories@.subrange(0, i as int));
        }
        if stories[i].status == Status::Done || stories[i].status == Status::Closed {
            completed = completed + 1;
        }
        i = i + 1;
    }
    proof {
        assert(stories@.subrange(0, stories@.len() as int) =~= stories@);
    }
    IterationSummary {
        iteration_id,
        total_stories: stories.len() as i32,
        completed_stories: completed as i32,
        moved_to_backlog: (stories.len() - completed) as i32,
    }
}

/// Closing an iteration splits its stories: the completed ones stay, and
/// exactly the others go back to the backlog, so the two counts add up to
/// all stories.
pub proof fn lemma_closing_splits_stories(stories: Seq<WorkItem>)
    ensures
        count_completed(stories) + backlog_ids(stories).len() == stories.len(),
        forall|k: int| 0 <= k < backlog_ids(stories).len() ==> exists|j: int|
            0 <= j < stories.len() && #[trigger] backlog_ids(stories)[k] == stories[j].id && !story_completed(stories[j]),
        forall|j: int| 0 <= j < stories.len() && !story_completed(#[trigger] stories[j])
            ==> backlog_ids(stories).contains(stories[j].id),
    decreases stories.len(),
{
    if stories.len() > 0 {
        let init = stories.drop_last();
        lemma_closing_splits_stories(init);
        let b = backlog_ids(stories);
        let bi = backlog_ids(init);
        assert forall|k: int| 0 <= k < b.len() implies exists|j: int|
            0 <= j < stories.len() && #[trigger] b[k] == stories[j].id && !story_completed(stories[j]) by {
            if k < bi.len() {
                assert(b[k] == bi[k]);
                let j = choose|j: int| 0 <= j < init.len() && bi[k] == init[j].id && !story_completed(init[j]);
                assert(stories[j] == init[j]);
            } else {
                assert(stories[stories.len() - 1] == stories.last());
            }
        }
        assert forall|j: int| 0 <= j < stories.len() && !story_completed(#[trigger] stories[j])
            implies b.contains(stories[j].id) by {
            if j < init.len() {
                assert(init[j] == stories[j]);
                assert(bi.contains(stories[j].id));
                let k = choose|k: int| 0 <= k < bi.len() && bi[k] == stories[j].id;
                assert(b[k] == bi[k]);
            } else {
                assert(b[b.len() - 1] == stories[j].id);
            }
        }
    }
}

/// Story counts of an iteration by status.
#[derive(Debug, Clone, Copy, PartialEq, Eq, Structural)]
pub struct IterationStats {
    pub total: i64,
    pub done: i64,
    pub in_progress: i64,
    pub pending: i64,
}

/// How many of `items` have status `s`.
pub open spec fn count_status(items: Seq<WorkItem>, s: Status) -> nat
    decreases items.len(),
{
    if items.len() == 0 {
        0
    } else {
        count_status(items.drop_last(), s) + if items.last().status == s { 1nat } else { 0nat }
    }
}

fn count_with_status(items: &[WorkItem], s: Status) -> (r: usize)
    ensures
        r == count_status(items@, s),
{
    let mut n: usize = 0;
    let mut i: usize = 0;
    while i < items.len()
        invariant
            i <= items@.len(),
            n == count_status(items@.subrange(0, i as int), s),
            n <= i,
        decreases items.len() - i,
    {
        proof {
            assert(items@.subrange(0, i + 1).drop_last() =~= items@.subrange(0, i as int));
        }
        if items[i].status == s {
            n = n + 1;
        }
        i = i + 1;
    }
    proof {
        assert(items@.subrange(0, items@.len() as int) =~= items@);
    }
    n
}

/// An iteration's story counts: all, done, in progress and pending.
pub fn iteration_stats(stories: &[WorkItem]) -> (r: IterationStats)
    ensures
        r.total == stories@.len() as i64,
        r.done == count_status(stories@, Status::Done) as i64,
        r.in_progress == count_status(stories@, Status::InProgress) as i64,
        r.pending == count_status(stories@, Status::Pending) as i64,
{
    IterationStats {
        total: stories.len() as i64,
        done: count_with_status(stories, Status::Done) as i64,
        in_progress: count_with_status(stories, Status::InProgress) as i64,
        pending: count_with_status(stories, Status::Pending) as i64,
    }
}

} // verus!
