//! The domain rules: account locking, token lifetimes, iteration conflicts,
//! the bug lifecycle, search keywords, attachment
//! sizes, notification retries and overdue items.

use vstd::prelude::*;

use crate::error::AppError;
use crate::model::{Day, Iteration, IterationStatus, Status, Timestamp, User, WorkItem};

verus! {

// ---- Account locking ----

/// Failed logins in a row that lock an account.
pub const ACCOUNT_LOCK_THRESHOLD: i32 = 5;

/// How long a locked account stays locked: fifteen minutes, in microseconds.
pub const ACCOUNT_LOCK_MICROS: i64 = 900_000_000;

/// The account is locked at `now`.
pub open spec fn is_locked_at(locked_until: Option<Timestamp>, now: Timestamp) -> bool {
    match locked_until {
        Some(until) => now < until,
        None => false,
    }
}

/// Refuses a login while the account is locked.
pub fn check_account_lock(user: &User, now: Timestamp) -> (r: Result<(), AppError>)
    ensures
        is_locked_at(user.locked_until, now) ==> r == Err::<(), AppError>(
            AppError::AccountLocked { until: user.locked_until.unwrap() },
        ),
        !is_locked_at(user.locked_until, now) ==> r is Ok,
{
    if let Some(locked_until) = user.locked_until {
        if now < locked_until {
            return Err(AppError::AccountLocked { until: locked_until });
        }
    }
    Ok(())
}

/// The lock, as a duration in microseconds, that `fail_count` failed logins in
/// a row earn: fifteen minutes from five failures on.
pub fn should_lock_account(fail_count: i32) -> (r: Option<i64>)
    ensures
        fail_count >= ACCOUNT_LOCK_THRESHOLD ==> r == Some(ACCOUNT_LOCK_MICROS),
        fail_count < ACCOUNT_LOCK_THRESHOLD ==> r is None,
{
    if fail_count >= ACCOUNT_LOCK_THRESHOLD {
        Some(ACCOUNT_LOCK_MICROS)
    } else {
        None
    }
}

// ---- Token lifetime ----

/// A password-reset token lives thirty minutes, in microseconds.
pub const RESET_TOKEN_TTL_MICROS: i64 = 1_800_000_000;

/// A token issued at `issued_at` with lifetime `ttl` is still valid at `now`.
pub fn is_token_valid(issued_at: Timestamp, now: Timestamp, ttl: i64) -> (r: bool)
    ensures
        r == (now < issued_at + ttl),
{
    (now as i128) < (issued_at as i128) + (ttl as i128)
}

/// A token is valid exactly while less than its lifetime has passed.
pub proof fn lemma_token_valid_within_ttl(issued_at: int, elapsed: int, ttl: int)
    ensures
        (issued_at + elapsed < issued_at + ttl) <==> elapsed < ttl,
{
}

// ---- Iteration conflicts ----

/// The closed date ranges `[s1, e1]` and `[s2, e2]` share a day.
pub open spec fn ranges_overlap(s1: int, e1: int, s2: int, e2: int) -> bool {
    s1 <= e2 && s2 <= e1
}

/// Two iterations' date ranges share a day.
pub fn iterations_overlap(a: &Iteration, b: &Iteration) -> (r: bool)
    ensures
        r == ranges_overlap(a.start_date as int, a.end_date as int, b.start_date as int, b.end_date as int),
{
    a.start_date <= b.end_date && b.start_date <= a.end_date
}

/// Overlap does not depend on the order of the two iterations.
pub proof fn lemma_overlap_symmetric(s1: int, e1: int, s2: int, e2: int)
    ensures
        ranges_overlap(s1, e1, s2, e2) == ranges_overlap(s2, e2, s1, e1),
{
}

/// A non-empty range overlaps itself.
pub proof fn lemma_overlap_reflexive(s: int, e: int)
    requires
        s <= e,
    ensures
        ranges_overlap(s, e, s, e),
{
}

/// An existing iteration blocks a new one over `[new_start, new_end]`: it is
/// not completed and its range overlaps.
pub open spec fn blocks(it: Iteration, new_start: Day, new_end: Day) -> bool {
    it.status != IterationStatus::Completed
        && ranges_overlap(new_start as int, new_end as int, it.start_date as int, it.end_date as int)
}

/// The first existing iteration that blocks a new one over
/// `[new_start, new_end]`.
pub fn find_conflicting_iteration<'a>(
    new_start: Day,
    new_end: Day,
    existing: &'a [Iteration],
) -> (r: Option<&'a Iteration>)
    ensures
        r is None <==> forall|k: int| 0 <= k < existing@.len() ==> !blocks(#[trigger] existing@[k], new_start, new_end),
        r matches Some(it) ==> exists|k: int|
            0 <= k < existing@.len()
            && *it == existing@[k]
            && blocks(existing@[k], new_start, new_end)
            && forall|j: int| 0 <= j < k ==> !blocks(#[trigger] existing@[j], new_start, new_end),
{
    let mut i: usize = 0;
    while i < existing.len()
        invariant
            i <= existing@.len(),
            forall|j: int| 0 <= j < i ==> !blocks(#[trigger] existing@[j], new_start, new_end),
        decreases existing.len() - i,
    {
        let it = &existing[i];
        if it.status != IterationStatus::Completed && new_start <= it.end_date && it.start_date <= new_end {
            return Some(it);
        }
        i = i + 1;
    }
    None
}

/// Exactly the iterations that are not completed and share a day with the
/// new range block it: a not-started or running iteration whose dates
/// overlap blocks, whatever else holds; and the first of them in the list is
/// what the search finds.
pub proof fn lemma_unfinished_overlap_blocks(existing: Seq<Iteration>, k: int, new_start: Day, new_end: Day)
    requires
        0 <= k < existing.len(),
        existing[k].status == IterationStatus::NotStarted || existing[k].status == IterationStatus::InProgress,
        new_start <= existing[k].end_date,
        existing[k].start_date <= new_end,
    ensures
        blocks(existing[k], new_start, new_end),
        !(forall|j: int| 0 <= j < existing.len() ==> !blocks(#[trigger] existing[j], new_start, new_end)),
{
}

/// An iteration whose dates miss the new range never blocks it.
pub proof fn lemma_disjoint_never_blocks(it: Iteration, new_start: Day, new_end: Day)
    requires
        it.end_date < new_start || new_end < it.start_date,
    ensures
        !blocks(it, new_start, new_end),
{
}

/// A completed iteration never blocks a new one.
pub proof fn lemma_completed_never_blocks(it: Iteration, new_start: Day, new_end: Day)
    requires
        it.status == IterationStatus::Completed,
    ensures
        !blocks(it, new_start, new_end),
{
}

// ---- Bug lifecycle ----

/// The moves a bug's status may make: Pending to Fixing, Fixing to
/// PendingVerify, PendingVerify to Closed or Rejected, and Closed back to
/// Pending when it is reopened.
pub open spec fn bug_transition(from: Status, to: Status) -> bool {
    ||| from == Status::Pending && to == Status::Fixing
    ||| from == Status::Fixing && to == Status::PendingVerify
    ||| from == Status::PendingVerify && to == Status::Closed
    ||| from == Status::PendingVerify && to == Status::Rejected
    ||| from == Status::Closed && to == Status::Pending
}

/// Whether a bug may move from `from` to `to`.
pub fn is_valid_bug_transition(from: &Status, to: &Status) -> (r: bool)
    ensures
        r == bug_transition(*from, *to),
{
    match (from, to) {
        (Status::Pending, Status::Fixing) => true,
        (Status::Fixing, Status::PendingVerify) => true,
        (Status::PendingVerify, Status::Closed) => true,
        (Status::PendingVerify, Status::Rejected) => true,
        (Status::Closed, Status::Pending) => true,
        _ => false,
    }
}

/// A bug never moves to the status it is in, a closed bug may be reopened,
/// and a rejected bug, or one in a status bugs do not use, moves nowhere.
pub proof fn lemma_bug_lifecycle(s: Status, t: Status)
    ensures
        !bug_transition(s, s),
        bug_transition(Status::Closed, Status::Pending),
        (s == Status::Rejected || s == Status::Done || s == Status::InProgress || s == Status::Unassigned)
            ==> !bug_transition(s, t),
{
}

// ---- Search keywords ----

/// Longest keyword a search uses, in characters.
pub const MAX_QUERY_CHARS: usize = 200;

/// A search keyword cut to its first 200 characters, and whether it was cut.
pub open spec fn sanitized(q: Seq<char>) -> (Seq<char>, bool) {
    if q.len() > MAX_QUERY_CHARS {
        (q.subrange(0, MAX_QUERY_CHARS as int), true)
    } else {
        (q, false)
    }
}

/// Cuts a search keyword to its first 200 characters, and says whether it cut.
pub fn sanitize_query(query: &str) -> (r: (String, bool))
    ensures
        r.0@ == sanitized(query@).0,
        r.1 == sanitized(query@).1,
        r.0@.len() == if query@.len() > 200 { 200 } else { query@.len() as int },
        forall|i: int| 0 <= i < r.0@.len() ==> #[trigger] r.0@[i] == query@[i],
        r.1 <==> query@.len() > 200,
{
    let n = query.unicode_len();
    if n > MAX_QUERY_CHARS {
        let head = query.substring_char(0, MAX_QUERY_CHARS);
        (String::from_str(head), true)
    } else {
        (String::from_str(query), false)
    }
}

/// The keyword searched for is the start of the one given: it has
/// `min(len, 200)` characters, each the character at the same place in the
/// query, and it was cut exactly when the query was longer than 200.
pub proof fn lemma_sanitize_keeps_prefix(q: Seq<char>)
    ensures
        sanitized(q).0.len() == if q.len() > 200 { 200 } else { q.len() as int },
        forall|i: int| 0 <= i < sanitized(q).0.len() ==> #[trigger] sanitized(q).0[i] == q[i],
        sanitized(q).1 <==> q.len() > 200,
{
}

/// A keyword once cut is never cut again.
pub proof fn lemma_sanitize_idempotent(q: Seq<char>)
    ensures
        sanitized(sanitized(q).0).0 == sanitized(q).0,
        !sanitized(sanitized(q).0).1,
{
}

// ---- Attachments ----

/// Largest attachment, in bytes: 20 MiB.
pub const MAX_ATTACHMENT_BYTES: i64 = 20971520;

/// Refuses an attachment larger than 20 MiB.
pub fn validate_attachment_size(size_bytes: i64) -> (r: Result<(), AppError>)
    ensures
        size_bytes > MAX_ATTACHMENT_BYTES ==> r == Err::<(), AppError>(
            AppError::AttachmentTooLarge { max: MAX_ATTACHMENT_BYTES, actual: size_bytes },
        ),
        size_bytes <= MAX_ATTACHMENT_BYTES ==> r is Ok,
{
    if size_bytes > MAX_ATTACHMENT_BYTES {
        Err(AppError::AttachmentTooLarge { max: MAX_ATTACHMENT_BYTES, actual: size_bytes })
    } else {
        Ok(())
    }
}

// ---- Notification retries ----

/// Most times a failed push is retried.
pub const MAX_NOTIFY_RETRIES: i32 = 3;

/// A failed push is retried while it has been retried fewer than three times.
pub fn should_retry_notification(retry_count: i32) -> (r: bool)
    ensures
        r == (retry_count < MAX_NOTIFY_RETRIES),
{
    retry_count < MAX_NOTIFY_RETRIES
}

// ---- Overdue items ----

/// An item is overdue: its due date is before today and it is neither done
/// nor closed.
pub open spec fn overdue(item: WorkItem, today: Day) -> bool {
    &&& item.due_date matches Some(d) && d < today
    &&& item.status != Status::Done
    &&& item.status != Status::Closed
}

/// Whether `item` is overdue on `today`.
pub fn is_overdue(item: &WorkItem, today: Day) -> (r: bool)
    ensures
        r == overdue(*item, today),
{
    let past_due = match item.due_date {
        Some(d) => d < today,
        None => false,
    };
    past_due && item.status != Status::Done && item.status != Status::Closed
}

/// Finished items are never overdue, and an item due today is not yet.
pub proof fn lemma_finished_never_overdue(item: WorkItem, today: Day)
    ensures
        (item.status == Status::Done || item.status == Status::Closed) ==> !overdue(item, today),
        item.due_date == Some(today) ==> !overdue(item, today),
{
}

} // verus!
