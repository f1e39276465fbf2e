//! Report figures: requirement completion and bug statistics tallied from
//! per-status counts, the bug report's CSV, and which reports exist.

use vstd::prelude::*;

use crate::error::AppError;
use crate::text::{decimal, i64_to_decimal, same_text};

verus! {

/// Sum of the counts of the rows whose label satisfies `keep`.
pub open spec fn sum_where(rows: Seq<(String, i64)>, keep: spec_fn(Seq<char>) -> bool) -> int
    decreases rows.len(),
{
    if rows.len() == 0 {
        0
    } else {
        sum_where(rows.drop_last(), keep) + if keep(rows.last().0@) { rows.last().1 as int } else { 0 }
    }
}

/// Every running sum of the kept counts is an `i64`: adding them up in order
/// does not overflow.
pub open spec fn sums_fit(rows: Seq<(String, i64)>, keep: spec_fn(Seq<char>) -> bool) -> bool {
    forall|k: int| 0 <= k <= rows.len() ==> i64::MIN <= #[trigger] sum_where(rows.subrange(0, k), keep) <= i64::MAX
}

pub open spec fn any_label() -> spec_fn(Seq<char>) -> bool {
    |s: Seq<char>| true
}

/// A requirement counts as completed when its status is done or closed.
pub open spec fn completed_label() -> spec_fn(Seq<char>) -> bool {
    |s: Seq<char>| s == "done"@ || s == "closed"@
}

/// A bug is new while pending.
pub open spec fn pending_label() -> spec_fn(Seq<char>) -> bool {
    |s: Seq<char>| s == "pending"@
}

/// A bug is fixed once closed.
pub open spec fn closed_label() -> spec_fn(Seq<char>) -> bool {
    |s: Seq<char>| s == "closed"@
}

/// A bug remains in any other status.
pub open spec fn other_label() -> spec_fn(Seq<char>) -> bool {
    |s: Seq<char>| s != "pending"@ && s != "closed"@
}

/// Requirements of a project: how many, and how many completed.
#[derive(Debug, Clone, Copy, PartialEq, Eq, Structural)]
pub struct RequirementTally {
    pub total: i64,
    pub completed: i64,
}

fn add_row(acc: i64, rows: &[(String, i64)], i: usize, keep_it: bool, Ghost(keep): Ghost<spec_fn(Seq<char>) -> bool>) -> (r: i64)
    requires
        i < rows@.len(),
        acc == sum_where(rows@.subrange(0, i as int), keep),
        keep_it == keep(rows@[i as int].0@),
        sums_fit(rows@, keep),
    ensures
        r == sum_where(rows@.subrange(0, i + 1), keep),
{
    proof {
        assert(rows@.subrange(0, i + 1).drop_last() =~= rows@.subrange(0, i as int));
        assert(i64::MIN <= sum_where(rows@.subrange(0, i + 1), keep) <= i64::MAX);
    }
    if keep_it {
        acc + rows[i].1
    } else {
        acc
    }
}

/// Tallies requirement counts by status (as the store names statuses).
pub fn tally_requirements(rows: &[(String, i64)]) -> (r: RequirementTally)
    requires
        sums_fit(rows@, any_label()),
        sums_fit(rows@, completed_label()),
    ensures
        r.total == sum_where(rows@, any_label()),
        r.completed == sum_where(rows@, completed_label()),
{
    let mut total: i64 = 0;
    let mut completed: i64 = 0;
    let mut i: usize = 0;
    proof {
        assert(rows@.subrange(0, 0) =~= Seq::<(String, i64)>::empty());
    }
    while i < rows.len()
        invariant
            i <= rows@.len(),
            sums_fit(rows@, any_label()),
            sums_fit(rows@, completed_label()),
            total == sum_where(rows@.subrange(0, i as int), any_label()),
            completed == sum_where(rows@.subrange(0, i as int), completed_label()),
        decreases rows.len() - i,
    {
        let label = rows[i].0.as_str();
        proof {
            reveal_strlit("done");
            reveal_strlit("closed");
        }
        let done = same_text(label, "done") || same_text(label, "closed");
        total = add_row(total, rows, i, true, Ghost(any_label()));
        completed = add_row(completed, rows, i, done, Ghost(completed_label()));
        i = i + 1;
    }
    proof {
        assert(rows@.subrange(0, rows@.len() as int) =~= rows@);
    }
    RequirementTally { total, completed }
}

/// Bug statistics of a project.
#[derive(Debug, Clone)]
pub struct BugReport {
    pub total: i64,
    pub new_count: i64,
    pub fixed_count: i64,
    pub remaining_count: i64,
    /// Count per severity, one entry per severity.
    pub by_severity: Vec<(String, i64)>,
}

/// The count per label that reading `rows` in order leaves, a later row
/// replacing an earlier one with the same label.
pub open spec fn label_map(rows: Seq<(String, i64)>) -> Map<Seq<char>, i64>
    decreases rows.len(),
{
    if rows.len() == 0 {
        Map::empty()
    } else {
        label_map(rows.drop_last()).insert(rows.last().0@, rows.last().1)
    }
}

/// `entries` holds `m` with one entry per label.
pub open spec fn entries_hold(entries: Seq<(String, i64)>, m: Map<Seq<char>, i64>) -> bool {
    &&& forall|i: int, j: int| 0 <= i < j < entries.len() ==> entries[i].0@ != entries[j].0@
    &&& forall|k: Seq<char>| m.contains_key(k) <==> exists|i: int| 0 <= i < entries.len() && #[trigger] entries[i].0@ == k
    &&& forall|i: int| 0 <= i < entries.len() ==> m[#[trigger] entries[i].0@] == entries[i].1
}

fn find_label(entries: &Vec<(String, i64)>, key: &str) -> (r: Option<usize>)
    ensures
        r matches Some(j) ==> j < entries@.len() && entries@[j as int].0@ == key@,
        r is None ==> forall|k: int| 0 <= k < entries@.len() ==> entries@[k].0@ != key@,
{
    let mut j: usize = 0;
    while j < entries.len()
        invariant
            j <= entries@.len(),
            forall|k: int| 0 <= k < j ==> entries@[k].0@ != key@,
        decreases entries.len() - j,
    {
        if same_text(entries[j].0.as_str(), key) {
            return Some(j);
        }
        j = j + 1;
    }
    None
}

fn collect_labels(rows: &[(String, i64)]) -> (r: Vec<(String, i64)>)
    ensures
        entries_hold(r@, label_map(rows@)),
{
    let mut out: Vec<(String, i64)> = Vec::new();
    let mut i: usize = 0;
    proof {
        assert(rows@.subrange(0, 0) =~= Seq::<(String, i64)>::empty());
    }
    while i < rows.len()
        invariant
            i <= rows@.len(),
            entries_hold(out@, label_map(rows@.subrange(0, i as int))),
        decreases rows.len() - i,
    {
        let ghost prev = label_map(rows@.subrange(0, i as int));
        proof {
            assert(rows@.subrange(0, i + 1).drop_last() =~= rows@.subrange(0, i as int));
        }
        let key = rows[i].0.clone();
        let count = rows[i].1;
        let ghost next = prev.insert(key@, count);
        assert(label_map(rows@.subrange(0, i + 1)) == next);
        let idx = find_label(&out, key.as_str());
        if let Some(j) = idx {
            let ghost old_out = out@;
            assert(old_out[j as int].0@ == key@);
            out.set(j, (key, count));
            assert forall|k: Seq<char>| next.contains_key(k) <==> exists|m: int| 0 <= m < out@.len() && #[trigger] out@[m].0@ == k by {
                if next.contains_key(k) {
                    if k == key@ {
                        assert(out@[j as int].0@ == k);
                    } else {
                        let m = choose|m: int| 0 <= m < old_out.len() && #[trigger] old_out[m].0@ == k;
                        assert(out@[m].0@ == k);
                    }
                }
                if exists|m: int| 0 <= m < out@.len() && #[trigger] out@[m].0@ == k {
                    let m = choose|m: int| 0 <= m < out@.len() && #[trigger] out@[m].0@ == k;
                    if m != j {
                        assert(old_out[m].0@ == k);
                    }
                }
            }
        } else {
            let ghost old_out = out@;
            out.push((key, count));
            assert forall|k: Seq<char>| next.contains_key(k) <==> exists|m: int| 0 <= m < out@.len() && #[trigger] out@[m].0@ == k by {
                if next.contains_key(k) {
                    if k == key@ {
                        assert(out@[old_out.len() as int].0@ == k);
                    } else {
                        let m = choose|m: int| 0 <= m < old_out.len() && #[trigger] old_out[m].0@ == k;
                        assert(out@[m].0@ == k);
                    }
                }
                if exists|m: int| 0 <= m < out@.len() && #[trigger] out@[m].0@ == k {
                    let m = choose|m: int| 0 <= m < out@.len() && #[trigger] out@[m].0@ == k;
                    if m < old_out.len() {
                        assert(old_out[m].0@ == k);
                    }
                }
            }
        }
        i = i + 1;
    }
    proof {
        assert(rows@.subrange(0, rows@.len() as int) =~= rows@);
    }
    out
}

/// Tallies bug counts by status and by severity (as the store names them):
/// pending bugs are new, closed ones fixed, the rest remaining.
pub fn tally_bugs(status_rows: &[(String, i64)], severity_rows: &[(String, i64)]) -> (r: BugReport)
    requires
        sums_fit(status_rows@, any_label()),
        sums_fit(status_rows@, pending_label()),
        sums_fit(status_rows@, closed_label()),
        sums_fit(status_rows@, other_label()),
    ensures
        r.total == sum_where(status_rows@, any_label()),
        r.new_count == sum_where(status_rows@, pending_label()),
        r.fixed_count == sum_where(status_rows@, closed_label()),
        r.remaining_count == sum_where(status_rows@, other_label()),
        entries_hold(r.by_severity@, label_map(severity_rows@)),
{
    let mut total: i64 = 0;
    let mut new_count: i64 = 0;
    let mut fixed_count: i64 = 0;
    let mut remaining_count: i64 = 0;
    let mut i: usize = 0;
    proof {
        assert(status_rows@.subrange(0, 0) =~= Seq::<(String, i64)>::empty());
    }
    while i < status_rows.len()
        invariant
            i <= status_rows@.len(),
            sums_fit(status_rows@, any_label()),
            sums_fit(status_rows@, pending_label()),
            sums_fit(status_rows@, closed_label()),
            sums_fit(status_rows@, other_label()),
            total == sum_where(status_rows@.subrange(0, i as int), any_label()),
            new_count == sum_where(status_rows@.subrange(0, i as int), pending_label()),
            fixed_count == sum_where(status_rows@.subrange(0, i as int), closed_label()),
            remaining_count == sum_where(status_rows@.subrange(0, i as int), other_label()),
        decreases status_rows.len() - i,
    {
        let label = status_rows[i].0.as_str();
        proof {
            reveal_strlit("pending");
            reveal_strlit("closed");
        }
        let pending = same_text(label, "pending");
        let closed = same_text(label, "closed");
        total = add_row(total, status_rows, i, true, Ghost(any_label()));
        new_count = add_row(new_count, status_rows, i, pending, Ghost(pending_label()));
        fixed_count = add_row(fixed_count, status_rows, i, closed, Ghost(closed_label()));
        remaining_count = add_row(remaining_count, status_rows, i, !pending && !closed, Ghost(other_label()));
        i = i + 1;
    }
    proof {
        assert(status_rows@.subrange(0, status_rows@.len() as int) =~= status_rows@);
    }
    BugReport { total, new_count, fixed_count, remaining_count, by_severity: collect_labels(severity_rows) }
}

/// New, fixed and remaining bugs add up to all bugs.
pub proof fn lemma_bug_counts_partition(rows: Seq<(String, i64)>)
    ensures
        sum_where(rows, pending_label()) + sum_where(rows, closed_label()) + sum_where(rows, other_label())
            == sum_where(rows, any_label()),
    decreases rows.len(),
{
    reveal_strlit("pending");
    reveal_strlit("closed");
    assert("pending"@.len() != "closed"@.len());
    if rows.len() > 0 {
        lemma_bug_counts_partition(rows.drop_last());
    }
}

/// How each status row counts in the bug report, over any rows read before
/// it: every row adds to the total; a row labelled exactly `pending` adds to
/// the new bugs, one labelled exactly `closed` to the fixed ones, and any
/// other row (such as `pending_verify` or `fixing`) to the remaining ones.
/// With no rows every count is zero.
pub proof fn lemma_bug_row_counts(rows: Seq<(String, i64)>, row: (String, i64))
    ensures
        sum_where(Seq::<(String, i64)>::empty(), any_label()) == 0,
        sum_where(Seq::<(String, i64)>::empty(), pending_label()) == 0,
        sum_where(Seq::<(String, i64)>::empty(), closed_label()) == 0,
        sum_where(Seq::<(String, i64)>::empty(), other_label()) == 0,
        sum_where(rows.push(row), any_label()) == sum_where(rows, any_label()) + row.1,
        sum_where(rows.push(row), pending_label())
            == sum_where(rows, pending_label()) + if row.0@ == "pending"@ { row.1 as int } else { 0 },
        sum_where(rows.push(row), closed_label())
            == sum_where(rows, closed_label()) + if row.0@ == "closed"@ { row.1 as int } else { 0 },
        sum_where(rows.push(row), other_label())
            == sum_where(rows, other_label()) + if row.0@ != "pending"@ && row.0@ != "closed"@ { row.1 as int } else { 0 },
{
    assert(rows.push(row).drop_last() =~= rows);
    assert(rows.push(row).last() == row);
}

/// The reports that can be exported.
#[derive(Debug, Clone, Copy, PartialEq, Eq, Structural)]
pub enum ReportKind {
    Requirements,
    Bugs,
    Workload,
}

/// Which report an export names; an unknown name is not found.
pub fn report_kind(name: &str) -> (r: Result<ReportKind, AppError>)
    ensures
        name@ == "requirements"@ ==> r == Ok::<ReportKind, AppError>(ReportKind::Requirements),
        name@ == "bugs"@ ==> r == Ok::<ReportKind, AppError>(ReportKind::Bugs),
        name@ == "workload"@ ==> r == Ok::<ReportKind, AppError>(ReportKind::Workload),
        name@ != "requirements"@ && name@ != "bugs"@ && name@ != "workload"@ ==> r == Err::<ReportKind, AppError>(AppError::NotFound),
{
    proof {
        reveal_strlit("requirements");
        reveal_strlit("bugs");
        reveal_strlit("workload");
        assert("bugs"@.len() != "requirements"@.len());
        assert("workload"@.len() != "requirements"@.len());
        assert("workload"@.len() != "bugs"@.len());
    }
    if same_text(name, "requirements") {
        Ok(ReportKind::Requirements)
    } else if same_text(name, "bugs") {
        Ok(ReportKind::Bugs)
    } else if same_text(name, "workload") {
        Ok(ReportKind::Workload)
    } else {
        Err(AppError::NotFound)
    }
}

/// The bug report as CSV: a header line and one line of figures.
pub open spec fn bugs_csv_spec(r: BugReport) -> Seq<char> {
    "total,new,fixed,remaining\n"@ + decimal(r.total as int) + ","@ + decimal(r.new_count as int) + ","@
        + decimal(r.fixed_count as int) + ","@ + decimal(r.remaining_count as int) + "\n"@
}

/// Writes the bug report as CSV.
pub fn bugs_csv(r: &BugReport) -> (s: String)
    ensures
        s@ == bugs_csv_spec(*r),
{
    let mut s = String::from_str("total,new,fixed,remaining\n");
    let t = i64_to_decimal(r.total);
    s.append(t.as_str());
    s.append(",");
    let n = i64_to_decimal(r.new_count);
    s.append(n.as_str());
    s.append(",");
    let f = i64_to_decimal(r.fixed_count);
    s.append(f.as_str());
    s.append(",");
    let m = i64_to_decimal(r.remaining_count);
    s.append(m.as_str());
    s.append("\n");
    s
}

} // verus!
