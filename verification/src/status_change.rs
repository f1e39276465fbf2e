//! Changing a work item's status, as a machine the caller drives: it asks for
//! store operations one at a time and is told what each gave back.
//!
//! A bug follows its lifecycle; a task is changed only by its assignee or by
//! an administrator of its project. When a task becomes done, its story's
//! completion is recomputed; a story whose tasks are all done becomes done,
//! and so does a requirement whose stories all are.

use vstd::prelude::*;

use crate::error::AppError;
use crate::model::{Member, ProjectId, Role, Status, UserId, WorkItem, WorkItemId, WorkItemType};
use crate::rules::{bug_transition, is_valid_bug_transition};
use crate::work_items::{status_label, status_name, AuditEntry};

verus! {

/// What the machine keeps of the item being changed.
#[derive(Debug, Clone, Copy)]
pub struct ItemFacts {
    pub id: WorkItemId,
    pub project_id: ProjectId,
    pub item_type: WorkItemType,
    pub status: Status,
    pub assignee_id: Option<UserId>,
    pub parent_id: Option<WorkItemId>,
}

/// The facts of a stored item.
pub open spec fn facts_of(w: WorkItem) -> ItemFacts {
    ItemFacts {
        id: w.id,
        project_id: w.project_id,
        item_type: w.item_type,
        status: w.status,
        assignee_id: w.assignee_id,
        parent_id: w.parent_id,
    }
}

/// Where a status change stands.
#[derive(Debug, Clone, Copy)]
pub enum StatusChange {
    /// Waiting for the item.
    AwaitItem { operator: UserId, item_id: WorkItemId, new_status: Status },
    /// Waiting for the operator's membership, to see whether an administrator
    /// changes someone else's task.
    AwaitMember { operator: UserId, item: ItemFacts, new_status: Status },
    /// Waiting for the store to save the new status.
    AwaitUpdate { operator: UserId, item: ItemFacts, new_status: Status },
    /// Waiting for the history line of the change.
    AwaitAudit { operator: UserId, item: ItemFacts, new_status: Status },
    /// Waiting for the tasks of the story whose task became done.
    AwaitTasks { operator: UserId, story_id: WorkItemId },
    /// Waiting for the story's new completion percentage to be saved.
    AwaitCompletion { operator: UserId, story_id: WorkItemId, all_done: bool },
    /// Waiting for the story to be marked done.
    AwaitStoryDone { operator: UserId, story_id: WorkItemId },
    /// Waiting for the history line of the story.
    AwaitStoryAudit { operator: UserId, story_id: WorkItemId },
    /// Waiting for the story, to find its requirement.
    AwaitStory { operator: UserId, story_id: WorkItemId },
    /// Waiting for the stories of the requirement.
    AwaitStories { operator: UserId, requirement_id: WorkItemId },
    /// Waiting for the requirement to be marked done.
    AwaitRequirementDone { operator: UserId, requirement_id: WorkItemId },
    /// Waiting for the history line of the requirement.
    AwaitRequirementAudit,
    /// Nothing more to do.
    Finished,
}

/// A store operation the machine asks for.
#[derive(Debug)]
pub enum StoreCall {
    FindItem(WorkItemId),
    GetMember { project_id: ProjectId, user_id: UserId },
    UpdateStatus { item_id: WorkItemId, status: Status },
    Audit(AuditEntry),
    /// The items whose parent is the given item.
    ListChildren(WorkItemId),
    /// The tasks of a story, answered with `StoreReply::Tasks`.
    ListTasks(WorkItemId),
    SetCompletion { item_id: WorkItemId, pct: i32 },
    /// The change is over. On success, the answer is the record the store
    /// gave back for the first `UpdateStatus`.
    Finish(Result<(), AppError>),
}

/// What a store operation gave back.
#[derive(Debug)]
pub enum StoreReply {
    Item(Option<WorkItem>),
    Member(Option<Member>),
    Items(Vec<WorkItem>),
    /// A story's tasks, with the completion percentage the caller computed
    /// from them: done tasks over all tasks, times 100, rounded as `f64`
    /// arithmetic rounds it (0 for none).
    Tasks { items: Vec<WorkItem>, completion_pct: i32 },
    /// A write went through.
    Saved,
}

/// Every one of `items` has status `s`, and there is at least one.
pub open spec fn all_nonempty(items: Seq<WorkItem>, s: Status) -> bool {
    items.len() > 0 && forall|i: int| 0 <= i < items.len() ==> (#[trigger] items[i]).status == s
}

/// The history line of a status change, by views.
pub open spec fn is_status_audit(a: AuditEntry, item_id: WorkItemId, operator: UserId, old: Seq<char>, new: Seq<char>) -> bool {
    &&& a.work_item_id == item_id
    &&& a.operator_id == operator
    &&& a.field_name@ == "status"@
    &&& a.old_value matches Some(v) && v@ == old
    &&& a.new_value matches Some(v) && v@ == new
}

/// A reply the current state does not expect ends the change with an
/// internal error.
pub open spec fn is_protocol_error(a: StoreCall) -> bool {
    a matches StoreCall::Finish(Err(AppError::Internal(_)))
}

/// One step of a status change: from state `s`, given reply `r`, the machine
/// moves to `s2` and asks for `a`.
pub open spec fn status_change_step(s: StatusChange, r: StoreReply, s2: StatusChange, a: StoreCall) -> bool {
    match s {
        StatusChange::AwaitItem { operator, item_id, new_status } => match r {
            StoreReply::Item(None) => s2 == StatusChange::Finished && a == StoreCall::Finish(Err(AppError::NotFound)),
            StoreReply::Item(Some(w)) => {
                let f = facts_of(w);
                if f.item_type == WorkItemType::Bug && !bug_transition(f.status, new_status) {
                    s2 == StatusChange::Finished && a == StoreCall::Finish(
                        Err(AppError::InvalidStatusTransition { from: f.status, to: new_status }),
                    )
                } else if f.item_type == WorkItemType::Task && f.assignee_id != Some(operator) {
                    s2 == (StatusChange::AwaitMember { operator, item: f, new_status })
                        && a == (StoreCall::GetMember { project_id: f.project_id, user_id: operator })
                } else {
                    s2 == (StatusChange::AwaitUpdate { operator, item: f, new_status })
                        && a == (StoreCall::UpdateStatus { item_id: f.id, status: new_status })
                }
            },
            _ => s2 == StatusChange::Finished && is_protocol_error(a),
        },
        StatusChange::AwaitMember { operator, item, new_status } => match r {
            StoreReply::Member(m) => if (m matches Some(mm) && mm.role == Role::Admin) {
                s2 == (StatusChange::AwaitUpdate { operator, item, new_status })
                    && a == (StoreCall::UpdateStatus { item_id: item.id, status: new_status })
            } else {
                s2 == StatusChange::Finished && a == StoreCall::Finish(Err(AppError::Forbidden))
            },
            _ => s2 == StatusChange::Finished && is_protocol_error(a),
        },
        StatusChange::AwaitUpdate { operator, item, new_status } => match r {
            StoreReply::Saved => s2 == (StatusChange::AwaitAudit { operator, item, new_status })
                && (a matches StoreCall::Audit(e)
                && is_status_audit(e, item.id, operator, status_name(item.status), status_name(new_status))),
            _ => s2 == StatusChange::Finished && is_protocol_error(a),
        },
        StatusChange::AwaitAudit { operator, item, new_status } => match r {
            StoreReply::Saved => if item.item_type == WorkItemType::Task && new_status == Status::Done
                && item.parent_id is Some {
                s2 == (StatusChange::AwaitTasks { operator, story_id: item.parent_id.unwrap() })
                    && a == StoreCall::ListTasks(item.parent_id.unwrap())
            } else {
                s2 == StatusChange::Finished && a == StoreCall::Finish(Ok(()))
            },
            _ => s2 == StatusChange::Finished && is_protocol_error(a),
        },
        StatusChange::AwaitTasks { operator, story_id } => match r {
            StoreReply::Tasks { items, completion_pct } =>
                s2 == (StatusChange::AwaitCompletion { operator, story_id, all_done: all_nonempty(items@, Status::Done) })
                && a == (StoreCall::SetCompletion { item_id: story_id, pct: completion_pct }),
            _ => s2 == StatusChange::Finished && is_protocol_error(a),
        },
        StatusChange::AwaitCompletion { operator, story_id, all_done } => match r {
            StoreReply::Saved => if all_done {
                s2 == (StatusChange::AwaitStoryDone { operator, story_id })
                    && a == (StoreCall::UpdateStatus { item_id: story_id, status: Status::Done })
            } else {
                s2 == StatusChange::Finished && a == StoreCall::Finish(Ok(()))
            },
            _ => s2 == StatusChange::Finished && is_protocol_error(a),
        },
        StatusChange::AwaitStoryDone { operator, story_id } => match r {
            StoreReply::Saved => s2 == (StatusChange::AwaitStoryAudit { operator, story_id })
                && (a matches StoreCall::Audit(e)
                && is_status_audit(e, story_id, operator, "InProgress"@, "Done"@)),
            _ => s2 == StatusChange::Finished && is_protocol_error(a),
        },
        StatusChange::AwaitStoryAudit { operator, story_id } => match r {
            StoreReply::Saved => s2 == (StatusChange::AwaitStory { operator, story_id })
                && a == StoreCall::FindItem(story_id),
            _ => s2 == StatusChange::Finished && is_protocol_error(a),
        },
        StatusChange::AwaitStory { operator, story_id } => match r {
            StoreReply::Item(story) => if (story matches Some(st) && st.parent_id is Some) {
                s2 == (StatusChange::AwaitStories { operator, requirement_id: story.unwrap().parent_id.unwrap() })
                    && a == StoreCall::ListChildren(story.unwrap().parent_id.unwrap())
            } else {
                s2 == StatusChange::Finished && a == StoreCall::Finish(Ok(()))
            },
            _ => s2 == StatusChange::Finished && is_protocol_error(a),
        },
        StatusChange::AwaitStories { operator, requirement_id } => match r {
            StoreReply::Items(stories) => if all_nonempty(stories@, Status::Done) {
                s2 == (StatusChange::AwaitRequirementDone { operator, requirement_id })
                    && a == (StoreCall::UpdateStatus { item_id: requirement_id, status: Status::Done })
            } else {
                s2 == StatusChange::Finished && a == StoreCall::Finish(Ok(()))
            },
            _ => s2 == StatusChange::Finished && is_protocol_error(a),
        },
        StatusChange::AwaitRequirementDone { operator, requirement_id } => match r {
            StoreReply::Saved => s2 == StatusChange::AwaitRequirementAudit
                && (a matches StoreCall::Audit(e)
                && is_status_audit(e, requirement_id, operator, "InProgress"@, "Done"@)),
            _ => s2 == StatusChange::Finished && is_protocol_error(a),
        },
        StatusChange::AwaitRequirementAudit => match r {
            StoreReply::Saved => s2 == StatusChange::Finished && a == StoreCall::Finish(Ok(())),
            _ => s2 == StatusChange::Finished && is_protocol_error(a),
        },
        StatusChange::Finished => s2 == StatusChange::Finished && is_protocol_error(a),
    }
}

/// Starts changing item `item_id` to `new_status` for `operator`: the first
/// thing to do is to look the item up.
pub fn begin_status_change(operator: UserId, item_id: WorkItemId, new_status: Status) -> (r: (StatusChange, StoreCall))
    ensures
        r.0 == (StatusChange::AwaitItem { operator, item_id, new_status }),
        r.1 == StoreCall::FindItem(item_id),
{
    (StatusChange::AwaitItem { operator, item_id, new_status }, StoreCall::FindItem(item_id))
}

fn item_facts(w: &WorkItem) -> (f: ItemFacts)
    ensures
        f == facts_of(*w),
{
    ItemFacts {
        id: w.id,
        project_id: w.project_id,
        item_type: w.item_type,
        status: w.status,
        assignee_id: w.assignee_id,
        parent_id: w.parent_id,
    }
}

fn all_have_status(items: &Vec<WorkItem>, s: Status) -> (r: bool)
    ensures
        r == all_nonempty(items@, s),
{
    if items.len() == 0 {
        return false;
    }
    let mut i: usize = 0;
    while i < items.len()
        invariant
            i <= items@.len(),
            forall|j: int| 0 <= j < i ==> (#[trigger] items@[j]).status == s,
        decreases items.len() - i,
    {
        if items[i].status != s {
            return false;
        }
        i = i + 1;
    }
    true
}

fn status_audit(item_id: WorkItemId, operator: UserId, old: &str, new: &str) -> (e: AuditEntry)
    ensures
        is_status_audit(e, item_id, operator, old@, new@),
{
    AuditEntry {
        work_item_id: item_id,
        operator_id: operator,
        field_name: String::from_str("status"),
        old_value: Some(String::from_str(old)),
        new_value: Some(String::from_str(new)),
    }
}

fn protocol_error() -> (r: (StatusChange, StoreCall))
    ensures
        r.0 == StatusChange::Finished,
        is_protocol_error(r.1),
{
    (StatusChange::Finished, StoreCall::Finish(Err(AppError::Internal(String::from_str("unexpected store reply")))))
}

/// One step of a status change.
pub fn status_change_next(s: StatusChange, r: StoreReply) -> (out: (StatusChange, StoreCall))
    ensures
        status_change_step(s, r, out.0, out.1),
{
    match s {
        StatusChange::AwaitItem { operator, item_id, new_status } => match r {
            StoreReply::Item(None) => (StatusChange::Finished, StoreCall::Finish(Err(AppError::NotFound))),
            StoreReply::Item(Some(w)) => {
                let f = item_facts(&w);
                if f.item_type == WorkItemType::Bug && !is_valid_bug_transition(&f.status, &new_status) {
                    (StatusChange::Finished, StoreCall::Finish(
                        Err(AppError::InvalidStatusTransition { from: f.status, to: new_status }),
                    ))
                } else if f.item_type == WorkItemType::Task && f.assignee_id != Some(operator) {
                    (
                        StatusChange::AwaitMember { operator, item: f, new_status },
                        StoreCall::GetMember { project_id: f.project_id, user_id: operator },
                    )
                } else {
                    (
                        StatusChange::AwaitUpdate { operator, item: f, new_status },
                        StoreCall::UpdateStatus { item_id: f.id, status: new_status },
                    )
                }
            },
            _ => protocol_error(),
        },
        StatusChange::AwaitMember { operator, item, new_status } => match r {
            StoreReply::Member(m) => {
                let is_admin = match &m {
                    Some(mm) => mm.role == Role::Admin,
                    None => false,
                };
                if is_admin {
                    (
                        StatusChange::AwaitUpdate { operator, item, new_status },
                        StoreCall::UpdateStatus { item_id: item.id, status: new_status },
                    )
                } else {
                    (StatusChange::Finished, StoreCall::Finish(Err(AppError::Forbidden)))
                }
            },
            _ => protocol_error(),
        },
        StatusChange::AwaitUpdate { operator, item, new_status } => match r {
            StoreReply::Saved => (
                StatusChange::AwaitAudit { operator, item, new_status },
                StoreCall::Audit(status_audit(item.id, operator, status_label(item.status), status_label(new_status))),
            ),
            _ => protocol_error(),
        },
        StatusChange::AwaitAudit { operator, item, new_status } => match r {
            StoreReply::Saved => {
                if item.item_type == WorkItemType::Task && new_status == Status::Done {
                    if let Some(story_id) = item.parent_id {
                        return (StatusChange::AwaitTasks { operator, story_id }, StoreCall::ListTasks(story_id));
                    }
                }
                (StatusChange::Finished, StoreCall::Finish(Ok(())))
            },
            _ => protocol_error(),
        },
        StatusChange::AwaitTasks { operator, story_id } => match r {
            StoreReply::Tasks { items, completion_pct } => {
                let all_done = all_have_status(&items, Status::Done);
                (
                    StatusChange::AwaitCompletion { operator, story_id, all_done },
                    StoreCall::SetCompletion { item_id: story_id, pct: completion_pct },
                )
            },
            _ => protocol_error(),
        },
        StatusChange::AwaitCompletion { operator, story_id, all_done } => match r {
            StoreReply::Saved => {
                if all_done {
                    (StatusChange::AwaitStoryDone { operator, story_id }, StoreCall::UpdateStatus { item_id: story_id, status: Status::Done })
                } else {
                    (StatusChange::Finished, StoreCall::Finish(Ok(())))
                }
            },
            _ => protocol_error(),
        },
        StatusChange::AwaitStoryDone { operator, story_id } => match r {
            StoreReply::Saved => (
                StatusChange::AwaitStoryAudit { operator, story_id },
                StoreCall::Audit(status_audit(story_id, operator, "InProgress", "Done")),
            ),
            _ => protocol_error(),
        },
        StatusChange::AwaitStoryAudit { operator, story_id } => match r {
            StoreReply::Saved => (StatusChange::AwaitStory { operator, story_id }, StoreCall::FindItem(story_id)),
            _ => protocol_error(),
        },
        StatusChange::AwaitStory { operator, story_id } => match r {
            StoreReply::Item(story) => {
                if let Some(st) = story {
                    if let Some(requirement_id) = st.parent_id {
                        return (StatusChange::AwaitStories { operator, requirement_id }, StoreCall::ListChildren(requirement_id));
                    }
                }
                (StatusChange::Finished, StoreCall::Finish(Ok(())))
            },
            _ => protocol_error(),
        },
        StatusChange::AwaitStories { operator, requirement_id } => match r {
            StoreReply::Items(stories) => {
                if all_have_status(&stories, Status::Done) {
                    (
                        StatusChange::AwaitRequirementDone { operator, requirement_id },
                        StoreCall::UpdateStatus { item_id: requirement_id, status: Status::Done },
                    )
                } else {
                    (StatusChange::Finished, StoreCall::Finish(Ok(())))
                }
            },
            _ => protocol_error(),
        },
        StatusChange::AwaitRequirementDone { operator, requirement_id } => match r {
            StoreReply::Saved => (
                StatusChange::AwaitRequirementAudit,
                StoreCall::Audit(status_audit(requirement_id, operator, "InProgress", "Done")),
            ),
            _ => protocol_error(),
        },
        StatusChange::AwaitRequirementAudit => match r {
            StoreReply::Saved => (StatusChange::Finished, StoreCall::Finish(Ok(()))),
            _ => protocol_error(),
        },
        StatusChange::Finished => protocol_error(),
    }
}

/// What holds in every state a change passes through: the machine asks about
/// membership only for someone else's task, and a bug it is about to save
/// follows its lifecycle.
pub open spec fn status_change_inv(s: StatusChange) -> bool {
    match s {
        StatusChange::AwaitMember { operator, item, .. } =>
            item.item_type == WorkItemType::Task && item.assignee_id != Some(operator),
        StatusChange::AwaitUpdate { item, new_status, .. } =>
            item.item_type == WorkItemType::Bug ==> bug_transition(item.status, new_status),
        StatusChange::AwaitAudit { item, new_status, .. } =>
            item.item_type == WorkItemType::Bug ==> bug_transition(item.status, new_status),
        _ => true,
    }
}

/// The reply names a project administrator.
pub open spec fn names_admin(r: StoreReply) -> bool {
    r matches StoreReply::Member(Some(m)) && m.role == Role::Admin
}

/// A change starts in a state where the invariant holds.
pub proof fn lemma_status_change_starts_well(operator: UserId, item_id: WorkItemId, new_status: Status)
    ensures
        status_change_inv(StatusChange::AwaitItem { operator, item_id, new_status }),
{
}

/// A status is saved only when the change is permitted: a bug moves along its
/// lifecycle, and a task is changed by its assignee or by a project
/// administrator. Each step keeps the invariant.
pub proof fn lemma_status_change_permitted(s: StatusChange, r: StoreReply, s2: StatusChange, a: StoreCall)
    requires
        status_change_inv(s),
        status_change_step(s, r, s2, a),
    ensures
        status_change_inv(s2),
        s2 matches StatusChange::AwaitUpdate { operator, item, new_status } ==> {
            &&& a == (StoreCall::UpdateStatus { item_id: item.id, status: new_status })
            &&& item.item_type == WorkItemType::Bug ==> bug_transition(item.status, new_status)
            &&& item.item_type == WorkItemType::Task ==> (item.assignee_id == Some(operator) || names_admin(r))
        },
{
}

/// A story is marked done only when all of its tasks, of which there is at
/// least one, are done; a requirement only when all of its stories are. The
/// completion saved is the one computed from the tasks read.
pub proof fn lemma_cascade_only_when_all_done(s: StatusChange, r: StoreReply, s2: StatusChange, a: StoreCall)
    requires
        status_change_step(s, r, s2, a),
    ensures
        s2 is AwaitStoryDone ==> (s matches StatusChange::AwaitCompletion { all_done, .. } && all_done),
        s is AwaitTasks && s2 is AwaitCompletion ==> (r matches StoreReply::Tasks { items, completion_pct } && {
            &&& s2->all_done == all_nonempty(items@, Status::Done)
            &&& a == (StoreCall::SetCompletion { item_id: s->AwaitTasks_story_id, pct: completion_pct })
        }),
        s2 is AwaitRequirementDone ==> (r matches StoreReply::Items(st) && all_nonempty(st@, Status::Done)),
{
}

/// Finishing a task recomputes its story whoever finishes it: once the
/// history line of a task's move to Done is saved, the next call lists the
/// tasks of its parent story, for the assignee and for an administrator
/// alike. Any other move ends the change successfully.
pub proof fn lemma_done_task_recomputes_story(
    operator: UserId,
    item: ItemFacts,
    new_status: Status,
    s2: StatusChange,
    a: StoreCall,
)
    requires
        status_change_step(StatusChange::AwaitAudit { operator, item, new_status }, StoreReply::Saved, s2, a),
    ensures
        item.item_type == WorkItemType::Task && new_status == Status::Done ==> (item.parent_id matches Some(p) ==> (
            a == StoreCall::ListTasks(p) && s2 == (StatusChange::AwaitTasks { operator, story_id: p }))),
        !(item.item_type == WorkItemType::Task && new_status == Status::Done && item.parent_id is Some) ==> (
            a == StoreCall::Finish(Ok(())) && s2 == StatusChange::Finished),
{
}

/// An administrator changing someone else's task goes through the same
/// steps as its assignee: once the membership reply names an administrator,
/// the status write is asked for.
pub proof fn lemma_admin_acts_as_assignee(operator: UserId, item: ItemFacts, new_status: Status, m: Member, s2: StatusChange, a: StoreCall)
    requires
        m.role == Role::Admin,
        status_change_step(StatusChange::AwaitMember { operator, item, new_status }, StoreReply::Member(Some(m)), s2, a),
    ensures
        a == (StoreCall::UpdateStatus { item_id: item.id, status: new_status }),
        s2 == (StatusChange::AwaitUpdate { operator, item, new_status }),
{
}

/// The history is complete: every status write the machine asks for leaves it
/// waiting for that write, and once the write went through, the next thing it
/// asks for is the history line of exactly that change.
pub proof fn lemma_status_write_audited(s: StatusChange, r: StoreReply, s2: StatusChange, a: StoreCall)
    requires
        status_change_step(s, r, s2, a),
    ensures
        a is UpdateStatus ==> (s2 is AwaitUpdate || s2 is AwaitStoryDone || s2 is AwaitRequirementDone),
        r is Saved ==> (s matches StatusChange::AwaitUpdate { operator, item, new_status } ==> (
            a matches StoreCall::Audit(e)
            && is_status_audit(e, item.id, operator, status_name(item.status), status_name(new_status)))),
        r is Saved ==> (s matches StatusChange::AwaitStoryDone { operator, story_id } ==> (
            a matches StoreCall::Audit(e) && is_status_audit(e, story_id, operator, "InProgress"@, "Done"@))),
        r is Saved ==> (s matches StatusChange::AwaitRequirementDone { operator, requirement_id } ==> (
            a matches StoreCall::Audit(e) && is_status_audit(e, requirement_id, operator, "InProgress"@, "Done"@))),
{
}

} // verus!
