//! Who may do what in a project: administrators manage it, private projects
//! are open to members only, and a removed member's unfinished work is
//! released.

use vstd::prelude::*;

use crate::error::AppError;
use crate::model::{Member, Project, ProjectId, Role, Status, UserId, WorkItem, WorkItemId};

verus! {

/// Refuses any change to an archived project, which is read-only.
pub fn check_not_archived(project: &Project) -> (r: Result<(), AppError>)
    ensures
        project.is_archived ==> r == Err::<(), AppError>(AppError::ProjectArchived),
        !project.is_archived ==> r is Ok,
{
    if project.is_archived {
        Err(AppError::ProjectArchived)
    } else {
        Ok(())
    }
}

/// The member is a project administrator.
pub open spec fn is_admin(member: Option<Member>) -> bool {
    member matches Some(m) && m.role == Role::Admin
}

/// Lets only a project administrator through.
pub fn require_admin(member: Option<&Member>) -> (r: Result<(), AppError>)
    ensures
        is_admin(match member { Some(m) => Some(*m), None => None }) ==> r is Ok,
        !is_admin(match member { Some(m) => Some(*m), None => None }) ==> r == Err::<(), AppError>(AppError::Forbidden),
{
    match member {
        Some(m) => {
            if m.role == Role::Admin {
                Ok(())
            } else {
                Err(AppError::Forbidden)
            }
        },
        None => Err(AppError::Forbidden),
    }
}

/// A membership as it is handed to the store.
#[derive(Debug, Clone, Copy, PartialEq, Eq, Structural)]
pub struct NewMember {
    pub project_id: ProjectId,
    pub user_id: UserId,
    pub role: Role,
}

/// The membership a project's creator gets: administrator.
pub fn creator_membership(project: &Project, creator_id: UserId) -> (r: NewMember)
    ensures
        r == (NewMember { project_id: project.id, user_id: creator_id, role: Role::Admin }),
{
    NewMember { project_id: project.id, user_id: creator_id, role: Role::Admin }
}

/// Whether a project can be shown at all, and whether the requester's
/// membership must then be checked: missing projects are not found, private
/// ones need a membership.
pub fn project_visibility(project: Option<&Project>) -> (r: Result<bool, AppError>)
    ensures
        project is None ==> r == Err::<bool, AppError>(AppError::NotFound),
        project matches Some(p) ==> r == Ok::<bool, AppError>(!p.is_public),
{
    match project {
        Some(p) => Ok(!p.is_public),
        None => Err(AppError::NotFound),
    }
}

/// Lets a member of a private project through and refuses anyone else.
pub fn require_member(member: Option<&Member>) -> (r: Result<(), AppError>)
    ensures
        member is Some ==> r is Ok,
        member is None ==> r == Err::<(), AppError>(AppError::Forbidden),
{
    match member {
        Some(_) => Ok(()),
        None => Err(AppError::Forbidden),
    }
}

/// A write that releases one item of a removed member.
#[derive(Debug, Clone, Copy, PartialEq, Eq, Structural)]
pub enum ItemRelease {
    ClearAssignee(WorkItemId),
    SetStatus(WorkItemId, Status),
}

/// The writes that release `items`, in order: for each, the assignee is
/// cleared and then the status becomes Unassigned.
pub open spec fn release_writes(items: Seq<WorkItem>) -> Seq<ItemRelease>
    decreases items.len(),
{
    if items.len() == 0 {
        Seq::empty()
    } else {
        release_writes(items.drop_last())
            .push(ItemRelease::ClearAssignee(items.last().id))
            .push(ItemRelease::SetStatus(items.last().id, Status::Unassigned))
    }
}

/// The writes that release a removed member's unfinished items.
pub fn release_member_items(items: &[WorkItem]) -> (r: Vec<ItemRelease>)
    ensures
        r@ == release_writes(items@),
{
    let mut r: Vec<ItemRelease> = Vec::new();
    let mut i: usize = 0;
    while i < items.len()
        invariant
            i <= items@.len(),
            r@ == release_writes(items@.subrange(0, i as int)),
        decreases items.len() - i,
    {
        proof {
            assert(items@.subrange(0, i + 1).drop_last() =~= items@.subrange(0, i as int));
        }
        r.push(ItemRelease::ClearAssignee(items[i].id));
        r.push(ItemRelease::SetStatus(items[i].id, Status::Unassigned));
        i = i + 1;
    }
    proof {
        assert(items@.subrange(0, items@.len() as int) =~= items@);
    }
    r
}

/// Every released item loses its assignee and becomes Unassigned, and
/// nothing else is written.
pub proof fn lemma_release_unassigns(items: Seq<WorkItem>, k: int)
    requires
        0 <= k < items.len(),
    ensures
        release_writes(items).len() == 2 * items.len(),
        release_writes(items)[2 * k] == ItemRelease::ClearAssignee(items[k].id),
        release_writes(items)[2 * k + 1] == ItemRelease::SetStatus(items[k].id, Status::Unassigned),
    decreases items.len(),
{
    lemma_release_len(items);
    if k < items.len() - 1 {
        lemma_release_unassigns(items.drop_last(), k);
    }
}

proof fn lemma_release_len(items: Seq<WorkItem>)
    ensures
        release_writes(items).len() == 2 * items.len(),
    decreases items.len(),
{
    if items.len() > 0 {
        lemma_release_len(items.drop_last());
    }
}

} // verus!
