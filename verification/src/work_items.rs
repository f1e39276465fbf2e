//! Creating, assigning and attaching to work items: the numbers items get,
//! the records handed to the store, and the audit entries written.

use vstd::prelude::*;

use crate::error::AppError;
use crate::model::{
    CreateBugRequest, CreateRequirementRequest, CreateStoryRequest, Day, FileUpload, Priority,
    ProjectId, Severity, Status, UserId, WorkItem, WorkItemId, WorkItemType,
};
use crate::rules::{validate_attachment_size, MAX_ATTACHMENT_BYTES};
use crate::text::{append_decimal_width3, concat, decimal, decimal_width3, i64_to_decimal};

verus! {

/// The prefix of the numbers of each kind of item.
pub open spec fn item_prefix_spec(t: WorkItemType) -> Seq<char> {
    match t {
        WorkItemType::Requirement => "REQ"@,
        WorkItemType::Story => "STORY"@,
        WorkItemType::Task => "TASK"@,
        WorkItemType::Bug => "BUG"@,
    }
}

/// The prefix of the numbers of items of type `t`.
pub fn item_prefix(t: WorkItemType) -> (r: &'static str)
    ensures
        r@ == item_prefix_spec(t),
{
    match t {
        WorkItemType::Requirement => "REQ",
        WorkItemType::Story => "STORY",
        WorkItemType::Task => "TASK",
        WorkItemType::Bug => "BUG",
    }
}

/// The number the next item gets when `count` numbers with its prefix exist in
/// the project: the prefix, a dash and `count + 1` padded to three digits.
pub open spec fn item_number(prefix: Seq<char>, count: int) -> Seq<char> {
    prefix + seq!['-'] + decimal_width3(count + 1)
}

/// Formats the next item number, such as `REQ-001`.
pub fn format_item_number(prefix: &str, count: i64) -> (r: String)
    requires
        count < i64::MAX,
    ensures
        r@ == item_number(prefix@, count as int),
{
    proof { reveal_strlit("-"); }
    let mut r = concat(prefix, "-");
    append_decimal_width3(&mut r, count + 1);
    proof {
        assert(r@ =~= prefix@ + seq!['-'] + decimal_width3(count + 1));
    }
    r
}

/// The name a status has in the audit trail: its variant's name.
pub open spec fn status_name(s: Status) -> Seq<char> {
    match s {
        Status::Pending => "Pending"@,
        Status::InProgress => "InProgress"@,
        Status::Done => "Done"@,
        Status::Closed => "Closed"@,
        Status::Rejected => "Rejected"@,
        Status::PendingVerify => "PendingVerify"@,
        Status::Fixing => "Fixing"@,
        Status::Unassigned => "Unassigned"@,
    }
}

/// The name of a status in the audit trail.
pub fn status_label(s: Status) -> (r: &'static str)
    ensures
        r@ == status_name(s),
{
    match s {
        Status::Pending => "Pending",
        Status::InProgress => "InProgress",
        Status::Done => "Done",
        Status::Closed => "Closed",
        Status::Rejected => "Rejected",
        Status::PendingVerify => "PendingVerify",
        Status::Fixing => "Fixing",
        Status::Unassigned => "Unassigned",
    }
}

/// A work item as it is handed to the store to be inserted. The store gives it
/// an id, the status Pending and its timestamps.
#[derive(Debug)]
pub struct NewWorkItem {
    pub project_id: ProjectId,
    pub item_type: WorkItemType,
    pub number: String,
    pub title: String,
    pub description: Option<String>,
    pub priority: Priority,
    pub assignee_id: Option<UserId>,
    pub creator_id: UserId,
    pub parent_id: Option<WorkItemId>,
    pub due_date: Option<Day>,
    pub story_points: Option<i32>,
    pub severity: Option<Severity>,
}

/// One line of an item's change history, as it is handed to the store.
#[derive(Debug)]
pub struct AuditEntry {
    pub work_item_id: WorkItemId,
    pub operator_id: UserId,
    pub field_name: String,
    pub old_value: Option<String>,
    pub new_value: Option<String>,
}

/// A new requirement, and the labels to attach to it once it exists.
pub fn plan_requirement(
    creator_id: UserId,
    project_id: ProjectId,
    req: CreateRequirementRequest,
    count: i64,
) -> (r: (NewWorkItem, Vec<String>))
    requires
        count < i64::MAX,
    ensures
        r.0.project_id == project_id,
        r.0.item_type == WorkItemType::Requirement,
        r.0.number@ == item_number("REQ"@, count as int),
        r.0.title == req.title,
        r.0.description == req.description,
        r.0.priority == req.priority,
        r.0.assignee_id == req.assignee_id,
        r.0.creator_id == creator_id,
        r.0.parent_id is None,
        r.0.due_date == req.due_date,
        r.0.story_points is None,
        r.0.severity is None,
        r.1 == req.labels,
{
    let number = format_item_number(item_prefix(WorkItemType::Requirement), count);
    (
        NewWorkItem {
            project_id,
            item_type: WorkItemType::Requirement,
            number,
            title: req.title,
            description: req.description,
            priority: req.priority,
            assignee_id: req.assignee_id,
            creator_id,
            parent_id: None,
            due_date: req.due_date,
            story_points: None,
            severity: None,
        },
        req.labels,
    )
}

/// The project of a story's or task's parent; a missing parent is not found.
pub fn parent_project(parent: Option<&WorkItem>) -> (r: Result<ProjectId, AppError>)
    ensures
        parent is None ==> r == Err::<ProjectId, AppError>(AppError::NotFound),
        parent matches Some(p) ==> r == Ok::<ProjectId, AppError>(p.project_id),
{
    match parent {
        Some(p) => Ok(p.project_id),
        None => Err(AppError::NotFound),
    }
}

/// A new story under requirement `parent_id`, of medium priority.
pub fn plan_story(
    creator_id: UserId,
    parent_id: WorkItemId,
    project_id: ProjectId,
    req: CreateStoryRequest,
    count: i64,
) -> (r: NewWorkItem)
    requires
        count < i64::MAX,
    ensures
        r.project_id == project_id,
        r.item_type == WorkItemType::Story,
        r.number@ == item_number("STORY"@, count as int),
        r.title == req.title,
        r.description == req.description,
        r.priority == Priority::Medium,
        r.assignee_id == req.assignee_id,
        r.creator_id == creator_id,
        r.parent_id == Some(parent_id),
        r.due_date is None,
        r.story_points == req.story_points,
        r.severity is None,
{
    let number = format_item_number(item_prefix(WorkItemType::Story), count);
    NewWorkItem {
        project_id,
        item_type: WorkItemType::Story,
        number,
        title: req.title,
        description: req.description,
        priority: Priority::Medium,
        assignee_id: req.assignee_id,
        creator_id,
        parent_id: Some(parent_id),
        due_date: None,
        story_points: req.story_points,
        severity: None,
    }
}

/// A new task under story `parent_id`, of medium priority and without a
/// description. Its estimated hours go to the store beside this record.
pub fn plan_task(
    creator_id: UserId,
    parent_id: WorkItemId,
    project_id: ProjectId,
    title: String,
    assignee_id: Option<UserId>,
    count: i64,
) -> (r: NewWorkItem)
    requires
        count < i64::MAX,
    ensures
        r.project_id == project_id,
        r.item_type == WorkItemType::Task,
        r.number@ == item_number("TASK"@, count as int),
        r.title == title,
        r.description is None,
        r.priority == Priority::Medium,
        r.assignee_id == assignee_id,
        r.creator_id == creator_id,
        r.parent_id == Some(parent_id),
        r.due_date is None,
        r.story_points is None,
        r.severity is None,
{
    let number = format_item_number(item_prefix(WorkItemType::Task), count);
    NewWorkItem {
        project_id,
        item_type: WorkItemType::Task,
        number,
        title,
        description: None,
        priority: Priority::Medium,
        assignee_id,
        creator_id,
        parent_id: Some(parent_id),
        due_date: None,
        story_points: None,
        severity: None,
    }
}

/// A new bug in a project, with its severity.
pub fn plan_bug(
    creator_id: UserId,
    project_id: ProjectId,
    req: CreateBugRequest,
    count: i64,
) -> (r: NewWorkItem)
    requires
        count < i64::MAX,
    ensures
        r.project_id == project_id,
        r.item_type == WorkItemType::Bug,
        r.number@ == item_number("BUG"@, count as int),
        r.title == req.title,
        r.description == req.description,
        r.priority == req.priority,
        r.assignee_id == req.assignee_id,
        r.creator_id == creator_id,
        r.parent_id is None,
        r.due_date is None,
        r.story_points is None,
        r.severity == Some(req.severity),
{
    let number = format_item_number(item_prefix(WorkItemType::Bug), count);
    NewWorkItem {
        project_id,
        item_type: WorkItemType::Bug,
        number,
        title: req.title,
        description: req.description,
        priority: req.priority,
        assignee_id: req.assignee_id,
        creator_id,
        parent_id: None,
        due_date: None,
        story_points: None,
        severity: Some(req.severity),
    }
}

/// The history line written when an item is created: field `created`, no old
/// value, the title as the new value.
pub fn creation_audit(item: &WorkItem, creator_id: UserId) -> (r: AuditEntry)
    ensures
        r.work_item_id == item.id,
        r.operator_id == creator_id,
        r.field_name@ == "created"@,
        r.old_value is None,
        r.new_value matches Some(v) && v@ == item.title@,
{
    AuditEntry {
        work_item_id: item.id,
        operator_id: creator_id,
        field_name: String::from_str("created"),
        old_value: None,
        new_value: Some(item.title.clone()),
    }
}

/// How an assignee appears in the history: the user id in decimal, or `none`.
pub open spec fn assignee_text(a: Option<UserId>) -> Seq<char> {
    match a {
        Some(id) => decimal(id as int),
        None => "none"@,
    }
}

/// The history line written when an item is assigned to `assignee_id`.
pub fn assignment_audit(item: &WorkItem, operator_id: UserId, assignee_id: UserId) -> (r: AuditEntry)
    ensures
        r.work_item_id == item.id,
        r.operator_id == operator_id,
        r.field_name@ == "assignee"@,
        r.old_value matches Some(v) && v@ == assignee_text(item.assignee_id),
        r.new_value matches Some(v) && v@ == decimal(assignee_id as int),
{
    let old = match item.assignee_id {
        Some(id) => i64_to_decimal(id),
        None => String::from_str("none"),
    };
    AuditEntry {
        work_item_id: item.id,
        operator_id,
        field_name: String::from_str("assignee"),
        old_value: Some(old),
        new_value: Some(i64_to_decimal(assignee_id)),
    }
}

/// Where an attachment of item `item_id` is stored: `uploads/{id}/{filename}`.
pub open spec fn storage_key(item_id: WorkItemId, filename: Seq<char>) -> Seq<char> {
    "uploads/"@ + decimal(item_id as int) + "/"@ + filename
}

/// Checks an upload's size and gives the key it is stored under.
pub fn plan_attachment(item_id: WorkItemId, file: &FileUpload) -> (r: Result<String, AppError>)
    ensures
        file.size > MAX_ATTACHMENT_BYTES ==> r == Err::<String, AppError>(
            AppError::AttachmentTooLarge { max: MAX_ATTACHMENT_BYTES, actual: file.size },
        ),
        file.size <= MAX_ATTACHMENT_BYTES ==> (r matches Ok(k) && k@ == storage_key(item_id, file.filename@)),
{
    validate_attachment_size(file.size)?;
    let id = i64_to_decimal(item_id);
    let mut key = String::from_str("uploads/");
    key.append(id.as_str());
    key.append("/");
    key.append(file.filename.as_str());
    Ok(key)
}

} // verus!
