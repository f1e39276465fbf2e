//! The records and enumerations the rules work on.
//!
//! Instants are microseconds since the Unix epoch (`Timestamp`), calendar
//! dates are days counted from 0001-01-01 as day 1 (`Day`); both order as the
//! instants and dates they stand for.

use vstd::prelude::*;

verus! {

pub type UserId = i64;
pub type ProjectId = i64;
pub type WorkItemId = i64;
pub type IterationId = i64;
pub type NotificationId = i64;
pub type CommentId = i64;
pub type AttachmentId = i64;

/// Microseconds since 1970-01-01T00:00:00Z.
pub type Timestamp = i64;

/// A calendar date, as the number of days from the common era's first day.
pub type Day = i32;

/// Microseconds in a second.
pub const MICROS_PER_SECOND: i64 = 1_000_000;

/// Microseconds in a minute.
pub const MICROS_PER_MINUTE: i64 = 60_000_000;

#[derive(Debug, Clone, Copy, PartialEq, Eq, Structural)]
pub enum WorkItemType {
    Requirement,
    Story,
    Task,
    Bug,
}

#[derive(Debug, Clone, Copy, PartialEq, Eq, Structural)]
pub enum Status {
    Pending,
    InProgress,
    Done,
    Closed,
    Rejected,
    PendingVerify,
    Fixing,
    Unassigned,
}

#[derive(Debug, Clone, Copy, PartialEq, Eq, Structural)]
pub enum Priority {
    Urgent,
    High,
    Medium,
    Low,
}

#[derive(Debug, Clone, Copy, PartialEq, Eq, Structural)]
pub enum Role {
    Admin,
    Developer,
    Tester,
    Observer,
}

#[derive(Debug, Clone, Copy, PartialEq, Eq, Structural)]
pub enum ProjectType {
    Agile,
    Waterfall,
}

#[derive(Debug, Clone, Copy, PartialEq, Eq, Structural)]
pub enum Severity {
    Fatal,
    Critical,
    Normal,
    Hint,
}

#[derive(Debug, Clone, Copy, PartialEq, Eq, Structural)]
pub enum IterationStatus {
    NotStarted,
    InProgress,
    Completed,
}

#[derive(Debug, Clone)]
pub struct User {
    pub id: UserId,
    pub email: String,
    pub password_hash: String,
    pub nickname: String,
    pub avatar_url: Option<String>,
    pub phone: Option<String>,
    pub is_active: bool,
    pub login_fail_count: i32,
    pub locked_until: Option<Timestamp>,
    pub created_at: Timestamp,
    pub updated_at: Timestamp,
}

#[derive(Debug, Clone)]
pub struct Member {
    pub project_id: ProjectId,
    pub user_id: UserId,
    pub role: Role,
    pub joined_at: Timestamp,
}

#[derive(Debug, Clone)]
pub struct Project {
    pub id: ProjectId,
    pub name: String,
    pub description: Option<String>,
    pub project_type: ProjectType,
    pub is_public: bool,
    pub is_archived: bool,
    pub created_by: UserId,
    pub created_at: Timestamp,
    pub updated_at: Timestamp,
}

#[derive(Debug, Clone)]
pub struct CreateProjectRequest {
    pub name: String,
    pub description: Option<String>,
    pub project_type: ProjectType,
    pub is_public: bool,
}

#[derive(Debug, Clone)]
pub struct UpdateProjectRequest {
    pub name: Option<String>,
    pub description: Option<String>,
}

#[derive(Debug, Clone)]
pub struct InviteMemberRequest {
    pub user_id: UserId,
    pub role: Role,
}

#[derive(Debug, Clone)]
pub struct RegisterRequest {
    pub email: String,
    pub password: String,
    pub nickname: String,
}

#[derive(Debug, Clone)]
pub struct LoginRequest {
    pub email: String,
    pub password: String,
}

#[derive(Debug, Clone)]
pub struct AuthToken {
    pub access_token: String,
    pub token_type: String,
    pub expires_in: i64,
}

#[derive(Debug, Clone)]
pub struct UpdateProfileRequest {
    pub nickname: Option<String>,
    pub avatar_url: Option<String>,
    pub phone: Option<String>,
}

/// What a signed access token carries: the user id in decimal and the expiry
/// in seconds since the epoch.
#[derive(Debug, Clone)]
pub struct Claims {
    pub sub: String,
    pub exp: usize,
}

/// The caller a request was authenticated as.
#[derive(Debug, Clone)]
pub struct AuthUser {
    pub user_id: i64,
}

/// Query string of the notification socket.
#[derive(Debug, Clone)]
pub struct WsQuery {
    pub token: String,
}

#[derive(Debug, Clone)]
pub struct Iteration {
    pub id: IterationId,
    pub project_id: ProjectId,
    pub name: String,
    pub goal: Option<String>,
    pub start_date: Day,
    pub end_date: Day,
    pub status: IterationStatus,
    pub created_by: UserId,
    pub created_at: Timestamp,
    pub updated_at: Timestamp,
}

#[derive(Debug, Clone)]
pub struct BurndownSnapshot {
    pub id: i64,
    pub iteration_id: IterationId,
    pub snapshot_date: Day,
    pub remaining_points: i32,
    pub total_points: i32,
}

#[derive(Debug, Clone)]
pub struct CreateIterationRequest {
    pub name: String,
    pub start_date: Day,
    pub end_date: Day,
    pub goal: Option<String>,
}

#[derive(Debug, Clone)]
pub struct UpdateIterationRequest {
    pub name: Option<String>,
    pub start_date: Option<Day>,
    pub end_date: Option<Day>,
    pub goal: Option<String>,
}

#[derive(Debug, Clone, PartialEq, Eq, Structural)]
pub struct IterationSummary {
    pub iteration_id: IterationId,
    pub total_stories: i32,
    pub completed_stories: i32,
    pub moved_to_backlog: i32,
}

#[derive(Debug, Clone)]
pub struct Pagination {
    pub page: i64,
    pub per_page: i64,
}

#[derive(Debug, Clone)]
pub struct Notification {
    pub id: NotificationId,
    pub user_id: UserId,
    pub event_type: String,
    pub work_item_id: Option<WorkItemId>,
    pub content: String,
    pub is_read: bool,
    pub retry_count: i32,
    pub created_at: Timestamp,
}

#[derive(Debug, Clone, PartialEq, Eq, Structural)]
pub struct NotificationPreferences {
    pub user_id: UserId,
    pub on_assigned: bool,
    pub on_status_change: bool,
    pub on_comment: bool,
    pub on_due_date: bool,
}

#[derive(Debug, Clone)]
pub struct NewNotification {
    pub user_id: UserId,
    pub event_type: String,
    pub work_item_id: Option<WorkItemId>,
    pub content: String,
}

#[derive(Debug, Clone)]
pub struct AuditLog {
    pub id: i64,
    pub work_item_id: WorkItemId,
    pub operator_id: UserId,
    pub field_name: String,
    pub old_value: Option<String>,
    pub new_value: Option<String>,
    pub changed_at: Timestamp,
}

/// A work item as the rules read it. Hours, which the store keeps as floating
/// point numbers, stay with the caller.
#[derive(Debug, Clone)]
pub struct WorkItem {
    pub id: WorkItemId,
    pub project_id: ProjectId,
    pub item_type: WorkItemType,
    pub number: String,
    pub title: String,
    pub description: Option<String>,
    pub status: Status,
    pub priority: Priority,
    pub assignee_id: Option<UserId>,
    pub creator_id: UserId,
    pub parent_id: Option<WorkItemId>,
    pub iteration_id: Option<IterationId>,
    pub due_date: Option<Day>,
    pub story_points: Option<i32>,
    pub severity: Option<Severity>,
    pub repro_steps: Option<String>,
    pub reopen_reason: Option<String>,
    pub completion_pct: Option<i32>,
    pub created_at: Timestamp,
    pub updated_at: Timestamp,
}

#[derive(Debug, Clone)]
pub struct WorkItemLabel {
    pub work_item_id: WorkItemId,
    pub label: String,
}

#[derive(Debug, Clone)]
pub struct Comment {
    pub id: CommentId,
    pub work_item_id: WorkItemId,
    pub author_id: UserId,
    pub content: String,
    pub created_at: Timestamp,
}

#[derive(Debug, Clone)]
pub struct Attachment {
    pub id: AttachmentId,
    pub work_item_id: WorkItemId,
    pub uploader_id: UserId,
    pub filename: String,
    pub file_size: i64,
    pub storage_key: String,
    pub created_at: Timestamp,
}

#[derive(Debug, Clone)]
pub struct CreateRequirementRequest {
    pub title: String,
    pub description: Option<String>,
    pub priority: Priority,
    pub assignee_id: Option<UserId>,
    pub due_date: Option<Day>,
    pub labels: Vec<String>,
}

#[derive(Debug, Clone)]
pub struct CreateStoryRequest {
    pub title: String,
    pub description: Option<String>,
    pub story_points: Option<i32>,
    pub assignee_id: Option<UserId>,
}

#[derive(Debug, Clone)]
pub struct CreateBugRequest {
    pub title: String,
    pub description: Option<String>,
    pub repro_steps: Option<String>,
    pub severity: Severity,
    pub priority: Priority,
    pub assignee_id: Option<UserId>,
    pub related_requirement_id: Option<WorkItemId>,
}

#[derive(Debug, Clone)]
pub struct WorkItemFilter {
    pub status: Option<Status>,
    pub priority: Option<Priority>,
    pub assignee_id: Option<UserId>,
    pub label: Option<String>,
    pub iteration_id: Option<IterationId>,
    pub item_type: Option<WorkItemType>,
}

#[derive(Debug, Clone)]
pub struct FileUpload {
    pub filename: String,
    pub content_type: String,
    pub size: i64,
    pub data: Vec<u8>,
}

#[derive(Debug, Clone)]
pub struct SearchQuery {
    pub keyword: String,
    pub item_type: Option<WorkItemType>,
    pub status: Option<Status>,
    pub priority: Option<Priority>,
}

} // verus!
