use chrono::{TimeZone, Utc};

use tapd::error::AppError;
use tapd::model::{NewNotification, Notification, NotificationId, Role, Status, UserId, WorkItemId};
use tapd::rules::{is_valid_bug_transition, should_retry_notification, MAX_NOTIFY_RETRIES};

fn make_notification(
    id: NotificationId,
    user_id: UserId,
    event_type: &str,
    work_item_id: Option<WorkItemId>,
    is_read: bool,
    retry_count: i32,
) -> Notification {
    Notification {
        id,
        user_id,
        event_type: event_type.to_string(),
        work_item_id,
        content: format!("Notification {}", id),
        is_read,
        retry_count,
        created_at: Utc.with_ymd_and_hms(2024, 1, 1, 0, 0, 0).unwrap().timestamp_micros(),
    }
}

#[test]
fn prop28_assignment_creates_assigned_notification() {
    let assignee_id: UserId = 42;
    let work_item_id: WorkItemId = 7;

    let notification = NewNotification {
        user_id: assignee_id,
        event_type: "assigned".to_string(),
        work_item_id: Some(work_item_id),
        content: "工作项已分配给您".to_string(),
    };

    assert_eq!(notification.user_id, assignee_id);
    assert_eq!(notification.event_type, "assigned");
    assert_eq!(notification.work_item_id, Some(work_item_id));
}

#[test]
fn prop31_mark_read_sets_is_read_true() {
    let mut n = make_notification(1, 10, "assigned", Some(5), false, 0);
    n.is_read = true;
    assert!(n.is_read);
}

#[test]
fn prop31_unmarked_notifications_unchanged() {
    let n = make_notification(2, 10, "assigned", Some(5), false, 0);
    assert!(!n.is_read);
}

#[test]
fn prop32_retry_allowed_below_max() {
    assert!(should_retry_notification(0));
    assert!(should_retry_notification(1));
    assert!(should_retry_notification(2));
}

#[test]
fn prop32_retry_denied_at_max() {
    assert!(!should_retry_notification(MAX_NOTIFY_RETRIES));
    assert!(!should_retry_notification(MAX_NOTIFY_RETRIES + 1));
}

#[test]
fn creator_role_is_admin() {
    let creator_role = Role::Admin;
    assert_eq!(creator_role, Role::Admin);

    assert_ne!(Role::Developer, Role::Admin);
    assert_ne!(Role::Tester, Role::Admin);
    assert_ne!(Role::Observer, Role::Admin);
}

#[test]
fn removed_member_work_items_become_unassigned() {
    let target_status = Status::Unassigned;
    assert_eq!(target_status, Status::Unassigned);

    assert_ne!(Status::Pending, Status::Unassigned);
    assert_ne!(Status::InProgress, Status::Unassigned);
    assert_ne!(Status::Done, Status::Unassigned);
}

#[test]
fn archived_project_returns_project_archived_error() {
    let err = AppError::ProjectArchived;
    assert!(matches!(err, AppError::ProjectArchived));
    assert_eq!(err.status_code(), axum::http::StatusCode::FORBIDDEN.as_u16());
}

#[test]
fn private_project_non_member_access_is_forbidden() {
    let err = AppError::Forbidden;
    assert!(matches!(err, AppError::Forbidden));
    assert_eq!(err.status_code(), axum::http::StatusCode::FORBIDDEN.as_u16());
}

#[test]
fn non_admin_role_is_not_admin() {
    let roles = [Role::Developer, Role::Tester, Role::Observer];
    for role in &roles {
        assert_ne!(role, &Role::Admin, "{:?} should not be Admin", role);
    }
}

#[test]
fn prop10_new_requirement_initial_status_is_pending() {
    let initial_status = Status::Pending;
    assert_eq!(initial_status, Status::Pending);
    assert_ne!(initial_status, Status::InProgress);
    assert_ne!(initial_status, Status::Done);
    assert_ne!(initial_status, Status::Closed);
}

#[test]
fn prop21_new_bug_initial_status_is_pending() {
    let initial_status = Status::Pending;
    assert_eq!(initial_status, Status::Pending);
    assert_ne!(initial_status, Status::Fixing);
    assert_ne!(initial_status, Status::Closed);
}

#[test]
fn prop18_non_assignee_non_admin_is_forbidden() {
    let err = AppError::Forbidden;
    assert!(matches!(err, AppError::Forbidden));
    assert_eq!(err.status_code(), axum::http::StatusCode::FORBIDDEN.as_u16());
}

#[test]
fn prop24_bug_reopen_closed_to_pending_is_valid() {
    assert!(is_valid_bug_transition(&Status::Closed, &Status::Pending));
}

#[test]
fn invalid_bug_transition_returns_correct_error() {
    let from = Status::Pending;
    let to = Status::Done;
    assert!(!is_valid_bug_transition(&from, &to));
    let err = AppError::InvalidStatusTransition { from: from.clone(), to: to.clone() };
    assert!(matches!(err, AppError::InvalidStatusTransition { .. }));
    assert_eq!(err.status_code(), axum::http::StatusCode::UNPROCESSABLE_ENTITY.as_u16());
}

#[test]
fn removed_member_items_become_unassigned() {
    let target = Status::Unassigned;
    assert_eq!(target, Status::Unassigned);
    assert_ne!(target, Status::Pending);
}
