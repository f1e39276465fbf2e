use chrono::{Duration, Utc};

use tapd::error::AppError;
use tapd::model::{Iteration, IterationStatus, Priority, Status, User, WorkItem, WorkItemType};
use tapd::rules::{
    check_account_lock, find_conflicting_iteration, is_token_valid, iterations_overlap,
    sanitize_query, should_lock_account, ACCOUNT_LOCK_MICROS, RESET_TOKEN_TTL_MICROS,
};
use tapd::text::{i64_to_decimal, parse_i64, same_text, strip_prefix};
use tapd::work_items::format_item_number;

fn user(locked_until: Option<i64>) -> User {
    User {
        id: 1,
        email: "test@example.com".into(),
        password_hash: "$2b$12$placeholder".into(),
        nickname: "tester".into(),
        avatar_url: None,
        phone: None,
        is_active: true,
        login_fail_count: 0,
        locked_until,
        created_at: 0,
        updated_at: 0,
    }
}

fn iteration(id: i64, start: i32, end: i32, status: IterationStatus) -> Iteration {
    Iteration {
        id,
        project_id: 1,
        name: format!("Sprint-{}", id),
        goal: None,
        start_date: start,
        end_date: end,
        status,
        created_by: 1,
        created_at: 0,
        updated_at: 0,
    }
}

#[allow(dead_code)]
fn task(id: i64, status: Status) -> WorkItem {
    WorkItem {
        id,
        project_id: 1,
        item_type: WorkItemType::Task,
        number: format!("TASK-{}", id),
        title: "t".into(),
        description: None,
        status,
        priority: Priority::Medium,
        assignee_id: None,
        creator_id: 1,
        parent_id: None,
        iteration_id: None,
        due_date: None,
        story_points: None,
        severity: None,
        repro_steps: None,
        reopen_reason: None,
        completion_pct: None,
        created_at: 0,
        updated_at: 0,
    }
}

#[test]
fn decimal_matches_to_string() {
    for n in [0i64, 7, 42, -7, 1000, -1000, i64::MIN, i64::MAX, 1234567890123] {
        assert_eq!(i64_to_decimal(n), n.to_string());
    }
}

#[test]
fn parse_matches_std_parse() {
    let cases = [
        "0", "+5", "-0", "", "-", "+", "12a", "007", "9223372036854775807", "9223372036854775808",
        "-9223372036854775808", "-9223372036854775809", " 1", "１", "99999999999999999999999",
    ];
    for c in cases {
        assert_eq!(parse_i64(c), c.parse::<i64>().ok(), "case {:?}", c);
    }
}

#[test]
fn decimal_parse_roundtrip() {
    for n in [0i64, 1, -1, 99, i64::MIN, i64::MAX, 424242] {
        assert_eq!(parse_i64(&i64_to_decimal(n)), Some(n));
    }
}

#[test]
fn strip_prefix_and_same_text() {
    assert_eq!(strip_prefix("verify:12", "verify:"), Some("12"));
    assert_eq!(strip_prefix("veri", "verify:"), None);
    assert!(same_text("bugs", "bugs"));
    assert!(!same_text("bug", "bugs"));
}

#[test]
fn item_numbers_are_zero_padded() {
    assert_eq!(format_item_number("REQ", 0), "REQ-001");
    assert_eq!(format_item_number("BUG", 41), "BUG-042");
    assert_eq!(format_item_number("TASK", 999), "TASK-1000");
    for c in [-200i64, -5, -1, 0, 9, 98, 12345] {
        assert_eq!(format_item_number("STORY", c), format!("STORY-{:03}", c + 1));
    }
}

#[test]
fn account_lock_checks() {
    let now = Utc::now().timestamp_micros();
    let locked = user(Some(now + 1_000_000));
    match check_account_lock(&locked, now) {
        Err(AppError::AccountLocked { until }) => assert_eq!(until, now + 1_000_000),
        other => panic!("expected a lock, got {:?}", other),
    }
    assert!(check_account_lock(&user(Some(now - 1)), now).is_ok());
    assert!(check_account_lock(&user(Some(now)), now).is_ok());
    assert!(check_account_lock(&user(None), now).is_ok());
}

#[test]
fn lock_after_five_failures_for_fifteen_minutes() {
    for c in 0..5 {
        assert!(should_lock_account(c).is_none());
    }
    for c in [5, 6, 100] {
        assert_eq!(should_lock_account(c), Duration::minutes(15).num_microseconds());
    }
    assert_eq!(Some(ACCOUNT_LOCK_MICROS), Duration::minutes(15).num_microseconds());
}

#[test]
fn reset_token_lives_thirty_minutes() {
    let ttl = Duration::minutes(30).num_microseconds().unwrap();
    assert_eq!(ttl, RESET_TOKEN_TTL_MICROS);
    let issued = Utc::now().timestamp_micros();
    for m in 0..30 {
        assert!(is_token_valid(issued, issued + m * 60_000_000, ttl));
    }
    for m in 30..=120 {
        assert!(!is_token_valid(issued, issued + m * 60_000_000, ttl));
    }
    assert!(!is_token_valid(i64::MAX, i64::MAX, 0));
    assert!(is_token_valid(i64::MAX, i64::MAX, 1));
}

#[test]
fn overlap_is_symmetric_and_inclusive() {
    let a = iteration(1, 10, 20, IterationStatus::InProgress);
    let b = iteration(2, 20, 30, IterationStatus::InProgress);
    let c = iteration(3, 21, 30, IterationStatus::InProgress);
    assert!(iterations_overlap(&a, &b) && iterations_overlap(&b, &a));
    assert!(!iterations_overlap(&a, &c) && !iterations_overlap(&c, &a));
}

#[test]
fn conflicts_skip_completed_and_pick_first() {
    let existing = vec![
        iteration(1, 0, 10, IterationStatus::Completed),
        iteration(2, 50, 60, IterationStatus::NotStarted),
        iteration(3, 5, 15, IterationStatus::InProgress),
        iteration(4, 8, 9, IterationStatus::NotStarted),
    ];
    let hit = find_conflicting_iteration(0, 10, &existing).unwrap();
    assert_eq!(hit.id, 3);
    assert!(find_conflicting_iteration(20, 40, &existing).is_none());
    assert!(find_conflicting_iteration(0, 5, &[]).is_none());
}

#[test]
fn long_queries_are_cut_to_200_chars() {
    let long: String = "é".repeat(250);
    let (cut, truncated) = sanitize_query(&long);
    assert!(truncated);
    assert_eq!(cut.chars().count(), 200);
    assert_eq!(cut, "é".repeat(200));
    let exact: String = "a".repeat(200);
    assert_eq!(sanitize_query(&exact), (exact.clone(), false));
    assert_eq!(sanitize_query(""), (String::new(), false));
    let again = sanitize_query(&cut);
    assert_eq!(again, (cut.clone(), false));
}

#[test]
fn every_error_has_its_status_and_code() {
    let cases: Vec<(AppError, u16, &str)> = vec![
        (AppError::EmailAlreadyExists, 422, "EMAIL_ALREADY_EXISTS"),
        (AppError::InvalidCredentials, 400, "INVALID_CREDENTIALS"),
        (AppError::AccountLocked { until: 0 }, 400, "ACCOUNT_LOCKED"),
        (AppError::InvalidToken, 400, "INVALID_TOKEN"),
        (AppError::Forbidden, 403, "FORBIDDEN"),
        (AppError::Unauthorized, 401, "UNAUTHORIZED"),
        (AppError::NotFound, 404, "NOT_FOUND"),
        (AppError::ProjectArchived, 403, "PROJECT_ARCHIVED"),
        (AppError::IterationConflict { conflict_name: "S".into() }, 422, "ITERATION_CONFLICT"),
        (AppError::InvalidStatusTransition { from: Status::Done, to: Status::Pending }, 422, "INVALID_STATUS_TRANSITION"),
        (AppError::InvalidHoursPrecision, 422, "INVALID_HOURS_PRECISION"),
        (AppError::AttachmentTooLarge { max: 1, actual: 2 }, 422, "ATTACHMENT_TOO_LARGE"),
        (AppError::Database("x".into()), 500, "DATABASE_ERROR"),
        (AppError::Internal("x".into()), 500, "INTERNAL_ERROR"),
    ];
    for (e, status, code) in cases {
        assert_eq!(e.status_code(), status);
        assert_eq!(e.error_code(), code);
    }
}
