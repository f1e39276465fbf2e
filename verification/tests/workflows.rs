use std::collections::HashMap;

use tapd::auth::{
    authenticate, bearer_token, begin_login, blacklist_key, check_email_available, claims_for, hash_password,
    login_next, plan_reset_request, reset_key, reset_target, verification_user_id, Login, LoginCall, LoginReply,
};
use tapd::error::AppError;
use tapd::iterations::{backlog_stories, check_no_conflict, iteration_stats, plan_iteration_update, summarize_closed_iteration};
use tapd::model::{
    Claims, CreateBugRequest, CreateRequirementRequest, CreateStoryRequest, FileUpload, Iteration, IterationStatus,
    LoginRequest, Member, Pagination, Priority, Project, ProjectType, Role, Severity, Status, User, WorkItem,
    WorkItemType,
};
use tapd::notifications::{assignment_notification, default_preferences, page_offset, queue_key};
use tapd::projects::{
    check_not_archived, creator_membership, project_visibility, release_member_items, require_admin, require_member, ItemRelease,
};
use tapd::reports::{bugs_csv, report_kind, tally_bugs, tally_requirements, ReportKind};
use tapd::status_change::{begin_status_change, status_change_next, StatusChange, StoreCall, StoreReply};
use tapd::swimlane::{group_by_swimlane, SwimlaneDimension};
use tapd::work_items::{
    assignment_audit, creation_audit, parent_project, plan_attachment, plan_bug, plan_requirement, plan_story,
    plan_task, status_label,
};

fn item(id: i64, item_type: WorkItemType, status: Status) -> WorkItem {
    WorkItem {
        id,
        project_id: 9,
        item_type,
        number: format!("N-{}", id),
        title: format!("Item {}", id),
        description: None,
        status,
        priority: Priority::Medium,
        assignee_id: None,
        creator_id: 1,
        parent_id: None,
        iteration_id: None,
        due_date: None,
        story_points: None,
        severity: None,
        repro_steps: None,
        reopen_reason: None,
        completion_pct: None,
        created_at: 0,
        updated_at: 0,
    }
}

fn member(role: Role) -> Member {
    Member { project_id: 9, user_id: 5, role, joined_at: 0 }
}

fn run(mut state: StatusChange, mut call: StoreCall, replies: Vec<StoreReply>) -> (Vec<String>, StoreCall) {
    let mut trace = Vec::new();
    for r in replies {
        trace.push(format!("{:?}", call));
        let (s, c) = status_change_next(state, r);
        state = s;
        call = c;
    }
    (trace, call)
}

#[test]
fn bug_status_change_refuses_invalid_move() {
    let (s, c) = begin_status_change(5, 1, Status::Done);
    assert!(matches!(c, StoreCall::FindItem(1)));
    let (s, c) = status_change_next(s, StoreReply::Item(Some(item(1, WorkItemType::Bug, Status::Pending))));
    assert!(matches!(s, StatusChange::Finished));
    match c {
        StoreCall::Finish(Err(AppError::InvalidStatusTransition { from, to })) => {
            assert_eq!(from, Status::Pending);
            assert_eq!(to, Status::Done);
        },
        other => panic!("unexpected {:?}", other),
    }
}

#[test]
fn missing_item_is_not_found() {
    let (s, _) = begin_status_change(5, 1, Status::Done);
    let (_, c) = status_change_next(s, StoreReply::Item(None));
    assert!(matches!(c, StoreCall::Finish(Err(AppError::NotFound))));
}

#[test]
fn task_of_someone_else_needs_an_admin() {
    let mut t = item(3, WorkItemType::Task, Status::InProgress);
    t.assignee_id = Some(8);
    let (s, _) = begin_status_change(5, 3, Status::Done);
    let (s, c) = status_change_next(s, StoreReply::Item(Some(t.clone())));
    assert!(matches!(c, StoreCall::GetMember { project_id: 9, user_id: 5 }));
    let (_, c) = status_change_next(s, StoreReply::Member(Some(member(Role::Developer))));
    assert!(matches!(c, StoreCall::Finish(Err(AppError::Forbidden))));

    let (s, _) = begin_status_change(5, 3, Status::Done);
    let (s, _) = status_change_next(s, StoreReply::Item(Some(t.clone())));
    let (_, c) = status_change_next(s, StoreReply::Member(None));
    assert!(matches!(c, StoreCall::Finish(Err(AppError::Forbidden))));

    let (s, _) = begin_status_change(5, 3, Status::InProgress);
    let (s, _) = status_change_next(s, StoreReply::Item(Some(t)));
    let (s, c) = status_change_next(s, StoreReply::Member(Some(member(Role::Admin))));
    assert!(matches!(c, StoreCall::UpdateStatus { item_id: 3, status: Status::InProgress }));
    let (_, c) = status_change_next(s, StoreReply::Saved);
    match c {
        StoreCall::Audit(e) => {
            assert_eq!(e.field_name, "status");
            assert_eq!(e.old_value.as_deref(), Some("InProgress"));
            assert_eq!(e.new_value.as_deref(), Some("InProgress"));
        },
        other => panic!("unexpected {:?}", other),
    }
}

#[test]
fn finishing_the_last_task_completes_story_and_requirement() {
    let mut t = item(3, WorkItemType::Task, Status::InProgress);
    t.assignee_id = Some(5);
    t.parent_id = Some(2);
    let mut story = item(2, WorkItemType::Story, Status::InProgress);
    story.parent_id = Some(1);
    let (s, c) = begin_status_change(5, 3, Status::Done);
    let (trace, last) = run(
        s,
        c,
        vec![
            StoreReply::Item(Some(t)),
            StoreReply::Saved,
            StoreReply::Saved,
            StoreReply::Tasks {
                items: vec![item(3, WorkItemType::Task, Status::Done), item(4, WorkItemType::Task, Status::Done)],
                completion_pct: 100,
            },
            StoreReply::Saved,
            StoreReply::Saved,
            StoreReply::Saved,
            StoreReply::Item(Some(story)),
            StoreReply::Items(vec![item(2, WorkItemType::Story, Status::Done)]),
            StoreReply::Saved,
            StoreReply::Saved,
        ],
    );
    assert!(trace[1].starts_with("UpdateStatus { item_id: 3, status: Done }"));
    assert!(trace[3].starts_with("ListTasks(2)"));
    assert!(trace[4].starts_with("SetCompletion { item_id: 2, pct: 100 }"));
    assert!(trace[5].starts_with("UpdateStatus { item_id: 2, status: Done }"));
    assert!(trace[8].starts_with("ListChildren(1)"));
    assert!(trace[9].starts_with("UpdateStatus { item_id: 1, status: Done }"));
    assert!(matches!(last, StoreCall::Finish(Ok(()))));
}

#[test]
fn half_done_story_only_gets_its_percentage() {
    let mut t = item(3, WorkItemType::Task, Status::InProgress);
    t.assignee_id = Some(5);
    t.parent_id = Some(2);
    let (s, c) = begin_status_change(5, 3, Status::Done);
    let (trace, last) = run(
        s,
        c,
        vec![
            StoreReply::Item(Some(t)),
            StoreReply::Saved,
            StoreReply::Saved,
            StoreReply::Tasks {
                items: vec![
                    item(3, WorkItemType::Task, Status::Done),
                    item(4, WorkItemType::Task, Status::Pending),
                    item(5, WorkItemType::Task, Status::Pending),
                ],
                completion_pct: 33,
            },
            StoreReply::Saved,
        ],
    );
    assert!(trace[4].starts_with("SetCompletion { item_id: 2, pct: 33 }"));
    assert!(matches!(last, StoreCall::Finish(Ok(()))));
}

#[test]
fn unexpected_reply_is_an_internal_error() {
    let (s, _) = begin_status_change(5, 3, Status::Done);
    let (_, c) = status_change_next(s, StoreReply::Saved);
    assert!(matches!(c, StoreCall::Finish(Err(AppError::Internal(_)))));
}

fn account(hash: &str, locked_until: Option<i64>) -> User {
    User {
        id: 7,
        email: "a@b.c".into(),
        password_hash: hash.into(),
        nickname: "a".into(),
        avatar_url: None,
        phone: None,
        is_active: true,
        login_fail_count: 0,
        locked_until,
        created_at: 0,
        updated_at: 0,
    }
}

fn login(password: &str, now: i64) -> (Login, LoginCall) {
    begin_login(LoginRequest { email: "a@b.c".into(), password: password.into() }, now)
}

#[test]
fn login_with_right_password_issues_a_bearer_token() {
    let hash = hash_password("secret-pass").unwrap();
    assert_eq!(hash.len(), 60);
    assert!(hash.starts_with("$2b$12$"));
    assert_ne!(hash, "secret-pass");
    let (s, c) = login("secret-pass", 1_000);
    assert!(matches!(c, LoginCall::FindUserByEmail(ref e) if e == "a@b.c"));
    let (s, c) = login_next(s, LoginReply::User(Some(account(&hash, None))));
    assert!(matches!(c, LoginCall::ResetFailCount(7)));
    let (s, c) = login_next(s, LoginReply::Saved);
    assert!(matches!(c, LoginCall::IssueToken(7)));
    let (_, c) = login_next(s, LoginReply::Token(Ok("tok".into())));
    match c {
        LoginCall::Finish(Ok(t)) => {
            assert_eq!(t.access_token, "tok");
            assert_eq!(t.token_type, "Bearer");
            assert_eq!(t.expires_in, 86400);
        },
        other => panic!("unexpected {:?}", other),
    }
}

#[test]
fn fifth_wrong_password_locks_the_account() {
    let hash = hash_password("secret-pass").unwrap();
    let (s, _) = login("wrong", 1_000);
    let (s, c) = login_next(s, LoginReply::User(Some(account(&hash, None))));
    assert!(matches!(c, LoginCall::IncrementFailCount(7)));
    let (s, c) = login_next(s, LoginReply::FailCount { count: 5, now: 2_000 });
    assert!(matches!(c, LoginCall::LockAccount { user_id: 7, until: 900_002_000 }));
    let (_, c) = login_next(s, LoginReply::Saved);
    assert!(matches!(c, LoginCall::Finish(Err(AppError::InvalidCredentials))));

    let (s, _) = login("wrong", 1_000);
    let (s, _) = login_next(s, LoginReply::User(Some(account(&hash, None))));
    let (_, c) = login_next(s, LoginReply::FailCount { count: 4, now: 2_000 });
    assert!(matches!(c, LoginCall::Finish(Err(AppError::InvalidCredentials))));
}

#[test]
fn locked_or_unknown_accounts_cannot_log_in() {
    let (s, _) = login("x", 1_000);
    let (_, c) = login_next(s, LoginReply::User(Some(account("$2b$12$whatever", Some(5_000)))));
    assert!(matches!(c, LoginCall::Finish(Err(AppError::AccountLocked { until: 5_000 }))));
    let (s, _) = login("x", 1_000);
    let (_, c) = login_next(s, LoginReply::User(None));
    assert!(matches!(c, LoginCall::Finish(Err(AppError::InvalidCredentials))));
    let (s, _) = login("x", 1_000);
    let (_, c) = login_next(s, LoginReply::User(Some(account("not-a-hash", None))));
    assert!(matches!(c, LoginCall::Finish(Err(AppError::Internal(_)))));
}

#[test]
fn verification_and_reset_tokens() {
    assert!(matches!(verification_user_id("verify:42"), Ok(42)));
    assert!(matches!(verification_user_id("verify:-3"), Ok(-3)));
    assert!(matches!(verification_user_id("verify:abc"), Err(AppError::InvalidToken)));
    assert!(matches!(verification_user_id("42"), Err(AppError::InvalidToken)));
    assert!(check_email_available(None).is_ok());
    assert!(matches!(check_email_available(Some(&account("h", None))), Err(AppError::EmailAlreadyExists)));
    assert!(plan_reset_request(None).is_none());
    let ticket = plan_reset_request(Some(&account("h", None))).unwrap();
    assert!(ticket.key.starts_with("reset:"));
    assert_eq!(ticket.key.len(), 42);
    assert_eq!(ticket.user_value, "7");
    assert_eq!(ticket.ttl_secs, 1800);
    assert!(matches!(reset_target(Some(ticket.user_value.clone())), Ok(7)));
    assert!(matches!(reset_target(Some("seven".into())), Err(AppError::InvalidToken)));
    assert!(matches!(reset_target(None), Err(AppError::InvalidToken)));
    assert_eq!(reset_key("abc"), "reset:abc");
    assert_eq!(blacklist_key("abc"), "blacklist:abc");
}

#[test]
fn access_token_claims_and_bearer_headers() {
    let c = claims_for(42, 1_700_000_000_123_456);
    assert_eq!(c.sub, "42");
    assert_eq!(c.exp, 1_700_000_000 + 86400);
    assert_eq!(claims_for(1, -1).exp, 86399);
    assert!(matches!(authenticate(&c), Ok(u) if u.user_id == 42));
    assert!(matches!(authenticate(&Claims { sub: "x".into(), exp: 0 }), Err(AppError::Unauthorized)));
    assert_eq!(bearer_token("Bearer abc"), Some("abc"));
    assert_eq!(bearer_token("Basic abc"), None);
    assert_eq!(bearer_token("Bearer "), Some(""));
}

fn iteration(status: IterationStatus) -> Iteration {
    Iteration {
        id: 4,
        project_id: 9,
        name: "Sprint-4".into(),
        goal: None,
        start_date: 100,
        end_date: 114,
        status,
        created_by: 1,
        created_at: 0,
        updated_at: 0,
    }
}

#[test]
fn iteration_planning_rules() {
    assert!(check_no_conflict(&[]).is_ok());
    match check_no_conflict(&[iteration(IterationStatus::InProgress)]) {
        Err(AppError::IterationConflict { conflict_name }) => assert_eq!(conflict_name, "Sprint-4"),
        other => panic!("unexpected {:?}", other),
    }
    let fresh = iteration(IterationStatus::NotStarted);
    assert!(matches!(plan_iteration_update(None, None, None), Err(AppError::NotFound)));
    assert!(matches!(
        plan_iteration_update(Some(&iteration(IterationStatus::InProgress)), Some(1), None),
        Err(AppError::Forbidden)
    ));
    assert!(matches!(plan_iteration_update(Some(&fresh), None, None), Ok(None)));
    assert!(matches!(plan_iteration_update(Some(&fresh), None, Some(120)), Ok(Some((100, 120)))));
    assert!(matches!(plan_iteration_update(Some(&fresh), Some(90), None), Ok(Some((90, 114)))));

    let stories = vec![
        item(1, WorkItemType::Story, Status::Done),
        item(2, WorkItemType::Story, Status::Closed),
        item(3, WorkItemType::Story, Status::InProgress),
        item(4, WorkItemType::Story, Status::Pending),
    ];
    let summary = summarize_closed_iteration(4, &stories);
    assert_eq!((summary.total_stories, summary.completed_stories, summary.moved_to_backlog), (4, 2, 2));
    assert_eq!(backlog_stories(&stories), vec![3, 4]);
    assert_eq!(backlog_stories(&stories[..2]), Vec::<i64>::new());
    let open = vec![item(5, WorkItemType::Story, Status::Pending), item(6, WorkItemType::Story, Status::Rejected)];
    assert_eq!(backlog_stories(&open), vec![5, 6]);
    assert_eq!(summarize_closed_iteration(7, &open).moved_to_backlog, 2);
    assert_eq!(summarize_closed_iteration(7, &[]).moved_to_backlog, 0);
    let stats = iteration_stats(&stories);
    assert_eq!((stats.total, stats.done, stats.in_progress, stats.pending), (4, 1, 1, 1));
}

fn project(is_public: bool) -> Project {
    Project {
        id: 9,
        name: "P".into(),
        description: None,
        project_type: ProjectType::Agile,
        is_public,
        is_archived: false,
        created_by: 1,
        created_at: 0,
        updated_at: 0,
    }
}

#[test]
fn project_access_rules() {
    assert!(require_admin(Some(&member(Role::Admin))).is_ok());
    for r in [Role::Developer, Role::Tester, Role::Observer] {
        assert!(matches!(require_admin(Some(&member(r))), Err(AppError::Forbidden)));
    }
    assert!(matches!(require_admin(None), Err(AppError::Forbidden)));
    let m = creator_membership(&project(true), 3);
    assert_eq!((m.project_id, m.user_id, m.role), (9, 3, Role::Admin));
    assert!(matches!(project_visibility(None), Err(AppError::NotFound)));
    assert!(matches!(project_visibility(Some(&project(true))), Ok(false)));
    assert!(matches!(project_visibility(Some(&project(false))), Ok(true)));
    assert!(matches!(require_member(None), Err(AppError::Forbidden)));
    assert!(require_member(Some(&member(Role::Observer))).is_ok());
    assert!(check_not_archived(&project(true)).is_ok());
    let mut archived = project(false);
    archived.is_archived = true;
    assert!(matches!(check_not_archived(&archived), Err(AppError::ProjectArchived)));
    let writes = release_member_items(&[item(1, WorkItemType::Task, Status::InProgress), item(2, WorkItemType::Bug, Status::Fixing)]);
    assert_eq!(
        writes,
        vec![
            ItemRelease::ClearAssignee(1),
            ItemRelease::SetStatus(1, Status::Unassigned),
            ItemRelease::ClearAssignee(2),
            ItemRelease::SetStatus(2, Status::Unassigned),
        ]
    );
}

#[test]
fn report_tallies_and_csv() {
    let rows = vec![("pending".to_string(), 3i64), ("done".to_string(), 4), ("closed".to_string(), 2), ("in_progress".to_string(), 1)];
    let req = tally_requirements(&rows);
    assert_eq!((req.total, req.completed), (10, 6));
    let sev = vec![("fatal".to_string(), 1i64), ("normal".to_string(), 4), ("fatal".to_string(), 2)];
    let bugs = tally_bugs(&rows, &sev);
    assert_eq!((bugs.total, bugs.new_count, bugs.fixed_count, bugs.remaining_count), (10, 3, 2, 5));
    assert_eq!(bugs.new_count + bugs.fixed_count + bugs.remaining_count, bugs.total);
    let by: HashMap<String, i64> = bugs.by_severity.iter().cloned().collect();
    let expected: HashMap<String, i64> = sev.iter().cloned().collect();
    assert_eq!(by, expected);
    assert_eq!(bugs.by_severity.len(), 2);
    assert_eq!(bugs_csv(&bugs), "total,new,fixed,remaining\n10,3,2,5\n");
    assert!(matches!(report_kind("requirements"), Ok(ReportKind::Requirements)));
    assert!(matches!(report_kind("bugs"), Ok(ReportKind::Bugs)));
    assert!(matches!(report_kind("workload"), Ok(ReportKind::Workload)));
    assert!(matches!(report_kind("other"), Err(AppError::NotFound)));
}

#[test]
fn swimlanes_by_assignee_hold_each_item_once() {
    let mut items = Vec::new();
    for (i, a) in [Some(1), None, Some(2), Some(1), None].iter().enumerate() {
        let mut w = item(i as i64 + 1, WorkItemType::Task, Status::InProgress);
        w.assignee_id = *a;
        items.push(w);
    }
    let lanes = group_by_swimlane(&items, &HashMap::new(), SwimlaneDimension::Assignee);
    let mut got: Vec<(String, Vec<i64>)> = lanes.iter().map(|(k, v)| (k.clone(), v.iter().map(|w| w.id).collect())).collect();
    got.sort();
    assert_eq!(
        got,
        vec![("1".to_string(), vec![1, 4]), ("2".to_string(), vec![3]), ("unassigned".to_string(), vec![2, 5])]
    );
}

#[test]
fn swimlanes_by_label_repeat_items_per_label() {
    let items = vec![item(1, WorkItemType::Task, Status::Pending), item(2, WorkItemType::Task, Status::Pending), item(3, WorkItemType::Task, Status::Pending)];
    let mut labels = HashMap::new();
    labels.insert(1i64, vec!["ui".to_string(), "api".to_string()]);
    labels.insert(3i64, vec!["api".to_string()]);
    let lanes = group_by_swimlane(&items, &labels, SwimlaneDimension::Label);
    let mut got: Vec<(String, Vec<i64>)> = lanes.iter().map(|(k, v)| (k.clone(), v.iter().map(|w| w.id).collect())).collect();
    got.sort();
    assert_eq!(got, vec![("api".to_string(), vec![1, 3]), ("ui".to_string(), vec![1])]);
}

#[test]
fn work_item_plans_and_audits() {
    let (req, labels) = plan_requirement(
        1,
        9,
        CreateRequirementRequest {
            title: "Login".into(),
            description: Some("d".into()),
            priority: Priority::High,
            assignee_id: Some(4),
            due_date: Some(739000),
            labels: vec!["ui".into()],
        },
        0,
    );
    assert_eq!(req.number, "REQ-001");
    assert_eq!(req.item_type, WorkItemType::Requirement);
    assert_eq!(labels, vec!["ui".to_string()]);
    let story = plan_story(1, 10, 9, CreateStoryRequest { title: "S".into(), description: None, story_points: Some(3), assignee_id: None }, 4);
    assert_eq!((story.number.as_str(), story.parent_id, story.priority), ("STORY-005", Some(10), Priority::Medium));
    let t = plan_task(1, 11, 9, "T".into(), Some(2), 9);
    assert_eq!((t.number.as_str(), t.parent_id, t.description.is_none()), ("TASK-010", Some(11), true));
    let bug = plan_bug(
        1,
        9,
        CreateBugRequest {
            title: "B".into(),
            description: None,
            repro_steps: None,
            severity: Severity::Fatal,
            priority: Priority::Urgent,
            assignee_id: None,
            related_requirement_id: None,
        },
        99,
    );
    assert_eq!((bug.number.as_str(), bug.severity), ("BUG-100", Some(Severity::Fatal)));
    assert!(matches!(parent_project(None), Err(AppError::NotFound)));
    assert!(matches!(parent_project(Some(&item(1, WorkItemType::Story, Status::Pending))), Ok(9)));

    let w = item(5, WorkItemType::Requirement, Status::Pending);
    let a = creation_audit(&w, 1);
    assert_eq!((a.field_name.as_str(), a.old_value, a.new_value.as_deref()), ("created", None, Some("Item 5")));
    let a = assignment_audit(&w, 1, 7);
    assert_eq!((a.old_value.as_deref(), a.new_value.as_deref()), (Some("none"), Some("7")));
    let mut w2 = item(6, WorkItemType::Task, Status::Pending);
    w2.assignee_id = Some(3);
    assert_eq!(assignment_audit(&w2, 1, 7).old_value.as_deref(), Some("3"));

    let small = FileUpload { filename: "a.png".into(), content_type: "image/png".into(), size: 10, data: vec![] };
    assert_eq!(plan_attachment(12, &small).unwrap(), "uploads/12/a.png");
    let big = FileUpload { filename: "a".into(), content_type: "x".into(), size: 20 * 1024 * 1024 + 1, data: vec![] };
    assert!(matches!(plan_attachment(12, &big), Err(AppError::AttachmentTooLarge { max: 20971520, actual: 20971521 })));
    assert_eq!(status_label(Status::PendingVerify), "PendingVerify");
}

#[test]
fn assignment_sends_assigned_notification() {
    let n = assignment_notification(7, 42);
    assert_eq!(n.user_id, 42);
    assert_eq!(n.event_type, "assigned");
    assert_eq!(n.work_item_id, Some(7));
    assert_eq!(n.content, "工作项已分配给您");
}

#[test]
fn notification_helpers() {
    assert_eq!(queue_key(42), "notifications:42");
    let p = default_preferences(3);
    assert!(p.on_assigned && p.on_status_change && p.on_comment && p.on_due_date);
    assert_eq!(p.user_id, 3);
    assert_eq!(page_offset(&Pagination { page: 3, per_page: 20 }), 40);
    assert_eq!(page_offset(&Pagination { page: 1, per_page: 20 }), 0);
}
