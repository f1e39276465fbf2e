//! Notifications: the queue each user's pushes wait in, default preferences
//! and pagination.

use vstd::prelude::*;

use crate::model::{NewNotification, NotificationPreferences, Pagination, UserId, WorkItemId};
use crate::text::{decimal, i64_to_decimal};

verus! {

/// The notification an assignment sends to the assignee: event `assigned`,
/// naming the item.
pub fn assignment_notification(item_id: WorkItemId, assignee_id: UserId) -> (n: NewNotification)
    ensures
        n.user_id == assignee_id,
        n.event_type@ == "assigned"@,
        n.work_item_id == Some(item_id),
        n.content@ == "工作项已分配给您"@,
{
    NewNotification {
        user_id: assignee_id,
        event_type: String::from_str("assigned"),
        work_item_id: Some(item_id),
        content: String::from_str("工作项已分配给您"),
    }
}

/// Seconds a user's push queue is kept after the latest push: one day.
pub const QUEUE_TTL_SECS: i64 = 86400;

/// The key of a user's push queue: `notifications:{user_id}`.
pub open spec fn queue_key_spec(user_id: UserId) -> Seq<char> {
    "notifications:"@ + decimal(user_id as int)
}

/// The key of a user's push queue.
pub fn queue_key(user_id: UserId) -> (r: String)
    ensures
        r@ == queue_key_spec(user_id),
{
    let mut r = String::from_str("notifications:");
    let id = i64_to_decimal(user_id);
    r.append(id.as_str());
    r
}

/// The preferences of a user who never set any: every kind of notification on.
pub fn default_preferences(user_id: UserId) -> (r: NotificationPreferences)
    ensures
        r == (NotificationPreferences {
            user_id,
            on_assigned: true,
            on_status_change: true,
            on_comment: true,
            on_due_date: true,
        }),
{
    NotificationPreferences { user_id, on_assigned: true, on_status_change: true, on_comment: true, on_due_date: true }
}

/// How many notifications come before a page, counting pages from 1.
pub open spec fn page_offset_spec(p: Pagination) -> int {
    (p.page - 1) * p.per_page
}

/// The offset of a page of notifications.
pub fn page_offset(p: &Pagination) -> (r: i64)
    requires
        i64::MIN <= p.page - 1,
        i64::MIN <= page_offset_spec(*p) <= i64::MAX,
    ensures
        r == page_offset_spec(*p),
{
    (p.page - 1) * p.per_page
}

} // verus!
