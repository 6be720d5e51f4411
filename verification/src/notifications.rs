//! Notifications: their kinds, the reader's notification center and real-time pushes.
use vstd::prelude::*;
use vstd::std_specs::convert::FromSpecImpl;

use crate::bridge::now_unix_nanos;
use crate::text::{owned, str_eq};

verus! {

/// What a notification is about.
#[derive(Clone, Debug, PartialEq, Eq, Structural)]
pub enum NotificationType {
    FollowedUserPosted,
    PostCommented,
    CommentReplied,
    PostLiked,
    CommentLiked,
    Announcement,
    AdminMessage,
}

/// A notification. Identifiers are UUID values; times are Unix timestamps in
/// nanoseconds.
#[derive(Clone, Debug, PartialEq, Eq)]
pub struct Notification {
    pub notification_id: u128,
    pub recipient_id: u128,
    pub actor_id: Option<u128>,
    pub notification_type: NotificationType,
    pub title: String,
    pub body: String,
    pub read_at: Option<i128>,
    pub created_at: i128,
}

/// A reader's notifications with the number still unread.
#[derive(Clone, Debug, PartialEq, Eq)]
pub struct NotificationCenter {
    pub recipient_id: u128,
    pub unread_count: usize,
    pub items: Vec<Notification>,
}

/// A notification as pushed to a connected reader.
#[derive(Clone, Debug, PartialEq, Eq)]
pub struct NotificationPush {
    pub push_id: u128,
    pub notification_id: u128,
    pub recipient_id: u128,
    pub actor_id: Option<u128>,
    pub notification_type: NotificationType,
    pub title: String,
    pub body: String,
    pub created_at: i128,
}

/// The push of a notification under a push identifier: the notification's fields carried
/// over.
pub open spec fn push_of(push_id: u128, n: Notification) -> NotificationPush {
    NotificationPush {
        push_id,
        notification_id: n.notification_id,
        recipient_id: n.recipient_id,
        actor_id: n.actor_id,
        notification_type: n.notification_type,
        title: n.title,
        body: n.body,
        created_at: n.created_at,
    }
}

impl From<(u128, Notification)> for NotificationPush {
    fn from(pair: (u128, Notification)) -> (r: NotificationPush) {
        let (push_id, notification) = pair;
        NotificationPush {
            push_id,
            notification_id: notification.notification_id,
            recipient_id: notification.recipient_id,
            actor_id: notification.actor_id,
            notification_type: notification.notification_type,
            title: notification.title,
            body: notification.body,
            created_at: notification.created_at,
        }
    }
}

impl FromSpecImpl<(u128, Notification)> for NotificationPush {
    open spec fn obeys_from_spec() -> bool {
        true
    }

    open spec fn from_spec(pair: (u128, Notification)) -> NotificationPush {
        push_of(pair.0, pair.1)
    }
}

/// The connections and pending pushes of a reader.
#[derive(Clone, Debug, PartialEq, Eq, Structural)]
pub struct NotificationConnectionStats {
    pub user_id: u128,
    pub online_connections: usize,
    pub pending_push_count: usize,
}

/// A request to mark notifications read.
#[derive(Clone, Debug, PartialEq, Eq, Structural)]
pub struct NotificationReadRequest {
    pub user_id: Option<u128>,
}

/// The acknowledgement of a push.
#[derive(Clone, Debug, PartialEq, Eq, Structural)]
pub struct NotificationPushAckRequest {
    pub user_id: Option<u128>,
    pub push_id: u128,
}

/// The number of unread notifications.
#[derive(Clone, Debug, PartialEq, Eq, Structural)]
pub struct UnreadCount {
    pub unread_count: usize,
}

/// The number of notifications not yet read.
pub open spec fn unread_in(items: Seq<Notification>) -> nat
    decreases items.len(),
{
    if items.len() == 0 {
        0
    } else {
        unread_in(items.drop_last()) + if items.last().read_at is None {
            1nat
        } else {
            0nat
        }
    }
}

/// A notification center never counts more unread notifications than it holds.
pub proof fn law_unread_at_most_all(items: Seq<Notification>)
    ensures
        unread_in(items) <= items.len(),
    decreases items.len(),
{
    if items.len() > 0 {
        law_unread_at_most_all(items.drop_last());
    }
}

/// The number of notifications whose `read_at` is absent.
pub fn unread_count(items: &[Notification]) -> (n: usize)
    ensures
        n == unread_in(items@),
{
    let mut n: usize = 0;
    let mut i: usize = 0;
    while i < items.len()
        invariant
            i <= items@.len(),
            n == unread_in(items@.take(i as int)),
        decreases items@.len() - i,
    {
        proof {
            assert(items@.take(i + 1).drop_last() =~= items@.take(i as int));
            law_unread_at_most_all(items@.take(i as int));
        }
        if items[i].read_at.is_none() {
            n = n + 1;
        }
        i = i + 1;
    }
    assert(items@.take(items@.len() as int) =~= items@);
    n
}

/// The demonstration center of reader 1: a comment notification from user 3, unread, and
/// a read announcement, both created at the same moment; one is unread.
pub open spec fn demo_center_ok(c: NotificationCenter) -> bool {
    let a = c.items@[0];
    let b = c.items@[1];
    &&& c.recipient_id == 1
    &&& c.unread_count == 1
    &&& c.items@.len() == 2
    &&& a.notification_id == 9001 && a.recipient_id == 1 && a.actor_id == Some(3u128)
    &&& a.notification_type == NotificationType::PostCommented
    &&& a.title@ == "wangxy 评论了你的帖子"@
    &&& a.body@ == "在 server function 中使用 SQLx 事务的最佳实践有新评论。"@
    &&& a.read_at is None
    &&& b.notification_id == 9002 && b.recipient_id == 1 && b.actor_id is None
    &&& b.notification_type == NotificationType::Announcement
    &&& b.title@ == "论坛升级与搜索增强说明"@
    &&& b.body@ == "搜索结果页已支持关键词高亮和筛选。"@
    &&& b.read_at == Some(b.created_at)
    &&& a.created_at == b.created_at
}

/// The demonstration notification center, stamped with the current time.
pub fn notification_demo_center() -> (r: NotificationCenter)
    ensures
        demo_center_ok(r),
{
    let recipient_id: u128 = 1;
    let now = now_unix_nanos();
    let mut items: Vec<Notification> = Vec::new();
    items.push(
        Notification {
            notification_id: 9001,
            recipient_id,
            actor_id: Some(3),
            notification_type: NotificationType::PostCommented,
            title: owned("wangxy 评论了你的帖子"),
            body: owned("在 server function 中使用 SQLx 事务的最佳实践有新评论。"),
            read_at: None,
            created_at: now,
        },
    );
    items.push(
        Notification {
            notification_id: 9002,
            recipient_id,
            actor_id: None,
            notification_type: NotificationType::Announcement,
            title: owned("论坛升级与搜索增强说明"),
            body: owned("搜索结果页已支持关键词高亮和筛选。"),
            read_at: Some(now),
            created_at: now,
        },
    );
    let unread = unread_count(items.as_slice());
    proof {
        let s = items@;
        assert(s.drop_last().drop_last() =~= Seq::<Notification>::empty());
        assert(unread_in(s.drop_last().drop_last()) == 0);
        assert(s.drop_last().last() == s[0]);
        assert(unread_in(s.drop_last()) == 1);
    }
    NotificationCenter { recipient_id, unread_count: unread, items }
}

/// The stored text of a notification kind.
pub open spec fn notification_type_text(t: NotificationType) -> Seq<char> {
    match t {
        NotificationType::FollowedUserPosted => "followed_user_posted"@,
        NotificationType::PostCommented => "post_commented"@,
        NotificationType::CommentReplied => "comment_replied"@,
        NotificationType::PostLiked => "post_liked"@,
        NotificationType::CommentLiked => "comment_liked"@,
        NotificationType::Announcement => "announcement"@,
        NotificationType::AdminMessage => "admin_message"@,
    }
}

/// The kind of a stored text; anything unknown is a comment notification.
pub open spec fn notification_type_of(s: Seq<char>) -> NotificationType {
    if s == "followed_user_posted"@ {
        NotificationType::FollowedUserPosted
    } else if s == "comment_replied"@ {
        NotificationType::CommentReplied
    } else if s == "post_liked"@ {
        NotificationType::PostLiked
    } else if s == "comment_liked"@ {
        NotificationType::CommentLiked
    } else if s == "announcement"@ {
        NotificationType::Announcement
    } else if s == "admin_message"@ {
        NotificationType::AdminMessage
    } else {
        NotificationType::PostCommented
    }
}

/// The stored text of a notification kind (see `notification_type_text`).
pub fn notification_type_as_str(notification_type: &NotificationType) -> (r: &'static str)
    ensures
        r@ == notification_type_text(*notification_type),
{
    match notification_type {
        NotificationType::FollowedUserPosted => "followed_user_posted",
        NotificationType::PostCommented => "post_commented",
        NotificationType::CommentReplied => "comment_replied",
        NotificationType::PostLiked => "post_liked",
        NotificationType::CommentLiked => "comment_liked",
        NotificationType::Announcement => "announcement",
        NotificationType::AdminMessage => "admin_message",
    }
}

/// The notification kind of a stored text (see `notification_type_of`).
pub fn notification_type_from_str(notification_type: &str) -> (r: NotificationType)
    ensures
        r == notification_type_of(notification_type@),
{
    if str_eq(notification_type, "followed_user_posted") {
        NotificationType::FollowedUserPosted
    } else if str_eq(notification_type, "comment_replied") {
        NotificationType::CommentReplied
    } else if str_eq(notification_type, "post_liked") {
        NotificationType::PostLiked
    } else if str_eq(notification_type, "comment_liked") {
        NotificationType::CommentLiked
    } else if str_eq(notification_type, "announcement") {
        NotificationType::Announcement
    } else if str_eq(notification_type, "admin_message") {
        NotificationType::AdminMessage
    } else {
        NotificationType::PostCommented
    }
}

/// Storing a notification kind and reading it back gives the same kind.
pub proof fn law_notification_type_round_trip(t: NotificationType)
    ensures
        notification_type_of(notification_type_text(t)) == t,
{
    reveal_strlit("followed_user_posted");
    reveal_strlit("post_commented");
    reveal_strlit("comment_replied");
    reveal_strlit("post_liked");
    reveal_strlit("comment_liked");
    reveal_strlit("announcement");
    reveal_strlit("admin_message");
    assert("followed_user_posted"@.len() == 20 && "post_commented"@.len() == 14
        && "comment_replied"@.len() == 15 && "post_liked"@.len() == 10);
    assert("comment_liked"@.len() == 13 && "announcement"@.len() == 12 && "admin_message"@.len()
        == 13);
    assert("comment_liked"@[0] != "admin_message"@[0]);
}

/// The label shown beside a notification for its kind.
pub open spec fn notification_type_label_of(t: NotificationType) -> Seq<char> {
    match t {
        NotificationType::FollowedUserPosted => "关注动态"@,
        NotificationType::PostCommented => "帖子评论"@,
        NotificationType::CommentReplied => "评论回复"@,
        NotificationType::PostLiked => "帖子点赞"@,
        NotificationType::CommentLiked => "评论点赞"@,
        NotificationType::Announcement => "系统公告"@,
        NotificationType::AdminMessage => "管理员通知"@,
    }
}

/// The label shown beside a notification for its kind.
pub fn notification_type_label(t: NotificationType) -> (r: &'static str)
    ensures
        r@ == notification_type_label_of(t),
{
    match t {
        NotificationType::FollowedUserPosted => "关注动态",
        NotificationType::PostCommented => "帖子评论",
        NotificationType::CommentReplied => "评论回复",
        NotificationType::PostLiked => "帖子点赞",
        NotificationType::CommentLiked => "评论点赞",
        NotificationType::Announcement => "系统公告",
        NotificationType::AdminMessage => "管理员通知",
    }
}

/// A stored notification row.
#[derive(Clone, Debug, PartialEq, Eq)]
pub struct NotificationRow {
    pub notification_id: u128,
    pub recipient_id: u128,
    pub actor_id: Option<u128>,
    pub notification_type: String,
    pub title: String,
    pub body: String,
    pub read_at: Option<i128>,
    pub created_at: i128,
}

/// The notification of a stored row: the kind's text becomes a kind.
pub open spec fn notification_of_row(row: NotificationRow) -> Notification {
    Notification {
        notification_id: row.notification_id,
        recipient_id: row.recipient_id,
        actor_id: row.actor_id,
        notification_type: notification_type_of(row.notification_type@),
        title: row.title,
        body: row.body,
        read_at: row.read_at,
        created_at: row.created_at,
    }
}

impl From<NotificationRow> for Notification {
    fn from(row: NotificationRow) -> (r: Notification) {
        let notification_type = notification_type_from_str(row.notification_type.as_str());
        Notification {
            notification_id: row.notification_id,
            recipient_id: row.recipient_id,
            actor_id: row.actor_id,
            notification_type,
            title: row.title,
            body: row.body,
            read_at: row.read_at,
            created_at: row.created_at,
        }
    }
}

impl FromSpecImpl<NotificationRow> for Notification {
    open spec fn obeys_from_spec() -> bool {
        true
    }

    open spec fn from_spec(row: NotificationRow) -> Notification {
        notification_of_row(row)
    }
}

/// The notification center of a reader from the stored rows of their notifications
/// (newest first, as stored): each row becomes its notification, in order, and the unread
/// ones are counted.
pub fn notification_center_from_rows(user_id: u128, rows: Vec<NotificationRow>) -> (r: NotificationCenter)
    ensures
        r.recipient_id == user_id,
        r.items@ == rows@.map_values(|row: NotificationRow| notification_of_row(row)),
        r.unread_count == unread_in(r.items@),
{
    let ghost all = rows@;
    let mut rest = rows;
    let mut items: Vec<Notification> = Vec::new();
    let mut i: usize = 0;
    let n: usize = rest.len();
    while rest.len() > 0
        invariant
            n == all.len(),
            i <= all.len(),
            rest@ == all.subrange(i as int, all.len() as int),
            items@ == all.take(i as int).map_values(|row: NotificationRow| notification_of_row(row)),
        decreases rest@.len(),
    {
        let row = rest.remove(0);
        assert(row == all[i as int]);
        assert(rest@ =~= all.subrange(i + 1, all.len() as int));
        items.push(Notification::from(row));
        i = i + 1;
        assert(items@ =~= all.take(i as int).map_values(|row: NotificationRow| notification_of_row(row)));
    }
    assert(all.take(i as int) =~= all);
    let unread = unread_count(items.as_slice());
    NotificationCenter { recipient_id: user_id, unread_count: unread, items }
}

} // verus!
