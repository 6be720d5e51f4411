//! Forum events and the message subjects they are published under.
use vstd::prelude::*;

verus! {

/// Something that happened in the forum.
#[derive(Clone, Debug, PartialEq, Eq)]
pub enum ForumEvent {
    UserRegistered { user_id: u128, username: String },
    UserFollowed { follower_id: u128, followee_id: u128, following: bool },
    PostCreated { post_id: u128, author_id: u128, title: String },
    PostUpdated { post_id: u128, author_id: u128, title: String },
    PostDeleted { post_id: u128, actor_id: u128 },
    PostLiked { post_id: u128, user_id: u128, active: bool },
    PostCommented { post_id: u128, comment_id: u128, author_id: u128 },
    CommentReplied { post_id: u128, comment_id: u128, parent_comment_id: u128, author_id: u128 },
    AnnouncementPublished { announcement_id: u128, title: String },
    NotificationCreated { notification_id: u128, recipient_id: u128 },
    SearchPostIndex { post_id: u128, title: String, body: String, tags: Vec<String> },
    SearchPostDelete { post_id: u128 },
}

/// The subject of an event: its kind, written with dots.
pub open spec fn event_subject(e: ForumEvent) -> Seq<char> {
    match e {
        ForumEvent::UserRegistered { .. } => "user.registered"@,
        ForumEvent::UserFollowed { .. } => "user.followed"@,
        ForumEvent::PostCreated { .. } => "post.created"@,
        ForumEvent::PostUpdated { .. } => "post.updated"@,
        ForumEvent::PostDeleted { .. } => "post.deleted"@,
        ForumEvent::PostLiked { .. } => "post.liked"@,
        ForumEvent::PostCommented { .. } => "post.commented"@,
        ForumEvent::CommentReplied { .. } => "comment.replied"@,
        ForumEvent::AnnouncementPublished { .. } => "announcement.published"@,
        ForumEvent::NotificationCreated { .. } => "notification.created"@,
        ForumEvent::SearchPostIndex { .. } => "search.post.index"@,
        ForumEvent::SearchPostDelete { .. } => "search.post.delete"@,
    }
}

impl ForumEvent {
    /// The subject the event is published under (see `event_subject`).
    pub fn subject(&self) -> (r: &'static str)
        ensures
            r@ == event_subject(*self),
    {
        match self {
            ForumEvent::UserRegistered { .. } => "user.registered",
            ForumEvent::UserFollowed { .. } => "user.followed",
            ForumEvent::PostCreated { .. } => "post.created",
            ForumEvent::PostUpdated { .. } => "post.updated",
            ForumEvent::PostDeleted { .. } => "post.deleted",
            ForumEvent::PostLiked { .. } => "post.liked",
            ForumEvent::PostCommented { .. } => "post.commented",
            ForumEvent::CommentReplied { .. } => "comment.replied",
            ForumEvent::AnnouncementPublished { .. } => "announcement.published",
            ForumEvent::NotificationCreated { .. } => "notification.created",
            ForumEvent::SearchPostIndex { .. } => "search.post.index",
            ForumEvent::SearchPostDelete { .. } => "search.post.delete",
        }
    }
}

} // verus!
