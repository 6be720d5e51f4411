//! What moderators see of posts and comments, and the actions they take.
use vstd::prelude::*;
use vstd::std_specs::convert::FromSpecImpl;

use crate::posts::{post_status_from_str, post_status_of, PostStatus};

verus! {

/// A post in the moderation list. Times are Unix timestamps in nanoseconds.
#[derive(Clone, Debug, PartialEq, Eq)]
pub struct ModerationPostRow {
    pub post_id: u128,
    pub title: String,
    pub author_name: String,
    pub category_name: Option<String>,
    pub status: PostStatus,
    pub pinned: bool,
    pub recommended: bool,
    pub locked: bool,
    pub comment_count: i64,
    pub view_count: i64,
    pub updated_at: Option<i128>,
}

/// A comment in the moderation list.
#[derive(Clone, Debug, PartialEq, Eq)]
pub struct ModerationCommentRow {
    pub comment_id: u128,
    pub post_id: u128,
    pub post_title: String,
    pub author_name: String,
    pub content: String,
    pub deleted: bool,
    pub created_at: i128,
}

/// The state of a post after a moderation action.
#[derive(Clone, Debug, PartialEq, Eq, Structural)]
pub struct ModerationPostAction {
    pub post_id: u128,
    pub status: PostStatus,
    pub pinned: bool,
    pub recommended: bool,
    pub locked: bool,
}

/// The state of a comment after a moderation action.
#[derive(Clone, Debug, PartialEq, Eq, Structural)]
pub struct ModerationCommentAction {
    pub comment_id: u128,
    pub post_id: u128,
    pub deleted: bool,
}

/// A stored post row of the moderation list.
#[derive(Clone, Debug, PartialEq, Eq)]
pub struct ModerationPostDbRow {
    pub post_id: u128,
    pub title: String,
    pub author_name: String,
    pub category_name: Option<String>,
    pub status: String,
    pub pinned: bool,
    pub comment_count: i64,
    pub view_count: i64,
    pub updated_at: Option<i128>,
}

/// The listed post of a stored row; the row carries no recommendation or lock flag, so
/// both read as unset.
pub open spec fn moderation_post_of(row: ModerationPostDbRow) -> ModerationPostRow {
    ModerationPostRow {
        post_id: row.post_id,
        title: row.title,
        author_name: row.author_name,
        category_name: row.category_name,
        status: post_status_of(row.status@),
        pinned: row.pinned,
        recommended: false,
        locked: false,
        comment_count: row.comment_count,
        view_count: row.view_count,
        updated_at: row.updated_at,
    }
}

impl From<ModerationPostDbRow> for ModerationPostRow {
    fn from(row: ModerationPostDbRow) -> (r: ModerationPostRow) {
        let status = post_status_from_str(row.status.as_str());
        ModerationPostRow {
            post_id: row.post_id,
            title: row.title,
            author_name: row.author_name,
            category_name: row.category_name,
            status,
            pinned: row.pinned,
            recommended: false,
            locked: false,
            comment_count: row.comment_count,
            view_count: row.view_count,
            updated_at: row.updated_at,
        }
    }
}

impl FromSpecImpl<ModerationPostDbRow> for ModerationPostRow {
    open spec fn obeys_from_spec() -> bool {
        true
    }

    open spec fn from_spec(row: ModerationPostDbRow) -> ModerationPostRow {
        moderation_post_of(row)
    }
}

/// The stored state of a post after an action.
#[derive(Clone, Debug, PartialEq, Eq)]
pub struct ModerationPostActionRow {
    pub post_id: u128,
    pub status: String,
    pub pinned: bool,
}

/// The action result of a stored row; recommendation and lock read as unset.
pub open spec fn post_action_of(row: ModerationPostActionRow) -> ModerationPostAction {
    ModerationPostAction {
        post_id: row.post_id,
        status: post_status_of(row.status@),
        pinned: row.pinned,
        recommended: false,
        locked: false,
    }
}

impl From<ModerationPostActionRow> for ModerationPostAction {
    fn from(row: ModerationPostActionRow) -> (r: ModerationPostAction) {
        ModerationPostAction {
            post_id: row.post_id,
            status: post_status_from_str(row.status.as_str()),
            pinned: row.pinned,
            recommended: false,
            locked: false,
        }
    }
}

impl FromSpecImpl<ModerationPostActionRow> for ModerationPostAction {
    open spec fn obeys_from_spec() -> bool {
        true
    }

    open spec fn from_spec(row: ModerationPostActionRow) -> ModerationPostAction {
        post_action_of(row)
    }
}

/// A stored comment row of the moderation list.
#[derive(Clone, Debug, PartialEq, Eq)]
pub struct ModerationCommentDbRow {
    pub comment_id: u128,
    pub post_id: u128,
    pub post_title: String,
    pub author_name: String,
    pub content: String,
    pub deleted: bool,
    pub created_at: i128,
}

/// The listed comment of a stored row: every field carried over.
pub open spec fn moderation_comment_of(row: ModerationCommentDbRow) -> ModerationCommentRow {
    ModerationCommentRow {
        comment_id: row.comment_id,
        post_id: row.post_id,
        post_title: row.post_title,
        author_name: row.author_name,
        content: row.content,
        deleted: row.deleted,
        created_at: row.created_at,
    }
}

impl From<ModerationCommentDbRow> for ModerationCommentRow {
    fn from(row: ModerationCommentDbRow) -> (r: ModerationCommentRow) {
        ModerationCommentRow {
            comment_id: row.comment_id,
            post_id: row.post_id,
            post_title: row.post_title,
            author_name: row.author_name,
            content: row.content,
            deleted: row.deleted,
            created_at: row.created_at,
        }
    }
}

impl FromSpecImpl<ModerationCommentDbRow> for ModerationCommentRow {
    open spec fn obeys_from_spec() -> bool {
        true
    }

    open spec fn from_spec(row: ModerationCommentDbRow) -> ModerationCommentRow {
        moderation_comment_of(row)
    }
}

/// Writing moderation actions to storage.
pub struct PostgresModerationRepository;

} // verus!
