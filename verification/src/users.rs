//! User spaces: profiles, counters, and the requests that change a profile.
use vstd::prelude::*;
use vstd::std_specs::convert::FromSpecImpl;

use crate::posts::PostSummary;

verus! {

/// A user's public space as a visitor sees it.
#[derive(Clone, Debug, PartialEq, Eq)]
pub struct UserSpace {
    pub profile: UserProfile,
    pub stats: UserStats,
    pub is_me: bool,
    pub followed_by_viewer: bool,
    pub published_posts: Vec<PostSummary>,
    pub draft_posts: Vec<PostSummary>,
    pub comments: Vec<UserCommentItem>,
    pub favorite_posts: Vec<PostSummary>,
    pub following: Vec<UserProfile>,
    pub followers: Vec<UserProfile>,
}

/// The posts listed on a user space: on one's own space the published posts, then the
/// drafts, then the favourites; on someone else's, the published posts only.
pub fn space_posts(space: UserSpace, route_is_me: bool) -> (r: Vec<PostSummary>)
    ensures
        r@ == if route_is_me {
            space.published_posts@ + space.draft_posts@ + space.favorite_posts@
        } else {
            space.published_posts@
        },
{
    let mut posts = space.published_posts;
    if route_is_me {
        let mut drafts = space.draft_posts;
        let mut favorites = space.favorite_posts;
        posts.append(&mut drafts);
        posts.append(&mut favorites);
    }
    posts
}

/// A user's profile. Times are Unix timestamps in nanoseconds.
#[derive(Clone, Debug, PartialEq, Eq)]
pub struct UserProfile {
    pub user_id: u128,
    pub username: String,
    pub nickname: String,
    pub avatar_url: Option<String>,
    pub bio: String,
    pub registered_at: i128,
}

/// A user's counters.
#[derive(Clone, Debug, PartialEq, Eq, Structural)]
pub struct UserStats {
    pub following: usize,
    pub followers: usize,
    pub published_posts: usize,
    pub received_likes: i64,
    pub received_favorites: i64,
}

impl Default for UserStats {
    fn default() -> (r: UserStats)
        ensures
            r == (UserStats {
                following: 0,
                followers: 0,
                published_posts: 0,
                received_likes: 0,
                received_favorites: 0,
            }),
    {
        UserStats {
            following: 0,
            followers: 0,
            published_posts: 0,
            received_likes: 0,
            received_favorites: 0,
        }
    }
}

/// A comment of the user, with the post it is on.
#[derive(Clone, Debug, PartialEq, Eq)]
pub struct UserCommentItem {
    pub post_id: u128,
    pub post_title: String,
    pub content: String,
    pub created_at: i128,
}

/// A request to change the nickname and the biography.
#[derive(Clone, Debug, PartialEq, Eq)]
pub struct UpdateProfileRequest {
    pub nickname: String,
    pub bio: String,
}

/// A request to change the avatar.
#[derive(Clone, Debug, PartialEq, Eq)]
pub struct UpdateAvatarRequest {
    pub avatar_url: String,
}

/// A request to change the password.
#[derive(Clone, Debug, PartialEq, Eq)]
pub struct ChangePasswordRequest {
    pub old_password: String,
    pub new_password: String,
}

/// A stored profile row.
#[derive(Clone, Debug, PartialEq, Eq)]
pub struct UserProfileRow {
    pub user_id: u128,
    pub username: String,
    pub nickname: String,
    pub avatar_url: Option<String>,
    pub bio: String,
    pub registered_at: i128,
}

/// The profile of a stored row: every field carried over.
pub open spec fn profile_of_row(row: UserProfileRow) -> UserProfile {
    UserProfile {
        user_id: row.user_id,
        username: row.username,
        nickname: row.nickname,
        avatar_url: row.avatar_url,
        bio: row.bio,
        registered_at: row.registered_at,
    }
}

impl From<UserProfileRow> for UserProfile {
    fn from(row: UserProfileRow) -> (r: UserProfile) {
        UserProfile {
            user_id: row.user_id,
            username: row.username,
            nickname: row.nickname,
            avatar_url: row.avatar_url,
            bio: row.bio,
            registered_at: row.registered_at,
        }
    }
}

impl FromSpecImpl<UserProfileRow> for UserProfile {
    open spec fn obeys_from_spec() -> bool {
        true
    }

    open spec fn from_spec(row: UserProfileRow) -> UserProfile {
        profile_of_row(row)
    }
}

/// A stored row of a post in a user's space.
#[derive(Clone, Debug, PartialEq, Eq)]
pub struct UserPostSummaryRow {
    pub post_id: u128,
    pub title: String,
    pub summary: String,
    pub author_id: u128,
    pub author_name: String,
    pub author_avatar_url: Option<String>,
    pub category_name: Option<String>,
    pub tags: Vec<String>,
    pub view_count: i64,
    pub comment_count: i64,
    pub like_count: i64,
    pub favorite_count: i64,
    pub published_at: Option<i128>,
}

/// The summary of a stored row: every field carried over.
pub open spec fn user_post_of_row(row: UserPostSummaryRow) -> PostSummary {
    PostSummary {
        post_id: row.post_id,
        title: row.title,
        summary: row.summary,
        author_id: row.author_id,
        author_name: row.author_name,
        author_avatar_url: row.author_avatar_url,
        category_name: row.category_name,
        tags: row.tags,
        view_count: row.view_count,
        comment_count: row.comment_count,
        like_count: row.like_count,
        favorite_count: row.favorite_count,
        published_at: row.published_at,
    }
}

impl From<UserPostSummaryRow> for PostSummary {
    fn from(row: UserPostSummaryRow) -> (r: PostSummary) {
        PostSummary {
            post_id: row.post_id,
            title: row.title,
            summary: row.summary,
            author_id: row.author_id,
            author_name: row.author_name,
            author_avatar_url: row.author_avatar_url,
            category_name: row.category_name,
            tags: row.tags,
            view_count: row.view_count,
            comment_count: row.comment_count,
            like_count: row.like_count,
            favorite_count: row.favorite_count,
            published_at: row.published_at,
        }
    }
}

impl FromSpecImpl<UserPostSummaryRow> for PostSummary {
    open spec fn obeys_from_spec() -> bool {
        true
    }

    open spec fn from_spec(row: UserPostSummaryRow) -> PostSummary {
        user_post_of_row(row)
    }
}

/// A stored row of a comment in a user's space.
#[derive(Clone, Debug, PartialEq, Eq)]
pub struct UserCommentRow {
    pub post_id: u128,
    pub post_title: String,
    pub content: String,
    pub created_at: i128,
}

/// The comment of a stored row: every field carried over.
pub open spec fn user_comment_of_row(row: UserCommentRow) -> UserCommentItem {
    UserCommentItem {
        post_id: row.post_id,
        post_title: row.post_title,
        content: row.content,
        created_at: row.created_at,
    }
}

impl From<UserCommentRow> for UserCommentItem {
    fn from(row: UserCommentRow) -> (r: UserCommentItem) {
        UserCommentItem {
            post_id: row.post_id,
            post_title: row.post_title,
            content: row.content,
            created_at: row.created_at,
        }
    }
}

impl FromSpecImpl<UserCommentRow> for UserCommentItem {
    open spec fn obeys_from_spec() -> bool {
        true
    }

    open spec fn from_spec(row: UserCommentRow) -> UserCommentItem {
        user_comment_of_row(row)
    }
}

/// Writing profile settings to storage.
pub struct PostgresUserSettingsRepository;

} // verus!
