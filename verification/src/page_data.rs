//! The pages shown while live data is unavailable.
use vstd::prelude::*;

use crate::admin::{admin_dashboard_demo, demo_dashboard_ok, AdminDashboard};
use crate::bridge::{now_unix_nanos, parse_uuid, uuid_parse};
use crate::comments::CommentNode;
use crate::home::{
    dense_workbench_home, filter_norm, home_topics, lower_opt, norm_page, norm_page_size,
    page_label, seed_active_authors_are, seed_announcements_are, seed_categories_are,
    seed_hot_tags_are, seed_topics, HomePageData, HomeQuery, HomeSort, HomeTab, HomeTimeRange,
    HomeTopic,
};
use crate::notifications::{demo_center_ok, notification_demo_center, NotificationCenter};
use crate::posts::{PostDetail, PostStatus, PostSummary};
use crate::text::{opt_view, owned};
use crate::users::{UserProfile, UserSpace, UserStats};

verus! {

/// A post with its comment threads.
#[derive(Debug, PartialEq, Eq)]
pub struct PostDetailPageData {
    pub post: PostDetail,
    pub comments: Vec<CommentNode>,
}

/// The home page shown to a visitor when the store cannot be read: the demonstration
/// workbench for the default query.
pub fn fallback_home_page() -> (r: HomePageData)
    ensures
        r.query.tab == HomeTab::Latest,
        r.query.time == HomeTimeRange::All,
        r.query.sort == HomeSort::LastReply,
        r.query.page == 1,
        r.query.page_size == 12,
        r.query.category is None,
        r.query.tag is None,
        !r.requires_login,
        exists|ts: Seq<HomeTopic>| #[trigger] seed_topics(ts) && r.topics@ == home_topics(ts, r.query),
        r.pagination.label@ == page_label(12),
        seed_categories_are(r.categories@),
        seed_hot_tags_are(r.hot_tags@),
        seed_announcements_are(r.announcements@),
        seed_active_authors_are(r.active_authors@),
{
    dense_workbench_home(HomeQuery::default(), false)
}

/// The fallback home page, showing the given query.
pub fn home_fallback_for_query(query: HomeQuery) -> (r: HomePageData)
    ensures
        r.query == query,
        !r.requires_login,
        seed_categories_are(r.categories@),
        seed_hot_tags_are(r.hot_tags@),
        seed_announcements_are(r.announcements@),
        seed_active_authors_are(r.active_authors@),
{
    let mut home = fallback_home_page();
    home.query = query;
    home
}

/// The dashboard shown when the store cannot be read.
pub fn fallback_admin_dashboard() -> (r: AdminDashboard)
    ensures
        demo_dashboard_ok(r),
{
    admin_dashboard_demo()
}

/// The notification center shown when the store cannot be read.
pub fn fallback_notifications_page() -> (r: NotificationCenter)
    ensures
        demo_center_ok(r),
{
    notification_demo_center()
}

/// The post page shown while a post loads: the sample post, under the requested
/// identifier where it reads as a UUID, with a placeholder body and no comments.
pub fn fallback_post_detail_page(post_id: String) -> (r: PostDetailPageData)
    ensures
        r.post.summary.post_id == (match uuid_parse(post_id@) {
            Ok(id) => id,
            Err(_) => 0u128,
        }),
        r.post.summary.title@ == "Rust 异步任务的边界设计"@,
        r.post.markdown@ == "内容加载中。"@,
        r.post.sanitized_html@ == "<p>内容加载中。</p>"@,
        r.post.status == PostStatus::Published,
        !r.post.liked_by_me && !r.post.favorited_by_me && !r.post.following_author,
        r.comments@.len() == 0,
{
    let mut summary = PostSummary::sample();
    if let Ok(id) = parse_uuid(post_id.as_str()) {
        summary.post_id = id;
    }
    PostDetailPageData {
        post: PostDetail {
            summary,
            markdown: owned("内容加载中。"),
            sanitized_html: owned("<p>内容加载中。</p>"),
            status: PostStatus::Published,
            liked_by_me: false,
            favorited_by_me: false,
            following_author: false,
        },
        comments: Vec::new(),
    }
}

/// The user space shown while a profile loads: a placeholder profile registered now, no
/// counters and empty lists.
pub fn fallback_user_space_page() -> (r: UserSpace)
    ensures
        r.profile.user_id == 0,
        r.profile.username@ == "loading"@,
        r.profile.nickname@ == "加载中"@,
        r.profile.avatar_url is None,
        r.profile.bio@ == "用户空间加载中。"@,
        r.stats == (UserStats {
            following: 0,
            followers: 0,
            published_posts: 0,
            received_likes: 0,
            received_favorites: 0,
        }),
        !r.is_me && !r.followed_by_viewer,
        r.published_posts@.len() == 0 && r.draft_posts@.len() == 0 && r.comments@.len() == 0,
        r.favorite_posts@.len() == 0 && r.following@.len() == 0 && r.followers@.len() == 0,
{
    let profile = UserProfile {
        user_id: 0,
        username: owned("loading"),
        nickname: owned("加载中"),
        avatar_url: None,
        bio: owned("用户空间加载中。"),
        registered_at: now_unix_nanos(),
    };
    UserSpace {
        profile,
        stats: UserStats::default(),
        is_me: false,
        followed_by_viewer: false,
        published_posts: Vec::new(),
        draft_posts: Vec::new(),
        comments: Vec::new(),
        favorite_posts: Vec::new(),
        following: Vec::new(),
        followers: Vec::new(),
    }
}

} // verus!
