//! The pages and endpoints the forum serves, and the texts its front page is checked
//! against.
use vstd::prelude::*;

verus! {

/// The primary page routes, in menu order.
pub open spec fn primary_route_list() -> Seq<Seq<char>> {
    seq![
        "/"@,
        "/search"@,
        "/notifications"@,
        "/users/sample"@,
        "/me"@,
        "/me/posts"@,
        "/me/drafts"@,
        "/me/comments"@,
        "/me/favorites"@,
        "/me/following"@,
        "/me/followers"@,
        "/posts/new"@,
        "/posts/sample/edit"@,
        "/login"@,
        "/register"@,
        "/admin"@,
    ]
}

/// The primary page routes (see `primary_route_list`).
pub fn primary_routes() -> (r: Vec<&'static str>)
    ensures
        r@.map_values(|t: &str| t@) == primary_route_list(),
{
    let routes: [&'static str; 16] = [
        "/",
        "/search",
        "/notifications",
        "/users/sample",
        "/me",
        "/me/posts",
        "/me/drafts",
        "/me/comments",
        "/me/favorites",
        "/me/following",
        "/me/followers",
        "/posts/new",
        "/posts/sample/edit",
        "/login",
        "/register",
        "/admin",
    ];
    let mut v: Vec<&'static str> = Vec::new();
    let mut i: usize = 0;
    while i < routes.len()
        invariant
            i <= routes@.len(),
            v@ == routes@.take(i as int),
        decreases routes@.len() - i,
    {
        v.push(routes[i]);
        i = i + 1;
        assert(v@ =~= routes@.take(i as int));
    }
    assert(routes@.take(i as int) =~= routes@);
    assert(v@.map_values(|t: &str| t@) =~= primary_route_list());
    v
}

/// The HTTP and WebSocket endpoints, with their path parameters in braces.
pub open spec fn api_route_list() -> Seq<Seq<char>> {
    seq![
        "/api/home"@,
        "/api/categories"@,
        "/api/tags"@,
        "/api/announcements"@,
        "/api/announcements/{announcement_id}/read"@,
        "/api/admin/dashboard"@,
        "/api/admin/categories"@,
        "/api/admin/categories/{category_id}/update"@,
        "/api/admin/categories/{category_id}/disable"@,
        "/api/admin/tags"@,
        "/api/admin/tags/{tag_id}/update"@,
        "/api/admin/tags/{tag_id}/merge"@,
        "/api/admin/tags/{tag_id}/delete"@,
        "/api/admin/posts"@,
        "/api/admin/posts/{post_id}/offline"@,
        "/api/admin/posts/{post_id}/restore"@,
        "/api/admin/posts/{post_id}/delete"@,
        "/api/admin/posts/{post_id}/pin"@,
        "/api/admin/posts/{post_id}/unpin"@,
        "/api/admin/comments"@,
        "/api/admin/comments/{comment_id}/delete"@,
        "/api/admin/comments/{comment_id}/recover"@,
        "/api/admin/users"@,
        "/api/admin/users/{user_id}/disable"@,
        "/api/admin/users/{user_id}/enable"@,
        "/api/admin/users/{user_id}/roles"@,
        "/api/admin/roles"@,
        "/api/admin/roles/{role_code}/update"@,
        "/api/admin/roles/{role_code}/delete"@,
        "/api/admin/permissions"@,
        "/api/admin/audit-logs"@,
        "/api/admin/announcements"@,
        "/api/admin/announcements/{announcement_id}/publish"@,
        "/api/admin/announcements/{announcement_id}/withdraw"@,
        "/api/admin/reports"@,
        "/api/admin/reports/{report_id}/handle"@,
        "/api/files"@,
        "/api/files/binary"@,
        "/api/login"@,
        "/api/register"@,
        "/api/logout"@,
        "/api/session/{session_id}"@,
        "/api/notifications"@,
        "/ws/notifications/{user_id}"@,
        "/api/notifications/online"@,
        "/api/notifications/pending-pushes"@,
        "/api/notifications/pending-pushes/{push_id}/ack"@,
        "/api/notifications/{notification_id}/read"@,
        "/api/notifications/read-all"@,
        "/api/posts/drafts/autosave"@,
        "/api/posts"@,
        "/api/search"@,
        "/api/posts/{post_id}"@,
        "/api/posts/{post_id}/update"@,
        "/api/posts/{post_id}/delete"@,
        "/api/posts/{post_id}/comments"@,
        "/api/comments/{comment_id}/delete"@,
        "/api/comments/{comment_id}/like"@,
        "/api/comments/{comment_id}/report"@,
        "/api/posts/{post_id}/like"@,
        "/api/posts/{post_id}/favorite"@,
        "/api/reports"@,
        "/api/users/{user_id}/profile"@,
        "/api/users/{user_id}/avatar"@,
        "/api/users/{user_id}/password"@,
        "/api/users/{user_id}/follow"@,
        "/api/users/{user_id}/space"@,
    ]
}

/// The HTTP and WebSocket endpoints (see `api_route_list`).
pub fn api_route_inventory() -> (r: Vec<&'static str>)
    ensures
        r@.map_values(|t: &str| t@) == api_route_list(),
{
    let routes: [&'static str; 67] = [
        "/api/home",
        "/api/categories",
        "/api/tags",
        "/api/announcements",
        "/api/announcements/{announcement_id}/read",
        "/api/admin/dashboard",
        "/api/admin/categories",
        "/api/admin/categories/{category_id}/update",
        "/api/admin/categories/{category_id}/disable",
        "/api/admin/tags",
        "/api/admin/tags/{tag_id}/update",
        "/api/admin/tags/{tag_id}/merge",
        "/api/admin/tags/{tag_id}/delete",
        "/api/admin/posts",
        "/api/admin/posts/{post_id}/offline",
        "/api/admin/posts/{post_id}/restore",
        "/api/admin/posts/{post_id}/delete",
        "/api/admin/posts/{post_id}/pin",
        "/api/admin/posts/{post_id}/unpin",
        "/api/admin/comments",
        "/api/admin/comments/{comment_id}/delete",
        "/api/admin/comments/{comment_id}/recover",
        "/api/admin/users",
        "/api/admin/users/{user_id}/disable",
        "/api/admin/users/{user_id}/enable",
        "/api/admin/users/{user_id}/roles",
        "/api/admin/roles",
        "/api/admin/roles/{role_code}/update",
        "/api/admin/roles/{role_code}/delete",
        "/api/admin/permissions",
        "/api/admin/audit-logs",
        "/api/admin/announcements",
        "/api/admin/announcements/{announcement_id}/publish",
        "/api/admin/announcements/{announcement_id}/withdraw",
        "/api/admin/reports",
        "/api/admin/reports/{report_id}/handle",
        "/api/files",
        "/api/files/binary",
        "/api/login",
        "/api/register",
        "/api/logout",
        "/api/session/{session_id}",
        "/api/notifications",
        "/ws/notifications/{user_id}",
        "/api/notifications/online",
        "/api/notifications/pending-pushes",
        "/api/notifications/pending-pushes/{push_id}/ack",
        "/api/notifications/{notification_id}/read",
        "/api/notifications/read-all",
        "/api/posts/drafts/autosave",
        "/api/posts",
        "/api/search",
        "/api/posts/{post_id}",
        "/api/posts/{post_id}/update",
        "/api/posts/{post_id}/delete",
        "/api/posts/{post_id}/comments",
        "/api/comments/{comment_id}/delete",
        "/api/comments/{comment_id}/like",
        "/api/comments/{comment_id}/report",
        "/api/posts/{post_id}/like",
        "/api/posts/{post_id}/favorite",
        "/api/reports",
        "/api/users/{user_id}/profile",
        "/api/users/{user_id}/avatar",
        "/api/users/{user_id}/password",
        "/api/users/{user_id}/follow",
        "/api/users/{user_id}/space",
    ];
    let mut v: Vec<&'static str> = Vec::new();
    let mut i: usize = 0;
    while i < routes.len()
        invariant
            i <= routes@.len(),
            v@ == routes@.take(i as int),
        decreases routes@.len() - i,
    {
        v.push(routes[i]);
        i = i + 1;
        assert(v@ =~= routes@.take(i as int));
    }
    assert(routes@.take(i as int) =~= routes@);
    assert(v@.map_values(|t: &str| t@) =~= api_route_list());
    v
}

/// The words the front page shows.
pub fn home_seed_text() -> (r: &'static str)
    ensures
        r@ == HOME_SEED_TEXT@,
{
    HOME_SEED_TEXT
}

/// The features the interface offers.
pub fn ui_feature_inventory() -> (r: &'static str)
    ensures
        r@ == UI_FEATURES@,
{
    UI_FEATURES
}

/// The words the front page shows.
pub const HOME_SEED_TEXT: &'static str = "Post Forum 首页 帖子 标签 用户 文档 活动 搜索帖子、标签、用户... 发布帖子 管理后台 管理端 通知 登录 推荐 最新 热门 未回复 关注 所有分类 所有标签 所有时间 主题 分类 标签 回复 查看 最后回复 显示 1-12 / 342 个主题 热门标签 公告 活跃作者 评论";

/// The features the interface offers.
pub const UI_FEATURES: &'static str = "关注动态 分类过滤 标签过滤 分页 Markdown 编辑 图片上传 MIME 类型 文件大小 Markdown 图片链接 实时预览 代码高亮 自动保存 点赞 收藏 关注作者 举报 回复评论 相关推荐 WebSocket 推送 消息中心 全部已读 全文搜索 搜索高亮 个人主页 草稿 RustFS NATS Elasticsearch RBAC 用户管理 角色管理 权限管理 帖子管理 评论管理 分类管理 标签管理 公告推送 举报处理 审计日志 系统统计";

} // verus!
