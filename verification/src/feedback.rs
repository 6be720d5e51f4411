//! What a page says after an action: a headline for success or failure, and under it
//! what changed (the size of a refreshed list, a new state, the text written) or the
//! error's text.
use vstd::prelude::*;

use crate::admin::AdminDashboard;
use crate::auth::Session;
use crate::bridge::{string_from_chars, uuid_string, uuid_text};
use crate::comments::CommentNode;
use crate::notifications::NotificationCenter;
use crate::reactions::{FollowState, ToggleResult};
use crate::reports::ReportItem;
use crate::users::UserProfile;
use crate::files::FileAsset;
use crate::posts::{PostDetail, PostStatus};
use crate::text::{concat_str, dec, dec_int, extend, extend_str, i64_dec, owned, u64_dec};

verus! {

/// The message a panel shows once an action has finished.
#[derive(Clone, Debug, PartialEq, Eq)]
pub struct Feedback {
    /// Whether the action succeeded (shown in the success style) or failed.
    pub success: bool,
    /// The headline.
    pub title: String,
    /// The line under the headline.
    pub detail: String,
}

/// The line under a success headline: `当前 {count} {unit}`.
pub open spec fn count_line(count: nat, unit: Seq<char>) -> Seq<char> {
    "当前 "@ + dec(count) + " "@ + unit
}

/// What a panel shows for an action's result, given the two headlines, the size that
/// the refreshed dashboard reports for the panel's list, and the unit of that list.
pub open spec fn shows(
    r: Feedback,
    result: Result<AdminDashboard, String>,
    ok_title: Seq<char>,
    err_title: Seq<char>,
    count: nat,
    unit: Seq<char>,
) -> bool {
    match result {
        Ok(_) => r.success && r.title@ == ok_title && r.detail@ == count_line(count, unit),
        Err(e) => !r.success && r.title@ == err_title && r.detail@ == e@,
    }
}

fn count_text(count: usize, unit: &str) -> (s: String)
    ensures
        s@ == count_line(count as nat, unit@),
{
    let mut v: Vec<char> = Vec::new();
    extend_str(&mut v, "当前 ");
    let digits = u64_dec(count as u64);
    extend(&mut v, &digits);
    extend_str(&mut v, " ");
    extend_str(&mut v, unit);
    string_from_chars(&v)
}

fn outcome(
    result: &Result<AdminDashboard, String>,
    count: usize,
    ok_title: &str,
    err_title: &str,
    unit: &str,
) -> (r: Feedback)
    ensures
        shows(r, *result, ok_title@, err_title@, count as nat, unit@),
{
    match result {
        Ok(_) => Feedback { success: true, title: owned(ok_title), detail: count_text(count, unit) },
        Err(e) => Feedback { success: false, title: owned(err_title), detail: e.clone() },
    }
}

/// The number of rows that a successful result reports for one list, or zero for a failure.
pub open spec fn listed(result: Result<AdminDashboard, String>, len: spec_fn(AdminDashboard) -> nat) -> nat {
    match result {
        Ok(d) => len(d),
        Err(_) => 0,
    }
}

/// After a change of a user's roles: the number of users, or the error.
pub fn admin_user_roles_feedback(result: &Result<AdminDashboard, String>) -> (r: Feedback)
    ensures
        shows(r, *result, "用户角色更新成功"@, "用户角色更新失败"@,
            listed(*result, |d: AdminDashboard| d.users@.len()), "个用户"@),
{
    let n = match result { Ok(d) => d.users.len(), Err(_) => 0 };
    outcome(result, n, "用户角色更新成功", "用户角色更新失败", "个用户")
}

/// After a user is enabled or disabled: the number of users, or the error.
pub fn admin_user_status_feedback(result: &Result<AdminDashboard, String>) -> (r: Feedback)
    ensures
        shows(r, *result, "用户状态更新成功"@, "用户状态更新失败"@,
            listed(*result, |d: AdminDashboard| d.users@.len()), "个用户"@),
{
    let n = match result { Ok(d) => d.users.len(), Err(_) => 0 };
    outcome(result, n, "用户状态更新成功", "用户状态更新失败", "个用户")
}

/// After a post is taken down, restored, deleted, pinned or locked: the number of posts
/// under moderation, or the error.
pub fn admin_post_action_feedback(result: &Result<AdminDashboard, String>) -> (r: Feedback)
    ensures
        shows(r, *result, "帖子状态更新成功"@, "帖子状态更新失败"@,
            listed(*result, |d: AdminDashboard| d.moderation_posts@.len()), "篇帖子"@),
{
    let n = match result { Ok(d) => d.moderation_posts.len(), Err(_) => 0 };
    outcome(result, n, "帖子状态更新成功", "帖子状态更新失败", "篇帖子")
}

/// After a comment is deleted or recovered: the number of comments under moderation,
/// or the error.
pub fn admin_comment_action_feedback(result: &Result<AdminDashboard, String>) -> (r: Feedback)
    ensures
        shows(r, *result, "评论状态更新成功"@, "评论状态更新失败"@,
            listed(*result, |d: AdminDashboard| d.moderation_comments@.len()), "条评论"@),
{
    let n = match result { Ok(d) => d.moderation_comments.len(), Err(_) => 0 };
    outcome(result, n, "评论状态更新成功", "评论状态更新失败", "条评论")
}

/// After a role is created: the number of roles, or the error.
pub fn admin_role_create_feedback(result: &Result<AdminDashboard, String>) -> (r: Feedback)
    ensures
        shows(r, *result, "角色创建成功"@, "角色创建失败"@,
            listed(*result, |d: AdminDashboard| d.roles@.len()), "个角色"@),
{
    let n = match result { Ok(d) => d.roles.len(), Err(_) => 0 };
    outcome(result, n, "角色创建成功", "角色创建失败", "个角色")
}

/// After a role is changed: the number of roles, or the error.
pub fn admin_role_update_feedback(result: &Result<AdminDashboard, String>) -> (r: Feedback)
    ensures
        shows(r, *result, "角色更新成功"@, "角色更新失败"@,
            listed(*result, |d: AdminDashboard| d.roles@.len()), "个角色"@),
{
    let n = match result { Ok(d) => d.roles.len(), Err(_) => 0 };
    outcome(result, n, "角色更新成功", "角色更新失败", "个角色")
}

/// After a role is deleted: the number of roles, or the error.
pub fn admin_role_delete_feedback(result: &Result<AdminDashboard, String>) -> (r: Feedback)
    ensures
        shows(r, *result, "角色删除成功"@, "角色删除失败"@,
            listed(*result, |d: AdminDashboard| d.roles@.len()), "个角色"@),
{
    let n = match result { Ok(d) => d.roles.len(), Err(_) => 0 };
    outcome(result, n, "角色删除成功", "角色删除失败", "个角色")
}

/// After an announcement is published or withdrawn: the number of announcements, or
/// the error.
pub fn admin_announcement_action_feedback(result: &Result<AdminDashboard, String>) -> (r: Feedback)
    ensures
        shows(r, *result, "公告状态更新成功"@, "公告状态更新失败"@,
            listed(*result, |d: AdminDashboard| d.announcements@.len()), "条公告"@),
{
    let n = match result { Ok(d) => d.announcements.len(), Err(_) => 0 };
    outcome(result, n, "公告状态更新成功", "公告状态更新失败", "条公告")
}

/// After an announcement is created: the number of announcements, or the error.
pub fn admin_announcement_create_feedback(result: &Result<AdminDashboard, String>) -> (r: Feedback)
    ensures
        shows(r, *result, "公告创建成功"@, "公告创建失败"@,
            listed(*result, |d: AdminDashboard| d.announcements@.len()), "条公告"@),
{
    let n = match result { Ok(d) => d.announcements.len(), Err(_) => 0 };
    outcome(result, n, "公告创建成功", "公告创建失败", "条公告")
}

/// After an announcement is changed: the number of announcements, or the error.
pub fn admin_announcement_update_feedback(result: &Result<AdminDashboard, String>) -> (r: Feedback)
    ensures
        shows(r, *result, "公告更新成功"@, "公告更新失败"@,
            listed(*result, |d: AdminDashboard| d.announcements@.len()), "条公告"@),
{
    let n = match result { Ok(d) => d.announcements.len(), Err(_) => 0 };
    outcome(result, n, "公告更新成功", "公告更新失败", "条公告")
}

/// After an announcement is pushed to readers: the number of announcements, or the error.
pub fn admin_announcement_push_feedback(result: &Result<AdminDashboard, String>) -> (r: Feedback)
    ensures
        shows(r, *result, "公告推送成功"@, "公告推送失败"@,
            listed(*result, |d: AdminDashboard| d.announcements@.len()), "条公告"@),
{
    let n = match result { Ok(d) => d.announcements.len(), Err(_) => 0 };
    outcome(result, n, "公告推送成功", "公告推送失败", "条公告")
}

/// After a category is enabled or disabled: the number of categories, or the error.
pub fn admin_category_action_feedback(result: &Result<AdminDashboard, String>) -> (r: Feedback)
    ensures
        shows(r, *result, "分类状态更新成功"@, "分类状态更新失败"@,
            listed(*result, |d: AdminDashboard| d.categories@.len()), "个分类"@),
{
    let n = match result { Ok(d) => d.categories.len(), Err(_) => 0 };
    outcome(result, n, "分类状态更新成功", "分类状态更新失败", "个分类")
}

/// After a category is created: the number of categories, or the error.
pub fn admin_category_create_feedback(result: &Result<AdminDashboard, String>) -> (r: Feedback)
    ensures
        shows(r, *result, "分类创建成功"@, "分类创建失败"@,
            listed(*result, |d: AdminDashboard| d.categories@.len()), "个分类"@),
{
    let n = match result { Ok(d) => d.categories.len(), Err(_) => 0 };
    outcome(result, n, "分类创建成功", "分类创建失败", "个分类")
}

/// After a category is changed: the number of categories, or the error.
pub fn admin_category_update_feedback(result: &Result<AdminDashboard, String>) -> (r: Feedback)
    ensures
        shows(r, *result, "分类更新成功"@, "分类更新失败"@,
            listed(*result, |d: AdminDashboard| d.categories@.len()), "个分类"@),
{
    let n = match result { Ok(d) => d.categories.len(), Err(_) => 0 };
    outcome(result, n, "分类更新成功", "分类更新失败", "个分类")
}

/// After a tag is enabled or disabled: the number of tags, or the error.
pub fn admin_tag_action_feedback(result: &Result<AdminDashboard, String>) -> (r: Feedback)
    ensures
        shows(r, *result, "标签状态更新成功"@, "标签状态更新失败"@,
            listed(*result, |d: AdminDashboard| d.tags@.len()), "个标签"@),
{
    let n = match result { Ok(d) => d.tags.len(), Err(_) => 0 };
    outcome(result, n, "标签状态更新成功", "标签状态更新失败", "个标签")
}

/// After a tag is created: the number of tags, or the error.
pub fn admin_tag_create_feedback(result: &Result<AdminDashboard, String>) -> (r: Feedback)
    ensures
        shows(r, *result, "标签创建成功"@, "标签创建失败"@,
            listed(*result, |d: AdminDashboard| d.tags@.len()), "个标签"@),
{
    let n = match result { Ok(d) => d.tags.len(), Err(_) => 0 };
    outcome(result, n, "标签创建成功", "标签创建失败", "个标签")
}

/// After a tag is changed: the number of tags, or the error.
pub fn admin_tag_update_feedback(result: &Result<AdminDashboard, String>) -> (r: Feedback)
    ensures
        shows(r, *result, "标签更新成功"@, "标签更新失败"@,
            listed(*result, |d: AdminDashboard| d.tags@.len()), "个标签"@),
{
    let n = match result { Ok(d) => d.tags.len(), Err(_) => 0 };
    outcome(result, n, "标签更新成功", "标签更新失败", "个标签")
}

/// After two tags are merged: the number of tags, or the error.
pub fn admin_tag_merge_feedback(result: &Result<AdminDashboard, String>) -> (r: Feedback)
    ensures
        shows(r, *result, "标签合并成功"@, "标签合并失败"@,
            listed(*result, |d: AdminDashboard| d.tags@.len()), "个标签"@),
{
    let n = match result { Ok(d) => d.tags.len(), Err(_) => 0 };
    outcome(result, n, "标签合并成功", "标签合并失败", "个标签")
}

/// After a report is handled or rejected: the number of reports, or the error.
pub fn admin_report_action_feedback(result: &Result<AdminDashboard, String>) -> (r: Feedback)
    ensures
        shows(r, *result, "举报处理成功"@, "举报处理失败"@,
            listed(*result, |d: AdminDashboard| d.reports@.len()), "条举报"@),
{
    let n = match result { Ok(d) => d.reports.len(), Err(_) => 0 };
    outcome(result, n, "举报处理成功", "举报处理失败", "条举报")
}

/// Whether the result at `i` is a finished, successful action.
pub open spec fn succeeded(results: Seq<Option<Result<AdminDashboard, String>>>, i: int) -> bool {
    results[i] matches Some(Ok(_))
}

/// Which finished action's dashboard the page shows: the first, in the order given, that
/// succeeded; `None` when none did and the page keeps the dashboard it loaded with.
pub fn current_dashboard_index(results: &Vec<Option<Result<AdminDashboard, String>>>) -> (r: Option<usize>)
    ensures
        match r {
            Some(i) => i < results@.len() && succeeded(results@, i as int)
                && forall|j: int| 0 <= j < i ==> !succeeded(results@, j),
            None => forall|j: int| 0 <= j < results@.len() ==> !succeeded(results@, j),
        },
{
    let mut i: usize = 0;
    while i < results.len()
        invariant
            i <= results@.len(),
            forall|j: int| 0 <= j < i ==> !succeeded(results@, j),
        decreases results@.len() - i,
    {
        if let Some(Ok(_)) = &results[i] {
            return Some(i);
        }
        i = i + 1;
    }
    None
}

/// Which finished action a panel reports on: the first, in the order given, that has a
/// result at all; `None` while none has finished.
pub fn panel_result_index(results: &Vec<Option<Result<AdminDashboard, String>>>) -> (r: Option<usize>)
    ensures
        match r {
            Some(i) => i < results@.len() && results@[i as int] is Some
                && forall|j: int| 0 <= j < i ==> results@[j] is None,
            None => forall|j: int| 0 <= j < results@.len() ==> results@[j] is None,
        },
{
    let mut i: usize = 0;
    while i < results.len()
        invariant
            i <= results@.len(),
            forall|j: int| 0 <= j < i ==> results@[j] is None,
        decreases results@.len() - i,
    {
        if results[i].is_some() {
            return Some(i);
        }
        i = i + 1;
    }
    None
}

/// What a page shows for a result: on success the success headline and the given line,
/// on failure the failure headline and the error's text.
pub open spec fn shows_outcome<T>(
    r: Feedback,
    result: Result<T, String>,
    ok_title: Seq<char>,
    err_title: Seq<char>,
    ok_detail: Seq<char>,
) -> bool {
    match result {
        Ok(_) => r.success && r.title@ == ok_title && r.detail@ == ok_detail,
        Err(e) => !r.success && r.title@ == err_title && r.detail@ == e@,
    }
}

fn failure(title: &str, error: &String) -> (r: Feedback)
    ensures
        !r.success,
        r.title@ == title@,
        r.detail@ == error@,
{
    Feedback { success: false, title: owned(title), detail: error.clone() }
}

/// The line for a toggled reaction: its new state's label, ` · ` and the new count.
pub open spec fn toggle_line(active: bool, on: Seq<char>, off: Seq<char>, count: i64) -> Seq<char> {
    (if active { on } else { off }) + " · "@ + dec_int(count as int)
}

fn toggle_text(state: &ToggleResult, on: &str, off: &str) -> (s: String)
    ensures
        s@ == toggle_line(state.active, on@, off@, state.count),
{
    let mut v: Vec<char> = Vec::new();
    if state.active {
        extend_str(&mut v, on);
    } else {
        extend_str(&mut v, off);
    }
    extend_str(&mut v, " · ");
    let digits = i64_dec(state.count);
    extend(&mut v, &digits);
    string_from_chars(&v)
}

/// After liking or unliking a post: the new state and count, or the error.
pub fn post_like_feedback(result: &Result<ToggleResult, String>) -> (r: Feedback)
    ensures
        shows_outcome(r, *result, "点赞成功"@, "互动失败"@, match *result {
            Ok(s) => toggle_line(s.active, "已点赞"@, "已取消点赞"@, s.count),
            Err(_) => Seq::<char>::empty(),
        }),
{
    match result {
        Ok(s) => Feedback { success: true, title: owned("点赞成功"), detail: toggle_text(s, "已点赞", "已取消点赞") },
        Err(e) => failure("互动失败", e),
    }
}

/// After adding or removing a favourite: the new state and count, or the error.
pub fn post_favorite_feedback(result: &Result<ToggleResult, String>) -> (r: Feedback)
    ensures
        shows_outcome(r, *result, "收藏成功"@, "互动失败"@, match *result {
            Ok(s) => toggle_line(s.active, "已收藏"@, "已取消收藏"@, s.count),
            Err(_) => Seq::<char>::empty(),
        }),
{
    match result {
        Ok(s) => Feedback { success: true, title: owned("收藏成功"), detail: toggle_text(s, "已收藏", "已取消收藏") },
        Err(e) => failure("互动失败", e),
    }
}

/// After following or unfollowing an author: the new state, or the error.
pub fn author_follow_feedback(result: &Result<FollowState, String>) -> (r: Feedback)
    ensures
        shows_outcome(r, *result, "关注成功"@, "互动失败"@, match *result {
            Ok(s) => if s.following { "已关注作者"@ } else { "已取消关注作者"@ },
            Err(_) => Seq::<char>::empty(),
        }),
{
    match result {
        Ok(s) => Feedback {
            success: true,
            title: owned("关注成功"),
            detail: if s.following { owned("已关注作者") } else { owned("已取消关注作者") },
        },
        Err(e) => failure("互动失败", e),
    }
}

/// After reporting a post or a comment: the reason reported, or the error.
pub fn report_feedback(result: &Result<ReportItem, String>) -> (r: Feedback)
    ensures
        shows_outcome(r, *result, "举报成功"@, "举报失败"@, match *result {
            Ok(report) => report.reason@,
            Err(_) => Seq::<char>::empty(),
        }),
{
    match result {
        Ok(report) => Feedback { success: true, title: owned("举报成功"), detail: report.reason.clone() },
        Err(e) => failure("举报失败", e),
    }
}

/// After posting a comment: its text, or the error.
pub fn comment_submit_feedback(result: &Result<CommentNode, String>) -> (r: Feedback)
    ensures
        shows_outcome(r, *result, "评论成功"@, "评论失败"@, match *result {
            Ok(c) => c.content@,
            Err(_) => Seq::<char>::empty(),
        }),
{
    match result {
        Ok(c) => Feedback { success: true, title: owned("评论成功"), detail: c.content.clone() },
        Err(e) => failure("评论失败", e),
    }
}

/// After liking or unliking a comment: the new state and count, or the error.
pub fn comment_like_feedback(result: &Result<ToggleResult, String>) -> (r: Feedback)
    ensures
        shows_outcome(r, *result, "评论点赞成功"@, "评论操作失败"@, match *result {
            Ok(s) => toggle_line(s.active, "已点赞评论"@, "已取消评论点赞"@, s.count),
            Err(_) => Seq::<char>::empty(),
        }),
{
    match result {
        Ok(s) => Feedback {
            success: true,
            title: owned("评论点赞成功"),
            detail: toggle_text(s, "已点赞评论", "已取消评论点赞"),
        },
        Err(e) => failure("评论操作失败", e),
    }
}

/// After deleting one's own comment: the comment's text as now stored, or the error.
pub fn comment_delete_feedback(result: &Result<CommentNode, String>) -> (r: Feedback)
    ensures
        shows_outcome(r, *result, "评论删除成功"@, "评论操作失败"@, match *result {
            Ok(c) => c.content@,
            Err(_) => Seq::<char>::empty(),
        }),
{
    match result {
        Ok(c) => Feedback { success: true, title: owned("评论删除成功"), detail: c.content.clone() },
        Err(e) => failure("评论操作失败", e),
    }
}

/// The line after marking notifications read: `剩余 {n} 条未读`.
pub open spec fn unread_line(n: nat) -> Seq<char> {
    "剩余 "@ + dec(n) + " 条未读"@
}

/// After marking one or all notifications read: the number still unread, or the error.
pub fn notification_read_feedback(result: &Result<NotificationCenter, String>) -> (r: Feedback)
    ensures
        shows_outcome(r, *result, "已读成功"@, "已读失败"@, match *result {
            Ok(c) => unread_line(c.unread_count as nat),
            Err(_) => Seq::<char>::empty(),
        }),
{
    match result {
        Ok(c) => {
            let mut v: Vec<char> = Vec::new();
            extend_str(&mut v, "剩余 ");
            let digits = u64_dec(c.unread_count as u64);
            extend(&mut v, &digits);
            extend_str(&mut v, " 条未读");
            Feedback { success: true, title: owned("已读成功"), detail: string_from_chars(&v) }
        },
        Err(e) => failure("已读失败", e),
    }
}

/// After saving one's profile: the nickname now shown, or the error.
pub fn profile_update_feedback(result: &Result<UserProfile, String>) -> (r: Feedback)
    ensures
        shows_outcome(r, *result, "资料更新成功"@, "资料更新失败"@, match *result {
            Ok(p) => p.nickname@,
            Err(_) => Seq::<char>::empty(),
        }),
{
    match result {
        Ok(p) => Feedback { success: true, title: owned("资料更新成功"), detail: p.nickname.clone() },
        Err(e) => failure("资料更新失败", e),
    }
}

/// After changing one's avatar: its new address (empty where there is none), or the error.
pub fn avatar_update_feedback(result: &Result<UserProfile, String>) -> (r: Feedback)
    ensures
        shows_outcome(r, *result, "头像更新成功"@, "头像更新失败"@, match *result {
            Ok(p) => match p.avatar_url {
                Some(u) => u@,
                None => Seq::<char>::empty(),
            },
            Err(_) => Seq::<char>::empty(),
        }),
{
    match result {
        Ok(p) => Feedback {
            success: true,
            title: owned("头像更新成功"),
            detail: match &p.avatar_url {
                Some(u) => u.clone(),
                None => String::new(),
            },
        },
        Err(e) => failure("头像更新失败", e),
    }
}

/// After changing one's password: the confirmation, or the error.
pub fn password_change_feedback(result: &Result<String, String>) -> (r: Feedback)
    ensures
        shows_outcome(r, *result, "密码更新成功"@, "密码更新失败"@, match *result {
            Ok(m) => m@,
            Err(_) => Seq::<char>::empty(),
        }),
{
    match result {
        Ok(m) => Feedback { success: true, title: owned("密码更新成功"), detail: m.clone() },
        Err(e) => failure("密码更新失败", e),
    }
}

/// After following or unfollowing a user from their space: the new state, or the error.
pub fn user_follow_feedback(result: &Result<FollowState, String>) -> (r: Feedback)
    ensures
        shows_outcome(r, *result, "关注成功"@, "关注失败"@, match *result {
            Ok(s) => if s.following { "已关注该用户"@ } else { "已取消关注"@ },
            Err(_) => Seq::<char>::empty(),
        }),
{
    match result {
        Ok(s) => Feedback {
            success: true,
            title: owned("关注成功"),
            detail: if s.following { owned("已关注该用户") } else { owned("已取消关注") },
        },
        Err(e) => failure("关注失败", e),
    }
}

/// After saving or publishing from the editor: `草稿保存成功` for a draft, `发布成功`
/// otherwise, with the post's title; or the error.
pub fn post_submit_feedback(result: &Result<PostDetail, String>) -> (r: Feedback)
    ensures
        match *result {
            Ok(p) => r.success && r.title@ == (if p.status == PostStatus::Draft {
                "草稿保存成功"@
            } else {
                "发布成功"@
            }) && r.detail@ == p.summary.title@,
            Err(e) => !r.success && r.title@ == "发布失败"@ && r.detail@ == e@,
        },
{
    match result {
        Ok(p) => Feedback {
            success: true,
            title: match p.status {
                PostStatus::Draft => owned("草稿保存成功"),
                _ => owned("发布成功"),
            },
            detail: p.summary.title.clone(),
        },
        Err(e) => failure("发布失败", e),
    }
}

/// After uploading an image in the editor: the Markdown that shows it, or the error.
pub fn image_upload_feedback(result: &Result<FileAsset, String>) -> (r: Feedback)
    ensures
        shows_outcome(r, *result, "图片上传成功"@, "图片上传失败"@, match *result {
            Ok(a) => a.markdown_image@,
            Err(_) => Seq::<char>::empty(),
        }),
{
    match result {
        Ok(a) => Feedback { success: true, title: owned("图片上传成功"), detail: a.markdown_image.clone() },
        Err(e) => failure("图片上传失败", e),
    }
}

/// After deleting one's own post from the editor: its title, or the error.
pub fn post_delete_feedback(result: &Result<PostDetail, String>) -> (r: Feedback)
    ensures
        shows_outcome(r, *result, "删除成功"@, "删除失败"@, match *result {
            Ok(p) => p.summary.title@,
            Err(_) => Seq::<char>::empty(),
        }),
{
    match result {
        Ok(p) => Feedback { success: true, title: owned("删除成功"), detail: p.summary.title.clone() },
        Err(e) => failure("删除失败", e),
    }
}

/// After signing in: the new session's identifier, or the error.
pub fn login_feedback(result: &Result<Session, String>) -> (r: Feedback)
    ensures
        shows_outcome(r, *result, "登录成功"@, "登录失败"@, match *result {
            Ok(session) => uuid_text(session.session_id),
            Err(_) => Seq::<char>::empty(),
        }),
{
    match result {
        Ok(session) => Feedback { success: true, title: owned("登录成功"), detail: uuid_string(session.session_id) },
        Err(e) => failure("登录失败", e),
    }
}

/// After registering: the new session's identifier, or the error.
pub fn register_feedback(result: &Result<Session, String>) -> (r: Feedback)
    ensures
        shows_outcome(r, *result, "注册成功"@, "注册失败"@, match *result {
            Ok(session) => uuid_text(session.session_id),
            Err(_) => Seq::<char>::empty(),
        }),
{
    match result {
        Ok(session) => Feedback { success: true, title: owned("注册成功"), detail: uuid_string(session.session_id) },
        Err(e) => failure("注册失败", e),
    }
}

/// The link to write a post within a session.
pub fn new_post_link(session_id: u128) -> (r: String)
    ensures
        r@ == "/posts/new?session_id="@ + uuid_text(session_id),
{
    let id = uuid_string(session_id);
    concat_str("/posts/new?session_id=", id.as_str())
}

} // verus!
