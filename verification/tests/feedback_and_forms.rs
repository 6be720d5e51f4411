use post::admin::{admin_dashboard_demo, user_roles_value};
use post::notifications::{
    notification_center_from_rows, notification_type_label, NotificationRow, NotificationType,
};
use post::rbac::role_codes;
use post::feedback::{
    admin_announcement_push_feedback, admin_category_create_feedback, admin_comment_action_feedback,
    admin_post_action_feedback, admin_report_action_feedback, admin_role_delete_feedback,
    admin_tag_merge_feedback, admin_user_roles_feedback, admin_user_status_feedback,
    author_follow_feedback, comment_delete_feedback, comment_like_feedback, comment_submit_feedback,
    current_dashboard_index, notification_read_feedback, panel_result_index, post_favorite_feedback,
    password_change_feedback, post_like_feedback, profile_update_feedback, report_feedback,
    user_follow_feedback, avatar_update_feedback, post_submit_feedback, post_delete_feedback,
    image_upload_feedback, login_feedback, new_post_link, register_feedback, Feedback,
};
use post::auth::{Session, SessionUser};
use post::page_data::{fallback_post_detail_page, fallback_user_space_page};
use post::posts::PostSummary;
use post::users::space_posts;
use post::reactions::{FollowState, ToggleResult};
use post::announcements::AnnouncementAudience;
use post::forms::{
    editor_fields, editor_tag_value, parse_optional_announcement_time, plan_announcement_request, plan_post_submission,
    PostSubmission,
};
use post::taxonomy::{CategoryItem, CategoryRow, TagItem, TagRow};
use post::user::UserAuth;

#[test]
fn success_feedback_counts_the_refreshed_list() {
    let mut d = admin_dashboard_demo();
    d.users.truncate(2);
    let f = admin_user_roles_feedback(&Ok(d));
    assert_eq!(
        f,
        Feedback { success: true, title: "用户角色更新成功".to_string(), detail: "当前 2 个用户".to_string() }
    );
}

#[test]
fn failure_feedback_shows_the_error() {
    let f = admin_user_status_feedback(&Err("会话已过期".to_string()));
    assert!(!f.success);
    assert_eq!(f.title, "用户状态更新失败");
    assert_eq!(f.detail, "会话已过期");
}

#[test]
fn each_panel_counts_its_own_list() {
    let d = admin_dashboard_demo();
    let posts = admin_post_action_feedback(&Ok(d.clone()));
    assert_eq!(posts.title, "帖子状态更新成功");
    assert_eq!(posts.detail, format!("当前 {} 篇帖子", d.moderation_posts.len()));
    let comments = admin_comment_action_feedback(&Ok(d.clone()));
    assert_eq!(comments.detail, format!("当前 {} 条评论", d.moderation_comments.len()));
    let roles = admin_role_delete_feedback(&Ok(d.clone()));
    assert_eq!(roles.title, "角色删除成功");
    assert_eq!(roles.detail, format!("当前 {} 个角色", d.roles.len()));
    let announcements = admin_announcement_push_feedback(&Ok(d.clone()));
    assert_eq!(announcements.title, "公告推送成功");
    assert_eq!(announcements.detail, format!("当前 {} 条公告", d.announcements.len()));
    let categories = admin_category_create_feedback(&Ok(d.clone()));
    assert_eq!(categories.detail, format!("当前 {} 个分类", d.categories.len()));
    let tags = admin_tag_merge_feedback(&Ok(d.clone()));
    assert_eq!(tags.title, "标签合并成功");
    assert_eq!(tags.detail, format!("当前 {} 个标签", d.tags.len()));
    let reports = admin_report_action_feedback(&Err("无权限".to_string()));
    assert_eq!(reports.title, "举报处理失败");
    assert_eq!(reports.detail, "无权限");
}

#[test]
fn the_first_successful_action_supplies_the_dashboard() {
    let d = admin_dashboard_demo();
    let results = vec![None, Some(Err("x".to_string())), Some(Ok(d.clone())), Some(Ok(d))];
    assert_eq!(current_dashboard_index(&results), Some(2));
    assert_eq!(panel_result_index(&results), Some(1));
    let none: Vec<Option<Result<post::admin::AdminDashboard, String>>> = vec![None, Some(Err("y".to_string()))];
    assert_eq!(current_dashboard_index(&none), None);
    assert_eq!(panel_result_index(&vec![None, None]), None);
}

#[test]
fn category_and_tag_rows_clamp_negative_counts() {
    let c = CategoryItem::from_row(CategoryRow {
        category_id: 7,
        name: "Rust".to_string(),
        color: "#3366ff".to_string(),
        sort_order: 2,
        enabled: true,
        post_count: -4,
    });
    assert_eq!(c.post_count, 0);
    assert_eq!(c.name, "Rust");
    assert_eq!(c.category_id, 7);
    let t = TagItem::from_row(TagRow { tag_id: 9, name: "async".to_string(), sort_order: 1, enabled: false, use_count: 42 });
    assert_eq!(t.use_count, 42);
    assert!(!t.enabled);
}

#[test]
fn announcement_times_are_read_as_utc_minutes() {
    assert_eq!(parse_optional_announcement_time("   "), Ok(None));
    assert_eq!(
        parse_optional_announcement_time(" 2024-05-01T08:30 "),
        Ok(Some(1_714_552_200_000_000_000))
    );
    assert!(parse_optional_announcement_time("2024-13-01T08:30").is_err());
    assert!(parse_optional_announcement_time("yesterday").is_err());
}

#[test]
fn announcement_form_becomes_a_request_for_everyone() {
    let req = plan_announcement_request(
        "维护".to_string(),
        "今晚维护".to_string(),
        "system".to_string(),
        true,
        "2024-05-01T08:30",
        "",
    )
    .unwrap();
    assert_eq!(req.effective_at, Some(1_714_552_200_000_000_000));
    assert_eq!(req.expires_at, None);
    assert!(req.pinned);
    assert_eq!(req.audience, AnnouncementAudience::AllUsers);
    let bad = plan_announcement_request(
        "a".to_string(),
        "b".to_string(),
        "c".to_string(),
        false,
        "",
        "not a time",
    );
    assert!(bad.is_err());
}

#[test]
fn user_names_follow_the_pattern() {
    let ok = UserAuth { username: "alice_01".to_string(), password: "x".to_string() };
    assert_eq!(ok.validate(), Ok(()));
    let bad = UserAuth { username: "bob!".to_string(), password: "x".to_string() };
    assert_eq!(bad.validate(), Err(vec!["regex"]));
}

#[test]
fn editor_tags_survive_a_resubmission() {
    let tags = vec!["rust".to_string(), "web 框架".to_string(), "async".to_string()];
    let shown = editor_tag_value(&tags);
    assert_eq!(shown, "rust, web 框架, async");
    let plan = plan_post_submission(
        "",
        "t".to_string(),
        "s".to_string(),
        "",
        &shown,
        "m".to_string(),
        "publish",
    )
    .unwrap();
    match plan {
        PostSubmission::Create(c) => assert_eq!(c.tag_names, tags),
        other => panic!("unexpected plan {:?}", other),
    }
    assert_eq!(editor_tag_value(&vec![]), "");
}

#[test]
fn user_roles_survive_the_user_form() {
    let mut d = admin_dashboard_demo();
    let mut user = d.users.remove(0);
    user.roles = vec!["admin".to_string(), "moderator".to_string()];
    let shown = user_roles_value(&user);
    assert_eq!(shown, "admin,moderator");
    assert_eq!(role_codes(&shown), user.roles);
}

#[test]
fn notification_centers_count_unread_rows() {
    let row = |id: u128, kind: &str, read_at: Option<i128>| NotificationRow {
        notification_id: id,
        recipient_id: 5,
        actor_id: None,
        notification_type: kind.to_string(),
        title: "t".to_string(),
        body: "b".to_string(),
        read_at,
        created_at: 10,
    };
    let center = notification_center_from_rows(
        5,
        vec![row(1, "post_liked", None), row(2, "mystery", Some(11)), row(3, "announcement", None)],
    );
    assert_eq!(center.recipient_id, 5);
    assert_eq!(center.unread_count, 2);
    assert_eq!(center.items.len(), 3);
    assert_eq!(center.items[0].notification_type, NotificationType::PostLiked);
    assert_eq!(center.items[1].notification_type, NotificationType::PostCommented);
    assert_eq!(center.items[2].notification_id, 3);
}

#[test]
fn reaction_feedback_reports_the_new_state() {
    let liked = post_like_feedback(&Ok(ToggleResult { active: true, count: 12 }));
    assert_eq!(
        liked,
        Feedback { success: true, title: "点赞成功".to_string(), detail: "已点赞 · 12".to_string() }
    );
    let unfavored = post_favorite_feedback(&Ok(ToggleResult { active: false, count: 0 }));
    assert_eq!(unfavored.detail, "已取消收藏 · 0");
    let comment_like = comment_like_feedback(&Ok(ToggleResult { active: false, count: -1 }));
    assert_eq!(comment_like.title, "评论点赞成功");
    assert_eq!(comment_like.detail, "已取消评论点赞 · -1");
    let follow = author_follow_feedback(&Ok(FollowState { follower_id: 1, followee_id: 2, following: true }));
    assert_eq!(follow.detail, "已关注作者");
    let failed = post_like_feedback(&Err("请先登录".to_string()));
    assert_eq!(failed, Feedback { success: false, title: "互动失败".to_string(), detail: "请先登录".to_string() });
    assert_eq!(report_feedback(&Err("重复举报".to_string())).title, "举报失败");
    assert_eq!(comment_submit_feedback(&Err("内容为空".to_string())).title, "评论失败");
    assert_eq!(comment_delete_feedback(&Err("无权限".to_string())).title, "评论操作失败");
}

#[test]
fn read_feedback_counts_what_is_left() {
    let center = notification_center_from_rows(
        5,
        vec![NotificationRow {
            notification_id: 1,
            recipient_id: 5,
            actor_id: None,
            notification_type: "announcement".to_string(),
            title: "t".to_string(),
            body: "b".to_string(),
            read_at: None,
            created_at: 1,
        }],
    );
    let f = notification_read_feedback(&Ok(center));
    assert_eq!(f, Feedback { success: true, title: "已读成功".to_string(), detail: "剩余 1 条未读".to_string() });
    assert_eq!(notification_read_feedback(&Err("x".to_string())).title, "已读失败");
    assert_eq!(notification_type_label(NotificationType::AdminMessage), "管理员通知");
    assert_eq!(notification_type_label(NotificationType::FollowedUserPosted), "关注动态");
}

fn titled(id: u128) -> PostSummary {
    let mut p = PostSummary::sample();
    p.post_id = id;
    p
}

#[test]
fn own_spaces_list_drafts_and_favourites_too() {
    let mut space = fallback_user_space_page();
    space.published_posts = vec![titled(1)];
    space.draft_posts = vec![titled(2)];
    space.favorite_posts = vec![titled(3), titled(4)];
    let ids: Vec<u128> = space_posts(space.clone(), true).iter().map(|p| p.post_id).collect();
    assert_eq!(ids, vec![1, 2, 3, 4]);
    let others: Vec<u128> = space_posts(space, false).iter().map(|p| p.post_id).collect();
    assert_eq!(others, vec![1]);
}

#[test]
fn user_space_feedback() {
    let mut profile = fallback_user_space_page().profile;
    profile.nickname = "新名字".to_string();
    assert_eq!(profile_update_feedback(&Ok(profile.clone())).detail, "新名字");
    assert_eq!(avatar_update_feedback(&Ok(profile.clone())).detail, "");
    profile.avatar_url = Some("/files/a.png".to_string());
    assert_eq!(avatar_update_feedback(&Ok(profile)).detail, "/files/a.png");
    assert_eq!(password_change_feedback(&Ok("密码已更新".to_string())).title, "密码更新成功");
    assert_eq!(password_change_feedback(&Err("旧密码错误".to_string())).detail, "旧密码错误");
    let unfollowed = user_follow_feedback(&Ok(post::reactions::FollowState { follower_id: 1, followee_id: 2, following: false }));
    assert_eq!(unfollowed.detail, "已取消关注");
    assert_eq!(user_follow_feedback(&Err("x".to_string())).title, "关注失败");
}

#[test]
fn publishing_what_the_editor_loaded_updates_the_same_post() {
    let mut post = fallback_post_detail_page(String::new()).post;
    post.summary.post_id = 0x1234;
    post.summary.category_name = Some("后端".to_string());
    post.summary.tags = vec!["rust".to_string(), "sqlx".to_string()];
    post.markdown = "# 标题\n正文".to_string();
    let fields = editor_fields(&post);
    assert_eq!(fields.category_name, "后端");
    assert_eq!(fields.tag_names, "rust, sqlx");
    let plan = plan_post_submission(
        "00000000-0000-0000-0000-000000001234",
        fields.title,
        fields.summary,
        &fields.category_name,
        &fields.tag_names,
        fields.markdown,
        "publish",
    )
    .unwrap();
    match plan {
        PostSubmission::Update(id, u) => {
            assert_eq!(id, 0x1234);
            assert_eq!(u.title, post.summary.title);
            assert_eq!(u.summary, post.summary.summary);
            assert_eq!(u.markdown, post.markdown);
            assert_eq!(u.category_name, post.summary.category_name);
            assert_eq!(u.tag_names, post.summary.tags);
            assert!(u.publish);
        }
        other => panic!("unexpected plan {:?}", other),
    }
}

#[test]
fn editor_feedback_tells_drafts_from_publications() {
    let mut post = fallback_post_detail_page(String::new()).post;
    post.summary.title = "草稿一".to_string();
    post.status = post::posts::PostStatus::Draft;
    let f = post_submit_feedback(&Ok(post.clone()));
    assert_eq!(f, Feedback { success: true, title: "草稿保存成功".to_string(), detail: "草稿一".to_string() });
    post.status = post::posts::PostStatus::Published;
    assert_eq!(post_submit_feedback(&Ok(post.clone())).title, "发布成功");
    assert_eq!(post_submit_feedback(&Err("标题为空".to_string())).title, "发布失败");
    assert_eq!(post_delete_feedback(&Ok(post)).detail, "草稿一");
    assert_eq!(image_upload_feedback(&Err("太大".to_string())).title, "图片上传失败");
}

#[test]
fn sign_in_feedback_shows_the_session() {
    let session = Session {
        session_id: 0xabc,
        user: SessionUser {
            user_id: 1,
            username: "a".to_string(),
            nickname: "A".to_string(),
            avatar_url: None,
            is_admin: false,
        },
        expires_at: 0,
    };
    let f = login_feedback(&Ok(session.clone()));
    assert_eq!(f.title, "登录成功");
    assert_eq!(f.detail, "00000000-0000-0000-0000-000000000abc");
    assert_eq!(register_feedback(&Ok(session)).title, "注册成功");
    assert_eq!(login_feedback(&Err("密码错误".to_string())).detail, "密码错误");
    assert_eq!(new_post_link(0xabc), "/posts/new?session_id=00000000-0000-0000-0000-000000000abc");
}
