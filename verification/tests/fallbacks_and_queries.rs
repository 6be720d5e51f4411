use post::admin::admin_dashboard_demo;
use post::auth::PostgresAuthRepository;
use post::feedback::{
    admin_announcement_action_feedback, admin_announcement_create_feedback,
    admin_announcement_update_feedback, admin_category_action_feedback,
    admin_category_update_feedback, admin_role_create_feedback, admin_role_update_feedback,
    admin_tag_action_feedback, admin_tag_create_feedback, admin_tag_update_feedback,
};
use post::files::{build_file_asset, FileUploadRequest, FileUsage};
use post::home::{HomeQuery, HomeTab};
use post::page_data::{
    fallback_admin_dashboard, fallback_notifications_page, fallback_user_space_page,
    home_fallback_for_query,
};

#[test]
fn fallback_pages_show_the_demonstration_data() {
    let center = fallback_notifications_page();
    assert_eq!(center.recipient_id, 1);
    assert_eq!(center.unread_count, 1);
    assert_eq!(center.items.len(), 2);
    assert_eq!(fallback_admin_dashboard(), admin_dashboard_demo());
    let space = fallback_user_space_page();
    assert_eq!(space.profile.username, "loading");
    assert_eq!(space.profile.nickname, "加载中");
    let mut q = HomeQuery::default();
    q.tab = HomeTab::Hot;
    q.page = 2;
    let home = home_fallback_for_query(q.clone());
    assert_eq!(home.query, q);
    assert!(!home.requires_login);
}

#[test]
fn uploaded_assets_are_described_whenever_they_are_built() {
    let req = FileUploadRequest {
        original_filename: "cat.png".to_string(),
        file_size: 10,
        mime_type: "image/png".to_string(),
        content_hash: "abcdef0123456789".to_string(),
        usage: FileUsage::MarkdownImage,
    };
    let asset = build_file_asset(5, 6, req);
    assert_eq!(asset.file_id, 5);
    assert_eq!(asset.uploader_id, 6);
    assert_eq!(asset.original_filename, "cat.png");
    assert_eq!(asset.markdown_image, format!("![cat.png]({})", asset.public_url));
}

#[test]
fn session_queries_name_their_tables() {
    assert!(PostgresAuthRepository::find_user_by_username_sql().contains("where username = $1"));
    assert!(PostgresAuthRepository::find_user_by_id_sql().contains("user_id = $1"));
    assert!(PostgresAuthRepository::insert_user_sql().contains("insert into users"));
    assert!(PostgresAuthRepository::insert_session_sql().contains("insert into sessions"));
}

#[test]
fn remaining_admin_panels_count_their_lists() {
    let d = admin_dashboard_demo();
    let ok = Ok(d.clone());
    assert_eq!(admin_role_create_feedback(&ok).detail, format!("当前 {} 个角色", d.roles.len()));
    assert_eq!(admin_role_update_feedback(&ok).title, "角色更新成功");
    assert_eq!(admin_announcement_action_feedback(&ok).title, "公告状态更新成功");
    assert_eq!(admin_announcement_create_feedback(&ok).detail, format!("当前 {} 条公告", d.announcements.len()));
    assert_eq!(admin_announcement_update_feedback(&Err("e".to_string())).title, "公告更新失败");
    assert_eq!(admin_category_action_feedback(&ok).detail, format!("当前 {} 个分类", d.categories.len()));
    assert_eq!(admin_category_update_feedback(&ok).title, "分类更新成功");
    assert_eq!(admin_tag_action_feedback(&ok).title, "标签状态更新成功");
    assert_eq!(admin_tag_create_feedback(&Err("重名".to_string())).detail, "重名");
    assert_eq!(admin_tag_update_feedback(&ok).detail, format!("当前 {} 个标签", d.tags.len()));
}
