use post::admin::{
    AdminAnnouncementRow, AdminCategoryRow, AdminCommentRow, AdminPostRow, AdminReportRow,
    AdminTagRow, AdminUserRow,
};
use post::admin_rows::{
    announcement_row_controls, category_row_controls, comment_row_controls, has_action,
    merge_targets, passive_actions, post_row_controls, report_row_controls, tag_row_controls,
    user_row_controls,
};

fn strings(items: &[&str]) -> Vec<String> {
    items.iter().map(|s| s.to_string()).collect()
}

fn tag(id: u128, status: &str, actions: &[&str]) -> AdminTagRow {
    AdminTagRow { tag_id: id, name: format!("t{id}"), sort_order: 0, use_count: 0, status: status.to_string(), actions: strings(actions) }
}

#[test]
fn actions_are_looked_up_and_filtered() {
    let actions = strings(&["编辑", "查看", "启用"]);
    assert!(has_action(&actions, "查看"));
    assert!(!has_action(&actions, "删除"));
    assert_eq!(passive_actions(&actions, &["启用", "编辑"]), strings(&["查看"]));
    assert!(passive_actions(&vec![], &["x"]).is_empty());
}

#[test]
fn user_row_controls_follow_status_and_actions() {
    let user = AdminUserRow {
        user_id: 1,
        username: "u".to_string(),
        nickname: "U".to_string(),
        roles: strings(&["member"]),
        status: "已禁用".to_string(),
        actions: strings(&["解禁用户", "调整角色", "查看主页"]),
    };
    let c = user_row_controls(&user);
    assert_eq!(c.badge_class, "badge badge-gray");
    assert!(c.show_role_update);
    assert!(c.is_disabled);
    assert_eq!(c.passive_actions, strings(&["查看主页"]));
}

#[test]
fn post_and_comment_rows() {
    let post = AdminPostRow {
        post_id: 0x10,
        title: "t".to_string(),
        author: "a".to_string(),
        category: "c".to_string(),
        status: "已发布".to_string(),
        locked: false,
        actions: strings(&["下架", "置顶", "锁定", "查看"]),
    };
    let c = post_row_controls(&post);
    assert_eq!(c.badge_class, "badge badge-green");
    assert!(c.show_take_down && c.show_pin && c.show_lock && c.show_view);
    assert!(!c.show_restore && !c.show_delete && !c.show_unpin && !c.show_unlock);
    assert_eq!(c.post_href, "/posts/00000000-0000-0000-0000-000000000010");
    let comment = AdminCommentRow {
        comment_id: 1,
        post_id: 0x10,
        post_title: "t".to_string(),
        author: "a".to_string(),
        content: "x".to_string(),
        status: "已删除".to_string(),
        actions: strings(&["恢复评论", "查看帖子"]),
    };
    let c = comment_row_controls(&comment);
    assert_eq!(c.badge_class, "badge badge-gray");
    assert!(!c.show_delete && c.show_recover && c.show_view_post);
    assert_eq!(c.post_href, "/posts/00000000-0000-0000-0000-000000000010");
}

#[test]
fn category_and_tag_rows() {
    let category = AdminCategoryRow {
        category_id: 1,
        name: "c".to_string(),
        color: "#fff".to_string(),
        sort_order: 1,
        post_count: 0,
        status: "启用".to_string(),
        actions: strings(&["调整排序", "停用", "查看帖子"]),
    };
    let c = category_row_controls(&category);
    assert_eq!(c.badge_class, "badge badge-green");
    assert!(c.show_update && c.show_disable && !c.show_enable);
    assert_eq!(c.passive_actions, strings(&["查看帖子"]));
    let t = tag_row_controls(&tag(2, "禁用", &["启用", "合并标签", "查看"]));
    assert_eq!(t.badge_class, "badge badge-gray");
    assert!(t.show_enable && t.show_merge && !t.show_update && !t.show_disable);
    assert_eq!(t.passive_actions, strings(&["查看"]));
    assert_eq!(tag_row_controls(&tag(3, "启用", &[])).badge_class, "badge badge-blue");
    let targets = merge_targets(2, vec![tag(1, "启用", &[]), tag(2, "启用", &[]), tag(3, "启用", &[])]);
    let ids: Vec<u128> = targets.iter().map(|t| t.tag_id).collect();
    assert_eq!(ids, vec![1, 3]);
}

#[test]
fn announcement_and_report_rows() {
    let a = AdminAnnouncementRow {
        announcement_id: 1,
        title: "t".to_string(),
        content: "c".to_string(),
        announcement_type: "system".to_string(),
        pinned: false,
        effective_at: None,
        expires_at: None,
        audience: "all".to_string(),
        status: "已下线".to_string(),
        actions: strings(&["重新发布", "编辑"]),
    };
    let c = announcement_row_controls(&a);
    assert_eq!(c.badge_class, "badge badge-orange");
    assert!(c.show_publish && c.show_edit && !c.show_withdraw && !c.show_push);
    assert_eq!(c.publish_label, "重新发布");
    let report = AdminReportRow {
        report_id: 1,
        target: "p".to_string(),
        target_type: "post".to_string(),
        reason: "spam".to_string(),
        reporter: "r".to_string(),
        status: "待处理".to_string(),
        actions: strings(&["标记已处理", "查看详情"]),
    };
    let c = report_row_controls(&report);
    assert!(c.show_handle && !c.show_reject && c.show_detail);
}
