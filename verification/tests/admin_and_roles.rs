use post::admin::{
    admin_dashboard_demo, audit_entries_csv, datetime_local_value, demo_roles, percent_encode_data_uri,
    AuditEntry,
};
use post::rbac::{
    admin_permissions, permissions_from_codes, role_codes, role_permission_codes,
    role_permission_codes_value, role_permission_summary, seed_roles, snapshot as role_snapshot,
    Permission, Role, RoleDbRow,
};
use post::user_admin::{
    snapshot as user_snapshot, AdminUserDbRow, AdminUserRow, AuditContext, AuditLogDbRow,
    AuditLogEntry, UpdateUserRolesRequest,
};

#[test]
fn admin_permission_table() {
    let perms = admin_permissions();
    assert_eq!(perms.len(), 19);
    assert_eq!(perms[0], Permission::new("user:view".to_string(), "查看用户".to_string()));
    assert_eq!(perms[18].code, "audit:view");
    assert_eq!(perms[18].name, "查看审计日志");
}

#[test]
fn permissions_are_named_from_the_table() {
    let ps = permissions_from_codes(vec!["post:view".to_string(), "custom:thing".to_string()]);
    assert_eq!(ps[0].name, "查看帖子");
    assert_eq!(ps[1].name, "custom:thing");
    let role = Role::from_row(RoleDbRow {
        code: "r".to_string(),
        name: "R".to_string(),
        permission_codes: vec!["tag:view".to_string()],
    });
    assert_eq!(role.permissions[0].name, "查看标签");
}

#[test]
fn seeded_roles() {
    let roles = seed_roles();
    let codes: Vec<&str> = roles.iter().map(|r| r.code.as_str()).collect();
    assert_eq!(codes, vec!["admin", "member", "moderator", "operator"]);
    assert_eq!(roles[0].permissions.len(), 19);
    assert_eq!(roles[1].permissions.len(), 2);
    assert_eq!(roles[2].permissions[4].name, "查看举报");
    assert_eq!(role_snapshot(&roles[1]), "code=member,name=普通用户,permissions=post:view|comment:view");
    assert_eq!(role_permission_codes_value(&roles[1]), "post:view,comment:view");
}

#[test]
fn role_summaries() {
    let roles = seed_roles();
    assert_eq!(role_permission_summary(&roles[0]), "全部权限");
    assert_eq!(role_permission_summary(&roles[1]), "查看帖子 / 查看评论");
    assert_eq!(role_permission_summary(&roles[2]), "查看帖子 / 更新帖子 / 查看评论 / +2");
    let empty = Role { code: "e".to_string(), name: "E".to_string(), permissions: Vec::new() };
    assert_eq!(role_permission_summary(&empty), "");
    assert_eq!(role_snapshot(&empty), "code=e,name=E,permissions=");
}

#[test]
fn role_form_codes() {
    assert_eq!(role_permission_codes("post:view, comment:view,,"), vec!["post:view", "comment:view"]);
    assert_eq!(role_codes(" admin "), vec!["admin"]);
    assert!(role_codes("").is_empty());
}

#[test]
fn demo_roles_filter_the_table() {
    let roles = demo_roles();
    assert_eq!(roles.len(), 3);
    let moderator: Vec<&str> = roles[1].permissions.iter().map(|p| p.code.as_str()).collect();
    assert_eq!(moderator, vec!["post:view", "post:update", "comment:view", "comment:delete", "report:view"]);
    let operator: Vec<&str> = roles[2].permissions.iter().map(|p| p.code.as_str()).collect();
    assert_eq!(operator, vec!["announcement:create", "announcement:publish", "category:view", "tag:view"]);
}

#[test]
fn normalized_roles_are_unique() {
    let req = UpdateUserRolesRequest {
        roles: vec![" Admin ".to_string(), "admin".to_string(), " ".to_string(), "Member".to_string(), "ADMIN".to_string()],
        context: AuditContext::default(),
    };
    assert_eq!(req.normalized_roles(), vec!["admin".to_string(), "member".to_string()]);
    let none = UpdateUserRolesRequest { roles: Vec::new(), context: AuditContext::default() };
    assert!(none.normalized_roles().is_empty());
}

#[test]
fn user_rows() {
    let row: AdminUserRow = AdminUserDbRow {
        user_id: 1,
        username: "u".to_string(),
        nickname: "n".to_string(),
        roles: vec!["admin".to_string(), "member".to_string()],
        disabled: true,
        post_count: -2,
        comment_count: 5,
    }
    .into();
    assert_eq!(row.post_count, 0);
    assert_eq!(row.comment_count, 5);
    assert_eq!(user_snapshot(&row), "username=u,disabled=true,roles=admin|member");
    let entry = AuditLogEntry::from_row(AuditLogDbRow {
        audit_id: 1,
        actor_id: None,
        actor_name: None,
        action: "a".to_string(),
        target_type: "t".to_string(),
        target_id: Some(0xff),
        target_label: None,
        before: None,
        after: None,
        ip: None,
        user_agent: None,
        created_at: 3,
    });
    assert_eq!(entry.actor_id, 0);
    assert_eq!(entry.actor_name, "系统");
    assert_eq!(entry.target_label, "00000000-0000-0000-0000-0000000000ff");
}

fn entry(actor: &str, target: &str) -> AuditEntry {
    AuditEntry {
        actor: actor.to_string(),
        action: "置顶帖子".to_string(),
        target: target.to_string(),
        ip: "127.0.0.1".to_string(),
        user_agent: "UA".to_string(),
        time_label: "now".to_string(),
    }
}

#[test]
fn audit_csv_quotes_special_fields() {
    assert_eq!(audit_entries_csv(&[]), "actor,action,target,ip,user_agent,time_label\n");
    let csv = audit_entries_csv(&[entry("管理员", "a,b"), entry("say \"hi\"", "line\nbreak")]);
    assert_eq!(
        csv,
        "actor,action,target,ip,user_agent,time_label\n管理员,置顶帖子,\"a,b\",127.0.0.1,UA,now\n\"say \"\"hi\"\"\",置顶帖子,\"line\nbreak\",127.0.0.1,UA,now\n"
    );
}

#[test]
fn demo_dashboard() {
    let d = admin_dashboard_demo();
    assert_eq!(d.stats.len(), 4);
    assert_eq!(d.stats[0].label, "用户总数");
    assert_eq!(d.stats[0].value, "12,480");
    assert_eq!(d.menu.len(), 11);
    assert_eq!(d.menu[8].permission, "announcement:publish");
    assert_eq!(d.permissions.len(), 19);
    assert_eq!(d.roles.len(), 3);
    assert_eq!(d.users[1].status, "已禁用");
    assert_eq!(d.moderation_posts[0].actions.len(), 5);
    assert_eq!(d.moderation_comments[1].content, "该评论已被删除");
    assert_eq!(d.categories[0].color, "#0064E0");
    assert_eq!(d.tags[1].use_count, 98);
    assert!(d.announcements[0].pinned);
    assert_eq!(d.reports[1].target_type, "评论");
    assert_eq!(d.governance_queue.len(), 6);
    assert_eq!(d.audit_entries[1].time_label, "1 小时前");
}

#[test]
fn percent_encoding() {
    assert_eq!(percent_encode_data_uri("a-b_c.d~"), "a-b_c.d~");
    assert_eq!(percent_encode_data_uri("<svg x='1'>"), "%3Csvg%20x%3D%271%27%3E");
    assert_eq!(percent_encode_data_uri("é"), "%C3%A9");
}

#[test]
fn datetime_local_values() {
    assert_eq!(datetime_local_value(None), "");
    assert_eq!(datetime_local_value(Some(0)), "1970-01-01T00:00");
    assert_eq!(datetime_local_value(Some(1_716_192_000_000_000_000)), "2024-05-20T08:00");
}

#[test]
fn permission_codes_survive_the_role_form() {
    let role = Role {
        code: "editor".to_string(),
        name: "编辑".to_string(),
        permissions: vec![
            Permission::new("post:view".to_string(), "查看帖子".to_string()),
            Permission::new("post:update".to_string(), "更新帖子".to_string()),
        ],
    };
    let shown = role_permission_codes_value(&role);
    assert_eq!(shown, "post:view,post:update");
    assert_eq!(role_permission_codes(&shown), vec!["post:view".to_string(), "post:update".to_string()]);
}

#[test]
fn percent_encoding_leaves_only_uri_characters() {
    let encoded = percent_encode_data_uri("a,b#c 审计\n%~");
    assert_eq!(encoded, "a%2Cb%23c%20%E5%AE%A1%E8%AE%A1%0A%25~");
    assert!(encoded.chars().all(|c| c.is_ascii_alphanumeric() || "-_.~%".contains(c)));
}
