use post::announcements::{
    announcement_audience_from_parts, announcement_audience_parts, announcement_status_as_str,
    announcement_status_from_str, AnnouncementAudience, AnnouncementItem, AnnouncementRow,
    AnnouncementStatus, CreateAnnouncementRequest, PostgresAnnouncementRepository,
};
use post::reports::{
    non_empty_string, report_status_as_str, report_status_from_str, report_target_type_as_str,
    report_target_type_from_str, CreateReportRequest, HandleReportRequest, PostgresReportRepository,
    ReportRow, ReportStatus, ReportTargetType,
};
use post::taxonomy::{
    CreateCategoryRequest, CreateTagRequest, PostgresTaxonomyRepository, UpdateCategoryRequest,
    UpdateTagRequest,
};

fn category(name: &str, color: &str) -> CreateCategoryRequest {
    CreateCategoryRequest { name: name.to_string(), color: color.to_string(), sort_order: 1 }
}

#[test]
fn category_validation() {
    assert_eq!(category(" 教程 ", " #35a853 ").validate(), Ok(()));
    assert_eq!(category("  ", "#35A853").validate(), Err("分类名称不能为空".to_string()));
    assert_eq!(category(&"名".repeat(33), "#35A853").validate(), Err("分类名称不能超过 32 个字符".to_string()));
    assert_eq!(category(&"名".repeat(32), "#35A853").validate(), Ok(()));
    for bad in ["35A853", "#35A85", "#35A85G", "#35A8533", "＃35A853", "#35Ä853"] {
        assert_eq!(category("教程", bad).validate(), Err("分类颜色必须是 #RRGGBB".to_string()), "{bad}");
    }
    assert_eq!(category("", "x").validate(), Err("分类名称不能为空".to_string()));
}

#[test]
fn optional_fields_are_checked_only_when_given() {
    let none = UpdateCategoryRequest { name: None, color: None, sort_order: Some(3), enabled: Some(false) };
    assert_eq!(none.validate(), Ok(()));
    let bad_color = UpdateCategoryRequest { name: None, color: Some("red".to_string()), sort_order: None, enabled: None };
    assert_eq!(bad_color.validate(), Err("分类颜色必须是 #RRGGBB".to_string()));
    let tag = CreateTagRequest { name: " ".to_string(), sort_order: 0 };
    assert_eq!(tag.validate(), Err("标签名称不能为空".to_string()));
    let upd = UpdateTagRequest { name: Some("x".repeat(33)), sort_order: None, enabled: None, use_count: None };
    assert_eq!(upd.validate(), Err("标签名称不能超过 32 个字符".to_string()));
    let upd_ok = UpdateTagRequest { name: None, sort_order: None, enabled: None, use_count: Some(1) };
    assert_eq!(upd_ok.validate(), Ok(()));
    assert!(PostgresTaxonomyRepository::list_categories_sql().contains("categories"));
    assert!(PostgresTaxonomyRepository::list_tags_sql().contains("tags"));
}

#[test]
fn report_validation() {
    let ok = CreateReportRequest { target_type: ReportTargetType::Post, target_id: 1, reason: "spam".to_string(), description: None };
    assert_eq!(ok.validate(), Ok(()));
    let blank = CreateReportRequest { reason: " \t".to_string(), ..ok_report() };
    assert_eq!(blank.validate(), Err("举报原因不能为空".to_string()));
    let long = CreateReportRequest { reason: "原".repeat(121), ..ok_report() };
    assert_eq!(long.validate(), Err("举报原因不能超过 120 个字符".to_string()));
    let edge = CreateReportRequest { reason: "原".repeat(120), description: Some("d".repeat(500)), ..ok_report() };
    assert_eq!(edge.validate(), Ok(()));
    let desc = CreateReportRequest { description: Some("d".repeat(501)), ..ok_report() };
    assert_eq!(desc.validate(), Err("补充说明不能超过 500 个字符".to_string()));
}

fn ok_report() -> CreateReportRequest {
    CreateReportRequest { target_type: ReportTargetType::Comment, target_id: 2, reason: "spam".to_string(), description: None }
}

#[test]
fn report_handling_validation() {
    let pending = HandleReportRequest { status: ReportStatus::Pending, note: "x".to_string() };
    assert_eq!(pending.validate(), Err("处理结果不能回退为待处理".to_string()));
    let blank = HandleReportRequest { status: ReportStatus::Handled, note: "  ".to_string() };
    assert_eq!(blank.validate(), Err("处理说明不能为空".to_string()));
    let ok = HandleReportRequest { status: ReportStatus::Rejected, note: "done".to_string() };
    assert_eq!(ok.validate(), Ok(()));
}

#[test]
fn report_storage_texts() {
    for t in [ReportTargetType::Post, ReportTargetType::Comment, ReportTargetType::User] {
        assert_eq!(report_target_type_from_str(report_target_type_as_str(&t)), t);
    }
    for s in [ReportStatus::Pending, ReportStatus::Handled, ReportStatus::Rejected] {
        assert_eq!(report_status_from_str(report_status_as_str(&s)), s);
    }
    assert_eq!(report_status_as_str(&ReportStatus::Handled), "accepted");
    assert_eq!(report_status_from_str("handled"), ReportStatus::Handled);
    assert_eq!(report_status_from_str("other"), ReportStatus::Pending);
    assert_eq!(report_target_type_from_str("other"), ReportTargetType::Post);
    assert_eq!(non_empty_string("  note ".to_string()), Some("note".to_string()));
    assert_eq!(non_empty_string(" \n ".to_string()), None);
    let item = ReportRow {
        report_id: 1,
        target_type: "user".to_string(),
        target_id: 2,
        target_title: None,
        reporter_id: 3,
        reporter_name: "r".to_string(),
        reason: "why".to_string(),
        description: "".to_string(),
        status: "rejected".to_string(),
        handler_id: None,
        handler_name: None,
        handle_note: " ok ".to_string(),
        created_at: 10,
        handled_at: Some(11),
    }
    .into_item();
    assert_eq!(item.target_type, ReportTargetType::User);
    assert_eq!(item.status, ReportStatus::Rejected);
    assert_eq!(item.description, None);
    assert_eq!(item.handle_note, Some("ok".to_string()));
    assert!(PostgresReportRepository::list_reports_sql().contains("from reports r"));
}

fn announcement() -> CreateAnnouncementRequest {
    CreateAnnouncementRequest {
        title: "t".to_string(),
        content: "c".to_string(),
        announcement_type: "系统公告".to_string(),
        pinned: false,
        effective_at: Some(10),
        expires_at: Some(20),
        audience: AnnouncementAudience::AllUsers,
    }
}

#[test]
fn announcement_validation() {
    assert_eq!(announcement().validate(), Ok(()));
    assert_eq!(CreateAnnouncementRequest { title: " ".to_string(), ..announcement() }.validate(), Err("公告标题不能为空".to_string()));
    assert_eq!(CreateAnnouncementRequest { content: "".to_string(), ..announcement() }.validate(), Err("公告内容不能为空".to_string()));
    assert_eq!(CreateAnnouncementRequest { announcement_type: "\n".to_string(), ..announcement() }.validate(), Err("公告类型不能为空".to_string()));
    assert_eq!(CreateAnnouncementRequest { expires_at: Some(10), ..announcement() }.validate(), Err("失效时间必须晚于生效时间".to_string()));
    assert_eq!(CreateAnnouncementRequest { effective_at: None, expires_at: Some(1), ..announcement() }.validate(), Ok(()));
}

fn item(status: AnnouncementStatus, effective_at: Option<i128>, expires_at: Option<i128>) -> AnnouncementItem {
    AnnouncementItem {
        announcement_id: 1,
        title: "t".to_string(),
        content: "c".to_string(),
        announcement_type: "k".to_string(),
        pinned: false,
        status,
        audience: AnnouncementAudience::AllUsers,
        creator_id: 2,
        creator_name: "n".to_string(),
        effective_at,
        expires_at,
        published_at: None,
        withdrawn_at: None,
        created_at: 0,
        updated_at: 0,
    }
}

#[test]
fn announcement_visibility() {
    assert!(item(AnnouncementStatus::Published, None, None).is_public_at(5));
    assert!(!item(AnnouncementStatus::Draft, None, None).is_public_at(5));
    assert!(item(AnnouncementStatus::Published, Some(5), Some(6)).is_public_at(5));
    assert!(!item(AnnouncementStatus::Published, Some(5), Some(6)).is_public_at(6));
    assert!(!item(AnnouncementStatus::Published, Some(7), None).is_public_at(6));
}

#[test]
fn announcement_storage() {
    for s in [AnnouncementStatus::Draft, AnnouncementStatus::Published, AnnouncementStatus::Withdrawn] {
        assert_eq!(announcement_status_from_str(announcement_status_as_str(&s)), s);
    }
    assert_eq!(announcement_status_as_str(&AnnouncementStatus::Withdrawn), "offline");
    let ids = AnnouncementAudience::UserIds(vec![1, 2]);
    let (kind, list) = announcement_audience_parts(&ids);
    assert_eq!(kind, "user_ids");
    assert_eq!(announcement_audience_from_parts(kind, list), ids);
    let (kind, list) = announcement_audience_parts(&AnnouncementAudience::AllUsers);
    assert_eq!((kind, list.len()), ("all_users", 0));
    assert_eq!(announcement_audience_from_parts("roles", vec![3]), AnnouncementAudience::AllUsers);
    let row = AnnouncementRow {
        announcement_id: 1,
        title: "t".to_string(),
        content: "c".to_string(),
        announcement_type: "k".to_string(),
        pinned: true,
        status: "published".to_string(),
        audience_type: "user_ids".to_string(),
        audience_user_ids: vec![9],
        creator_id: 2,
        creator_name: "n".to_string(),
        effective_at: None,
        expires_at: None,
        published_at: Some(1),
        withdrawn_at: None,
        created_at: 0,
        updated_at: 1,
    };
    let it = row.into_item();
    assert_eq!(it.status, AnnouncementStatus::Published);
    assert_eq!(it.audience, AnnouncementAudience::UserIds(vec![9]));
    assert!(PostgresAnnouncementRepository::list_admin_announcements_sql().contains("from announcements a"));
}

#[test]
fn credentials_name_an_existing_user() {
    assert_eq!(post::user::verified_user(Some(9)), Ok(9));
    assert_eq!(post::user::verified_user(None), Err("invalid username or password".to_string()));
    assert_eq!(post::user::SELECT_USER_ID_BY_USERNAME, "select user_id from \"user\" where username = $1");
}
