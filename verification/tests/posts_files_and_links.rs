use post::auth::{PostgresAuthRepository, SessionAuthRow, UserAuthRow};
use post::config::{RuntimeConfig, RustfsObjectStoreConfig};
use post::demo_seed::{demo_html, demo_markdown, demo_slug, demo_uuid};
use post::error::ForumError;
use post::events::ForumEvent;
use post::files::{
    append_markdown_image, build_file_asset_at, build_storage_key, is_allowed_image_mime,
    sanitize_filename, usage_as_str, FileAsset, FileBinaryUploadRequest, FileUploadRequest, FileUsage,
    ASSET_BUCKET, MAX_IMAGE_SIZE_BYTES,
};
use post::forms::{optional_uuid, plan_comment_submission, plan_post_submission, PostSubmission};
use post::home::{dense_workbench_topics, HomeQuery, HomeSort, HomeTab, HomeTimeRange};
use post::integrations::{
    action_aggregate_id, action_kind, action_subject, announcement_published_actions,
    post_comment_changed_actions, post_published_actions, post_search_document, IntegrationAction,
    SearchIndexMutation,
};
use post::notifications::{
    notification_demo_center, notification_type_as_str, notification_type_from_str, unread_count,
    Notification, NotificationPush, NotificationRow, NotificationType,
};
use post::posts::{
    post_status_as_str, post_status_from_str, stable_slug, PostDetail, PostDetailRow, PostStatus,
    PostSummary, PostgresPostRepository,
};
use post::routes::{
    home_href, home_query_from_params, parse_search_sort, parse_usize, post_id_from_params,
    search_href, search_query_from_params, user_id_from_params, HomeQueryParams, SearchQueryParams,
};
use post::search::{SearchQuery, SearchSort};
use post::site::{api_route_inventory, home_seed_text, primary_routes, ui_feature_inventory};
use post::worker::{drain_report, IntegrationDrainReport, IntegrationOutboxWorker};

fn upload(name: &str, size: i64, mime: &str, hash: &str) -> FileUploadRequest {
    FileUploadRequest {
        original_filename: name.to_string(),
        file_size: size,
        mime_type: mime.to_string(),
        content_hash: hash.to_string(),
        usage: FileUsage::MarkdownImage,
    }
}

#[test]
fn upload_validation() {
    assert_eq!(MAX_IMAGE_SIZE_BYTES, 5 * 1024 * 1024);
    assert_eq!(upload("a.png", 10, "image/png", "h").validate(), Ok(()));
    assert_eq!(upload(" ", 10, "image/png", "h").validate(), Err("文件名不能为空".to_string()));
    assert_eq!(upload("a", 0, "image/png", "h").validate(), Err("文件大小必须大于 0".to_string()));
    assert_eq!(upload("a", MAX_IMAGE_SIZE_BYTES + 1, "image/png", "h").validate(), Err("图片大小不能超过 5MB".to_string()));
    assert_eq!(upload("a", MAX_IMAGE_SIZE_BYTES, "image/gif", "h").validate(), Err("仅支持 PNG、JPEG、WebP 图片".to_string()));
    assert_eq!(upload("a", 1, "image/webp", " ").validate(), Err("文件 hash 不能为空".to_string()));
    assert!(is_allowed_image_mime("image/jpeg"));
    assert!(!is_allowed_image_mime("IMAGE/PNG"));
}

#[test]
fn storage_keys_and_assets() {
    assert_eq!(sanitize_filename("  my photo(1).png "), "my-photo-1-.png");
    let req = FileUploadRequest { usage: FileUsage::Avatar, ..upload("a b.png", 3, "image/png", "ab-cd_ef0123456789xyz") };
    assert_eq!(build_storage_key(&req), "avatars/abcdef012345/a-b.png");
    assert_eq!(usage_as_str(&FileUsage::CoverImage), "cover_image");
    let asset: FileAsset = build_file_asset_at(1, 2, req, 99);
    assert_eq!(asset.bucket, ASSET_BUCKET);
    assert_eq!(asset.public_url, "/uploads/avatars/abcdef012345/a-b.png");
    assert_eq!(asset.markdown_image, "![a-b.png](/uploads/avatars/abcdef012345/a-b.png)");
    assert_eq!(asset.uploaded_at, 99);
    let mut md = "intro".to_string();
    append_markdown_image(&mut md, &asset);
    assert_eq!(md, "intro\n![a-b.png](/uploads/avatars/abcdef012345/a-b.png)\n");
    let mut empty = String::new();
    append_markdown_image(&mut empty, &asset);
    assert_eq!(empty, "![a-b.png](/uploads/avatars/abcdef012345/a-b.png)\n");
}

#[test]
fn binary_uploads() {
    let req = FileBinaryUploadRequest {
        original_filename: "x.png".to_string(),
        mime_type: "image/png".to_string(),
        content_base64: "YWJj".to_string(),
        usage: FileUsage::CoverImage,
    };
    let described = req.to_upload_request().unwrap();
    assert_eq!(described.file_size, 3);
    assert_eq!(described.content_hash, "ba7816bf8f01cfea414140de5dae2223b00361a396177a9cb410ff61f20015ad");
    let object = req.to_object_upload().unwrap();
    assert_eq!(object.bucket, "post-assets");
    assert_eq!(object.storage_key, "covers/ba7816bf8f01/x.png");
    assert_eq!(object.bytes, b"abc".to_vec());
    assert_eq!(object.content_type, "image/png");
    let empty = FileBinaryUploadRequest { content_base64: "".to_string(), ..req_clone(&req) };
    assert_eq!(empty.to_upload_request(), Err("文件大小必须大于 0".to_string()));
    let gif = FileBinaryUploadRequest { mime_type: "image/gif".to_string(), ..req_clone(&req) };
    assert_eq!(gif.to_object_upload().unwrap_err(), "仅支持 PNG、JPEG、WebP 图片");
    let bad = FileBinaryUploadRequest { content_base64: "@@@".to_string(), ..req_clone(&req) };
    assert_eq!(bad.to_object_upload().unwrap_err(), "图片内容不是有效的 base64");
}

fn req_clone(r: &FileBinaryUploadRequest) -> FileBinaryUploadRequest {
    FileBinaryUploadRequest {
        original_filename: r.original_filename.clone(),
        mime_type: r.mime_type.clone(),
        content_base64: r.content_base64.clone(),
        usage: r.usage.clone(),
    }
}

#[test]
fn post_status_texts() {
    for s in [PostStatus::Draft, PostStatus::Published, PostStatus::Offline, PostStatus::Deleted] {
        assert_eq!(post_status_from_str(post_status_as_str(&s)), s);
    }
    assert_eq!(post_status_from_str("PUBLISHED"), PostStatus::Draft);
    assert!(PostgresPostRepository::published_summaries_sql().contains("select"));
    assert!(PostgresPostRepository::post_detail_sql().contains("select"));
}

#[test]
fn slugs() {
    assert_eq!(stable_slug("category", "Rust 教程!", 5), "rust");
    assert_eq!(stable_slug("category", "教程", 5), "category-00000000-0000-0000-0000-000000000005");
    assert_eq!(stable_slug("tag", "--Server  Functions--", 1), "server-functions");
    assert_eq!(demo_slug("tag", "Leptos 教程"), "tag-l-e-p-t-o-s-6559-7a0b");
    assert_eq!(demo_slug("category", "  "), "category-demo");
    assert_eq!(demo_uuid(0x7100, 3), 0x9000_0000_0000_0000_0000_0000_0000_7103);
    let t = &dense_workbench_topics()[0];
    assert_eq!(demo_markdown(t), format!("# {}\n\n{}\n", t.title, t.summary));
    assert_eq!(demo_html(t), format!("<h1>{}</h1><p>{}</p>", t.title, t.summary));
}

fn detail(status: PostStatus) -> PostDetail {
    PostDetail {
        summary: PostSummary::sample(),
        markdown: "# md".to_string(),
        sanitized_html: "<h1>md</h1>".to_string(),
        status,
        liked_by_me: false,
        favorited_by_me: false,
        following_author: false,
    }
}

#[test]
fn post_rows() {
    let d: PostDetail = PostDetailRow {
        post_id: 1,
        title: "t".to_string(),
        summary: "s".to_string(),
        author_id: 2,
        author_name: "a".to_string(),
        author_avatar_url: None,
        category_name: None,
        tags: vec!["x".to_string()],
        view_count: 1,
        comment_count: 2,
        like_count: 3,
        favorite_count: 4,
        published_at: None,
        markdown: "m".to_string(),
        sanitized_html: "h".to_string(),
        status: "deleted".to_string(),
        pinned: false,
        locked: true,
    }
    .into();
    assert_eq!(d.status, PostStatus::Deleted);
    assert!(!d.liked_by_me);
    assert_eq!(d.summary.tags, vec!["x".to_string()]);
}

#[test]
fn integration_actions() {
    let post = detail(PostStatus::Published);
    let actions = post_published_actions(&post);
    assert_eq!(actions.len(), 3);
    assert_eq!(action_kind(&actions[0]), "cache_invalidate");
    assert_eq!(action_subject(&actions[0]), "post.published");
    assert_eq!(action_aggregate_id(&actions[0]), None);
    assert_eq!(action_subject(&actions[1]), "post.published");
    assert_eq!(action_aggregate_id(&actions[1]), Some(0));
    assert_eq!(action_subject(&actions[2]), "search.posts.upsert");
    let draft_doc = post_search_document(&detail(PostStatus::Draft));
    assert_eq!(draft_doc.index, "posts-drafts");
    let changed = post_comment_changed_actions(&post, 77);
    match &changed[0] {
        IntegrationAction::CacheInvalidate(c) => {
            assert_eq!(c.keys[0], "post:00000000-0000-0000-0000-000000000000:comments");
            assert_eq!(c.keys[1], "post:00000000-0000-0000-0000-000000000000:detail");
            assert_eq!(c.reason, "comment.changed");
        }
        _ => panic!("expected an invalidation"),
    }
    assert_eq!(action_aggregate_id(&changed[1]), Some(77));
    let delete = IntegrationAction::SearchIndex(SearchIndexMutation::Delete { index: "posts".to_string(), document_id: 5 });
    assert_eq!(action_subject(&delete), "search.posts.delete");
    assert_eq!(action_kind(&delete), "search_index");
    assert_eq!(action_aggregate_id(&delete), Some(5));
}

#[test]
fn announcement_actions() {
    let a = post::announcements::AnnouncementItem {
        announcement_id: 9,
        title: "公告".to_string(),
        content: "c".to_string(),
        announcement_type: "k".to_string(),
        pinned: false,
        status: post::announcements::AnnouncementStatus::Published,
        audience: post::announcements::AnnouncementAudience::AllUsers,
        creator_id: 1,
        creator_name: "n".to_string(),
        effective_at: None,
        expires_at: None,
        published_at: None,
        withdrawn_at: None,
        created_at: 0,
        updated_at: 0,
    };
    let actions = announcement_published_actions(&a);
    assert_eq!(actions.len(), 2);
    assert_eq!(action_kind(&actions[1]), "nats_publish");
    assert_eq!(action_aggregate_id(&actions[1]), Some(9));
}

#[test]
fn drain_reports() {
    let r = drain_report(&vec![true, false, true]);
    assert_eq!(r, IntegrationDrainReport { scanned: 3, processed: 2, failed: 1 });
    let mut manual = IntegrationDrainReport::start(2);
    manual.record(false);
    manual.record(false);
    assert_eq!(manual, IntegrationDrainReport { scanned: 2, processed: 0, failed: 2 });
    let w = IntegrationOutboxWorker::new("handler", 50, 5);
    assert_eq!(*w.handler(), "handler");
    assert_eq!(w.batch_size(), 50);
    assert_eq!(w.max_attempts(), 5);
}

#[test]
fn notifications() {
    let center = notification_demo_center();
    assert_eq!(center.recipient_id, 1);
    assert_eq!(center.unread_count, 1);
    assert_eq!(center.items.len(), 2);
    assert_eq!(center.items[1].read_at, Some(center.items[1].created_at));
    assert_eq!(unread_count(&center.items), 1);
    assert_eq!(unread_count(&[]), 0);
    for t in [
        NotificationType::FollowedUserPosted,
        NotificationType::PostCommented,
        NotificationType::CommentReplied,
        NotificationType::PostLiked,
        NotificationType::CommentLiked,
        NotificationType::Announcement,
        NotificationType::AdminMessage,
    ] {
        assert_eq!(notification_type_from_str(notification_type_as_str(&t)), t);
    }
    assert_eq!(notification_type_from_str("unknown"), NotificationType::PostCommented);
    let n: Notification = NotificationRow {
        notification_id: 1,
        recipient_id: 2,
        actor_id: None,
        notification_type: "post_liked".to_string(),
        title: "t".to_string(),
        body: "b".to_string(),
        read_at: None,
        created_at: 4,
    }
    .into();
    assert_eq!(n.notification_type, NotificationType::PostLiked);
    let push: NotificationPush = (55u128, n).into();
    assert_eq!(push.push_id, 55);
    assert_eq!(push.notification_id, 1);
    assert_eq!(push.created_at, 4);
}

#[test]
fn link_building() {
    let q = HomeQuery::default();
    assert_eq!(home_href(&q, None, None, None, None, None, None), "/?tab=latest");
    assert_eq!(
        home_href(&q, Some(HomeTab::Hot), Some(Some(" 教程 ")), Some(Some("Rust")), Some(HomeTimeRange::Week), Some(HomeSort::Views), Some(3)),
        "/?tab=hot&category=教程&tag=rust&time=week&sort=views&page=3"
    );
    assert_eq!(home_href(&q, None, Some(Some("all")), None, None, None, Some(0)), "/?tab=latest");
    let sq = SearchQuery { q: "leptos".to_string(), category: Some("问题".to_string()), ..SearchQuery::default() };
    assert_eq!(search_href(&sq, None, None, None), "/search?q=leptos&category=问题");
    assert_eq!(search_href(&sq, Some("教程"), Some("axum"), Some(SearchSort::Hot)), "/search?q=leptos&category=教程&tag=axum&sort=hot");
}

#[test]
fn params_become_queries() {
    assert_eq!(parse_usize("42"), Some(42));
    assert_eq!(parse_usize("+7"), Some(7));
    assert_eq!(parse_usize("+"), None);
    assert_eq!(parse_usize(" 1"), None);
    assert_eq!(parse_usize("-1"), None);
    assert_eq!(parse_usize("18446744073709551616"), None);
    assert_eq!(parse_usize("18446744073709551615"), Some(18446744073709551615));
    let h = home_query_from_params(Some("hot".into()), Some(" 问题 ".into()), None, Some("month".into()), Some("views".into()), Some("x".into()), Some("100".into()));
    assert_eq!(h.tab, HomeTab::Hot);
    assert_eq!(h.category, Some("问题".to_string()));
    assert_eq!(h.time, HomeTimeRange::Month);
    assert_eq!(h.sort, HomeSort::Views);
    assert_eq!(h.page, 1);
    assert_eq!(h.page_size, 50);
    let s = search_query_from_params(None, None, Some(" SQLX ".into()), Some("latest".into()), Some("2".into()), None);
    assert_eq!(s.q, "");
    assert_eq!(s.tag, Some("sqlx".to_string()));
    assert_eq!(s.sort, SearchSort::Latest);
    assert_eq!(s.page, 2);
    assert_eq!(s.page_size, 10);
    assert_eq!(parse_search_sort(Some("hot")), SearchSort::Hot);
    assert_eq!(parse_search_sort(Some("x")), SearchSort::Relevance);
    let hp = HomeQuery::from_params(HomeQueryParams { tab: None, category: None, tag: None, time: Some("today".into()), sort: None, page: None, page_size: None, user_id: None });
    assert_eq!((hp.time, hp.page, hp.page_size), (HomeTimeRange::Today, 1, 12));
    let sp = SearchQuery::from_params(SearchQueryParams { q: None, category: None, tag: None, sort: Some("latest".into()), page: Some(0), page_size: None });
    assert_eq!((sp.q.as_str(), sp.sort, sp.page, sp.page_size), ("", SearchSort::Latest, 0, 10));
    assert_eq!(user_id_from_params(Some("42".into()), true), "me");
    assert_eq!(user_id_from_params(None, false), "");
    assert_eq!(post_id_from_params(Some("p".into())), "p");
}

#[test]
fn form_plans() {
    assert_eq!(optional_uuid("  "), Ok(None));
    assert_eq!(optional_uuid(" 00000000-0000-0000-0000-00000000000a "), Ok(Some(10)));
    assert!(optional_uuid("zz").is_err());
    let draft = plan_post_submission("", "T".into(), "S".into(), " 教程 ", "a, b,", "M".into(), "draft").unwrap();
    match draft {
        PostSubmission::Draft(d) => {
            assert_eq!(d.post_id, None);
            assert_eq!(d.category_name, Some("教程".to_string()));
            assert_eq!(d.tag_names, vec!["a".to_string(), "b".to_string()]);
        }
        _ => panic!("expected a draft"),
    }
    let update = plan_post_submission("00000000-0000-0000-0000-000000000001", "T".into(), "S".into(), " ", "", "M".into(), "publish").unwrap();
    match update {
        PostSubmission::Update(id, u) => {
            assert_eq!(id, 1);
            assert!(u.publish);
            assert_eq!(u.category_name, None);
        }
        _ => panic!("expected an update"),
    }
    assert!(matches!(plan_post_submission("", "T".into(), "S".into(), "", "", "M".into(), "publish").unwrap(), PostSubmission::Create(_)));
    assert!(plan_post_submission("bad", "T".into(), "S".into(), "", "", "M".into(), "draft").is_err());
    let c = plan_comment_submission("00000000-0000-0000-0000-000000000002", "", "hi".into()).unwrap();
    assert_eq!((c.post_id, c.parent_comment_id, c.content.as_str()), (2, None, "hi"));
    assert!(plan_comment_submission("x", "", "hi".into()).is_err());
}

#[test]
fn site_inventory() {
    assert_eq!(primary_routes().len(), 16);
    assert_eq!(primary_routes()[0], "/");
    assert_eq!(api_route_inventory().len(), 67);
    assert_eq!(api_route_inventory()[43], "/ws/notifications/{user_id}");
    assert!(home_seed_text().starts_with("Post Forum 首页"));
    assert!(ui_feature_inventory().ends_with("系统统计"));
}

#[test]
fn events_errors_and_accounts() {
    assert_eq!(ForumEvent::PostDeleted { post_id: 1, actor_id: 2 }.subject(), "post.deleted");
    assert_eq!(ForumEvent::SearchPostIndex { post_id: 1, title: "t".into(), body: "b".into(), tags: vec![] }.subject(), "search.post.index");
    assert_eq!(ForumError::Conflict("重复".into()).message(), "请求冲突: 重复");
    assert_eq!(ForumError::Unauthorized.message(), "请先登录");
    assert_eq!(ForumError::Validation("x".into()).message(), "请求数据不合法: x");
    let row = UserAuthRow {
        user_id: 1,
        username: "u".into(),
        password_hash: "h".into(),
        nickname: "n".into(),
        avatar_url: Some("a".into()),
        status: "disabled".into(),
        is_admin: true,
    };
    assert!(row.is_disabled());
    assert_eq!(row.session_user().avatar_url, Some("a".to_string()));
    let s = SessionAuthRow {
        session_id: 5,
        user_id: 1,
        username: "u".into(),
        nickname: "n".into(),
        avatar_url: None,
        status: "active".into(),
        is_admin: false,
        expires_at: 9,
    };
    assert!(!s.is_disabled());
    assert_eq!(s.session().session_id, 5);
    assert_eq!(s.session().user.username, "u");
    assert!(PostgresAuthRepository::delete_session_sql().contains("delete from sessions"));
    assert!(PostgresAuthRepository::find_session_sql().contains("join users u"));
    let cfg = RuntimeConfig {
        database_url: "db".into(),
        redis_url: "r".into(),
        nats_url: "n".into(),
        elasticsearch_url: "e".into(),
        rustfs_endpoint: "http://rustfs".into(),
        rustfs_region: "us".into(),
        rustfs_bucket: "b".into(),
        rustfs_access_key: "k".into(),
        rustfs_secret_key: "s".into(),
        rustfs_force_path_style: true,
        integration_worker_enabled: false,
        integration_worker_batch_size: 10,
        integration_worker_max_attempts: 3,
        integration_worker_interval_millis: 1000,
    };
    let store = RustfsObjectStoreConfig::from_runtime_config(&cfg);
    assert_eq!(store.endpoint_url, "http://rustfs");
    assert!(store.force_path_style);
}

#[test]
fn seed_topics_are_written_with_their_derived_records() {
    let topics = dense_workbench_topics();
    let topic = &topics[2];
    let plan = post::demo_seed::seed_topic_plan(2, topic, 1234);
    let base: u128 = 0x9000_0000_0000_0000_0000_0000_0000_0000;
    assert_eq!(plan.author_id, base + 0x7100 + 2);
    assert_eq!(plan.category_id, base + 0x7200 + 2);
    assert_eq!(plan.post_id, base + 0x7300 + 2);
    assert_eq!(plan.username, "demo_home_author_2");
    assert_eq!(plan.nickname, topic.last_reply.author);
    assert_eq!(plan.is_admin, topic.last_reply.author == "管理员");
    assert_eq!(plan.published_at, 1_716_192_000_000_000_000 - 61 * 60_000_000_000);
    assert_eq!(plan.view_count, 1234);
    assert_eq!(plan.comment_count, topic.reply_count as i64);
    assert_eq!(plan.category_sort_order, 2);
    assert_eq!(plan.category_slug, demo_slug("category", &topic.category.name));
    assert_eq!(plan.tags.len(), topic.tags.len());
    for (j, tag) in plan.tags.iter().enumerate() {
        assert_eq!(tag.tag_id, base + 0x7400_0000 + 200 + j as u128);
        assert_eq!(tag.name, topic.tags[j].name);
        assert_eq!(tag.sort_order, j as i32);
        assert_eq!(tag.use_count, topic.tags[j].count as i64);
    }
    assert_eq!(plan.markdown, demo_markdown(topic));
}

#[test]
fn storage_keys_stay_in_their_folder() {
    let req = FileUploadRequest {
        original_filename: " ../etc/passwd ".to_string(),
        file_size: 1,
        mime_type: "image/png".to_string(),
        content_hash: "AB/cd:ef0123456789zz".to_string(),
        usage: FileUsage::MarkdownImage,
    };
    let key = build_storage_key(&req);
    assert_eq!(key, "markdown/ABcdef012345/..-etc-passwd");
    assert_eq!(key.matches('/').count(), 2);
}
