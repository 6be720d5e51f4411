use post::home::{
    category_color, dense_workbench_home, dense_workbench_topics, filter_topics, home_sort_param,
    home_tab_param, home_time_param, home_topic_from_post_summary, parse_sort, parse_tab,
    parse_time_range, sidebar_cache_key, sort_topics, text_less, HomeCategory, HomeCategoryRow,
    HomeQuery, HomeSidebarSnapshot, HomeSort, HomeTab, HomeTag, HomeTagRow, HomeTimeRange,
    PostgresHomeRepository, TopicMarker,
};
use post::posts::PostSummary;
use post::search::{
    highlight, result_kind_rank, search_dense_workbench, sort_search_items, user_search_id,
    SearchPostRow, SearchQuery, SearchResultItem, SearchResultKind, SearchSort, SearchTagRow,
    SearchUserRow,
};

fn query() -> HomeQuery {
    HomeQuery { page_size: 12, ..HomeQuery::default() }
}

#[test]
fn home_query_normalization() {
    let q = HomeQuery {
        tab: HomeTab::Hot,
        category: Some("  all ".to_string()),
        tag: Some(" LePTos ".to_string()),
        time: HomeTimeRange::Week,
        sort: HomeSort::Views,
        page: 0,
        page_size: 500,
    }
    .normalized();
    assert_eq!(q.page, 1);
    assert_eq!(q.page_size, 50);
    assert_eq!(q.category, None);
    assert_eq!(q.tag, Some("leptos".to_string()));
    let again = q.clone().normalized();
    assert_eq!(again.page, q.page);
    assert_eq!(again.page_size, q.page_size);
    assert_eq!(again.category, q.category);
    let q2 = HomeQuery { page_size: 0, category: Some(" 问题 ".to_string()), ..query() }.normalized();
    assert_eq!(q2.page_size, 12);
    assert_eq!(q2.category, Some("问题".to_string()));
}

#[test]
fn demo_topics_and_filters() {
    let topics = dense_workbench_topics();
    assert_eq!(topics.len(), 12);
    assert_eq!(topics[0].id, "leptos-release");
    assert_eq!(topics[0].marker, TopicMarker::Pinned);
    assert_eq!(topics[0].last_reply.avatar_label, "张");
    let unanswered = filter_topics(topics.clone(), &HomeQuery { tab: HomeTab::Unanswered, ..query() });
    assert_eq!(unanswered.len(), 1);
    assert_eq!(unanswered[0].id, "component-library");
    let by_tag = filter_topics(topics.clone(), &HomeQuery { tag: Some("sqlx".to_string()), ..query() });
    let ids: Vec<&str> = by_tag.iter().map(|t| t.id.as_str()).collect();
    assert_eq!(ids, vec!["fullstack-guide", "server-function-sqlx"]);
    let few = filter_topics(topics.clone(), &HomeQuery { page_size: 3, ..query() });
    assert_eq!(few.len(), 3);
    assert!(filter_topics(topics, &HomeQuery::default()).is_empty());
}

#[test]
fn topics_sort_stably() {
    let mut topics = dense_workbench_topics();
    sort_topics(&mut topics, HomeSort::Hot, HomeTab::Latest);
    assert_eq!(topics[0].id, "fullstack-guide");
    assert_eq!(topics[1].id, "leptos-release");
    for w in topics.windows(2) {
        assert!(w[0].hot_score >= w[1].hot_score);
    }
    let mut by_replies = dense_workbench_topics();
    sort_topics(&mut by_replies, HomeSort::Replies, HomeTab::Latest);
    assert_eq!(by_replies[0].id, "fullstack-guide");
    let ids: Vec<&str> = by_replies.iter().filter(|t| t.reply_count == 3).map(|t| t.id.as_str()).collect();
    assert_eq!(ids, vec!["rules", "markdown-highlight"]);
    let mut unchanged = dense_workbench_topics();
    sort_topics(&mut unchanged, HomeSort::LastReply, HomeTab::Latest);
    assert_eq!(unchanged, dense_workbench_topics());
    assert!(text_less("1.1k", "163"));
    assert!(!text_less("a", "a"));
}

#[test]
fn demo_home_page() {
    let home = dense_workbench_home(HomeQuery { page_size: 5, ..query() }, false);
    assert_eq!(home.topics.len(), 5);
    assert_eq!(home.pagination.total, 342);
    assert_eq!(home.pagination.total_pages, 29);
    assert_eq!(home.pagination.label, "显示 1-5 / 342 个主题");
    assert_eq!(home.categories.len(), 6);
    assert_eq!(home.hot_tags[0].name, "leptos");
    assert_eq!(home.hot_tags[0].count, 132);
    assert_eq!(home.announcements.len(), 3);
    assert_eq!(home.active_authors[1].avatar_label, "D");
    assert!(!home.requires_login);
    let following = dense_workbench_home(HomeQuery { tab: HomeTab::Following, ..query() }, false);
    assert!(following.requires_login);
    assert!(following.topics.is_empty());
    let logged = dense_workbench_home(HomeQuery { tab: HomeTab::Following, ..query() }, true);
    assert!(!logged.requires_login);
    assert_eq!(logged.topics.len(), 12);
}

#[test]
fn sidebar_snapshot_round_trip() {
    let home = dense_workbench_home(query(), true);
    let snap = HomeSidebarSnapshot::from_home(&home);
    let mut other = dense_workbench_home(HomeQuery { tab: HomeTab::Hot, ..query() }, true);
    other.categories.clear();
    other.hot_tags.clear();
    let topics = other.topics.clone();
    snap.apply_to_home(&mut other);
    assert_eq!(other.categories, home.categories);
    assert_eq!(other.hot_tags, home.hot_tags);
    assert_eq!(other.announcements, home.announcements);
    assert_eq!(other.active_authors, home.active_authors);
    assert_eq!(other.topics, topics);
    assert_eq!(sidebar_cache_key(), "home:sidebar:v1");
}

#[test]
fn params_round_trip() {
    for tab in [HomeTab::Latest, HomeTab::Hot, HomeTab::Unanswered, HomeTab::Following] {
        assert_eq!(parse_tab(Some(home_tab_param(tab))), tab);
    }
    for time in [HomeTimeRange::All, HomeTimeRange::Today, HomeTimeRange::Week, HomeTimeRange::Month] {
        assert_eq!(parse_time_range(Some(home_time_param(time))), time);
    }
    for sort in [HomeSort::LastReply, HomeSort::Created, HomeSort::Replies, HomeSort::Views, HomeSort::Hot] {
        assert_eq!(parse_sort(Some(home_sort_param(sort))), sort);
    }
    assert_eq!(parse_tab(Some("bogus")), HomeTab::Latest);
    assert_eq!(parse_tab(None), HomeTab::Latest);
    assert_eq!(parse_sort(Some("HOT")), HomeSort::LastReply);
}

#[test]
fn category_colors() {
    assert_eq!(category_color("公告"), "blue");
    assert_eq!(category_color("站务"), "purple");
    assert_eq!(category_color("讨论"), "gray");
}

#[test]
fn topic_from_summary() {
    let mut s = PostSummary::sample();
    s.post_id = 0x10;
    s.comment_count = -3;
    let t = home_topic_from_post_summary(s, "128".to_string());
    assert_eq!(t.id, "00000000-0000-0000-0000-000000000010");
    assert_eq!(t.marker, TopicMarker::Unread);
    assert_eq!(t.category.name, "Rust");
    assert_eq!(t.category.color, "gray");
    assert_eq!(t.tags.len(), 2);
    assert_eq!(t.tags[1].name, "SQLx");
    assert_eq!(t.tags[1].count, 0);
    assert_eq!(t.reply_count, 0);
    assert_eq!(t.view_count_label, "128");
    assert_eq!(t.last_reply.avatar_label, "m");
    assert_eq!(t.last_reply.time_label, "草稿");
    assert_eq!(t.hot_score, 128 - 60 + 190 + 40);
    let mut p = PostSummary::sample();
    p.category_name = None;
    p.published_at = Some(1);
    p.author_name = String::new();
    let t2 = home_topic_from_post_summary(p, "x".to_string());
    assert_eq!(t2.category.name, "讨论");
    assert_eq!(t2.last_reply.time_label, "已发布");
    assert_eq!(t2.last_reply.avatar_label, "P");
    assert_eq!(t2.reply_count, 6);
}

#[test]
fn stored_rows_become_sidebar_entries() {
    let c = HomeCategory::from_row(HomeCategoryRow { name: "教程".to_string(), count: -5, color: "green".to_string() });
    assert_eq!(c.count, 0);
    let t = HomeTag::from_row(HomeTagRow { name: "rust".to_string(), count: 61 });
    assert_eq!(t.count, 61);
    let big = HomeTag::from_row(HomeTagRow { name: "x".to_string(), count: (1i64 << 32) + 7 });
    assert_eq!(big.count, 7);
    assert!(PostgresHomeRepository::hot_tags_sql().contains("limit $1"));
    assert!(PostgresHomeRepository::homepage_categories_sql().contains("from categories c"));
    assert!(PostgresHomeRepository::announcements_sql().contains("from announcements"));
    assert!(PostgresHomeRepository::active_authors_sql().contains("条回复"));
}

#[test]
fn highlight_marks_first_match() {
    assert_eq!(highlight("Hello Leptos", "leptos"), Some("Hello <mark>Leptos</mark>".to_string()));
    assert_eq!(highlight("abc", "  "), Some("abc".to_string()));
    assert_eq!(highlight("abc", "z"), Some("abc".to_string()));
    assert_eq!(highlight("在 Leptos 中", "leptos"), Some("在 <mark>Leptos</mark> 中".to_string()));
}

#[test]
fn highlight_undefined_where_slicing_would_fail() {
    // 'İ' lower-cases to two characters, which shifts byte offsets.
    assert_eq!(highlight("İx", "x"), None);
}

#[test]
fn user_search_ids() {
    assert_eq!(user_search_id("DreamMao"), "dreammao");
    assert_eq!(user_search_id("张晨"), "u-5f20-6668");
}

fn scores() -> Vec<i64> {
    vec![1200, 980, 876, 745, 612]
}

#[test]
fn search_demo_workbench() {
    let page = search_dense_workbench(SearchQuery { q: " leptos ".to_string(), ..SearchQuery::default() }, &scores()).unwrap();
    assert_eq!(page.query.q, "leptos");
    assert_eq!(page.query.page_size, 10);
    assert_eq!(page.suggestions, vec!["leptos server functions", "sqlx transaction", "axum middleware"]);
    assert!(page.total >= page.items.len());
    assert_eq!(page.items.len(), 10);
    assert_eq!(page.items[0].kind, SearchResultKind::Post);
    assert_eq!(page.items[0].url, "/posts/leptos-release");
    assert!(page.items[0].title_highlighted.contains("<mark>Leptos</mark>"));
    let tags = search_dense_workbench(
        SearchQuery { q: "axum".to_string(), sort: SearchSort::Hot, ..SearchQuery::default() },
        &scores(),
    )
    .unwrap();
    for w in tags.items.windows(2) {
        assert!(w[0].score >= w[1].score);
    }
    let authors = search_dense_workbench(SearchQuery { q: "dream".to_string(), ..SearchQuery::default() }, &scores()).unwrap();
    let user = authors.items.iter().find(|i| i.kind == SearchResultKind::User).unwrap();
    assert_eq!(user.score, 980);
    assert_eq!(user.url, "/users/dreammao");
    let filtered = search_dense_workbench(
        SearchQuery { category: Some("问题".to_string()), ..SearchQuery::default() },
        &scores(),
    )
    .unwrap();
    assert!(filtered.items.iter().all(|i| i.kind == SearchResultKind::Post && i.category_name.as_deref() == Some("问题")));
    let page2 = search_dense_workbench(SearchQuery { page: 2, page_size: 5, ..SearchQuery::default() }, &scores()).unwrap();
    assert_eq!(page2.items.len(), 5);
    let empty = search_dense_workbench(SearchQuery { page: 99, ..SearchQuery::default() }, &scores()).unwrap();
    assert!(empty.items.is_empty());
}

fn item(kind: SearchResultKind, title: &str, score: i64) -> SearchResultItem {
    SearchResultItem {
        id: title.to_string(),
        kind,
        title: title.to_string(),
        title_highlighted: title.to_string(),
        summary: String::new(),
        summary_highlighted: String::new(),
        category_name: None,
        tags: Vec::new(),
        author_name: String::new(),
        score,
        url: String::new(),
    }
}

#[test]
fn merged_results_order() {
    assert_eq!(result_kind_rank(SearchResultKind::Post), 0);
    assert_eq!(result_kind_rank(SearchResultKind::User), 2);
    let base = vec![
        item(SearchResultKind::User, "b", 5),
        item(SearchResultKind::Post, "z", 5),
        item(SearchResultKind::Tag, "a", 9),
        item(SearchResultKind::Post, "a", 5),
    ];
    let mut rel = base.clone();
    sort_search_items(&mut rel, SearchSort::Relevance);
    let order: Vec<(&str, i64)> = rel.iter().map(|i| (i.title.as_str(), i.score)).collect();
    assert_eq!(order, vec![("a", 9), ("a", 5), ("z", 5), ("b", 5)]);
    let mut latest = base.clone();
    sort_search_items(&mut latest, SearchSort::Latest);
    let kinds: Vec<SearchResultKind> = latest.iter().map(|i| i.kind).collect();
    assert_eq!(kinds, vec![SearchResultKind::Post, SearchResultKind::Post, SearchResultKind::Tag, SearchResultKind::User]);
    assert_eq!(latest[0].title, "a");
}

#[test]
fn stored_search_rows_become_entries() {
    let post = SearchPostRow {
        post_id: 1,
        title: "Axum middleware".to_string(),
        summary: "body".to_string(),
        author_name: "ZhangT".to_string(),
        category_name: Some("问题".to_string()),
        tags: vec!["axum".to_string()],
        score: 42,
        total_count: 1,
    }
    .into_item("axum")
    .unwrap();
    assert_eq!(post.id, "00000000-0000-0000-0000-000000000001");
    assert_eq!(post.url, "/posts/00000000-0000-0000-0000-000000000001");
    assert_eq!(post.title_highlighted, "<mark>Axum</mark> middleware");
    let tag = SearchTagRow { tag_id: 2, name: "rust".to_string(), post_count: -1, score: 3, total_count: 1 }
        .into_item("")
        .unwrap();
    assert_eq!(tag.title, "#rust");
    assert_eq!(tag.summary, "0 个主题使用该标签");
    assert_eq!(tag.url, "/search?tag=rust");
    assert_eq!(tag.author_name, "标签");
    let user = SearchUserRow {
        user_id: 3,
        nickname: "Skyline".to_string(),
        username: "sky".to_string(),
        bio: String::new(),
        post_count: 4,
        comment_count: 12,
        score: 7,
        total_count: 1,
    }
    .into_item("sky")
    .unwrap();
    assert_eq!(user.summary, "活跃作者，4 篇帖子，12 条评论");
    assert_eq!(user.title_highlighted, "<mark>Sky</mark>line");
    assert_eq!(user.url, "/users/00000000-0000-0000-0000-000000000003");
}

#[test]
fn search_links_carry_their_ordering() {
    let q = post::search::SearchQuery { q: "rust".to_string(), ..post::search::SearchQuery::default() };
    for sort in [post::search::SearchSort::Relevance, post::search::SearchSort::Latest, post::search::SearchSort::Hot] {
        let link = post::routes::search_href(&q, None, None, Some(sort));
        let param = link.split("&sort=").nth(1);
        assert_eq!(post::routes::parse_search_sort(param), sort);
    }
}
