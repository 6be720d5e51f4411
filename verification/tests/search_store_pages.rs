use post::search::{
    SearchPostRow, SearchQuery, SearchResultItem, SearchResultKind, SearchSort, SearchTagRow,
    SearchUserRow,
};
use post::home::{HomeQuery, HomeSort, HomeTab, HomeTimeRange};
use post::home_listing::plan_home_listing;
use post::search_store::{merge_search_page, plan_post_search, search_page_from_rows};

fn query(q: &str, page: usize, page_size: usize) -> SearchQuery {
    SearchQuery { q: q.to_string(), page, page_size, ..SearchQuery::default() }
}

fn item(kind: SearchResultKind, title: &str, score: i64) -> SearchResultItem {
    SearchResultItem {
        id: title.to_string(),
        kind,
        title: title.to_string(),
        title_highlighted: title.to_string(),
        summary: String::new(),
        summary_highlighted: String::new(),
        category_name: None,
        tags: vec![],
        author_name: String::new(),
        score,
        url: String::new(),
    }
}

#[test]
fn unfiltered_searches_fetch_every_page_up_to_the_requested_one() {
    let plan = plan_post_search(&query("rust", 2, 10));
    assert_eq!(plan.pattern, "%rust%");
    assert_eq!(plan.sort_key, "relevance");
    assert!(plan.include_sources);
    assert_eq!(plan.limit, 20);
    assert_eq!(plan.offset, 0);
}

#[test]
fn filtered_searches_fetch_only_their_page() {
    let mut q = query("", 3, 5);
    q.category = Some("编程".to_string());
    q.sort = SearchSort::Hot;
    let plan = plan_post_search(&q);
    assert_eq!(plan.pattern, "%%");
    assert_eq!(plan.sort_key, "hot");
    assert!(!plan.include_sources);
    assert_eq!(plan.limit, 5);
    assert_eq!(plan.offset, 10);
}

#[test]
fn merged_pages_are_ordered_then_cut() {
    let page = merge_search_page(
        query("", 1, 2),
        3,
        vec![item(SearchResultKind::Post, "p", 5)],
        4,
        vec![item(SearchResultKind::Tag, "t", 9)],
        5,
        vec![item(SearchResultKind::User, "u", 1)],
    )
    .unwrap();
    assert_eq!(page.total, 12);
    let titles: Vec<&str> = page.items.iter().map(|i| i.title.as_str()).collect();
    assert_eq!(titles, vec!["t", "p"]);
    assert_eq!(page.suggestions.len(), 3);
    let second = merge_search_page(
        query("", 2, 2),
        0,
        vec![item(SearchResultKind::Post, "p", 5)],
        0,
        vec![item(SearchResultKind::Tag, "t", 9)],
        0,
        vec![item(SearchResultKind::User, "u", 1)],
    )
    .unwrap();
    assert_eq!(second.items.len(), 1);
    assert_eq!(second.items[0].title, "u");
}

#[test]
fn latest_ordering_groups_posts_first() {
    let mut q = query("", 1, 10);
    q.sort = SearchSort::Latest;
    let page = merge_search_page(
        q,
        1,
        vec![item(SearchResultKind::Post, "p", 1)],
        1,
        vec![item(SearchResultKind::Tag, "t", 9)],
        1,
        vec![],
    )
    .unwrap();
    assert_eq!(page.items[0].title, "p");
    assert_eq!(page.items[1].title, "t");
}

#[test]
fn totals_that_overflow_give_no_page() {
    let page = merge_search_page(query("", 1, 2), usize::MAX, vec![], 1, vec![], 0, vec![]);
    assert!(page.is_none());
}

#[test]
fn filtered_pages_keep_the_post_rows() {
    let mut q = query("rust", 1, 10);
    q.tag = Some("async".to_string());
    let rows = vec![SearchPostRow {
        post_id: 1,
        title: "Rust 异步".to_string(),
        summary: "tokio".to_string(),
        author_name: "a".to_string(),
        category_name: None,
        tags: vec!["async".to_string()],
        score: 3,
        total_count: 7,
    }];
    let tag_rows = vec![SearchTagRow { tag_id: 2, name: "rust".to_string(), post_count: 1, score: 9, total_count: 1 }];
    let page = search_page_from_rows(q, rows, tag_rows, Vec::<SearchUserRow>::new()).unwrap();
    assert_eq!(page.total, 7);
    assert_eq!(page.items.len(), 1);
    assert_eq!(page.items[0].title_highlighted, "<mark>Rust</mark> 异步");
    assert_eq!(page.items[0].url, "/posts/00000000-0000-0000-0000-000000000001");
}

#[test]
fn unfiltered_pages_merge_all_rows() {
    let rows = vec![SearchPostRow {
        post_id: 1,
        title: "Rust".to_string(),
        summary: String::new(),
        author_name: "a".to_string(),
        category_name: None,
        tags: vec![],
        score: 3,
        total_count: 1,
    }];
    let tag_rows = vec![SearchTagRow { tag_id: 2, name: "rust".to_string(), post_count: 1, score: 9, total_count: -1 }];
    let user_rows = vec![SearchUserRow {
        user_id: 3,
        nickname: "r".to_string(),
        username: "r".to_string(),
        bio: String::new(),
        post_count: 0,
        comment_count: 0,
        score: 1,
        total_count: 2,
    }];
    let page = search_page_from_rows(query("", 1, 10), rows, tag_rows, user_rows).unwrap();
    assert_eq!(page.total, 3);
    let kinds: Vec<SearchResultKind> = page.items.iter().map(|i| i.kind).collect();
    assert_eq!(kinds, vec![SearchResultKind::Tag, SearchResultKind::Post, SearchResultKind::User]);
}

#[test]
fn home_listings_count_back_from_now() {
    let mut q = HomeQuery::default();
    q.tab = HomeTab::Hot;
    q.sort = HomeSort::Views;
    q.time = HomeTimeRange::Week;
    q.page = 3;
    q.page_size = 10;
    q.tag = Some(" Rust ".to_string());
    let now: i128 = 1_700_000_000_000_000_000;
    let plan = plan_home_listing(q, now);
    assert_eq!(plan.limit, 10);
    assert_eq!(plan.offset, 20);
    assert_eq!(plan.tab_key, "hot");
    assert_eq!(plan.sort_key, "hot");
    assert_eq!(plan.since, Some(now - 7 * 86_400_000_000_000));
    assert_eq!(plan.query.tag, Some("rust".to_string()));
    let mut latest = HomeQuery::default();
    latest.sort = HomeSort::Replies;
    latest.page = 0;
    let plan = plan_home_listing(latest, now);
    assert_eq!(plan.tab_key, "latest");
    assert_eq!(plan.sort_key, "replies");
    assert_eq!(plan.offset, 0);
    assert_eq!(plan.limit, 12);
    assert_eq!(plan.since, None);
}
