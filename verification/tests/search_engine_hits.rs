use post::search::{SearchQuery, SearchResultKind};
use post::search_hits::{
    first_highlight, parse_post_search_response, parse_search_hit, HitSource, SearchHit, SearchHits,
    SearchResponse,
};

fn query(q: &str) -> SearchQuery {
    SearchQuery { q: q.to_string(), ..SearchQuery::default() }
}

fn empty_source(kind: Option<&str>) -> HitSource {
    HitSource {
        kind: kind.map(ToString::to_string),
        title: None,
        summary: None,
        category_name: None,
        tags: None,
        author_name: None,
        author_id: None,
        hot_score: None,
        name: None,
        post_count: None,
        user_id: None,
        nickname: None,
        username: None,
        bio: None,
        comment_count: None,
    }
}

fn post_hit() -> SearchHit {
    let mut src = empty_source(None);
    src.title = Some("Rust 入门".to_string());
    src.summary = Some("Learn Rust fast".to_string());
    src.category_name = Some("编程".to_string());
    src.tags = Some(vec!["rust".to_string()]);
    src.author_id = Some("u-1".to_string());
    SearchHit {
        id: Some("p-1".to_string()),
        score: Some(7),
        source: Some(src),
        highlights: vec![("title".to_string(), "<mark>Rust</mark> 入门".to_string())],
    }
}

#[test]
fn post_hits_keep_engine_highlights_and_fill_the_rest() {
    let item = parse_search_hit(&post_hit(), &query("rust")).unwrap().unwrap();
    assert_eq!(item.kind, SearchResultKind::Post);
    assert_eq!(item.id, "p-1");
    assert_eq!(item.title_highlighted, "<mark>Rust</mark> 入门");
    assert_eq!(item.summary_highlighted, "Learn <mark>Rust</mark> fast");
    assert_eq!(item.author_name, "u-1");
    assert_eq!(item.score, 7);
    assert_eq!(item.url, "/posts/p-1");
    assert_eq!(item.tags, vec!["rust".to_string()]);
    assert_eq!(item.category_name, Some("编程".to_string()));
}

#[test]
fn post_hits_prefer_the_stored_hot_score() {
    let mut hit = post_hit();
    if let Some(src) = hit.source.as_mut() {
        src.hot_score = Some(90);
        src.author_id = None;
    }
    let item = parse_search_hit(&hit, &query("")).unwrap().unwrap();
    assert_eq!(item.score, 90);
    assert_eq!(item.author_name, "未知用户");
    assert_eq!(item.summary_highlighted, "Learn Rust fast");
}

#[test]
fn tag_hits_count_their_posts() {
    let mut src = empty_source(Some("tag"));
    src.name = Some("async".to_string());
    src.post_count = Some(-3);
    let hit = SearchHit { id: None, score: None, source: Some(src), highlights: vec![] };
    let item = parse_search_hit(&hit, &query("ASYNC")).unwrap().unwrap();
    assert_eq!(item.kind, SearchResultKind::Tag);
    assert_eq!(item.title, "#async");
    assert_eq!(item.title_highlighted, "#<mark>async</mark>");
    assert_eq!(item.summary, "0 个主题使用该标签");
    assert_eq!(item.score, -3);
    assert_eq!(item.url, "/search?tag=async");
    assert_eq!(item.author_name, "标签");
}

#[test]
fn user_hits_score_their_activity() {
    let mut src = empty_source(Some("user"));
    src.user_id = Some("u-9".to_string());
    src.nickname = Some("小王".to_string());
    src.username = Some("wang".to_string());
    src.post_count = Some(2);
    src.comment_count = Some(3);
    let hit = SearchHit {
        id: None,
        score: None,
        source: Some(src.clone()),
        highlights: vec![("username".to_string(), "<mark>wang</mark>".to_string())],
    };
    let item = parse_search_hit(&hit, &query("wang")).unwrap().unwrap();
    assert_eq!(item.id, "u-9");
    assert_eq!(item.title, "小王");
    assert_eq!(item.title_highlighted, "<mark>wang</mark>");
    assert_eq!(item.summary, "活跃作者，2 篇帖子，3 条评论");
    assert_eq!(item.score, 55);
    assert_eq!(item.url, "/users/u-9");
    let mut with_bio = src;
    with_bio.bio = Some("写代码".to_string());
    with_bio.post_count = Some(i64::MAX);
    let overflowing = SearchHit { id: Some("u-9".to_string()), score: None, source: Some(with_bio.clone()), highlights: vec![] };
    assert!(parse_search_hit(&overflowing, &query("")).is_none());
    with_bio.post_count = Some(1);
    let ok = SearchHit { id: Some("u-9".to_string()), score: Some(4), source: Some(with_bio), highlights: vec![] };
    let item = parse_search_hit(&ok, &query("")).unwrap().unwrap();
    assert_eq!(item.summary, "写代码，1 篇帖子，3 条评论");
    assert_eq!(item.score, 4);
}

#[test]
fn malformed_hits_are_rejected() {
    let no_source = SearchHit { id: Some("x".to_string()), score: None, source: None, highlights: vec![] };
    assert_eq!(parse_search_hit(&no_source, &query("")), Some(Err("Elasticsearch hit 缺少 _source".to_string())));
    let no_name = SearchHit { id: None, score: None, source: Some(empty_source(Some("tag"))), highlights: vec![] };
    assert_eq!(parse_search_hit(&no_name, &query("")), Some(Err("Elasticsearch tag hit 缺少 name".to_string())));
    let no_user_id = SearchHit { id: None, score: None, source: Some(empty_source(Some("user"))), highlights: vec![] };
    assert_eq!(parse_search_hit(&no_user_id, &query("")), Some(Err("Elasticsearch user hit 缺少 _id".to_string())));
    let no_nickname = SearchHit { id: Some("u".to_string()), score: None, source: Some(empty_source(Some("user"))), highlights: vec![] };
    assert_eq!(
        parse_search_hit(&no_nickname, &query("")),
        Some(Err("Elasticsearch user hit 缺少 nickname".to_string()))
    );
    let no_id = SearchHit { id: None, score: None, source: Some(empty_source(Some("other"))), highlights: vec![] };
    assert_eq!(parse_search_hit(&no_id, &query("")), Some(Err("Elasticsearch hit 缺少 _id".to_string())));
}

#[test]
fn responses_become_pages() {
    let missing = parse_post_search_response(query(""), SearchResponse { hits: None });
    assert_eq!(missing, Some(Err("Elasticsearch 响应缺少 hits".to_string())));
    let no_array = parse_post_search_response(
        query(""),
        SearchResponse { hits: Some(SearchHits { total_value: Some(3), total_number: None, hits: None }) },
    );
    assert_eq!(no_array, Some(Err("Elasticsearch 响应缺少 hits.hits 数组".to_string())));
    let page = parse_post_search_response(
        query("rust"),
        SearchResponse {
            hits: Some(SearchHits { total_value: None, total_number: Some(12), hits: Some(vec![post_hit(), post_hit()]) }),
        },
    )
    .unwrap()
    .unwrap();
    assert_eq!(page.total, 12);
    assert_eq!(page.items.len(), 2);
    assert_eq!(page.suggestions[1], "sqlx transaction");
    let bad = SearchHit { id: None, score: None, source: None, highlights: vec![] };
    let stopped = parse_post_search_response(
        query(""),
        SearchResponse { hits: Some(SearchHits { total_value: None, total_number: None, hits: Some(vec![post_hit(), bad]) }) },
    );
    assert_eq!(stopped, Some(Err("Elasticsearch hit 缺少 _source".to_string())));
}

#[test]
fn first_highlight_takes_the_named_field() {
    let hit = SearchHit {
        id: None,
        score: None,
        source: None,
        highlights: vec![("bio".to_string(), "a".to_string()), ("title".to_string(), "b".to_string())],
    };
    assert_eq!(first_highlight(&hit, "title"), Some("b".to_string()));
    assert_eq!(first_highlight(&hit, "name"), None);
}
