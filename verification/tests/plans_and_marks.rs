use post::search::{SearchQuery, SearchSort};
use post::search_hits::{plan_engine_search, TermFilter};
use post::worker::{after_mark, mark_for, IntegrationDrainReport, OutboxMark};

#[test]
fn engine_plan_with_filters_and_text() {
    let q = SearchQuery {
        q: "axum".to_string(),
        category: Some("教程".to_string()),
        tag: Some("sqlx".to_string()),
        sort: SearchSort::Hot,
        page: 1,
        page_size: 10,
    };
    let plan = plan_engine_search(&q);
    assert_eq!(
        plan.filters,
        vec![
            TermFilter { field: "category_name".to_string(), value: "教程".to_string() },
            TermFilter { field: "tags".to_string(), value: "sqlx".to_string() },
        ]
    );
    assert_eq!(plan.text.as_deref(), Some("axum"));
    assert_eq!(plan.sort_fields, vec!["hot_score".to_string(), "_score".to_string()]);
}

#[test]
fn engine_plan_without_text_matches_everything() {
    let q = SearchQuery { tag: Some("rust".to_string()), sort: SearchSort::Latest, ..SearchQuery::default() };
    let plan = plan_engine_search(&q);
    assert_eq!(plan.filters, vec![TermFilter { field: "tags".to_string(), value: "rust".to_string() }]);
    assert_eq!(plan.text, None);
    assert_eq!(plan.sort_fields, vec!["published_at".to_string(), "_score".to_string()]);
    let relevance = plan_engine_search(&SearchQuery::default());
    assert!(relevance.filters.is_empty());
    assert_eq!(relevance.sort_fields, vec!["_score".to_string()]);
}

#[test]
fn drain_marks_follow_handler_outcomes() {
    assert_eq!(mark_for(7, Ok(()), 5), OutboxMark::Processed { outbox_id: 7 });
    assert_eq!(
        mark_for(8, Err("nats down".to_string()), 5),
        OutboxMark::Failed { outbox_id: 8, last_error: "nats down".to_string(), max_attempts: 5 }
    );
}

#[test]
fn drain_pass_counts_marks_and_stops_on_store_errors() {
    let start = IntegrationDrainReport::start(2);
    let done = mark_for(1, Ok(()), 3);
    let report = after_mark(start, &done, Ok(())).unwrap();
    assert_eq!(report, IntegrationDrainReport { scanned: 2, processed: 1, failed: 0 });
    let failed = mark_for(2, Err("boom".to_string()), 3);
    let report = after_mark(report, &failed, Ok(())).unwrap();
    assert_eq!(report, IntegrationDrainReport { scanned: 2, processed: 1, failed: 1 });
    let stopped = after_mark(IntegrationDrainReport::start(1), &done, Err("pool closed".to_string()));
    assert_eq!(stopped, Err("pool closed".to_string()));
}
