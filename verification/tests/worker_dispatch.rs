use post::integrations::{action_kind, CacheInvalidation, IntegrationAction, IntegrationOutboxRow};
use post::worker::{cache_steps, dispatch_row, is_search_delete, CacheStep, OutboxDispatch};

fn row(kind: &str) -> IntegrationOutboxRow {
    IntegrationOutboxRow {
        outbox_id: 7,
        action_kind: kind.to_string(),
        subject: "s".to_string(),
        aggregate_id: None,
        payload: "{}".to_string(),
        status: "pending".to_string(),
        attempts: 0,
        last_error: None,
        created_at: 0,
        processed_at: None,
    }
}

#[test]
fn rows_go_to_the_handler_of_their_kind() {
    assert_eq!(dispatch_row(&row("cache_invalidate")), Ok(OutboxDispatch::CacheInvalidate));
    assert_eq!(dispatch_row(&row("nats_publish")), Ok(OutboxDispatch::NatsPublish));
    assert_eq!(dispatch_row(&row("search_index")), Ok(OutboxDispatch::SearchIndex));
    assert_eq!(dispatch_row(&row("mail")), Err("未知 integration action 类型: mail".to_string()));
}

#[test]
fn recorded_actions_are_dispatchable() {
    let action = IntegrationAction::CacheInvalidate(CacheInvalidation {
        keys: vec!["home:sidebar".to_string()],
        reason: "post_published".to_string(),
    });
    let kind = action_kind(&action);
    assert_eq!(dispatch_row(&row(kind)), Ok(OutboxDispatch::CacheInvalidate));
}

#[test]
fn wildcard_keys_delete_what_they_match() {
    let steps = cache_steps(&vec!["home:*".to_string(), "post:1:detail".to_string()]);
    assert_eq!(
        steps,
        vec![CacheStep::DeleteMatching("home:*".to_string()), CacheStep::Delete("post:1:detail".to_string())]
    );
    assert!(cache_steps(&vec![]).is_empty());
}

#[test]
fn search_payloads_tell_deletions_apart() {
    assert!(is_search_delete(Some("search_delete")));
    assert!(!is_search_delete(Some("search_upsert")));
    assert!(!is_search_delete(None));
}
