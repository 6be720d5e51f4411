use std::collections::HashSet;

use post::admin::{audit_entries_csv, AuditEntry};
use post::home::{HomeQuery, HomeSort, HomeTab, HomeTimeRange};
use post::search::{search_dense_workbench, SearchQuery, SearchResultKind, SearchSort};
use post::user_admin::{AuditContext, UpdateUserRolesRequest};

fn home(tag: Option<&str>) -> HomeQuery {
    HomeQuery {
        tab: HomeTab::Latest,
        category: Some("  教程 ".to_string()),
        tag: tag.map(|t| t.to_string()),
        time: HomeTimeRange::All,
        sort: HomeSort::LastReply,
        page: 0,
        page_size: 80,
    }
}

#[test]
fn home_query_normalizing_twice_changes_nothing() {
    for tag in [Some(" Rust "), Some("SQLx"), Some("all"), Some("  "), None] {
        assert_eq!(home(tag).normalized().normalized(), home(tag).normalized());
    }
    let once = home(Some(" Rust ")).normalized();
    assert_eq!(once.tag.as_deref(), Some("rust"));
    assert_eq!(once.category.as_deref(), Some("教程"));
    assert_eq!((once.page, once.page_size), (1, 50));
}

#[test]
fn home_query_all_in_capitals_settles_on_the_second_pass() {
    let once = home(Some(" ALL ")).normalized();
    assert_eq!(once.tag.as_deref(), Some("all"));
    assert_eq!(once.normalized().tag, None);
}

#[test]
fn search_query_normalizing_twice_changes_nothing() {
    for tag in [Some(" Axum "), Some("all"), None] {
        let q = SearchQuery {
            q: "  Leptos  ".to_string(),
            category: Some(" 教程".to_string()),
            tag: tag.map(|t| t.to_string()),
            sort: SearchSort::Hot,
            page: 0,
            page_size: 0,
        };
        let once = q.normalized();
        assert_eq!(once.clone().normalized(), once);
        assert_eq!(once.q, "Leptos");
        assert_eq!(once.page_size, 10);
    }
}

#[test]
fn normalized_roles_settle() {
    let req = UpdateUserRolesRequest {
        roles: vec![" Editor".to_string(), "ADMIN ".to_string(), "editor".to_string(), "".to_string()],
        context: AuditContext::default(),
    };
    let once = req.normalized_roles();
    assert_eq!(once, vec!["editor".to_string(), "admin".to_string()]);
    let again = UpdateUserRolesRequest { roles: once.clone(), context: AuditContext::default() };
    assert_eq!(again.normalized_roles(), once);
}

fn read_csv(text: &str) -> Vec<Vec<String>> {
    let mut rows = Vec::new();
    let mut fields = Vec::new();
    let mut field = String::new();
    let mut quoted = false;
    let mut chars = text.chars().peekable();
    while let Some(c) = chars.next() {
        if quoted {
            if c == '"' {
                if chars.peek() == Some(&'"') {
                    chars.next();
                    field.push('"');
                } else {
                    quoted = false;
                }
            } else {
                field.push(c);
            }
        } else if c == '"' {
            quoted = true;
        } else if c == ',' {
            fields.push(std::mem::take(&mut field));
        } else if c == '\n' {
            fields.push(std::mem::take(&mut field));
            rows.push(std::mem::take(&mut fields));
        } else {
            field.push(c);
        }
    }
    assert!(fields.is_empty() && field.is_empty());
    rows
}

#[test]
fn audit_export_reads_back() {
    let entries = vec![
        AuditEntry {
            actor: "admin, ops".to_string(),
            action: "say \"hi\"".to_string(),
            target: "line\nbreak\r\n".to_string(),
            ip: "127.0.0.1".to_string(),
            user_agent: "".to_string(),
            time_label: "2 分钟前".to_string(),
        },
        AuditEntry {
            actor: "moderator".to_string(),
            action: "post.pin".to_string(),
            target: "\"".to_string(),
            ip: ",".to_string(),
            user_agent: "curl/8".to_string(),
            time_label: "昨天".to_string(),
        },
    ];
    let rows = read_csv(&audit_entries_csv(&entries));
    assert_eq!(rows.len(), 3);
    assert_eq!(rows[0], vec!["actor", "action", "target", "ip", "user_agent", "time_label"]);
    for (row, e) in rows[1..].iter().zip(entries.iter()) {
        assert_eq!(
            row,
            &vec![
                e.actor.clone(),
                e.action.clone(),
                e.target.clone(),
                e.ip.clone(),
                e.user_agent.clone(),
                e.time_label.clone()
            ]
        );
    }
}

#[test]
fn search_pages_hold_every_result_once() {
    let scores = vec![1200, 980, 876, 745, 612];
    for sort in [SearchSort::Relevance, SearchSort::Hot, SearchSort::Latest] {
        let first = search_dense_workbench(
            SearchQuery { q: "".to_string(), sort, page: 1, page_size: 4, ..SearchQuery::default() },
            &scores,
        )
        .unwrap();
        let total = first.total;
        assert!(total > 4);
        let pages = (total + 3) / 4;
        let mut seen: HashSet<(u8, String)> = HashSet::new();
        let mut count = 0;
        for page in 1..=pages {
            let p = search_dense_workbench(
                SearchQuery { q: "".to_string(), sort, page, page_size: 4, ..SearchQuery::default() },
                &scores,
            )
            .unwrap();
            for item in p.items {
                let kind = match item.kind {
                    SearchResultKind::Post => 0,
                    SearchResultKind::Tag => 1,
                    SearchResultKind::User => 2,
                };
                assert!(seen.insert((kind, item.id)));
                count += 1;
            }
        }
        assert_eq!(count, total);
    }
}
