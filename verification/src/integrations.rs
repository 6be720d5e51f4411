//! Side effects that follow forum changes: cache invalidation, message publication and
//! search indexing, recorded in an outbox and carried out by a worker.
use vstd::prelude::*;

use crate::announcements::AnnouncementItem;
use crate::bridge::{string_from_chars, uuid_string, uuid_text};
use crate::home::clone_opt_string;
use crate::posts::{PostDetail, PostStatus};
use crate::text::{clone_strings, extend_str, owned, strings, texts};

verus! {

/// One side effect to carry out.
#[derive(Clone, Debug, PartialEq, Eq)]
pub enum IntegrationAction {
    CacheInvalidate(CacheInvalidation),
    NatsPublish(IntegrationEvent),
    SearchIndex(SearchIndexMutation),
}

/// Cache keys to drop (a `*` matches any text) and why.
#[derive(Clone, Debug, PartialEq, Eq)]
pub struct CacheInvalidation {
    pub keys: Vec<String>,
    pub reason: String,
}

/// A message to publish about an aggregate.
#[derive(Clone, Debug, PartialEq, Eq)]
pub struct IntegrationEvent {
    pub subject: String,
    pub aggregate_id: u128,
    pub payload_summary: String,
}

/// A change to the search index.
#[derive(Clone, Debug, PartialEq, Eq)]
pub enum SearchIndexMutation {
    Upsert(SearchIndexDocument),
    Delete { index: String, document_id: u128 },
}

/// A document of the search index.
#[derive(Clone, Debug, PartialEq, Eq)]
pub struct SearchIndexDocument {
    pub index: String,
    pub document_id: u128,
    pub title: String,
    pub summary: String,
    pub body: String,
    pub category_name: Option<String>,
    pub tags: Vec<String>,
    pub author_id: u128,
}

/// The index a post belongs to: `posts` once published, `posts-drafts` otherwise.
pub open spec fn index_of(status: PostStatus) -> Seq<char> {
    if status == PostStatus::Published {
        "posts"@
    } else {
        "posts-drafts"@
    }
}

/// The search document of a post: its index, identifier, title, summary, Markdown body,
/// category, tags and author.
pub open spec fn search_doc_ok(d: SearchIndexDocument, post: PostDetail) -> bool {
    &&& d.index@ == index_of(post.status)
    &&& d.document_id == post.summary.post_id
    &&& d.title == post.summary.title
    &&& d.summary == post.summary.summary
    &&& d.body == post.markdown
    &&& d.category_name == post.summary.category_name
    &&& d.tags@ == post.summary.tags@
    &&& d.author_id == post.summary.author_id
}

/// The search document of a post (see `search_doc_ok`).
pub fn post_search_document(post: &PostDetail) -> (r: SearchIndexDocument)
    ensures
        search_doc_ok(r, *post),
{
    let index = if post.status == PostStatus::Published {
        owned("posts")
    } else {
        owned("posts-drafts")
    };
    SearchIndexDocument {
        index,
        document_id: post.summary.post_id,
        title: post.summary.title.clone(),
        summary: post.summary.summary.clone(),
        body: post.markdown.clone(),
        category_name: clone_opt_string(&post.summary.category_name),
        tags: clone_strings(&post.summary.tags),
        author_id: post.summary.author_id,
    }
}

/// Whether an action drops the given keys for the given reason.
pub open spec fn invalidates(a: IntegrationAction, keys: Seq<Seq<char>>, reason: Seq<char>) -> bool {
    a matches IntegrationAction::CacheInvalidate(c) && texts(c.keys@) == keys && c.reason@ == reason
}

/// Whether an action publishes the given message.
pub open spec fn publishes(
    a: IntegrationAction,
    subject: Seq<char>,
    aggregate_id: u128,
    summary: Seq<char>,
) -> bool {
    a matches IntegrationAction::NatsPublish(e) && e.subject@ == subject && e.aggregate_id
        == aggregate_id && e.payload_summary@ == summary
}

/// Whether an action indexes the search document of a post.
pub open spec fn indexes(a: IntegrationAction, post: PostDetail) -> bool {
    a matches IntegrationAction::SearchIndex(SearchIndexMutation::Upsert(d)) && search_doc_ok(
        d,
        post,
    )
}

/// What follows the publication of a post: the home, hot and active-author caches are
/// dropped, `post.published` is announced and the post is indexed.
pub open spec fn post_published_ok(r: Seq<IntegrationAction>, post: PostDetail) -> bool {
    &&& r.len() == 3
    &&& invalidates(
        r[0],
        seq![
            "home:topics:*"@,
            "home:sidebar:*"@,
            "posts:hot"@,
            "tags:hot"@,
            "authors:active"@,
        ],
        "post.published"@,
    )
    &&& publishes(r[1], "post.published"@, post.summary.post_id, post.summary.title@)
    &&& indexes(r[2], post)
}

/// The actions that follow the publication of a post (see `post_published_ok`).
pub fn post_published_actions(post: &PostDetail) -> (r: Vec<IntegrationAction>)
    ensures
        post_published_ok(r@, *post),
{
    let keys: [&str; 5] = ["home:topics:*", "home:sidebar:*", "posts:hot", "tags:hot", "authors:active"];
    let mut r: Vec<IntegrationAction> = Vec::new();
    r.push(
        IntegrationAction::CacheInvalidate(
            CacheInvalidation { keys: strings(&keys), reason: owned("post.published") },
        ),
    );
    r.push(
        IntegrationAction::NatsPublish(
            IntegrationEvent {
                subject: owned("post.published"),
                aggregate_id: post.summary.post_id,
                payload_summary: post.summary.title.clone(),
            },
        ),
    );
    r.push(IntegrationAction::SearchIndex(SearchIndexMutation::Upsert(post_search_document(post))));
    proof {
        assert(keys@.map_values(|t: &str| t@) =~= seq![
            "home:topics:*"@,
            "home:sidebar:*"@,
            "posts:hot"@,
            "tags:hot"@,
            "authors:active"@,
        ]);
    }
    r
}

/// A cache key of a post: `post:{id}:{part}`.
pub open spec fn post_key(id: u128, part: Seq<char>) -> Seq<char> {
    "post:"@ + uuid_text(id) + ":"@ + part
}

fn post_key_of(id: u128, part: &str) -> (r: String)
    ensures
        r@ == post_key(id, part@),
{
    let mut v: Vec<char> = Vec::new();
    extend_str(&mut v, "post:");
    let t = uuid_string(id);
    extend_str(&mut v, t.as_str());
    extend_str(&mut v, ":");
    extend_str(&mut v, part);
    string_from_chars(&v)
}

/// What follows a change to a post's comments: the post's comment and detail caches and
/// the topic and active-author caches are dropped, `comment.created` is announced for
/// the comment and the post is indexed again.
pub open spec fn comment_changed_ok(r: Seq<IntegrationAction>, post: PostDetail, comment_id: u128) -> bool {
    &&& r.len() == 3
    &&& invalidates(
        r[0],
        seq![
            post_key(post.summary.post_id, "comments"@),
            post_key(post.summary.post_id, "detail"@),
            "home:topics:*"@,
            "authors:active"@,
        ],
        "comment.changed"@,
    )
    &&& publishes(r[1], "comment.created"@, comment_id, post.summary.title@)
    &&& indexes(r[2], post)
}

/// The actions that follow a change to a post's comments (see `comment_changed_ok`).
pub fn post_comment_changed_actions(post: &PostDetail, comment_id: u128) -> (r: Vec<
    IntegrationAction,
>)
    ensures
        comment_changed_ok(r@, *post, comment_id),
{
    let mut keys: Vec<String> = Vec::new();
    keys.push(post_key_of(post.summary.post_id, "comments"));
    keys.push(post_key_of(post.summary.post_id, "detail"));
    keys.push(owned("home:topics:*"));
    keys.push(owned("authors:active"));
    let mut r: Vec<IntegrationAction> = Vec::new();
    r.push(
        IntegrationAction::CacheInvalidate(
            CacheInvalidation { keys, reason: owned("comment.changed") },
        ),
    );
    r.push(
        IntegrationAction::NatsPublish(
            IntegrationEvent {
                subject: owned("comment.created"),
                aggregate_id: comment_id,
                payload_summary: post.summary.title.clone(),
            },
        ),
    );
    r.push(IntegrationAction::SearchIndex(SearchIndexMutation::Upsert(post_search_document(post))));
    proof {
        let c = r@[0];
        if let IntegrationAction::CacheInvalidate(ci) = c {
            assert(texts(ci.keys@) =~= seq![
                post_key(post.summary.post_id, "comments"@),
                post_key(post.summary.post_id, "detail"@),
                "home:topics:*"@,
                "authors:active"@,
            ]);
        }
    }
    r
}

/// What follows the publication of an announcement: the announcement and sidebar caches
/// are dropped and `announcement.published` is announced.
pub open spec fn announcement_published_ok(r: Seq<IntegrationAction>, a: AnnouncementItem) -> bool {
    &&& r.len() == 2
    &&& invalidates(
        r[0],
        seq!["home:announcements"@, "home:sidebar:*"@],
        "announcement.published"@,
    )
    &&& publishes(r[1], "announcement.published"@, a.announcement_id, a.title@)
}

/// The actions that follow the publication of an announcement (see
/// `announcement_published_ok`).
pub fn announcement_published_actions(announcement: &AnnouncementItem) -> (r: Vec<IntegrationAction>)
    ensures
        announcement_published_ok(r@, *announcement),
{
    let keys: [&str; 2] = ["home:announcements", "home:sidebar:*"];
    let mut r: Vec<IntegrationAction> = Vec::new();
    r.push(
        IntegrationAction::CacheInvalidate(
            CacheInvalidation { keys: strings(&keys), reason: owned("announcement.published") },
        ),
    );
    r.push(
        IntegrationAction::NatsPublish(
            IntegrationEvent {
                subject: owned("announcement.published"),
                aggregate_id: announcement.announcement_id,
                payload_summary: announcement.title.clone(),
            },
        ),
    );
    proof {
        assert(keys@.map_values(|t: &str| t@) =~= seq!["home:announcements"@, "home:sidebar:*"@]);
    }
    r
}

/// The stored kind of an action.
pub open spec fn action_kind_text(a: IntegrationAction) -> Seq<char> {
    match a {
        IntegrationAction::CacheInvalidate(_) => "cache_invalidate"@,
        IntegrationAction::NatsPublish(_) => "nats_publish"@,
        IntegrationAction::SearchIndex(_) => "search_index"@,
    }
}

/// The stored kind of an action (see `action_kind_text`).
pub fn action_kind(action: &IntegrationAction) -> (r: &'static str)
    ensures
        r@ == action_kind_text(*action),
{
    match action {
        IntegrationAction::CacheInvalidate(_) => "cache_invalidate",
        IntegrationAction::NatsPublish(_) => "nats_publish",
        IntegrationAction::SearchIndex(_) => "search_index",
    }
}

/// The subject an action is recorded under: the reason of an invalidation, the subject
/// of a message, `search.{index}.upsert` or `search.{index}.delete` for the index.
pub open spec fn action_subject_text(a: IntegrationAction) -> Seq<char> {
    match a {
        IntegrationAction::CacheInvalidate(c) => c.reason@,
        IntegrationAction::NatsPublish(e) => e.subject@,
        IntegrationAction::SearchIndex(SearchIndexMutation::Upsert(d)) => "search."@ + d.index@
            + ".upsert"@,
        IntegrationAction::SearchIndex(SearchIndexMutation::Delete { index, .. }) => "search."@
            + index@ + ".delete"@,
    }
}

/// The subject an action is recorded under (see `action_subject_text`).
pub fn action_subject(action: &IntegrationAction) -> (r: String)
    ensures
        r@ == action_subject_text(*action),
{
    match action {
        IntegrationAction::CacheInvalidate(invalidation) => invalidation.reason.clone(),
        IntegrationAction::NatsPublish(event) => event.subject.clone(),
        IntegrationAction::SearchIndex(SearchIndexMutation::Upsert(document)) => {
            let mut v: Vec<char> = Vec::new();
            extend_str(&mut v, "search.");
            extend_str(&mut v, document.index.as_str());
            extend_str(&mut v, ".upsert");
            string_from_chars(&v)
        },
        IntegrationAction::SearchIndex(SearchIndexMutation::Delete { index, .. }) => {
            let mut v: Vec<char> = Vec::new();
            extend_str(&mut v, "search.");
            extend_str(&mut v, index.as_str());
            extend_str(&mut v, ".delete");
            string_from_chars(&v)
        },
    }
}

/// The aggregate an action is about: none for an invalidation, the message's aggregate,
/// or the indexed document.
pub open spec fn action_aggregate(a: IntegrationAction) -> Option<u128> {
    match a {
        IntegrationAction::CacheInvalidate(_) => None,
        IntegrationAction::NatsPublish(e) => Some(e.aggregate_id),
        IntegrationAction::SearchIndex(SearchIndexMutation::Upsert(d)) => Some(d.document_id),
        IntegrationAction::SearchIndex(SearchIndexMutation::Delete { document_id, .. }) => Some(
            document_id,
        ),
    }
}

/// The aggregate an action concerns, if any (see `action_aggregate`).
pub fn action_aggregate_id(action: &IntegrationAction) -> (r: Option<u128>)
    ensures
        r == action_aggregate(*action),
{
    match action {
        IntegrationAction::CacheInvalidate(_) => None,
        IntegrationAction::NatsPublish(event) => Some(event.aggregate_id),
        IntegrationAction::SearchIndex(SearchIndexMutation::Upsert(document)) => Some(
            document.document_id,
        ),
        IntegrationAction::SearchIndex(SearchIndexMutation::Delete { document_id, .. }) => Some(
            *document_id,
        ),
    }
}

/// A recorded side effect waiting in the outbox. Times are Unix timestamps in
/// nanoseconds.
#[derive(Clone, Debug, PartialEq, Eq)]
pub struct IntegrationOutboxRow {
    pub outbox_id: u128,
    pub action_kind: String,
    pub subject: String,
    pub aggregate_id: Option<u128>,
    pub payload: String,
    pub status: String,
    pub attempts: i32,
    pub last_error: Option<String>,
    pub created_at: i128,
    pub processed_at: Option<i128>,
}

/// Reading and writing the outbox in storage.
pub struct PostgresIntegrationRepository;

} // verus!
