//! Posts: their summaries and details, the requests that write them, and how they are
//! stored.
use vstd::prelude::*;
use vstd::std_specs::convert::FromSpecImpl;

use crate::bridge::{char_lower, char_to_lowercase, uuid_string, uuid_text};
use crate::text::{char_is_ascii_alnum, chars_of, is_ascii_alnum, owned, str_eq};

verus! {

/// Where a post stands.
#[derive(Clone, Debug, PartialEq, Eq, Structural)]
pub enum PostStatus {
    Draft,
    Published,
    Offline,
    Deleted,
}

/// A post as listed. Identifiers are UUID values; times are Unix timestamps in
/// nanoseconds.
#[derive(Clone, Debug, PartialEq, Eq)]
pub struct PostSummary {
    pub post_id: u128,
    pub title: String,
    pub summary: String,
    pub author_id: u128,
    pub author_name: String,
    pub author_avatar_url: Option<String>,
    pub category_name: Option<String>,
    pub tags: Vec<String>,
    pub view_count: i64,
    pub comment_count: i64,
    pub like_count: i64,
    pub favorite_count: i64,
    pub published_at: Option<i128>,
}

impl PostSummary {
    /// The sample post shown where no post is at hand.
    pub fn sample() -> (r: PostSummary)
        ensures
            r.post_id == 0,
            r.title@ == "Rust 异步任务的边界设计"@,
            r.summary@ == "从论坛系统的通知链路拆分 Tokio 任务、事务和事件投递。"@,
            r.author_id == 0,
            r.author_name@ == "mah"@,
            r.author_avatar_url is None,
            r.category_name matches Some(c) && c@ == "Rust"@,
            r.tags@.len() == 2,
            r.tags@[0]@ == "Leptos"@,
            r.tags@[1]@ == "SQLx"@,
            r.view_count == 128,
            r.comment_count == 6,
            r.like_count == 19,
            r.favorite_count == 8,
            r.published_at is None,
    {
        let mut tags: Vec<String> = Vec::new();
        tags.push(owned("Leptos"));
        tags.push(owned("SQLx"));
        PostSummary {
            post_id: 0,
            title: owned("Rust 异步任务的边界设计"),
            summary: owned("从论坛系统的通知链路拆分 Tokio 任务、事务和事件投递。"),
            author_id: 0,
            author_name: owned("mah"),
            author_avatar_url: None,
            category_name: Some(owned("Rust")),
            tags,
            view_count: 128,
            comment_count: 6,
            like_count: 19,
            favorite_count: 8,
            published_at: None,
        }
    }
}

/// A post with its body, as a reader sees it.
#[derive(Clone, Debug, PartialEq, Eq)]
pub struct PostDetail {
    pub summary: PostSummary,
    pub markdown: String,
    pub sanitized_html: String,
    pub status: PostStatus,
    pub liked_by_me: bool,
    pub favorited_by_me: bool,
    pub following_author: bool,
}

/// A post being edited.
#[derive(Clone, Debug, PartialEq, Eq)]
pub struct PostEditorDraft {
    pub title: String,
    pub markdown: String,
    pub summary: String,
    pub cover_url: Option<String>,
    pub category_id: Option<u128>,
    pub tag_names: Vec<String>,
    pub publish: bool,
}

/// A request to write a post.
#[derive(Clone, Debug, PartialEq, Eq)]
pub struct CreatePostRequest {
    pub title: String,
    pub markdown: String,
    pub summary: String,
    pub category_name: Option<String>,
    pub tag_names: Vec<String>,
    pub publish: bool,
}

/// A request to rewrite a post.
#[derive(Clone, Debug, PartialEq, Eq)]
pub struct UpdatePostRequest {
    pub title: String,
    pub markdown: String,
    pub summary: String,
    pub category_name: Option<String>,
    pub tag_names: Vec<String>,
    pub publish: bool,
}

/// A draft saved while writing.
#[derive(Clone, Debug, PartialEq, Eq)]
pub struct AutosaveDraftRequest {
    pub post_id: Option<u128>,
    pub title: String,
    pub markdown: String,
    pub summary: String,
    pub category_name: Option<String>,
    pub tag_names: Vec<String>,
}

/// The stored text of a status.
pub open spec fn post_status_text(s: PostStatus) -> Seq<char> {
    match s {
        PostStatus::Published => "published"@,
        PostStatus::Offline => "offline"@,
        PostStatus::Deleted => "deleted"@,
        PostStatus::Draft => "draft"@,
    }
}

/// The status of a stored text; anything unknown is a draft.
pub open spec fn post_status_of(s: Seq<char>) -> PostStatus {
    if s == "published"@ {
        PostStatus::Published
    } else if s == "offline"@ {
        PostStatus::Offline
    } else if s == "deleted"@ {
        PostStatus::Deleted
    } else {
        PostStatus::Draft
    }
}

/// The stored text of a post status.
pub fn post_status_as_str(status: &PostStatus) -> (r: &'static str)
    ensures
        r@ == post_status_text(*status),
{
    match status {
        PostStatus::Published => "published",
        PostStatus::Offline => "offline",
        PostStatus::Deleted => "deleted",
        PostStatus::Draft => "draft",
    }
}

/// The post status of a stored text.
pub fn post_status_from_str(status: &str) -> (r: PostStatus)
    ensures
        r == post_status_of(status@),
{
    if str_eq(status, "published") {
        PostStatus::Published
    } else if str_eq(status, "offline") {
        PostStatus::Offline
    } else if str_eq(status, "deleted") {
        PostStatus::Deleted
    } else {
        PostStatus::Draft
    }
}

/// Storing a status and reading it back gives the same status.
pub proof fn law_post_status_round_trip(s: PostStatus)
    ensures
        post_status_of(post_status_text(s)) == s,
{
    reveal_strlit("published");
    reveal_strlit("offline");
    reveal_strlit("deleted");
    reveal_strlit("draft");
    assert("published"@.len() == 9 && "offline"@.len() == 7 && "deleted"@.len() == 7
        && "draft"@.len() == 5);
    assert("offline"@[0] != "deleted"@[0]);
}

/// A stored summary row.
#[derive(Clone, Debug, PartialEq, Eq)]
pub struct PostSummaryRow {
    pub post_id: u128,
    pub title: String,
    pub summary: String,
    pub author_id: u128,
    pub author_name: String,
    pub author_avatar_url: Option<String>,
    pub category_name: Option<String>,
    pub tags: Vec<String>,
    pub view_count: i64,
    pub comment_count: i64,
    pub like_count: i64,
    pub favorite_count: i64,
    pub published_at: Option<i128>,
    pub last_reply_author_name: Option<String>,
    pub last_reply_author_avatar_url: Option<String>,
    pub last_reply_at: Option<i128>,
    pub pinned: bool,
    pub locked: bool,
    pub read_by_me: bool,
}

/// The summary of a stored row: the listed fields are carried over.
pub open spec fn summary_of_row(row: PostSummaryRow) -> PostSummary {
    PostSummary {
        post_id: row.post_id,
        title: row.title,
        summary: row.summary,
        author_id: row.author_id,
        author_name: row.author_name,
        author_avatar_url: row.author_avatar_url,
        category_name: row.category_name,
        tags: row.tags,
        view_count: row.view_count,
        comment_count: row.comment_count,
        like_count: row.like_count,
        favorite_count: row.favorite_count,
        published_at: row.published_at,
    }
}

impl From<PostSummaryRow> for PostSummary {
    fn from(row: PostSummaryRow) -> (r: PostSummary) {
        PostSummary {
            post_id: row.post_id,
            title: row.title,
            summary: row.summary,
            author_id: row.author_id,
            author_name: row.author_name,
            author_avatar_url: row.author_avatar_url,
            category_name: row.category_name,
            tags: row.tags,
            view_count: row.view_count,
            comment_count: row.comment_count,
            like_count: row.like_count,
            favorite_count: row.favorite_count,
            published_at: row.published_at,
        }
    }
}

impl FromSpecImpl<PostSummaryRow> for PostSummary {
    open spec fn obeys_from_spec() -> bool {
        true
    }

    open spec fn from_spec(row: PostSummaryRow) -> PostSummary {
        summary_of_row(row)
    }
}

/// A stored detail row.
#[derive(Clone, Debug, PartialEq, Eq)]
pub struct PostDetailRow {
    pub post_id: u128,
    pub title: String,
    pub summary: String,
    pub author_id: u128,
    pub author_name: String,
    pub author_avatar_url: Option<String>,
    pub category_name: Option<String>,
    pub tags: Vec<String>,
    pub view_count: i64,
    pub comment_count: i64,
    pub like_count: i64,
    pub favorite_count: i64,
    pub published_at: Option<i128>,
    pub markdown: String,
    pub sanitized_html: String,
    pub status: String,
    pub pinned: bool,
    pub locked: bool,
}

/// The detail of a stored row, for a reader who has not yet liked, favorited or followed.
pub open spec fn detail_of_row(row: PostDetailRow) -> PostDetail {
    PostDetail {
        summary: PostSummary {
            post_id: row.post_id,
            title: row.title,
            summary: row.summary,
            author_id: row.author_id,
            author_name: row.author_name,
            author_avatar_url: row.author_avatar_url,
            category_name: row.category_name,
            tags: row.tags,
            view_count: row.view_count,
            comment_count: row.comment_count,
            like_count: row.like_count,
            favorite_count: row.favorite_count,
            published_at: row.published_at,
        },
        markdown: row.markdown,
        sanitized_html: row.sanitized_html,
        status: post_status_of(row.status@),
        liked_by_me: false,
        favorited_by_me: false,
        following_author: false,
    }
}

impl From<PostDetailRow> for PostDetail {
    fn from(row: PostDetailRow) -> (r: PostDetail) {
        let status = post_status_from_str(row.status.as_str());
        PostDetail {
            summary: PostSummary {
                post_id: row.post_id,
                title: row.title,
                summary: row.summary,
                author_id: row.author_id,
                author_name: row.author_name,
                author_avatar_url: row.author_avatar_url,
                category_name: row.category_name,
                tags: row.tags,
                view_count: row.view_count,
                comment_count: row.comment_count,
                like_count: row.like_count,
                favorite_count: row.favorite_count,
                published_at: row.published_at,
            },
            markdown: row.markdown,
            sanitized_html: row.sanitized_html,
            status,
            liked_by_me: false,
            favorited_by_me: false,
            following_author: false,
        }
    }
}

impl FromSpecImpl<PostDetailRow> for PostDetail {
    open spec fn obeys_from_spec() -> bool {
        true
    }

    open spec fn from_spec(row: PostDetailRow) -> PostDetail {
        detail_of_row(row)
    }
}

/// The characters of a name once each is lower-cased.
pub open spec fn lowered(name: Seq<char>) -> Seq<char>
    decreases name.len(),
{
    if name.len() == 0 {
        seq![]
    } else {
        lowered(name.drop_last()) + char_lower(name.last())
    }
}

/// The slug built from lowered characters, and whether it ends in a dash that was
/// added: ASCII letters and digits are kept, and each run of other characters becomes
/// one `-`, except before the first kept character.
pub open spec fn slug_scan(cs: Seq<char>) -> (Seq<char>, bool)
    decreases cs.len(),
{
    if cs.len() == 0 {
        (seq![], false)
    } else {
        let (s, dash) = slug_scan(cs.drop_last());
        let c = cs.last();
        if is_ascii_alnum(c) {
            (s.push(c), false)
        } else if !dash && s.len() > 0 {
            (s.push('-'), true)
        } else {
            (s, dash)
        }
    }
}

/// Whether a slug is made of ASCII letters, digits and single dashes between them.
pub open spec fn slug_shaped(s: Seq<char>) -> bool {
    &&& forall|i: int| 0 <= i < s.len() ==> is_ascii_alnum(#[trigger] s[i]) || s[i] == '-'
    &&& (s.len() > 0 ==> is_ascii_alnum(s[0]) && is_ascii_alnum(s.last()))
    &&& forall|i: int| 0 <= i < s.len() - 1 ==> !(#[trigger] s[i] == '-' && s[i + 1] == '-')
}

proof fn lemma_slug_scan_shape(cs: Seq<char>)
    ensures
        ({
            let (s, dash) = slug_scan(cs);
            &&& forall|i: int| 0 <= i < s.len() ==> is_ascii_alnum(#[trigger] s[i]) || s[i] == '-'
            &&& (s.len() > 0 ==> is_ascii_alnum(s[0]))
            &&& forall|i: int| 0 <= i < s.len() - 1 ==> !(#[trigger] s[i] == '-' && s[i + 1] == '-')
            &&& dash == (s.len() > 0 && s.last() == '-')
        }),
    decreases cs.len(),
{
    if cs.len() > 0 {
        lemma_slug_scan_shape(cs.drop_last());
        let (p, pd) = slug_scan(cs.drop_last());
        let (s, dash) = slug_scan(cs);
        let c = cs.last();
        if is_ascii_alnum(c) {
            assert(s == p.push(c));
            assert forall|i: int| 0 <= i < s.len() - 1 implies !(#[trigger] s[i] == '-' && s[i + 1] == '-') by {
                if i < p.len() - 1 {
                    assert(s[i] == p[i] && s[i + 1] == p[i + 1]);
                }
            }
        } else if !pd && p.len() > 0 {
            assert(s == p.push('-'));
            assert forall|i: int| 0 <= i < s.len() - 1 implies !(#[trigger] s[i] == '-' && s[i + 1] == '-') by {
                if i < p.len() - 1 {
                    assert(s[i] == p[i] && s[i + 1] == p[i + 1]);
                }
            }
        }
    }
}

/// A slug is either `{prefix}-{id}` or made of ASCII letters and digits with single
/// dashes between them, never at either end.
pub proof fn law_slug_shape(prefix: Seq<char>, name: Seq<char>, id: u128)
    ensures
        slug_of(prefix, name, id) == prefix + "-"@ + uuid_text(id) || slug_shaped(slug_of(prefix, name, id)),
{
    let s = slug_scan(lowered(name)).0;
    lemma_slug_scan_shape(lowered(name));
    if s.len() > 0 && s.last() == '-' {
        let t = s.drop_last();
        if t.len() > 0 {
            assert(t[0] == s[0]);
            assert(t.last() == s[s.len() - 2]);
            assert(!(s[s.len() - 2] == '-' && s[s.len() - 1] == '-'));
        }
        assert forall|i: int| 0 <= i < t.len() implies is_ascii_alnum(#[trigger] t[i]) || t[i] == '-' by {
            assert(t[i] == s[i]);
        }
        assert forall|i: int| 0 <= i < t.len() - 1 implies !(#[trigger] t[i] == '-' && t[i + 1] == '-') by {
            assert(t[i] == s[i] && t[i + 1] == s[i + 1]);
        }
    }
}

/// The slug of a name: the scanned slug without a trailing dash, or `{prefix}-{id}`
/// where nothing is left.
pub open spec fn slug_of(prefix: Seq<char>, name: Seq<char>, id: u128) -> Seq<char> {
    let s = slug_scan(lowered(name)).0;
    let t = if s.len() > 0 && s.last() == '-' {
        s.drop_last()
    } else {
        s
    };
    if t.len() == 0 {
        prefix + "-"@ + uuid_text(id)
    } else {
        t
    }
}

/// The URL slug of a category or tag name (see `slug_of`).
pub fn stable_slug(prefix: &str, name: &str, id: u128) -> (r: String)
    ensures
        r@ == slug_of(prefix@, name@, id),
{
    let cs = chars_of(name);
    let mut slug: Vec<char> = Vec::new();
    let mut previous_dash = false;
    let ghost mut seen: Seq<char> = seq![];
    let mut i: usize = 0;
    while i < cs.len()
        invariant
            i <= cs@.len(),
            cs@ == name@,
            seen == lowered(name@.take(i as int)),
            (slug@, previous_dash) == slug_scan(seen),
        decreases cs@.len() - i,
    {
        let low = char_to_lowercase(cs[i]);
        let mut j: usize = 0;
        while j < low.len()
            invariant
                j <= low@.len(),
                (slug@, previous_dash) == slug_scan(seen + low@.take(j as int)),
            decreases low@.len() - j,
        {
            let ch = low[j];
            proof {
                let cur = seen + low@.take(j as int);
                assert((seen + low@.take(j + 1)).drop_last() =~= cur);
                assert((seen + low@.take(j + 1)).last() == ch);
            }
            if char_is_ascii_alnum(ch) {
                slug.push(ch);
                previous_dash = false;
            } else if !previous_dash && slug.len() > 0 {
                slug.push('-');
                previous_dash = true;
            }
            j = j + 1;
        }
        proof {
            assert(low@.take(low@.len() as int) =~= low@);
            assert(name@.take(i + 1).drop_last() =~= name@.take(i as int));
            assert(name@.take(i + 1).last() == name@[i as int]);
            seen = seen + low@;
        }
        i = i + 1;
    }
    assert(name@.take(cs@.len() as int) =~= name@);
    if slug.len() > 0 && slug[slug.len() - 1] == '-' {
        slug.pop();
    }
    if slug.len() == 0 {
        let mut v = chars_of(prefix);
        v.push('-');
        let idt = uuid_string(id);
        crate::text::extend_str(&mut v, idt.as_str());
        proof {
            assert(v@ =~= prefix@ + "-"@ + uuid_text(id)) by {
                reveal_strlit("-");
            }
        }
        crate::bridge::string_from_chars(&v)
    } else {
        crate::bridge::string_from_chars(&slug)
    }
}

/// The query that lists published posts.
pub const PUBLISHED_SUMMARIES_SQL: &'static str = r#"
select
    p.post_id,
    p.title,
    p.summary,
    p.author_id,
    u.nickname as author_name,
    u.avatar_url as author_avatar_url,
    c.name as category_name,
    coalesce(array_remove(array_agg(t.name order by t.name), null), array[]::text[]) as tags,
    p.view_count,
    p.comment_count,
    p.like_count,
    p.favorite_count,
    p.published_at,
    lr.author_name as "last_reply_author_name?",
    lr.author_avatar_url as "last_reply_author_avatar_url?",
    lr.replied_at as "last_reply_at?",
    p.is_pinned as pinned,
    p.is_locked as locked,
    pr.user_id is not null as read_by_me
from posts p
join users u on u.user_id = p.author_id
left join categories c on c.category_id = p.category_id
left join post_tags pt on pt.post_id = p.post_id
left join tags t on t.tag_id = pt.tag_id
left join lateral (
    select
        cu.nickname as author_name,
        cu.avatar_url as author_avatar_url,
        lc.created_at as replied_at
    from comments lc
    join users cu on cu.user_id = lc.author_id
    where lc.post_id = p.post_id
      and lc.status = 'visible'
    order by lc.created_at desc, lc.comment_id desc
    limit 1
) lr on true
left join post_reads pr on pr.post_id = p.post_id and pr.user_id = $3
where p.status = 'published'
group by
    p.post_id,
    p.title,
    p.summary,
    p.author_id,
    u.nickname,
    u.avatar_url,
    c.name,
    p.view_count,
    p.comment_count,
    p.like_count,
    p.favorite_count,
    p.published_at,
    lr.author_name,
    lr.author_avatar_url,
    lr.replied_at,
    p.is_pinned,
    p.is_locked,
    pr.user_id,
    p.created_at
order by p.is_pinned desc, p.published_at desc nulls last, p.created_at desc
limit $1 offset $2
"#;

/// The query that reads one post.
pub const POST_DETAIL_SQL: &'static str = r#"
select
    p.post_id,
    p.title,
    p.summary,
    p.author_id,
    u.nickname as author_name,
    u.avatar_url as author_avatar_url,
    c.name as category_name,
    coalesce(array_remove(array_agg(t.name order by t.name), null), array[]::text[]) as tags,
    p.view_count,
    p.comment_count,
    p.like_count,
    p.favorite_count,
    p.published_at,
    pc.markdown,
    pc.sanitized_html,
    p.status,
    p.is_pinned as "pinned!",
    p.is_locked as "locked!"
from posts p
join users u on u.user_id = p.author_id
join post_contents pc on pc.post_id = p.post_id
left join categories c on c.category_id = p.category_id
left join post_tags pt on pt.post_id = p.post_id
left join tags t on t.tag_id = pt.tag_id
where p.post_id = $1
  and p.status <> 'deleted'
group by
    p.post_id,
    p.title,
    p.summary,
    p.author_id,
    u.nickname,
    u.avatar_url,
    c.name,
    p.view_count,
    p.comment_count,
    p.like_count,
    p.favorite_count,
    p.published_at,
    pc.markdown,
    pc.sanitized_html,
    p.status,
    p.is_pinned,
    p.is_locked
limit 1
"#;

/// Reading storage.
pub struct PostgresPostRepository;

impl PostgresPostRepository {
    /// The query that lists published posts.
    pub fn published_summaries_sql() -> (r: &'static str)
        ensures
            r@ == PUBLISHED_SUMMARIES_SQL@,
    {
        PUBLISHED_SUMMARIES_SQL
    }

    /// The query that reads one post.
    pub fn post_detail_sql() -> (r: &'static str)
        ensures
            r@ == POST_DETAIL_SQL@,
    {
        POST_DETAIL_SQL
    }
}

} // verus!
