//! Search results read from a search engine's response: each hit becomes a post, tag or
//! user entry, with the engine's highlights where it gave them.
use vstd::prelude::*;

use crate::bridge::string_from_chars;
use crate::search::{
    highlight, highlight_spec, shown, shown_dec, strings_view, suggestions_ok, tag_row_summary,
    user_row_summary, SearchQuery, SearchResultItem, SearchResultKind, SearchResultPage, SearchSort,
};
use crate::text::{concat_str, dec, extend, extend_str, opt_view, owned, str_eq};

verus! {

/// The fields of a hit's `_source` document that an entry is built from. A field is
/// `None` where the document lacks it or holds another kind of value there; `tags` holds
/// the text entries of the document's `tags` array.
#[derive(Clone, Debug, PartialEq, Eq)]
pub struct HitSource {
    pub kind: Option<String>,
    pub title: Option<String>,
    pub summary: Option<String>,
    pub category_name: Option<String>,
    pub tags: Option<Vec<String>>,
    pub author_name: Option<String>,
    pub author_id: Option<String>,
    pub hot_score: Option<i64>,
    pub name: Option<String>,
    pub post_count: Option<i64>,
    pub user_id: Option<String>,
    pub nickname: Option<String>,
    pub username: Option<String>,
    pub bio: Option<String>,
    pub comment_count: Option<i64>,
}

/// One hit of a search response: its `_id`, its `_score` truncated to an integer, its
/// `_source` document, and for each highlighted field its first fragment.
#[derive(Clone, Debug, PartialEq, Eq)]
pub struct SearchHit {
    pub id: Option<String>,
    pub score: Option<i64>,
    pub source: Option<HitSource>,
    pub highlights: Vec<(String, String)>,
}

/// The `hits` object of a search response: the total as `total.value` or as a bare
/// number, and the `hits` array.
#[derive(Clone, Debug, PartialEq, Eq)]
pub struct SearchHits {
    pub total_value: Option<u64>,
    pub total_number: Option<u64>,
    pub hits: Option<Vec<SearchHit>>,
}

/// A search response, by its `hits` object.
#[derive(Clone, Debug, PartialEq, Eq)]
pub struct SearchResponse {
    pub hits: Option<SearchHits>,
}

/// A text field, empty where it is missing.
pub open spec fn opt_text(o: Option<String>) -> Seq<char> {
    match o {
        Some(s) => s@,
        None => seq![],
    }
}

/// A number field, zero where it is missing.
pub open spec fn opt_num(o: Option<i64>) -> i64 {
    match o {
        Some(n) => n,
        None => 0,
    }
}

/// The first highlight fragment given for a field.
pub open spec fn first_highlight_of(hs: Seq<(String, String)>, key: Seq<char>) -> Option<Seq<char>>
    decreases hs.len(),
{
    if hs.len() == 0 {
        None
    } else if hs[0].0@ == key {
        Some(hs[0].1@)
    } else {
        first_highlight_of(hs.drop_first(), key)
    }
}

/// The highlight shown for a text: the engine's fragment where it gave one, else the text
/// highlighted here (see `highlight_spec`).
pub open spec fn shown_highlight(given: Option<Seq<char>>, text: Seq<char>, q: Seq<char>) -> Option<Seq<char>> {
    match given {
        Some(h) => Some(h),
        None => highlight_spec(text, q),
    }
}

/// The kind of entry a document makes: `tag` and `user` by its `kind` field, a post
/// otherwise.
pub open spec fn hit_kind(src: HitSource) -> SearchResultKind {
    match src.kind {
        Some(k) => if k@ == "tag"@ {
            SearchResultKind::Tag
        } else if k@ == "user"@ {
            SearchResultKind::User
        } else {
            SearchResultKind::Post
        },
        None => SearchResultKind::Post,
    }
}

/// The error that rejects a hit, or `None`: a hit needs a document; a post needs an
/// `_id`; a tag needs a name; a user needs an `_id` or a `user_id`, then a nickname.
pub open spec fn hit_error(hit: SearchHit) -> Option<Seq<char>> {
    match hit.source {
        None => Some("Elasticsearch hit 缺少 _source"@),
        Some(src) => match hit_kind(src) {
            SearchResultKind::Tag => if opt_text(src.name).len() == 0 {
                Some("Elasticsearch tag hit 缺少 name"@)
            } else {
                None
            },
            SearchResultKind::User => if hit.id is None && src.user_id is None {
                Some("Elasticsearch user hit 缺少 _id"@)
            } else if opt_text(src.nickname).len() == 0 {
                Some("Elasticsearch user hit 缺少 nickname"@)
            } else {
                None
            },
            SearchResultKind::Post => if hit.id is None {
                Some("Elasticsearch hit 缺少 _id"@)
            } else {
                None
            },
        },
    }
}

/// The summary of a user entry: the bio (or `活跃作者`) with the user's counts.
pub open spec fn user_hit_summary(bio: Seq<char>, posts: i64, comments: i64) -> Seq<char> {
    if bio.len() == 0 {
        user_row_summary(posts, comments)
    } else {
        bio + "，"@ + dec(shown(posts)) + " 篇帖子，"@ + dec(shown(comments)) + " 条评论"@
    }
}

/// The ranking score a user document gives without a relevance score: 20 per post and 5
/// per comment.
pub open spec fn user_activity_score(posts: i64, comments: i64) -> int {
    posts * 20 + comments * 5
}

/// Whether every step of `user_activity_score` stays within `i64`.
pub open spec fn user_score_fits(posts: i64, comments: i64) -> bool {
    &&& i64::MIN <= posts * 20 <= i64::MAX
    &&& i64::MIN <= comments * 5 <= i64::MAX
    &&& i64::MIN <= user_activity_score(posts, comments) <= i64::MAX
}

/// The title highlight of a user entry: the nickname's fragment, else the user name's,
/// else the nickname highlighted here.
pub open spec fn user_title_highlight(hit: SearchHit, src: HitSource, q: Seq<char>) -> Option<Seq<char>> {
    match first_highlight_of(hit.highlights@, "nickname"@) {
        Some(h) => Some(h),
        None => shown_highlight(first_highlight_of(hit.highlights@, "username"@), opt_text(src.nickname), q),
    }
}

/// Whether an accepted hit can be turned into an entry: every highlight it needs is
/// defined and, for a user, its activity score fits in `i64`.
pub open spec fn hit_defined(hit: SearchHit, q: Seq<char>) -> bool {
    let src = hit.source->0;
    let hs = hit.highlights@;
    match hit_kind(src) {
        SearchResultKind::Post => {
            &&& shown_highlight(first_highlight_of(hs, "title"@), opt_text(src.title), q) is Some
            &&& shown_highlight(first_highlight_of(hs, "summary"@), opt_text(src.summary), q) is Some
        },
        SearchResultKind::Tag => {
            &&& shown_highlight(first_highlight_of(hs, "name"@), opt_text(src.name), q) is Some
            &&& highlight_spec(tag_row_summary(opt_num(src.post_count)), q) is Some
        },
        SearchResultKind::User => {
            let p = opt_num(src.post_count);
            let c = opt_num(src.comment_count);
            &&& user_title_highlight(hit, src, q) is Some
            &&& shown_highlight(first_highlight_of(hs, "bio"@), user_hit_summary(opt_text(src.bio), p, c), q) is Some
            &&& user_score_fits(p, c)
        },
    }
}

/// The entry that an accepted hit becomes for the query text `q`.
pub open spec fn hit_item_ok(item: SearchResultItem, hit: SearchHit, q: Seq<char>) -> bool {
    let src = hit.source->0;
    let hs = hit.highlights@;
    match hit_kind(src) {
        SearchResultKind::Post => {
            let id = hit.id->0@;
            &&& item.id@ == id
            &&& item.kind == SearchResultKind::Post
            &&& item.title@ == opt_text(src.title)
            &&& shown_highlight(first_highlight_of(hs, "title"@), opt_text(src.title), q) == Some(item.title_highlighted@)
            &&& item.summary@ == opt_text(src.summary)
            &&& shown_highlight(first_highlight_of(hs, "summary"@), opt_text(src.summary), q) == Some(item.summary_highlighted@)
            &&& item.category_name == src.category_name
            &&& item.tags@ == (match src.tags {
                Some(t) => t@,
                None => Seq::<String>::empty(),
            })
            &&& item.author_name@ == (match src.author_name {
                Some(a) => a@,
                None => match src.author_id {
                    Some(a) => a@,
                    None => "未知用户"@,
                },
            })
            &&& item.score == (match src.hot_score {
                Some(s) => s,
                None => opt_num(hit.score),
            })
            &&& item.url@ == "/posts/"@ + id
        },
        SearchResultKind::Tag => {
            let name = opt_text(src.name);
            let summary = tag_row_summary(opt_num(src.post_count));
            &&& item.id@ == name
            &&& item.kind == SearchResultKind::Tag
            &&& item.title@ == "#"@ + name
            &&& shown_highlight(first_highlight_of(hs, "name"@), name, q) matches Some(h)
                && item.title_highlighted@ == "#"@ + h
            &&& item.summary@ == summary
            &&& highlight_spec(summary, q) == Some(item.summary_highlighted@)
            &&& item.category_name is None
            &&& strings_view(item.tags@) == seq![name]
            &&& item.author_name@ == "标签"@
            &&& item.score == (match hit.score {
                Some(s) => s,
                None => opt_num(src.post_count),
            })
            &&& item.url@ == "/search?tag="@ + name
        },
        SearchResultKind::User => {
            let id = match hit.id {
                Some(i) => i@,
                None => src.user_id->0@,
            };
            let p = opt_num(src.post_count);
            let c = opt_num(src.comment_count);
            let summary = user_hit_summary(opt_text(src.bio), p, c);
            &&& item.id@ == id
            &&& item.kind == SearchResultKind::User
            &&& item.title@ == opt_text(src.nickname)
            &&& user_title_highlight(hit, src, q) == Some(item.title_highlighted@)
            &&& item.summary@ == summary
            &&& shown_highlight(first_highlight_of(hs, "bio"@), summary, q) == Some(item.summary_highlighted@)
            &&& item.category_name is None
            &&& item.tags@.len() == 0
            &&& item.author_name@ == opt_text(src.username)
            &&& item.score == (match hit.score {
                Some(s) => s as int,
                None => user_activity_score(p, c),
            })
            &&& item.url@ == "/users/"@ + id
        },
    }
}

/// Whether a hit becomes an entry.
pub open spec fn hit_accepted(hit: SearchHit, q: Seq<char>) -> bool {
    hit_error(hit) is None && hit_defined(hit, q)
}

fn text_or_empty(o: &Option<String>) -> (s: String)
    ensures
        s@ == opt_text(*o),
{
    match o {
        Some(t) => t.clone(),
        None => String::new(),
    }
}

fn num_or_zero(o: Option<i64>) -> (n: i64)
    ensures
        n == opt_num(o),
{
    match o {
        Some(v) => v,
        None => 0,
    }
}

/// The first highlight fragment that a hit gives for a field.
pub fn first_highlight(hit: &SearchHit, key: &str) -> (r: Option<String>)
    ensures
        opt_view(r) == first_highlight_of(hit.highlights@, key@),
{
    let hs = &hit.highlights;
    let mut i: usize = 0;
    assert(hs@.subrange(0, hs@.len() as int) =~= hs@);
    while i < hs.len()
        invariant
            hs@ == hit.highlights@,
            i <= hs@.len(),
            first_highlight_of(hs@, key@) == first_highlight_of(hs@.subrange(i as int, hs@.len() as int), key@),
        decreases hs@.len() - i,
    {
        let ghost rest = hs@.subrange(i as int, hs@.len() as int);
        assert(rest.drop_first() =~= hs@.subrange(i + 1, hs@.len() as int));
        assert(rest[0] == hs@[i as int]);
        if str_eq(hs[i].0.as_str(), key) {
            let found = hs[i].1.clone();
            assert(found@ == hs@[i as int].1@);
            assert(rest[0].0@ == key@);
            assert(first_highlight_of(rest, key@) == Some(found@));
            return Some(found);
        }
        assert(first_highlight_of(rest, key@) == first_highlight_of(rest.drop_first(), key@));
        i = i + 1;
    }
    assert(hs@.subrange(i as int, hs@.len() as int) =~= Seq::<(String, String)>::empty());
    None
}

fn shown_or_highlight(given: Option<String>, text: &str, q: &str) -> (r: Option<String>)
    ensures
        opt_view(r) == shown_highlight(opt_view(given), text@, q@),
{
    match given {
        Some(h) => Some(h),
        None => highlight(text, q),
    }
}

fn kind_of(src: &HitSource) -> (k: SearchResultKind)
    ensures
        k == hit_kind(*src),
{
    match &src.kind {
        Some(k) => {
            if str_eq(k.as_str(), "tag") {
                SearchResultKind::Tag
            } else if str_eq(k.as_str(), "user") {
                SearchResultKind::User
            } else {
                SearchResultKind::Post
            }
        },
        None => SearchResultKind::Post,
    }
}

fn post_hit(hit: &SearchHit, src: &HitSource, q: &str) -> (r: Option<Result<SearchResultItem, String>>)
    requires
        hit.source == Some(*src),
        hit_kind(*src) == SearchResultKind::Post,
    ensures
        match hit_error(*hit) {
            Some(e) => r matches Some(Err(m)) && m@ == e,
            None => (r is None <==> !hit_defined(*hit, q@)) && (r matches Some(x) ==> x matches Ok(
                item,
            ) && hit_item_ok(item, *hit, q@)),
        },
{
    let id = match &hit.id {
        Some(i) => i.clone(),
        None => return Some(Err(owned("Elasticsearch hit 缺少 _id"))),
    };
    let title = text_or_empty(&src.title);
    let summary = text_or_empty(&src.summary);
    let th = match shown_or_highlight(first_highlight(hit, "title"), title.as_str(), q) {
        Some(h) => h,
        None => return None,
    };
    let sh = match shown_or_highlight(first_highlight(hit, "summary"), summary.as_str(), q) {
        Some(h) => h,
        None => return None,
    };
    let tags = match &src.tags {
        Some(t) => t.clone(),
        None => Vec::new(),
    };
    let author_name = match &src.author_name {
        Some(a) => a.clone(),
        None => match &src.author_id {
            Some(a) => a.clone(),
            None => owned("未知用户"),
        },
    };
    let score = match src.hot_score {
        Some(s) => s,
        None => num_or_zero(hit.score),
    };
    let url = concat_str("/posts/", id.as_str());
    Some(
        Ok(
            SearchResultItem {
                id,
                kind: SearchResultKind::Post,
                title,
                title_highlighted: th,
                summary,
                summary_highlighted: sh,
                category_name: src.category_name.clone(),
                tags,
                author_name,
                score,
                url,
            },
        ),
    )
}

fn tag_hit(hit: &SearchHit, src: &HitSource, q: &str) -> (r: Option<Result<SearchResultItem, String>>)
    requires
        hit.source == Some(*src),
        hit_kind(*src) == SearchResultKind::Tag,
    ensures
        match hit_error(*hit) {
            Some(e) => r matches Some(Err(m)) && m@ == e,
            None => (r is None <==> !hit_defined(*hit, q@)) && (r matches Some(x) ==> x matches Ok(
                item,
            ) && hit_item_ok(item, *hit, q@)),
        },
{
    let name = text_or_empty(&src.name);
    if name.as_str().is_empty() {
        return Some(Err(owned("Elasticsearch tag hit 缺少 name")));
    }
    let post_count = num_or_zero(src.post_count);
    let mut sv = shown_dec(post_count);
    extend_str(&mut sv, " 个主题使用该标签");
    let summary = string_from_chars(&sv);
    let hn = match shown_or_highlight(first_highlight(hit, "name"), name.as_str(), q) {
        Some(h) => h,
        None => return None,
    };
    let sh = match highlight(summary.as_str(), q) {
        Some(h) => h,
        None => return None,
    };
    let mut tags: Vec<String> = Vec::new();
    tags.push(name.clone());
    assert(strings_view(tags@) =~= seq![name@]);
    let score = match hit.score {
        Some(s) => s,
        None => post_count,
    };
    Some(
        Ok(
            SearchResultItem {
                id: name.clone(),
                kind: SearchResultKind::Tag,
                title_highlighted: concat_str("#", hn.as_str()),
                summary_highlighted: sh,
                title: concat_str("#", name.as_str()),
                summary,
                category_name: None,
                tags,
                author_name: owned("标签"),
                score,
                url: concat_str("/search?tag=", name.as_str()),
            },
        ),
    )
}

fn user_summary(bio: &str, posts: i64, comments: i64) -> (s: String)
    ensures
        s@ == user_hit_summary(bio@, posts, comments),
{
    let mut v: Vec<char> = Vec::new();
    if bio.is_empty() {
        extend_str(&mut v, "活跃作者，");
    } else {
        extend_str(&mut v, bio);
        extend_str(&mut v, "，");
    }
    let p = shown_dec(posts);
    extend(&mut v, &p);
    extend_str(&mut v, " 篇帖子，");
    let c = shown_dec(comments);
    extend(&mut v, &c);
    extend_str(&mut v, " 条评论");
    string_from_chars(&v)
}

fn activity_score(posts: i64, comments: i64) -> (r: Option<i64>)
    ensures
        r is Some <==> user_score_fits(posts, comments),
        r matches Some(s) ==> s == user_activity_score(posts, comments),
{
    let a = posts.checked_mul(20)?;
    let b = comments.checked_mul(5)?;
    a.checked_add(b)
}

fn user_hit(hit: &SearchHit, src: &HitSource, q: &str) -> (r: Option<Result<SearchResultItem, String>>)
    requires
        hit.source == Some(*src),
        hit_kind(*src) == SearchResultKind::User,
    ensures
        match hit_error(*hit) {
            Some(e) => r matches Some(Err(m)) && m@ == e,
            None => (r is None <==> !hit_defined(*hit, q@)) && (r matches Some(x) ==> x matches Ok(
                item,
            ) && hit_item_ok(item, *hit, q@)),
        },
{
    let id = match &hit.id {
        Some(i) => i.clone(),
        None => match &src.user_id {
            Some(u) => u.clone(),
            None => return Some(Err(owned("Elasticsearch user hit 缺少 _id"))),
        },
    };
    let nickname = text_or_empty(&src.nickname);
    if nickname.as_str().is_empty() {
        return Some(Err(owned("Elasticsearch user hit 缺少 nickname")));
    }
    let username = text_or_empty(&src.username);
    let posts = num_or_zero(src.post_count);
    let comments = num_or_zero(src.comment_count);
    let bio = text_or_empty(&src.bio);
    let summary = user_summary(bio.as_str(), posts, comments);
    let given = match first_highlight(hit, "nickname") {
        Some(h) => Some(h),
        None => first_highlight(hit, "username"),
    };
    let th = match shown_or_highlight(given, nickname.as_str(), q) {
        Some(h) => h,
        None => return None,
    };
    let sh = match shown_or_highlight(first_highlight(hit, "bio"), summary.as_str(), q) {
        Some(h) => h,
        None => return None,
    };
    let activity = match activity_score(posts, comments) {
        Some(s) => s,
        None => return None,
    };
    let score = match hit.score {
        Some(s) => s,
        None => activity,
    };
    let url = concat_str("/users/", id.as_str());
    Some(
        Ok(
            SearchResultItem {
                id,
                kind: SearchResultKind::User,
                title: nickname,
                title_highlighted: th,
                summary,
                summary_highlighted: sh,
                category_name: None,
                tags: Vec::new(),
                author_name: username,
                score,
                url,
            },
        ),
    )
}

/// The entry a hit becomes for a query: `Some(Err(..))` with the error that rejects it
/// (see `hit_error`), `Some(Ok(..))` with its entry (see `hit_item_ok`), or `None` where a
/// highlight it needs is undefined or a user's activity score leaves `i64`.
pub fn parse_search_hit(hit: &SearchHit, query: &SearchQuery) -> (r: Option<Result<SearchResultItem, String>>)
    ensures
        match hit_error(*hit) {
            Some(e) => r matches Some(Err(m)) && m@ == e,
            None => (r is None <==> !hit_defined(*hit, query.q@)) && (r matches Some(x) ==> x matches Ok(
                item,
            ) && hit_item_ok(item, *hit, query.q@)),
        },
{
    let src = match &hit.source {
        Some(s) => s,
        None => return Some(Err(owned("Elasticsearch hit 缺少 _source"))),
    };
    match kind_of(src) {
        SearchResultKind::Tag => tag_hit(hit, src, query.q.as_str()),
        SearchResultKind::User => user_hit(hit, src, query.q.as_str()),
        SearchResultKind::Post => post_hit(hit, src, query.q.as_str()),
    }
}

/// The total of a response's hits: `total.value`, else `total` as a number, else 0.
pub open spec fn hits_total(h: SearchHits) -> u64 {
    match h.total_value {
        Some(v) => v,
        None => match h.total_number {
            Some(v) => v,
            None => 0,
        },
    }
}

/// The entries of hits taken in order: the first rejected hit's error, `None` where a hit
/// before any rejection cannot be turned into an entry, else every entry.
#[verifier::spinoff_prover]
#[verifier::rlimit(40)]
fn parse_hits(hs: &Vec<SearchHit>, query: &SearchQuery) -> (r: Option<Result<Vec<SearchResultItem>, String>>)
    ensures
        r matches Some(Ok(items)) ==> {
            &&& forall|i: int| 0 <= i < hs@.len() ==> hit_accepted(#[trigger] hs@[i], query.q@)
            &&& items@.len() == hs@.len()
            &&& forall|i: int| 0 <= i < hs@.len() ==> hit_item_ok(#[trigger] items@[i], hs@[i], query.q@)
        },
        r matches Some(Err(m)) ==> exists|i: int| 0 <= i < hs@.len()
            && (forall|j: int| 0 <= j < i ==> hit_accepted(#[trigger] hs@[j], query.q@))
            && hit_error(#[trigger] hs@[i]) == Some(m@),
        r is None ==> exists|i: int| 0 <= i < hs@.len()
            && (forall|j: int| 0 <= j < i ==> hit_accepted(#[trigger] hs@[j], query.q@))
            && hit_error(#[trigger] hs@[i]) is None && !hit_defined(hs@[i], query.q@),
{
    let mut items: Vec<SearchResultItem> = Vec::new();
    let mut i: usize = 0;
    while i < hs.len()
        invariant
            i <= hs@.len(),
            items@.len() == i,
            forall|j: int| 0 <= j < i ==> hit_accepted(#[trigger] hs@[j], query.q@),
            forall|j: int| 0 <= j < i ==> hit_item_ok(#[trigger] items@[j], hs@[j], query.q@),
        decreases hs@.len() - i,
    {
        match parse_search_hit(&hs[i], query) {
            Some(Ok(item)) => {
                items.push(item);
            },
            Some(Err(e)) => {
                assert(hit_error(hs@[i as int]) == Some(e@));
                return Some(Err(e));
            },
            None => {
                assert(hit_error(hs@[i as int]) is None && !hit_defined(hs@[i as int], query.q@));
                return None;
            },
        }
        i = i + 1;
    }
    Some(Ok(items))
}

/// The result page read from a search response for a query, taking its hits in order:
/// the first rejected hit's error, `None` where a hit before any rejection cannot be
/// turned into an entry (see `parse_search_hit`), and otherwise the page of all their
/// entries with the response's total and the usual suggestions. A response without
/// `hits`, or without the `hits.hits` array, is an error.
pub fn parse_post_search_response(query: SearchQuery, response: SearchResponse) -> (r: Option<Result<SearchResultPage, String>>)
    ensures
        match response.hits {
            None => r matches Some(Err(m)) && m@ == "Elasticsearch 响应缺少 hits"@,
            Some(h) => match h.hits {
                None => r matches Some(Err(m)) && m@ == "Elasticsearch 响应缺少 hits.hits 数组"@,
                Some(hs) => {
                    let q = query.q@;
                    &&& (r matches Some(Ok(page)) ==> {
                        &&& forall|i: int| 0 <= i < hs@.len() ==> hit_accepted(#[trigger] hs@[i], q)
                        &&& page.query == query
                        &&& page.total == #[verifier::truncate] (hits_total(h) as usize)
                        &&& page.items@.len() == hs@.len()
                        &&& forall|i: int| 0 <= i < hs@.len() ==> hit_item_ok(#[trigger] page.items@[i], hs@[i], q)
                        &&& suggestions_ok(page.suggestions@)
                    })
                    &&& (r matches Some(Err(m)) ==> exists|i: int| 0 <= i < hs@.len()
                        && (forall|j: int| 0 <= j < i ==> hit_accepted(#[trigger] hs@[j], q))
                        && hit_error(#[trigger] hs@[i]) == Some(m@))
                    &&& (r is None ==> exists|i: int| 0 <= i < hs@.len()
                        && (forall|j: int| 0 <= j < i ==> hit_accepted(#[trigger] hs@[j], q))
                        && hit_error(#[trigger] hs@[i]) is None && !hit_defined(hs@[i], q))
                },
            },
        },
{
    let h = match response.hits {
        Some(h) => h,
        None => return Some(Err(owned("Elasticsearch 响应缺少 hits"))),
    };
    let total_u64: u64 = match h.total_value {
        Some(v) => v,
        None => match h.total_number {
            Some(v) => v,
            None => 0,
        },
    };
    let total: usize = #[verifier::truncate] (total_u64 as usize);
    let hs = match h.hits {
        Some(hs) => hs,
        None => return Some(Err(owned("Elasticsearch 响应缺少 hits.hits 数组"))),
    };
    let items = match parse_hits(&hs, &query) {
        Some(Ok(items)) => items,
        Some(Err(e)) => return Some(Err(e)),
        None => return None,
    };
    let mut suggestions: Vec<String> = Vec::new();
    suggestions.push(owned("leptos server functions"));
    suggestions.push(owned("sqlx transaction"));
    suggestions.push(owned("axum middleware"));
    Some(Ok(SearchResultPage { query, total, items, suggestions }))
}


/// An exact-match filter of an engine query: the document field and the value it must hold.
#[derive(Clone, Debug, PartialEq, Eq)]
pub struct TermFilter {
    pub field: String,
    pub value: String,
}

/// How a normalised search is put to the search engine: the exact-match filters, the text
/// to match over the searchable fields (`None`: every document matches), and the fields
/// that order the hits, each descending.
#[derive(Clone, Debug, PartialEq, Eq)]
pub struct EngineSearchPlan {
    pub filters: Vec<TermFilter>,
    pub text: Option<String>,
    pub sort_fields: Vec<String>,
}

/// Whether a filter tests `field` for `value`.
pub open spec fn term_is(f: TermFilter, field: Seq<char>, value: Seq<char>) -> bool {
    f.field@ == field && f.value@ == value
}

/// The filters of a query: the category (`category_name`), then the tag (`tags`).
pub open spec fn engine_filters_ok(fs: Seq<TermFilter>, q: SearchQuery) -> bool {
    let n: int = if q.category is Some { 1 } else { 0 };
    &&& fs.len() == n + if q.tag is Some { 1int } else { 0int }
    &&& (q.category matches Some(c) ==> term_is(fs[0], "category_name"@, c@))
    &&& (q.tag matches Some(g) ==> term_is(fs[n], "tags"@, g@))
}

/// The fields that order the hits of an ordering: the score alone for relevance, the
/// publication time or the hot score first otherwise.
pub open spec fn engine_sort_fields(s: SearchSort) -> Seq<Seq<char>> {
    match s {
        SearchSort::Relevance => seq!["_score"@],
        SearchSort::Latest => seq!["published_at"@, "_score"@],
        SearchSort::Hot => seq!["hot_score"@, "_score"@],
    }
}

/// The engine plan of a normalised search query.
pub fn plan_engine_search(query: &SearchQuery) -> (r: EngineSearchPlan)
    ensures
        engine_filters_ok(r.filters@, *query),
        query.q@.len() == 0 ==> r.text is None,
        query.q@.len() > 0 ==> (r.text matches Some(t) && t@ == query.q@),
        strings_view(r.sort_fields@) == engine_sort_fields(query.sort),
{
    let mut filters: Vec<TermFilter> = Vec::new();
    match &query.category {
        Some(c) => filters.push(TermFilter { field: owned("category_name"), value: c.clone() }),
        None => {},
    }
    match &query.tag {
        Some(g) => filters.push(TermFilter { field: owned("tags"), value: g.clone() }),
        None => {},
    }
    let text = if query.q.as_str().is_empty() {
        None
    } else {
        Some(query.q.clone())
    };
    let mut sort_fields: Vec<String> = Vec::new();
    match query.sort {
        SearchSort::Relevance => {},
        SearchSort::Latest => sort_fields.push(owned("published_at")),
        SearchSort::Hot => sort_fields.push(owned("hot_score")),
    }
    sort_fields.push(owned("_score"));
    assert(strings_view(sort_fields@) =~= engine_sort_fields(query.sort));
    EngineSearchPlan { filters, text, sort_fields }
}

} // verus!
