//! Searching the forum's own store: how a query is put to it, and how the rows it returns
//! (posts, and without filters also tags and users) become a result page.
use vstd::prelude::*;

use crate::search::{
    highlight_spec, merged_prec, page_of, post_row_item_ok, sort_search_items, suggestions_ok,
    tag_row_item_ok, tag_row_summary, user_row_item_ok, user_row_summary, SearchPostRow,
    SearchQuery, SearchResultItem, SearchSort, SearchTagRow, SearchUserRow,
};
use crate::search::SearchResultPage;
use crate::sorting::{lemma_sort_by_len, sort_by};
use crate::text::{concat_str, owned};

verus! {

/// How the store is asked for the posts of a normalised query.
#[derive(Clone, Debug, PartialEq, Eq)]
pub struct PostSearchPlan {
    /// The `ILIKE` pattern: the text between `%` wildcards.
    pub pattern: String,
    /// The ordering's name in the query: `relevance`, `latest` or `hot`.
    pub sort_key: String,
    /// Whether tags and users are searched too (only without a category or tag filter).
    pub include_sources: bool,
    pub limit: i64,
    pub offset: i64,
}

/// The name of an ordering in the store's query.
pub open spec fn sort_key_of(s: SearchSort) -> Seq<char> {
    match s {
        SearchSort::Relevance => "relevance"@,
        SearchSort::Latest => "latest"@,
        SearchSort::Hot => "hot"@,
    }
}

/// Whether a query searches tags and users besides posts: when it filters by neither
/// category nor tag.
pub open spec fn includes_sources(q: SearchQuery) -> bool {
    q.category is None && q.tag is None
}

/// How a normalised query is put to the store. Without filters the post rows of every
/// page up to the requested one are fetched (to be merged with tags and users and paged
/// afterwards); with a filter only the requested page is fetched. The counts are cast to
/// `i64` as the store takes them.
pub fn plan_post_search(query: &SearchQuery) -> (r: PostSearchPlan)
    requires
        query.page >= 1,
        query.page * query.page_size <= usize::MAX,
    ensures
        r.pattern@ == "%"@ + query.q@ + "%"@,
        r.sort_key@ == sort_key_of(query.sort),
        r.include_sources == includes_sources(*query),
        r.limit == if includes_sources(*query) {
            #[verifier::truncate] ((query.page * query.page_size) as i64)
        } else {
            #[verifier::truncate] (query.page_size as i64)
        },
        r.offset == if includes_sources(*query) {
            0
        } else {
            #[verifier::truncate] (((query.page - 1) * query.page_size) as i64)
        },
{
    let with_open = concat_str("%", query.q.as_str());
    let pattern = concat_str(with_open.as_str(), "%");
    let sort_key = match query.sort {
        SearchSort::Relevance => owned("relevance"),
        SearchSort::Latest => owned("latest"),
        SearchSort::Hot => owned("hot"),
    };
    let include_sources = query.category.is_none() && query.tag.is_none();
    assert((query.page - 1) * query.page_size <= query.page * query.page_size) by (nonlinear_arith)
        requires
            query.page >= 1,
    ;
    let upto: usize = query.page * query.page_size;
    let skipped: usize = (query.page - 1) * query.page_size;
    let limit: i64 = if include_sources {
        #[verifier::truncate] (upto as i64)
    } else {
        #[verifier::truncate] (query.page_size as i64)
    };
    let offset: i64 = if include_sources {
        0
    } else {
        #[verifier::truncate] (skipped as i64)
    };
    PostSearchPlan { pattern, sort_key, include_sources, limit, offset }
}

/// The total a list of rows reports: the window count of its first row, negative counts
/// as 0, cast to `usize`.
pub open spec fn rows_total(first: Option<i64>) -> usize {
    match first {
        Some(t) => if t < 0 {
            0
        } else {
            #[verifier::truncate] (t as usize)
        },
        None => 0,
    }
}

fn total_of(first: Option<i64>) -> (r: usize)
    ensures
        r == rows_total(first),
{
    match first {
        Some(t) => if t < 0 {
            0
        } else {
            #[verifier::truncate] (t as usize)
        },
        None => 0,
    }
}

/// The result page of a normalised query from its post entries and, where the query
/// searches tags and users too (see `includes_sources`), the tag and user entries found
/// with it: the post entries as they are, with the post total; or all entries merged in
/// the query's order (see `merged_before`) and paged, with the three totals added up.
/// `None` where that sum leaves `usize`. Tag and user entries are ignored for a filtered
/// query.
pub fn merge_search_page(
    query: SearchQuery,
    post_total: usize,
    post_items: Vec<SearchResultItem>,
    tag_total: usize,
    tag_items: Vec<SearchResultItem>,
    user_total: usize,
    user_items: Vec<SearchResultItem>,
) -> (r: Option<SearchResultPage>)
    requires
        query.page >= 1,
        (query.page - 1) * query.page_size <= usize::MAX,
    ensures
        includes_sources(query) ==> match r {
            None => post_total + tag_total + user_total > usize::MAX,
            Some(p) => {
                &&& post_total + tag_total + user_total <= usize::MAX
                &&& p.total == post_total + tag_total + user_total
                &&& p.items@ == page_of(
                    sort_by(post_items@ + tag_items@ + user_items@, merged_prec(query.sort)),
                    query.page,
                    query.page_size,
                )
            },
        },
        !includes_sources(query) ==> (r matches Some(p) && p.total == post_total && p.items@
            == post_items@),
        r matches Some(p) ==> p.query == query && suggestions_ok(p.suggestions@),
{
    let include_sources = query.category.is_none() && query.tag.is_none();
    let mut items = post_items;
    let mut total = post_total;
    if include_sources {
        let sources = match tag_total.checked_add(user_total) {
            Some(s) => s,
            None => return None,
        };
        total = match total.checked_add(sources) {
            Some(s) => s,
            None => return None,
        };
        let ghost all = post_items@ + tag_items@ + user_items@;
        let mut tags = tag_items;
        let mut users = user_items;
        items.append(&mut tags);
        items.append(&mut users);
        assert(items@ =~= all);
        sort_search_items(&mut items, query.sort);
        proof {
            lemma_sort_by_len(all, merged_prec(query.sort));
        }
        let start: usize = (query.page - 1) * query.page_size;
        if start < items.len() {
            let mut rest = items.split_off(start);
            rest.truncate(query.page_size);
            items = rest;
        } else {
            items = Vec::new();
        }
        assert(items@ =~= page_of(sort_by(all, merged_prec(query.sort)), query.page, query.page_size));
    }
    let mut suggestions: Vec<String> = Vec::new();
    suggestions.push(owned("leptos server functions"));
    suggestions.push(owned("sqlx transaction"));
    suggestions.push(owned("axum middleware"));
    Some(SearchResultPage { query, total, items, suggestions })
}

/// Whether a post row's highlights are defined for the query text.
pub open spec fn post_row_defined(row: SearchPostRow, q: Seq<char>) -> bool {
    highlight_spec(row.title@, q) is Some && highlight_spec(row.summary@, q) is Some
}

/// Whether a tag row's highlights are defined for the query text.
pub open spec fn tag_row_defined(row: SearchTagRow, q: Seq<char>) -> bool {
    highlight_spec("#"@ + row.name@, q) is Some && highlight_spec(tag_row_summary(row.post_count), q)
        is Some
}

/// Whether a user row's highlights are defined for the query text.
pub open spec fn user_row_defined(row: SearchUserRow, q: Seq<char>) -> bool {
    highlight_spec(row.nickname@, q) is Some && highlight_spec(
        user_row_summary(row.post_count, row.comment_count),
        q,
    ) is Some
}

/// Whether every post row's highlights are defined for the query text.
pub open spec fn post_rows_defined(rows: Seq<SearchPostRow>, q: Seq<char>) -> bool {
    forall|i: int| 0 <= i < rows.len() ==> post_row_defined(#[trigger] rows[i], q)
}

/// Whether every tag row's highlights are defined for the query text.
pub open spec fn tag_rows_defined(rows: Seq<SearchTagRow>, q: Seq<char>) -> bool {
    forall|i: int| 0 <= i < rows.len() ==> tag_row_defined(#[trigger] rows[i], q)
}

/// Whether every user row's highlights are defined for the query text.
pub open spec fn user_rows_defined(rows: Seq<SearchUserRow>, q: Seq<char>) -> bool {
    forall|i: int| 0 <= i < rows.len() ==> user_row_defined(#[trigger] rows[i], q)
}

#[verifier::rlimit(50)]
fn post_entries(rows: Vec<SearchPostRow>, q: &str) -> (r: Option<Vec<SearchResultItem>>)
    ensures
        r is Some <==> post_rows_defined(rows@, q@),
        r matches Some(items) ==> items@.len() == rows@.len() && forall|i: int|
            0 <= i < rows@.len() ==> post_row_item_ok(#[trigger] items@[i], rows@[i], q@),
{
    let ghost all = rows@;
    let mut rest = rows;
    let mut items: Vec<SearchResultItem> = Vec::new();
    let mut i: usize = 0;
    let n: usize = rest.len();
    while rest.len() > 0
        invariant
            all == rows@,
            n == all.len(),
            i <= all.len(),
            rest@ == all.subrange(i as int, all.len() as int),
            items@.len() == i,
            forall|j: int| 0 <= j < i ==> post_row_item_ok(#[trigger] items@[j], all[j], q@),
            forall|j: int| 0 <= j < i ==> post_row_defined(#[trigger] all[j], q@),
        decreases rest@.len(),
    {
        let ghost before = rest@;
        let row = rest.remove(0);
        assert(row == all[i as int]);
        assert(rest@ =~= all.subrange(i + 1, all.len() as int));
        match row.into_item(q) {
            Some(item) => items.push(item),
            None => {
                assert(!post_row_defined(all[i as int], q@));
                return None;
            },
        }
        i = i + 1;
    }
    Some(items)
}

#[verifier::rlimit(50)]
fn tag_entries(rows: Vec<SearchTagRow>, q: &str) -> (r: Option<Vec<SearchResultItem>>)
    ensures
        r is Some <==> tag_rows_defined(rows@, q@),
        r matches Some(items) ==> items@.len() == rows@.len() && forall|i: int|
            0 <= i < rows@.len() ==> tag_row_item_ok(#[trigger] items@[i], rows@[i], q@),
{
    let ghost all = rows@;
    let mut rest = rows;
    let mut items: Vec<SearchResultItem> = Vec::new();
    let mut i: usize = 0;
    let n: usize = rest.len();
    while rest.len() > 0
        invariant
            all == rows@,
            n == all.len(),
            i <= all.len(),
            rest@ == all.subrange(i as int, all.len() as int),
            items@.len() == i,
            forall|j: int| 0 <= j < i ==> tag_row_item_ok(#[trigger] items@[j], all[j], q@),
            forall|j: int| 0 <= j < i ==> tag_row_defined(#[trigger] all[j], q@),
        decreases rest@.len(),
    {
        let ghost before = rest@;
        let row = rest.remove(0);
        assert(row == all[i as int]);
        assert(rest@ =~= all.subrange(i + 1, all.len() as int));
        match row.into_item(q) {
            Some(item) => items.push(item),
            None => {
                assert(!tag_row_defined(all[i as int], q@));
                return None;
            },
        }
        i = i + 1;
    }
    Some(items)
}

#[verifier::rlimit(50)]
fn user_entries(rows: Vec<SearchUserRow>, q: &str) -> (r: Option<Vec<SearchResultItem>>)
    ensures
        r is Some <==> user_rows_defined(rows@, q@),
        r matches Some(items) ==> items@.len() == rows@.len() && forall|i: int|
            0 <= i < rows@.len() ==> user_row_item_ok(#[trigger] items@[i], rows@[i], q@),
{
    let ghost all = rows@;
    let mut rest = rows;
    let mut items: Vec<SearchResultItem> = Vec::new();
    let mut i: usize = 0;
    let n: usize = rest.len();
    while rest.len() > 0
        invariant
            all == rows@,
            n == all.len(),
            i <= all.len(),
            rest@ == all.subrange(i as int, all.len() as int),
            items@.len() == i,
            forall|j: int| 0 <= j < i ==> user_row_item_ok(#[trigger] items@[j], all[j], q@),
            forall|j: int| 0 <= j < i ==> user_row_defined(#[trigger] all[j], q@),
        decreases rest@.len(),
    {
        let ghost before = rest@;
        let row = rest.remove(0);
        assert(row == all[i as int]);
        assert(rest@ =~= all.subrange(i + 1, all.len() as int));
        match row.into_item(q) {
            Some(item) => items.push(item),
            None => {
                assert(!user_row_defined(all[i as int], q@));
                return None;
            },
        }
        i = i + 1;
    }
    Some(items)
}

/// The first row's window count of a list of post rows.
pub open spec fn first_post_count(rows: Seq<SearchPostRow>) -> Option<i64> {
    if rows.len() == 0 {
        None
    } else {
        Some(rows[0].total_count)
    }
}

/// The first row's window count of a list of tag rows.
pub open spec fn first_tag_count(rows: Seq<SearchTagRow>) -> Option<i64> {
    if rows.len() == 0 {
        None
    } else {
        Some(rows[0].total_count)
    }
}

/// The first row's window count of a list of user rows.
pub open spec fn first_user_count(rows: Seq<SearchUserRow>) -> Option<i64> {
    if rows.len() == 0 {
        None
    } else {
        Some(rows[0].total_count)
    }
}

/// The result page of a normalised query from the rows the store returned: each row
/// becomes its entry (see `SearchPostRow::into_item` and the others), each list's total
/// is read from its first row (see `rows_total`), and the entries are merged and paged
/// by `merge_search_page`. `None` where a highlight of some row is undefined, or where
/// `merge_search_page` gives none. Tag and user rows count only for a query without
/// filters, for which the store is asked for them.
pub fn search_page_from_rows(
    query: SearchQuery,
    post_rows: Vec<SearchPostRow>,
    tag_rows: Vec<SearchTagRow>,
    user_rows: Vec<SearchUserRow>,
) -> (r: Option<SearchResultPage>)
    requires
        query.page >= 1,
        (query.page - 1) * query.page_size <= usize::MAX,
    ensures
        ({
            let q = query.q@;
            let pt = rows_total(first_post_count(post_rows@));
            let tt = rows_total(first_tag_count(tag_rows@));
            let ut = rows_total(first_user_count(user_rows@));
            let defined = post_rows_defined(post_rows@, q) && (includes_sources(query) ==> (
            tag_rows_defined(tag_rows@, q) && user_rows_defined(user_rows@, q)));
            &&& !defined ==> r is None
            &&& (defined && !includes_sources(query)) ==> (r matches Some(p) && p.query == query
                && p.total == pt && p.items@.len() == post_rows@.len() && forall|i: int|
                0 <= i < post_rows@.len() ==> post_row_item_ok(#[trigger] p.items@[i], post_rows@[i], q))
            &&& (defined && includes_sources(query)) ==> (r is None <==> pt + tt + ut > usize::MAX)
            &&& (defined && includes_sources(query) && r is Some) ==> exists|
                ps: Seq<SearchResultItem>,
                ts: Seq<SearchResultItem>,
                us: Seq<SearchResultItem>,
            |
                {
                    &&& ps.len() == post_rows@.len()
                    &&& (forall|i: int| 0 <= i < ps.len() ==> post_row_item_ok(#[trigger] ps[i], post_rows@[i], q))
                    &&& ts.len() == tag_rows@.len()
                    &&& (forall|i: int| 0 <= i < ts.len() ==> tag_row_item_ok(#[trigger] ts[i], tag_rows@[i], q))
                    &&& us.len() == user_rows@.len()
                    &&& (forall|i: int| 0 <= i < us.len() ==> user_row_item_ok(#[trigger] us[i], user_rows@[i], q))
                    &&& r->0.items@ == page_of(sort_by(ps + ts + us, merged_prec(query.sort)), query.page, query.page_size)
                }
            &&& r matches Some(p) ==> p.query == query && suggestions_ok(p.suggestions@)
                && (includes_sources(query) ==> p.total == pt + tt + ut)
        }),
{
    let include_sources = query.category.is_none() && query.tag.is_none();
    let post_total = total_of(if post_rows.len() > 0 { Some(post_rows[0].total_count) } else { None });
    let post_items = match post_entries(post_rows, query.q.as_str()) {
        Some(v) => v,
        None => return None,
    };
    if !include_sources {
        return merge_search_page(query, post_total, post_items, 0, Vec::new(), 0, Vec::new());
    }
    let tag_total = total_of(if tag_rows.len() > 0 { Some(tag_rows[0].total_count) } else { None });
    let tag_items = match tag_entries(tag_rows, query.q.as_str()) {
        Some(v) => v,
        None => return None,
    };
    let user_total = total_of(if user_rows.len() > 0 { Some(user_rows[0].total_count) } else { None });
    let user_items = match user_entries(user_rows, query.q.as_str()) {
        Some(v) => v,
        None => return None,
    };
    let ghost (ps, ts, us) = (post_items@, tag_items@, user_items@);
    let r = merge_search_page(query, post_total, post_items, tag_total, tag_items, user_total, user_items);
    r
}

} // verus!
