//! Reading page and API parameters into queries, and writing queries back into links.
use vstd::prelude::*;

use crate::bridge::{string_from_chars, uuid_string, uuid_text};
use crate::home::{
    filter_norm, home_sort_param, home_tab_param, home_time_param, lower_opt, norm_page,
    norm_page_size, opt_str_view, parse_sort, parse_tab, parse_time_range, sort_from_param,
    sort_param, tab_from_param, tab_param, time_from_param, time_param, HomeQuery, HomeSort,
    HomeTab, HomeTimeRange,
};
use crate::search::{SearchQuery, SearchSort};
use crate::text::{chars_of, dec, extend, extend_str, is_ascii_digit, opt_view, owned, str_eq, trim, u64_dec};

verus! {

/// The value of a decimal numeral.
pub open spec fn digits_value(s: Seq<char>) -> nat
    decreases s.len(),
{
    if s.len() == 0 {
        0
    } else {
        digits_value(s.drop_last()) * 10 + ((s.last() as u32) as nat - 48) as nat
    }
}

/// The text after an optional leading `+`.
pub open spec fn unsigned_part(s: Seq<char>) -> Seq<char> {
    if s.len() > 0 && s[0] == '+' {
        s.drop_first()
    } else {
        s
    }
}

/// Whether every character is an ASCII digit.
pub open spec fn all_digits(d: Seq<char>) -> bool {
    forall|i: int| 0 <= i < d.len() ==> is_ascii_digit(#[trigger] d[i])
}

/// What `usize::from_str` reads from a text: an optional `+` followed by at least one
/// ASCII digit and nothing else, whose value fits in `usize`.
pub open spec fn usize_of_text(s: Seq<char>) -> Option<usize> {
    let d = unsigned_part(s);
    if d.len() > 0 && all_digits(d) && digits_value(d) <= usize::MAX {
        Some(digits_value(d) as usize)
    } else {
        None
    }
}

proof fn lemma_digits_grow(s: Seq<char>, i: int)
    requires
        0 <= i <= s.len(),
        forall|k: int| 0 <= k < s.len() ==> is_ascii_digit(#[trigger] s[k]),
    ensures
        digits_value(s.take(i)) <= digits_value(s),
    decreases s.len() - i,
{
    if i < s.len() {
        lemma_digits_grow(s, i + 1);
        assert(s.take(i + 1).drop_last() =~= s.take(i));
    } else {
        assert(s.take(i) =~= s);
    }
}

/// A decimal `usize` parameter, read as `usize::from_str` reads it (see `usize_of_text`).
pub fn parse_usize(text: &str) -> (r: Option<usize>)
    ensures
        r == usize_of_text(text@),
{
    let cs = chars_of(text);
    let start: usize = if cs.len() > 0 && cs[0] == '+' {
        1
    } else {
        0
    };
    let ghost d = unsigned_part(text@);
    assert(d =~= cs@.subrange(start as int, cs@.len() as int));
    if start == cs.len() {
        return None;
    }
    let mut value: usize = 0;
    let mut i: usize = start;
    while i < cs.len()
        invariant
            start <= i <= cs@.len(),
            d == cs@.subrange(start as int, cs@.len() as int),
            d == unsigned_part(text@),
            cs@ == text@,
            forall|k: int| 0 <= k < i - start ==> is_ascii_digit(#[trigger] d[k]),
            value == digits_value(d.take(i - start)),
        decreases cs@.len() - i,
    {
        let c = cs[i];
        assert(c == d[i - start]);
        if !(c >= '0' && c <= '9') {
            assert(!is_ascii_digit(d[i - start]));
            assert(0 <= i - start < d.len());
            assert(!all_digits(d));
            return None;
        }
        let ghost k = i - start;
        proof {
            assert(d.take(k + 1).drop_last() =~= d.take(k));
            assert(d.take(k + 1).last() == c);
            assert(digits_value(d.take(k + 1)) == digits_value(d.take(k)) * 10 + ((c as u32) as nat - 48) as nat);
        }
        let digit = (c as u32 - 48) as usize;
        let next = match value.checked_mul(10) {
            Some(v) => v.checked_add(digit),
            None => None,
        };
        match next {
            Some(v) => {
                value = v;
            },
            None => {
                proof {
                    assert(digits_value(d.take(k + 1)) > usize::MAX);
                    if all_digits(d) {
                        lemma_digits_grow(d, k + 1);
                    }
                }
                return None;
            },
        }
        i = i + 1;
    }
    assert(d.take(d.len() as int) =~= d);
    Some(value)
}

proof fn lemma_dec_digits(n: nat)
    ensures
        dec(n).len() > 0,
        all_digits(dec(n)),
        digits_value(dec(n)) == n,
    decreases n,
{
    crate::text::lemma_hex_digit_code(n % 10);
    if n >= 10 {
        lemma_dec_digits(n / 10);
        let d = dec(n / 10);
        let e = dec(n);
        assert(e == d.push(crate::text::hex_digit(n % 10)));
        assert(e.drop_last() =~= d);
        assert((n / 10) * 10 + n % 10 == n) by (nonlinear_arith);
        assert(e.last() == crate::text::hex_digit(n % 10));
        assert(digits_value(e) == digits_value(d) * 10 + n % 10);
        assert forall|i: int| 0 <= i < e.len() implies is_ascii_digit(#[trigger] e[i]) by {
            if i < d.len() {
                assert(e[i] == d[i]);
            }
        }
    } else {
        crate::text::lemma_hex_digit_code(n);
        assert(dec(n).drop_last() =~= Seq::<char>::empty());
        assert(digits_value(Seq::<char>::empty()) == 0);
        assert(dec(n).last() == crate::text::hex_digit(n));
        assert(digits_value(dec(n)) == n);
    }
}

/// Reading back a page number written in decimal gives the number: the page part of a
/// home link reads as the page it was written from.
pub proof fn law_page_number_round_trip(n: usize)
    ensures
        usize_of_text(dec(n as nat)) == Some(n),
{
    lemma_dec_digits(n as nat);
    let d = dec(n as nat);
    assert(is_ascii_digit(d[0]));
    assert(unsigned_part(d) == d);
}

/// The sort named by a search parameter; anything else is relevance.
pub open spec fn search_sort_of(v: Option<Seq<char>>) -> SearchSort {
    if v == Some("latest"@) {
        SearchSort::Latest
    } else if v == Some("hot"@) {
        SearchSort::Hot
    } else {
        SearchSort::Relevance
    }
}

/// The ordering a search parameter names (see `search_sort_of`).
pub fn parse_search_sort(value: Option<&str>) -> (r: SearchSort)
    ensures
        r == search_sort_of(opt_str_view(value)),
{
    match value {
        Some(v) => {
            if str_eq(v, "latest") {
                SearchSort::Latest
            } else if str_eq(v, "hot") {
                SearchSort::Hot
            } else {
                SearchSort::Relevance
            }
        },
        None => SearchSort::Relevance,
    }
}

/// The sort named by the search page's parameter (see `search_sort_of`).
pub fn search_sort_from_param(sort: Option<&str>) -> (r: SearchSort)
    ensures
        r == search_sort_of(opt_str_view(sort)),
{
    parse_search_sort(sort)
}

/// The tab named by the home page's parameter (see `tab_from_param`).
pub fn home_tab_from_param(tab: Option<&str>) -> (r: HomeTab)
    ensures
        r == tab_from_param(opt_str_view(tab)),
{
    parse_tab(tab)
}

/// The time range named by the home page's parameter (see `time_from_param`).
pub fn home_time_from_param(time: Option<&str>) -> (r: HomeTimeRange)
    ensures
        r == time_from_param(opt_str_view(time)),
{
    parse_time_range(time)
}

/// The ordering named by the home page's parameter (see `sort_from_param`).
pub fn home_sort_from_param(sort: Option<&str>) -> (r: HomeSort)
    ensures
        r == sort_from_param(opt_str_view(sort)),
{
    parse_sort(sort)
}

fn as_str_opt(o: &Option<String>) -> (r: Option<&str>)
    ensures
        opt_str_view(r) == opt_view(*o),
{
    match o {
        Some(s) => Some(s.as_str()),
        None => None,
    }
}

/// The query parameters of the home endpoint.
#[derive(Clone, Debug, PartialEq, Eq)]
pub struct HomeQueryParams {
    pub tab: Option<String>,
    pub category: Option<String>,
    pub tag: Option<String>,
    pub time: Option<String>,
    pub sort: Option<String>,
    pub page: Option<usize>,
    pub page_size: Option<usize>,
    pub user_id: Option<u128>,
}

impl HomeQuery {
    /// The home query of the endpoint's parameters: named tab, time range and ordering,
    /// filters as given, page 1 and 12 entries where absent.
    pub fn from_params(value: HomeQueryParams) -> (r: HomeQuery)
        ensures
            r.tab == tab_from_param(opt_view(value.tab)),
            r.category == value.category,
            r.tag == value.tag,
            r.time == time_from_param(opt_view(value.time)),
            r.sort == sort_from_param(opt_view(value.sort)),
            r.page == (match value.page {
                Some(p) => p,
                None => 1,
            }),
            r.page_size == (match value.page_size {
                Some(p) => p,
                None => 12,
            }),
    {
        let tab = parse_tab(as_str_opt(&value.tab));
        let time = parse_time_range(as_str_opt(&value.time));
        let sort = parse_sort(as_str_opt(&value.sort));
        HomeQuery {
            tab,
            category: value.category,
            tag: value.tag,
            time,
            sort,
            page: match value.page {
                Some(p) => p,
                None => 1,
            },
            page_size: match value.page_size {
                Some(p) => p,
                None => 12,
            },
        }
    }
}

/// The query parameters of the search endpoint.
#[derive(Clone, Debug, PartialEq, Eq)]
pub struct SearchQueryParams {
    pub q: Option<String>,
    pub category: Option<String>,
    pub tag: Option<String>,
    pub sort: Option<String>,
    pub page: Option<usize>,
    pub page_size: Option<usize>,
}

impl SearchQuery {
    /// The search query of the endpoint's parameters: empty text where absent, named
    /// ordering, filters as given, page 1 and 10 entries where absent.
    pub fn from_params(value: SearchQueryParams) -> (r: SearchQuery)
        ensures
            r.q@ == (match value.q {
                Some(q) => q@,
                None => Seq::<char>::empty(),
            }),
            r.category == value.category,
            r.tag == value.tag,
            r.sort == search_sort_of(opt_view(value.sort)),
            r.page == (match value.page {
                Some(p) => p,
                None => 1,
            }),
            r.page_size == (match value.page_size {
                Some(p) => p,
                None => 10,
            }),
    {
        let sort = parse_search_sort(as_str_opt(&value.sort));
        SearchQuery {
            q: match value.q {
                Some(q) => q,
                None => String::new(),
            },
            category: value.category,
            tag: value.tag,
            sort,
            page: match value.page {
                Some(p) => p,
                None => 1,
            },
            page_size: match value.page_size {
                Some(p) => p,
                None => 10,
            },
        }
    }
}

/// A number parameter: its value where it reads as a `usize`, `default` otherwise.
pub open spec fn number_or(v: Option<Seq<char>>, default: usize) -> usize {
    match v {
        Some(t) => match usize_of_text(t) {
            Some(n) => n,
            None => default,
        },
        None => default,
    }
}

fn number_param(v: &Option<String>, default: usize) -> (r: usize)
    ensures
        r == number_or(opt_view(*v), default),
{
    match v {
        Some(t) => match parse_usize(t.as_str()) {
            Some(n) => n,
            None => default,
        },
        None => default,
    }
}

/// The home query of the page's parameters, normalized: named tab, time range and
/// ordering, page and page size read as numbers (1 and 12 where absent or unreadable).
pub fn home_query_from_params(
    tab: Option<String>,
    category: Option<String>,
    tag: Option<String>,
    time: Option<String>,
    sort: Option<String>,
    page: Option<String>,
    page_size: Option<String>,
) -> (r: HomeQuery)
    ensures
        r.tab == tab_from_param(opt_view(tab)),
        r.time == time_from_param(opt_view(time)),
        r.sort == sort_from_param(opt_view(sort)),
        r.page == norm_page(number_or(opt_view(page), 1)),
        r.page_size == norm_page_size(number_or(opt_view(page_size), 12), 12, 50),
        opt_view(r.category) == filter_norm(opt_view(category)),
        opt_view(r.tag) == lower_opt(filter_norm(opt_view(tag))),
{
    let q = HomeQuery {
        tab: home_tab_from_param(as_str_opt(&tab)),
        category,
        tag,
        time: home_time_from_param(as_str_opt(&time)),
        sort: home_sort_from_param(as_str_opt(&sort)),
        page: number_param(&page, 1),
        page_size: number_param(&page_size, 12),
    };
    q.normalized()
}

/// The search query of the page's parameters, normalized: empty text where absent,
/// named ordering, page and page size read as numbers (1 and 10 where absent or
/// unreadable).
pub fn search_query_from_params(
    q: Option<String>,
    category: Option<String>,
    tag: Option<String>,
    sort: Option<String>,
    page: Option<String>,
    page_size: Option<String>,
) -> (r: SearchQuery)
    ensures
        r.q@ == trim(
            match q {
                Some(t) => t@,
                None => Seq::<char>::empty(),
            },
        ),
        r.sort == search_sort_of(opt_view(sort)),
        r.page == norm_page(number_or(opt_view(page), 1)),
        r.page_size == norm_page_size(number_or(opt_view(page_size), 10), 10, 50),
        opt_view(r.category) == filter_norm(opt_view(category)),
        opt_view(r.tag) == lower_opt(filter_norm(opt_view(tag))),
{
    let query = SearchQuery {
        q: match q {
            Some(t) => t,
            None => String::new(),
        },
        category,
        tag,
        sort: search_sort_from_param(as_str_opt(&sort)),
        page: number_param(&page, 1),
        page_size: number_param(&page_size, 10),
    };
    query.normalized()
}

/// `prefix` followed by the value, where there is one.
pub open spec fn opt_part(prefix: Seq<char>, v: Option<Seq<char>>) -> Seq<char> {
    match v {
        Some(c) => prefix + c,
        None => Seq::<char>::empty(),
    }
}

/// The time part of a home link: empty for `all`.
pub open spec fn time_part(time: HomeTimeRange) -> Seq<char> {
    if time != HomeTimeRange::All {
        "&time="@ + time_param(time)
    } else {
        Seq::<char>::empty()
    }
}

/// The ordering part of a home link: empty for ordering by last reply.
pub open spec fn sort_part(sort: HomeSort) -> Seq<char> {
    if sort != HomeSort::LastReply {
        "&sort="@ + sort_param(sort)
    } else {
        Seq::<char>::empty()
    }
}

/// The page part of a home link: empty for the first page.
pub open spec fn page_part(page: usize) -> Seq<char> {
    if page > 1 {
        "&page="@ + dec(page as nat)
    } else {
        Seq::<char>::empty()
    }
}

/// The link of a home query with normalized parts: its tab, then the category and tag
/// where set, the time range unless it is `all`, the ordering unless it is by last
/// reply, and the page beyond the first.
pub open spec fn home_link(
    tab: HomeTab,
    category: Option<Seq<char>>,
    tag: Option<Seq<char>>,
    time: HomeTimeRange,
    sort: HomeSort,
    page: usize,
) -> Seq<char> {
    "/?tab="@ + tab_param(tab) + opt_part("&category="@, category) + opt_part("&tag="@, tag)
        + time_part(time) + sort_part(sort) + page_part(page)
}

fn push_opt(v: &mut Vec<char>, prefix: &str, o: &Option<String>)
    ensures
        final(v)@ == old(v)@ + opt_part(prefix@, opt_view(*o)),
{
    if let Some(c) = o {
        extend_str(v, prefix);
        extend_str(v, c.as_str());
        assert(final(v)@ =~= old(v)@ + opt_part(prefix@, opt_view(*o)));
    } else {
        assert(v@ =~= old(v)@ + opt_part(prefix@, opt_view(*o)));
    }
}

/// An optional override of an optional filter.
pub open spec fn override_filter(o: Option<Option<&str>>, current: Option<String>) -> Option<Seq<char>> {
    match o {
        Some(v) => opt_str_view(v),
        None => opt_view(current),
    }
}

/// The link of `query` with the given parts replaced, normalized (see `home_link`).
pub fn home_href(
    query: &HomeQuery,
    tab: Option<HomeTab>,
    category: Option<Option<&str>>,
    tag: Option<Option<&str>>,
    time: Option<HomeTimeRange>,
    sort: Option<HomeSort>,
    page: Option<usize>,
) -> (r: String)
    ensures
        r@ == home_link(
            match tab {
                Some(t) => t,
                None => query.tab,
            },
            filter_norm(override_filter(category, query.category)),
            lower_opt(filter_norm(override_filter(tag, query.tag))),
            match time {
                Some(t) => t,
                None => query.time,
            },
            match sort {
                Some(s) => s,
                None => query.sort,
            },
            norm_page(
                match page {
                    Some(p) => p,
                    None => query.page,
                },
            ),
        ),
{
    let mut next = query.clone();
    if let Some(tab) = tab {
        next.tab = tab;
    }
    if let Some(category) = category {
        next.category = match category {
            Some(c) => Some(owned(c)),
            None => None,
        };
    }
    if let Some(tag) = tag {
        next.tag = match tag {
            Some(t) => Some(owned(t)),
            None => None,
        };
    }
    if let Some(time) = time {
        next.time = time;
    }
    if let Some(sort) = sort {
        next.sort = sort;
    }
    if let Some(page) = page {
        next.page = page;
    }
    let next = next.normalized();
    home_link_of(&next)
}

fn home_link_of(next: &HomeQuery) -> (r: String)
    ensures
        r@ == home_link(
            next.tab,
            opt_view(next.category),
            opt_view(next.tag),
            next.time,
            next.sort,
            next.page,
        ),
{
    let mut href: Vec<char> = Vec::new();
    extend_str(&mut href, "/?tab=");
    extend_str(&mut href, home_tab_param(next.tab));
    push_opt(&mut href, "&category=", &next.category);
    push_opt(&mut href, "&tag=", &next.tag);
    let ghost h3 = href@;
    if next.time != HomeTimeRange::All {
        extend_str(&mut href, "&time=");
        extend_str(&mut href, home_time_param(next.time));
    }
    assert(href@ =~= h3 + time_part(next.time));
    let ghost h4 = href@;
    if next.sort != HomeSort::LastReply {
        extend_str(&mut href, "&sort=");
        extend_str(&mut href, home_sort_param(next.sort));
    }
    assert(href@ =~= h4 + sort_part(next.sort));
    let ghost h5 = href@;
    if next.page > 1 {
        extend_str(&mut href, "&page=");
        let digits = u64_dec(next.page as u64);
        extend(&mut href, &digits);
    }
    assert(href@ =~= h5 + page_part(next.page));
    string_from_chars(&href)
}

/// The link of a search with its text, category and tag (where set) and its ordering
/// unless it is by relevance.
pub open spec fn search_link(q: Seq<char>, category: Option<Seq<char>>, tag: Option<Seq<char>>, sort: SearchSort) -> Seq<char> {
    "/search?q="@ + q + (match category {
        Some(c) => "&category="@ + c,
        None => Seq::<char>::empty(),
    }) + (match tag {
        Some(t) => "&tag="@ + t,
        None => Seq::<char>::empty(),
    }) + (match sort {
        SearchSort::Relevance => Seq::<char>::empty(),
        SearchSort::Latest => "&sort=latest"@,
        SearchSort::Hot => "&sort=hot"@,
    })
}

/// The `sort` parameter a search link carries for an ordering: none for relevance.
pub open spec fn search_sort_param(sort: SearchSort) -> Option<Seq<char>> {
    match sort {
        SearchSort::Relevance => None,
        SearchSort::Latest => Some("latest"@),
        SearchSort::Hot => Some("hot"@),
    }
}

/// A search link ends with the `sort` parameter of its ordering, and reading that
/// parameter back (absent for relevance) gives the ordering the link was written with.
pub proof fn law_search_sort_round_trip(q: Seq<char>, category: Option<Seq<char>>, tag: Option<Seq<char>>, sort: SearchSort)
    ensures
        search_sort_of(search_sort_param(sort)) == sort,
        search_link(q, category, tag, sort) == search_link(q, category, tag, SearchSort::Relevance) + (
        match search_sort_param(sort) {
            Some(p) => "&sort="@ + p,
            None => Seq::<char>::empty(),
        }),
{
    reveal_strlit("latest");
    reveal_strlit("hot");
    reveal_strlit("&sort=");
    reveal_strlit("&sort=latest");
    reveal_strlit("&sort=hot");
    assert("latest"@.len() != "hot"@.len());
    assert("&sort=latest"@ =~= "&sort="@ + "latest"@);
    assert("&sort=hot"@ =~= "&sort="@ + "hot"@);
    let base = "/search?q="@ + q + (match category {
        Some(c) => "&category="@ + c,
        None => Seq::<char>::empty(),
    }) + (match tag {
        Some(t) => "&tag="@ + t,
        None => Seq::<char>::empty(),
    });
    assert(search_link(q, category, tag, SearchSort::Relevance) =~= base);
}

/// The link of `query` with the given category, tag or ordering in place of its own
/// (see `search_link`).
pub fn search_href(
    query: &SearchQuery,
    category: Option<&str>,
    tag: Option<&str>,
    sort: Option<SearchSort>,
) -> (r: String)
    ensures
        r@ == search_link(
            query.q@,
            match category {
                Some(c) => Some(c@),
                None => opt_view(query.category),
            },
            match tag {
                Some(t) => Some(t@),
                None => opt_view(query.tag),
            },
            match sort {
                Some(s) => s,
                None => query.sort,
            },
        ),
{
    let mut href: Vec<char> = Vec::new();
    extend_str(&mut href, "/search?q=");
    extend_str(&mut href, query.q.as_str());
    let cat = match category {
        Some(c) => Some(c),
        None => as_str_opt(&query.category),
    };
    if let Some(c) = cat {
        extend_str(&mut href, "&category=");
        extend_str(&mut href, c);
    }
    let tg = match tag {
        Some(t) => Some(t),
        None => as_str_opt(&query.tag),
    };
    if let Some(t) = tg {
        extend_str(&mut href, "&tag=");
        extend_str(&mut href, t);
    }
    let sort = match sort {
        Some(s) => s,
        None => query.sort,
    };
    match sort {
        SearchSort::Relevance => {},
        SearchSort::Latest => extend_str(&mut href, "&sort=latest"),
        SearchSort::Hot => extend_str(&mut href, "&sort=hot"),
    }
    assert(href@ =~= search_link(
        query.q@,
        opt_str_view(cat),
        opt_str_view(tg),
        sort,
    ));
    string_from_chars(&href)
}

/// The user a profile page is about: `me` on one's own page, else the `id` parameter
/// (empty where absent).
pub fn user_id_from_params(id: Option<String>, is_me: bool) -> (r: String)
    ensures
        r@ == (if is_me {
            "me"@
        } else {
            match id {
                Some(i) => i@,
                None => Seq::<char>::empty(),
            }
        }),
{
    if is_me {
        owned("me")
    } else {
        match id {
            Some(i) => i,
            None => String::new(),
        }
    }
}

/// The post a page is about: the `id` parameter, empty where absent.
pub fn post_id_from_params(id: Option<String>) -> (r: String)
    ensures
        r@ == (match id {
            Some(i) => i@,
            None => Seq::<char>::empty(),
        }),
{
    match id {
        Some(i) => i,
        None => String::new(),
    }
}

/// The notification socket of a reader on the page's host: `wss://` under `https:`,
/// `ws://` otherwise.
pub open spec fn websocket_link(protocol: Seq<char>, host: Seq<char>, recipient_id: u128) -> Seq<char> {
    (if protocol == "https:"@ {
        "wss://"@
    } else {
        "ws://"@
    }) + host + "/ws/notifications/"@ + uuid_text(recipient_id)
}

/// The notification socket of a reader (see `websocket_link`).
pub fn notification_websocket_url(protocol: &str, host: &str, recipient_id: u128) -> (r: String)
    ensures
        r@ == websocket_link(protocol@, host@, recipient_id),
{
    let mut v: Vec<char> = Vec::new();
    if str_eq(protocol, "https:") {
        extend_str(&mut v, "wss://");
    } else {
        extend_str(&mut v, "ws://");
    }
    extend_str(&mut v, host);
    extend_str(&mut v, "/ws/notifications/");
    let id = uuid_string(recipient_id);
    extend_str(&mut v, id.as_str());
    string_from_chars(&v)
}

} // verus!
