//! Home workbench: query normalisation, topic filtering and ordering, demo data.
use vstd::prelude::*;

use crate::bridge::{lowercase, to_lowercase, uuid_string, uuid_text};
use crate::posts::PostSummary;
use crate::sorting::{in_order, law_sort_by_sorted_permutation, sort_by, sort_vec_by};
use crate::text::{
    ascii_lower_text, chars_of, dec, extend, extend_str, is_ascii_text, is_ws, lemma_ascii_lower_settles,
    lemma_trim_is_trimmed, opt_view, owned, str_eq, trim, trim_back, trim_front, trim_str, u64_dec,
};

verus! {

#[derive(Clone, Copy, Debug, PartialEq, Eq, Structural)]
pub enum HomeTab {
    Latest,
    Hot,
    Unanswered,
    Following,
}

#[derive(Clone, Copy, Debug, PartialEq, Eq, Structural)]
pub enum HomeTimeRange {
    All,
    Today,
    Week,
    Month,
}

#[derive(Clone, Copy, Debug, PartialEq, Eq, Structural)]
pub enum HomeSort {
    LastReply,
    Created,
    Replies,
    Views,
    Hot,
}

#[derive(Clone, Copy, Debug, PartialEq, Eq, Structural)]
pub enum TopicMarker {
    Pinned,
    Locked,
    Unread,
    Read,
}

impl Default for HomeTab {
    fn default() -> (r: Self)
        ensures
            r == HomeTab::Latest,
    {
        HomeTab::Latest
    }
}

impl Default for HomeTimeRange {
    fn default() -> (r: Self)
        ensures
            r == HomeTimeRange::All,
    {
        HomeTimeRange::All
    }
}

impl Default for HomeSort {
    fn default() -> (r: Self)
        ensures
            r == HomeSort::LastReply,
    {
        HomeSort::LastReply
    }
}

#[derive(Debug, PartialEq, Eq)]
pub struct HomeQuery {
    pub tab: HomeTab,
    pub category: Option<String>,
    pub tag: Option<String>,
    pub time: HomeTimeRange,
    pub sort: HomeSort,
    pub page: usize,
    pub page_size: usize,
}

impl Default for HomeQuery {
    fn default() -> (r: Self)
        ensures
            r.tab == HomeTab::Latest,
            r.category is None,
            r.tag is None,
            r.time == HomeTimeRange::All,
            r.sort == HomeSort::LastReply,
            r.page == 0,
            r.page_size == 0,
    {
        HomeQuery {
            tab: HomeTab::Latest,
            category: None,
            tag: None,
            time: HomeTimeRange::All,
            sort: HomeSort::LastReply,
            page: 0,
            page_size: 0,
        }
    }
}

impl Clone for HomeQuery {
    fn clone(&self) -> (r: Self)
        ensures
            r == *self,
    {
        HomeQuery {
            tab: self.tab,
            category: clone_opt_string(&self.category),
            tag: clone_opt_string(&self.tag),
            time: self.time,
            sort: self.sort,
            page: self.page,
            page_size: self.page_size,
        }
    }
}

/// Copy of an optional string.
pub fn clone_opt_string(o: &Option<String>) -> (r: Option<String>)
    ensures
        r == *o,
{
    match o {
        Some(s) => Some(s.clone()),
        None => None,
    }
}

#[derive(Clone, Debug, PartialEq, Eq)]
pub struct HomePageData {
    pub query: HomeQuery,
    pub topics: Vec<HomeTopic>,
    pub pagination: HomePagination,
    pub categories: Vec<HomeCategory>,
    pub hot_tags: Vec<HomeTag>,
    pub announcements: Vec<HomeAnnouncement>,
    pub active_authors: Vec<HomeActiveAuthor>,
    pub requires_login: bool,
}

#[derive(Clone, Debug, PartialEq, Eq)]
pub struct HomeTopic {
    pub id: String,
    pub marker: TopicMarker,
    pub title: String,
    pub summary: String,
    pub category: HomeCategoryBadge,
    pub tags: Vec<HomeTag>,
    pub reply_count: u32,
    pub view_count_label: String,
    pub last_reply: HomeLastReply,
    pub hot_score: i64,
}

#[derive(Clone, Debug, PartialEq, Eq)]
pub struct HomeCategoryBadge {
    pub name: String,
    pub color: String,
}

#[derive(Debug, PartialEq, Eq)]
pub struct HomeTag {
    pub name: String,
    pub count: u32,
}

#[derive(Clone, Debug, PartialEq, Eq)]
pub struct HomeLastReply {
    pub author: String,
    pub avatar_label: String,
    pub time_label: String,
}

#[derive(Clone, Debug, PartialEq, Eq)]
pub struct HomePagination {
    pub page: usize,
    pub page_size: usize,
    pub total: usize,
    pub total_pages: usize,
    pub label: String,
}

#[derive(Debug, PartialEq, Eq)]
pub struct HomeCategory {
    pub name: String,
    pub count: u32,
    pub color: String,
}

#[derive(Debug, PartialEq, Eq)]
pub struct HomeAnnouncement {
    pub title: String,
    pub date_label: String,
}

#[derive(Debug, PartialEq, Eq)]
pub struct HomeActiveAuthor {
    pub name: String,
    pub avatar_label: String,
    pub reply_count_label: String,
}

impl Clone for HomeTag {
    fn clone(&self) -> (r: Self)
        ensures
            r == *self,
    {
        HomeTag { name: self.name.clone(), count: self.count }
    }
}

impl Clone for HomeCategory {
    fn clone(&self) -> (r: Self)
        ensures
            r == *self,
    {
        HomeCategory { name: self.name.clone(), count: self.count, color: self.color.clone() }
    }
}

impl Clone for HomeAnnouncement {
    fn clone(&self) -> (r: Self)
        ensures
            r == *self,
    {
        HomeAnnouncement { title: self.title.clone(), date_label: self.date_label.clone() }
    }
}

impl Clone for HomeActiveAuthor {
    fn clone(&self) -> (r: Self)
        ensures
            r == *self,
    {
        HomeActiveAuthor {
            name: self.name.clone(),
            avatar_label: self.avatar_label.clone(),
            reply_count_label: self.reply_count_label.clone(),
        }
    }
}

/// A filter value after trimming; empty text and `all` mean "no filter".
pub open spec fn filter_norm(v: Option<Seq<char>>) -> Option<Seq<char>> {
    match v {
        Some(s) => if trim(s).len() == 0 || trim(s) == "all"@ {
            None
        } else {
            Some(trim(s))
        },
        None => None,
    }
}

/// The lower-case form of an optional text.
pub open spec fn lower_opt(o: Option<Seq<char>>) -> Option<Seq<char>> {
    match o {
        Some(s) => Some(lowercase(s)),
        None => None,
    }
}

/// A page number where zero stands for the first page.
pub open spec fn norm_page(page: usize) -> usize {
    if page == 0 {
        1
    } else {
        page
    }
}

/// A page size where zero stands for `default`, capped at `cap`.
pub open spec fn norm_page_size(size: usize, default: usize, cap: usize) -> usize {
    let s = if size == 0 {
        default
    } else {
        size
    };
    if s < cap {
        s
    } else {
        cap
    }
}

/// A tag filter on which normalizing settles: absent, or ASCII text that does not turn
/// into `all` once trimmed and lower-cased (`ALL` becomes the tag `all`, which a second
/// pass drops).
pub open spec fn tag_settles(t: Option<Seq<char>>) -> bool {
    match t {
        Some(s) => is_ascii_text(s) && lowercase(trim(s)) != "all"@,
        None => true,
    }
}

proof fn lemma_trim_front_ascii(s: Seq<char>)
    requires
        is_ascii_text(s),
    ensures
        is_ascii_text(trim_front(s)),
    decreases s.len(),
{
    if s.len() > 0 && is_ws(s[0]) {
        assert(is_ascii_text(s.drop_first())) by {
            assert forall|i: int| 0 <= i < s.drop_first().len() implies
                (#[trigger] s.drop_first()[i] as u32) < 128 by {
                assert(s.drop_first()[i] == s[i + 1]);
            }
        }
        lemma_trim_front_ascii(s.drop_first());
    }
}

proof fn lemma_trim_back_ascii(s: Seq<char>)
    requires
        is_ascii_text(s),
    ensures
        is_ascii_text(trim_back(s)),
    decreases s.len(),
{
    if s.len() > 0 && is_ws(s.last()) {
        assert(is_ascii_text(s.drop_last())) by {
            assert forall|i: int| 0 <= i < s.drop_last().len() implies
                (#[trigger] s.drop_last()[i] as u32) < 128 by {
                assert(s.drop_last()[i] == s[i]);
            }
        }
        lemma_trim_back_ascii(s.drop_last());
    }
}

/// Trimming keeps a text ASCII.
pub proof fn lemma_trim_ascii(s: Seq<char>)
    requires
        is_ascii_text(s),
    ensures
        is_ascii_text(trim(s)),
{
    lemma_trim_front_ascii(s);
    lemma_trim_back_ascii(trim_front(s));
}

/// Normalizing a tag filter that settles twice gives what normalizing it once gives.
pub proof fn lemma_tag_norm_settles(t: Option<Seq<char>>)
    requires
        tag_settles(t),
    ensures
        lower_opt(filter_norm(lower_opt(filter_norm(t)))) == lower_opt(filter_norm(t)),
{
    reveal(lowercase);
    if let Some(s) = t {
        let u = trim(s);
        if u.len() != 0 && u != "all"@ {
            lemma_trim_ascii(s);
            lemma_trim_is_trimmed(s);
            lemma_ascii_lower_settles(u);
            let l = ascii_lower_text(u);
            assert(l.len() == u.len());
            assert(lowercase(u) == l);
            assert(trim(l) == l);
            assert(l != "all"@);
            assert(filter_norm(Some(l)) == Some(l));
            assert(lowercase(l) == l);
        }
    }
}

/// What `HomeQuery::normalized` gives for a query: the tab, time range and ordering kept;
/// page 0 read as 1; page size 0 read as 12 and capped at 50; the category trimmed; the
/// tag trimmed and lower-cased; an empty or `all` filter dropped.
pub open spec fn home_normalized(q: HomeQuery, r: HomeQuery) -> bool {
    &&& r.tab == q.tab
    &&& r.time == q.time
    &&& r.sort == q.sort
    &&& r.page == norm_page(q.page)
    &&& r.page_size == norm_page_size(q.page_size, 12, 50)
    &&& opt_view(r.category) == filter_norm(opt_view(q.category))
    &&& opt_view(r.tag) == lower_opt(filter_norm(opt_view(q.tag)))
}

/// A home query as values: tab, category, tag, time range, ordering, page and page size.
pub open spec fn home_query_view(q: HomeQuery) -> (
    HomeTab,
    Option<Seq<char>>,
    Option<Seq<char>>,
    HomeTimeRange,
    HomeSort,
    usize,
    usize,
) {
    (q.tab, opt_view(q.category), opt_view(q.tag), q.time, q.sort, q.page, q.page_size)
}

/// Normalizing a normalized home query changes nothing, where its tag settles (see
/// `tag_settles`).
pub proof fn law_home_query_normalization_settles(q: HomeQuery, n: HomeQuery, m: HomeQuery)
    requires
        home_normalized(q, n),
        home_normalized(n, m),
        tag_settles(opt_view(q.tag)),
    ensures
        home_query_view(m) == home_query_view(n),
{
    if let Some(c) = opt_view(q.category) {
        crate::text::lemma_trim_idempotent(c);
    }
    lemma_tag_norm_settles(opt_view(q.tag));
}

/// Trims a filter value; empty text and `all` become `None`.
pub fn normalize_filter(value: Option<String>) -> (r: Option<String>)
    ensures
        opt_view(r) == filter_norm(opt_view(value)),
{
    match value {
        None => None,
        Some(v) => {
            let t = trim_str(v.as_str());
            if t.as_str().is_empty() || str_eq(t.as_str(), "all") {
                None
            } else {
                Some(t)
            }
        },
    }
}

impl HomeQuery {
    /// Page defaults to 1, page size to 12 (at most 50); filters are trimmed, `all` or
    /// empty filters are dropped and the tag is lower-cased.
    pub fn normalized(self) -> (r: HomeQuery)
        ensures
            home_normalized(self, r),
    {
        let mut q = self;
        if q.page == 0 {
            q.page = 1;
        }
        if q.page_size == 0 {
            q.page_size = 12;
        }
        if q.page_size > 50 {
            q.page_size = 50;
        }
        let category = normalize_filter(q.category);
        let tag = match normalize_filter(q.tag) {
            Some(t) => Some(to_lowercase(t.as_str())),
            None => None,
        };
        HomeQuery {
            tab: q.tab,
            category,
            tag,
            time: q.time,
            sort: q.sort,
            page: q.page,
            page_size: q.page_size,
        }
    }
}

/// Whether a topic carries a tag with the given name.
pub open spec fn has_tag(t: HomeTopic, tag: Seq<char>) -> bool {
    exists|k: int| 0 <= k < t.tags@.len() && #[trigger] t.tags@[k].name@ == tag
}

/// Whether a topic passes the tab, category and tag filters of a query.
pub open spec fn topic_selected(t: HomeTopic, q: HomeQuery) -> bool {
    &&& (q.tab == HomeTab::Unanswered ==> t.reply_count == 0)
    &&& (opt_view(q.category) matches Some(c) ==> t.category.name@ == c)
    &&& (opt_view(q.tag) matches Some(g) ==> has_tag(t, g))
}

/// The first `n` elements of `s` (all of them when there are fewer).
pub open spec fn take_at_most<T>(s: Seq<T>, n: usize) -> Seq<T> {
    if n < s.len() {
        s.take(n as int)
    } else {
        s
    }
}

/// Whether a topic carries the tag (see `has_tag`).
pub fn topic_has_tag(t: &HomeTopic, tag: &str) -> (b: bool)
    ensures
        b == has_tag(*t, tag@),
{
    let mut k: usize = 0;
    while k < t.tags.len()
        invariant
            k <= t.tags@.len(),
            forall|j: int| 0 <= j < k ==> t.tags@[j].name@ != tag@,
        decreases t.tags@.len() - k,
    {
        if str_eq(t.tags[k].name.as_str(), tag) {
            return true;
        }
        k = k + 1;
    }
    false
}

fn topic_selected_exec(t: &HomeTopic, q: &HomeQuery) -> (b: bool)
    ensures
        b == topic_selected(*t, *q),
{
    if q.tab == HomeTab::Unanswered && t.reply_count != 0 {
        return false;
    }
    match &q.category {
        Some(c) => {
            if !str_eq(t.category.name.as_str(), c.as_str()) {
                return false;
            }
        },
        None => {},
    }
    match &q.tag {
        Some(g) => topic_has_tag(t, g.as_str()),
        None => true,
    }
}

/// Keeps the topics that pass the query's filters, at most `page_size` of them.
pub fn filter_topics(topics: Vec<HomeTopic>, query: &HomeQuery) -> (r: Vec<HomeTopic>)
    ensures
        r@ == take_at_most(topics@.filter(|t: HomeTopic| topic_selected(t, *query)), query.page_size),
{
    let ghost orig = topics@;
    let ghost p = |t: HomeTopic| topic_selected(t, *query);
    let n: usize = topics.len();
    let mut rest = topics;
    let mut res: Vec<HomeTopic> = Vec::new();
    let mut i: usize = 0;
    while i < n
        invariant
            n == orig.len(),
            i <= n,
            rest@ == orig.subrange(i as int, n as int),
            p == (|t: HomeTopic| topic_selected(t, *query)),
            res@ == take_at_most(orig.take(i as int).filter(p), query.page_size),
            res@.len() <= query.page_size,
        decreases n - i,
    {
        let x = rest.remove(0);
        let keep = topic_selected_exec(&x, query);
        proof {
            reveal(Seq::filter);
            let before = orig.take(i as int);
            let after = orig.take(i + 1);
            assert(after.drop_last() =~= before);
            assert(after.last() == x);
            before.lemma_filter_len(p);
        }
        if keep && res.len() < query.page_size {
            res.push(x);
        }
        i = i + 1;
    }
    assert(orig.take(n as int) =~= orig);
    res
}

/// Code-point order of texts.
pub open spec fn text_lt(a: Seq<char>, b: Seq<char>) -> bool
    decreases a.len(),
{
    if a.len() == 0 {
        b.len() > 0
    } else if b.len() == 0 {
        false
    } else if a[0] != b[0] {
        a[0] < b[0]
    } else {
        text_lt(a.drop_first(), b.drop_first())
    }
}

/// No text sorts strictly before itself.
pub proof fn lemma_text_lt_irreflexive(a: Seq<char>)
    ensures
        !text_lt(a, a),
    decreases a.len(),
{
    if a.len() > 0 {
        lemma_text_lt_irreflexive(a.drop_first());
    }
}

/// The code-point order of texts is transitive.
pub proof fn lemma_text_lt_transitive(a: Seq<char>, b: Seq<char>, c: Seq<char>)
    requires
        text_lt(a, b),
        text_lt(b, c),
    ensures
        text_lt(a, c),
    decreases a.len(),
{
    if a.len() > 0 && b.len() > 0 && c.len() > 0 && a[0] == b[0] && b[0] == c[0] {
        lemma_text_lt_transitive(a.drop_first(), b.drop_first(), c.drop_first());
    }
}

/// `a` sorts strictly before `b` in code-point order.
pub fn text_less(a: &str, b: &str) -> (r: bool)
    ensures
        r == text_lt(a@, b@),
{
    let x = chars_of(a);
    let y = chars_of(b);
    let mut i: usize = 0;
    assert(x@.skip(0) =~= x@);
    assert(y@.skip(0) =~= y@);
    while i < x.len() && i < y.len() && x[i] == y[i]
        invariant
            i <= x.len(),
            i <= y.len(),
            text_lt(x@, y@) == text_lt(x@.skip(i as int), y@.skip(i as int)),
        decreases x.len() - i,
    {
        proof {
            let xs = x@.skip(i as int);
            let ys = y@.skip(i as int);
            assert(xs.drop_first() =~= x@.skip(i + 1));
            assert(ys.drop_first() =~= y@.skip(i + 1));
        }
        i = i + 1;
    }
    if i == x.len() {
        i < y.len()
    } else if i == y.len() {
        false
    } else {
        x[i] < y[i]
    }
}

/// Whether the ordering by `sort` on `tab` rearranges topics.
pub open spec fn topic_order_applies(sort: HomeSort, tab: HomeTab) -> bool {
    tab == HomeTab::Hot || sort == HomeSort::Hot || sort == HomeSort::Replies || sort
        == HomeSort::Views
}

/// Precedence for the topic orderings: higher hot score, more replies, or a view label
/// that sorts later, comes first.
pub open spec fn topic_prec(sort: HomeSort, tab: HomeTab) -> spec_fn(HomeTopic, HomeTopic) -> bool {
    if tab == HomeTab::Hot || sort == HomeSort::Hot {
        |a: HomeTopic, b: HomeTopic| a.hot_score > b.hot_score
    } else if sort == HomeSort::Replies {
        |a: HomeTopic, b: HomeTopic| a.reply_count > b.reply_count
    } else {
        |a: HomeTopic, b: HomeTopic| text_lt(b.view_count_label@, a.view_count_label@)
    }
}

/// Ordering topics on the workbench rearranges them without losing or adding any, and no
/// topic goes before an earlier one under the chosen ordering.
pub proof fn law_topic_order(topics: Seq<HomeTopic>, sort: HomeSort, tab: HomeTab)
    ensures
        sort_by(topics, topic_prec(sort, tab)).to_multiset() == topics.to_multiset(),
        in_order(sort_by(topics, topic_prec(sort, tab)), topic_prec(sort, tab)),
{
    let p = topic_prec(sort, tab);
    assert forall|a: HomeTopic| !#[trigger] p(a, a) by {
        lemma_text_lt_irreflexive(a.view_count_label@);
    }
    assert forall|a: HomeTopic, b: HomeTopic, c: HomeTopic|
        #[trigger] p(a, b) && #[trigger] p(b, c) implies p(a, c) by {
        if !(tab == HomeTab::Hot || sort == HomeSort::Hot) && sort != HomeSort::Replies {
            lemma_text_lt_transitive(c.view_count_label@, b.view_count_label@, a.view_count_label@);
        }
    }
    law_sort_by_sorted_permutation(topics, p);
}

/// Orders topics stably for the hot, replies and views orderings; other orderings keep
/// the given order.
pub fn sort_topics(topics: &mut Vec<HomeTopic>, sort: HomeSort, tab: HomeTab)
    ensures
        final(topics)@ == (if topic_order_applies(sort, tab) {
            sort_by(old(topics)@, topic_prec(sort, tab))
        } else {
            old(topics)@
        }),
{
    let mut v: Vec<HomeTopic> = Vec::new();
    std::mem::swap(&mut v, topics);
    if tab == HomeTab::Hot || sort == HomeSort::Hot {
        let f = |a: &HomeTopic, b: &HomeTopic| -> (r: bool)
            ensures
                r == (a.hot_score > b.hot_score),
            { a.hot_score > b.hot_score };
        let mut sorted = sort_vec_by(v, &f, Ghost(topic_prec(sort, tab)));
        std::mem::swap(&mut sorted, topics);
    } else if sort == HomeSort::Replies {
        let f = |a: &HomeTopic, b: &HomeTopic| -> (r: bool)
            ensures
                r == (a.reply_count > b.reply_count),
            { a.reply_count > b.reply_count };
        let mut sorted = sort_vec_by(v, &f, Ghost(topic_prec(sort, tab)));
        std::mem::swap(&mut sorted, topics);
    } else if sort == HomeSort::Views {
        let f = |a: &HomeTopic, b: &HomeTopic| -> (r: bool)
            ensures
                r == text_lt(b.view_count_label@, a.view_count_label@),
            { text_less(b.view_count_label.as_str(), a.view_count_label.as_str()) };
        let mut sorted = sort_vec_by(v, &f, Ghost(topic_prec(sort, tab)));
        std::mem::swap(&mut sorted, topics);
    } else {
        std::mem::swap(&mut v, topics);
    }
}

/// The avatar label of a name: its first character, or `P` for an empty name.
pub open spec fn avatar_of(name: Seq<char>) -> Seq<char> {
    if name.len() > 0 {
        seq![name[0]]
    } else {
        seq!['P']
    }
}

/// Tags with the given names and a zero count.
pub open spec fn tags_named(tags: Seq<HomeTag>, names: Seq<Seq<char>>) -> bool {
    &&& tags.len() == names.len()
    &&& forall|k: int| 0 <= k < tags.len() ==> #[trigger] tags[k].name@ == names[k] && tags[k].count == 0
}

/// A topic with the given field values.
pub open spec fn is_topic(
    t: HomeTopic,
    id: Seq<char>,
    marker: TopicMarker,
    title: Seq<char>,
    summary: Seq<char>,
    category: Seq<char>,
    color: Seq<char>,
    tags: Seq<Seq<char>>,
    reply_count: u32,
    view_count_label: Seq<char>,
    author: Seq<char>,
    time_label: Seq<char>,
    hot_score: i64,
) -> bool {
    &&& t.id@ == id
    &&& t.marker == marker
    &&& t.title@ == title
    &&& t.summary@ == summary
    &&& t.category.name@ == category
    &&& t.category.color@ == color
    &&& tags_named(t.tags@, tags)
    &&& t.reply_count == reply_count
    &&& t.view_count_label@ == view_count_label
    &&& t.last_reply.author@ == author
    &&& t.last_reply.avatar_label@ == avatar_of(author)
    &&& t.last_reply.time_label@ == time_label
    &&& t.hot_score == hot_score
}

/// The avatar label of a name.
pub fn avatar_label(name: &str) -> (r: String)
    ensures
        r@ == avatar_of(name@),
{
    let c = chars_of(name);
    let mut v: Vec<char> = Vec::new();
    if c.len() > 0 {
        v.push(c[0]);
    } else {
        v.push('P');
    }
    proof {
        assert(v@ =~= avatar_of(name@));
    }
    crate::bridge::string_from_chars(&v)
}

fn tag_list(tags: &[&str]) -> (r: Vec<HomeTag>)
    ensures
        tags_named(r@, tags@.map_values(|t: &str| t@)),
{
    let mut r: Vec<HomeTag> = Vec::new();
    let mut i: usize = 0;
    while i < tags.len()
        invariant
            i <= tags@.len(),
            tags_named(r@, tags@.take(i as int).map_values(|t: &str| t@)),
        decreases tags@.len() - i,
    {
        r.push(HomeTag { name: owned(tags[i]), count: 0 });
        i = i + 1;
        assert(tags_named(r@, tags@.take(i as int).map_values(|t: &str| t@)));
    }
    assert(tags@.take(i as int) =~= tags@);
    r
}

/// Builds one topic of the demo workbench.
pub fn topic(
    id: &str,
    marker: TopicMarker,
    title: &str,
    summary: &str,
    category: &str,
    color: &str,
    tags: &[&str],
    reply_count: u32,
    view_count_label: &str,
    author: &str,
    time_label: &str,
    hot_score: i64,
) -> (r: HomeTopic)
    ensures
        is_topic(
            r,
            id@,
            marker,
            title@,
            summary@,
            category@,
            color@,
            tags@.map_values(|t: &str| t@),
            reply_count,
            view_count_label@,
            author@,
            time_label@,
            hot_score,
        ),
{
    HomeTopic {
        id: owned(id),
        marker,
        title: owned(title),
        summary: owned(summary),
        category: HomeCategoryBadge { name: owned(category), color: owned(color) },
        tags: tag_list(tags),
        reply_count,
        view_count_label: owned(view_count_label),
        last_reply: HomeLastReply {
            author: owned(author),
            avatar_label: avatar_label(author),
            time_label: owned(time_label),
        },
        hot_score,
    }
}

/// The twelve topics of the demo workbench, in their listed order.
pub open spec fn seed_topics(ts: Seq<HomeTopic>) -> bool {
    &&& ts.len() == 12
    &&& is_topic(
        ts[0],
        "leptos-release"@,
        TopicMarker::Pinned,
        "Leptos 0.6 发布：更快的编译、更小的体积、Signal 优化"@,
        "包含编译性能改进、Signal 内存优化、SSR 稳定性提升和迁移注意事项。"@,
        "公告"@,
        "blue"@,
        seq!["leptos"@],
        12,
        "3.2k"@,
        "张晨"@,
        "2 小时前"@,
        980,
    )
    &&& is_topic(
        ts[1],
        "fullstack-guide"@,
        TopicMarker::Pinned,
        "新手指南：从 Axum + Leptos + SQLx 搭建全栈应用"@,
        "一步步搭建一个完整 CRUD 应用，包含认证、数据库操作和 SSR 渲染。"@,
        "教程"@,
        "green"@,
        seq!["axum"@, "sqlx"@, "+1"@],
        28,
        "7.8k"@,
        "李明"@,
        "5 小时前"@,
        1200,
    )
    &&& is_topic(
        ts[2],
        "rules"@,
        TopicMarker::Locked,
        "站点规则与发帖规范（必读）"@,
        "请在发帖前阅读本站规则，帮助我们保持高质量的技术讨论环境。"@,
        "站务"@,
        "purple"@,
        seq!["规则"@],
        3,
        "9.1k"@,
        "管理员"@,
        "3 天前"@,
        860,
    )
    &&& is_topic(
        ts[3],
        "server-function-sqlx"@,
        TopicMarker::Unread,
        "在 server function 中使用 SQLx 事务的最佳实践"@,
        "如何在 Leptos server function 中正确管理 SQLx 事务边界，避免连接泄漏。"@,
        "问题"@,
        "orange"@,
        seq!["leptos"@, "sqlx"@, "+1"@],
        7,
        "452"@,
        "wangxy"@,
        "1 小时前"@,
        700,
    )
    &&& is_topic(
        ts[4],
        "flyio-deploy"@,
        TopicMarker::Unread,
        "Leptos + Axum 部署到 Fly.io 的完整流程"@,
        "分享 Leptos SSR 应用部署到 Fly.io 的配置、构建和环境变量设置。"@,
        "经验分享"@,
        "sky"@,
        seq!["leptos"@, "axum"@, "部署"@],
        5,
        "613"@,
        "DreamMao"@,
        "3 小时前"@,
        690,
    )
    &&& is_topic(
        ts[5],
        "markdown-highlight"@,
        TopicMarker::Unread,
        "Markdown 渲染时如何高亮显示 Rust 代码？"@,
        "在 Leptos 中集成 pulldown-cmark 和 syntect，实现代码块高亮。"@,
        "问题"@,
        "orange"@,
        seq!["markdown"@, "rust"@, "+1"@],
        3,
        "289"@,
        "coderLin"@,
        "昨天 22:15"@,
        520,
    )
    &&& is_topic(
        ts[6],
        "wasm-size"@,
        TopicMarker::Unread,
        "Leptos WebAssembly 包大小优化实践"@,
        "通过裁剪特性、增加缓存和 wasm-opt 减少包体积。"@,
        "经验分享"@,
        "sky"@,
        seq!["wasm"@, "leptos"@, "优化"@],
        9,
        "1.1k"@,
        "Skyline"@,
        "昨天 18:42"@,
        760,
    )
    &&& is_topic(
        ts[7],
        "resources-repeat"@,
        TopicMarker::Read,
        "关于 resources! 宏在条件渲染下重复请求的问题"@,
        "当资源依赖发生变化且组件被重新挂载时，会触发重复请求，如何避免？"@,
        "问题"@,
        "orange"@,
        seq!["leptos"@, "resources"@],
        2,
        "163"@,
        "小林"@,
        "昨天 11:03"@,
        300,
    )
    &&& is_topic(
        ts[8],
        "jsonb-config"@,
        TopicMarker::Read,
        "使用 PostgreSQL JSONB 存储配置的方案选择"@,
        "在配置灵活性和查询性能之间如何权衡？求推荐实践。"@,
        "讨论"@,
        "gray"@,
        seq!["postgresql"@, "jsonb"@],
        6,
        "342"@,
        "不二"@,
        "2 天前"@,
        460,
    )
    &&& is_topic(
        ts[9],
        "signals-performance"@,
        TopicMarker::Read,
        "Leptos Signals 与派生状态的性能陷阱"@,
        "在大型列表和复杂计算中，如何避免不必要的派生和内存分配。"@,
        "讨论"@,
        "gray"@,
        seq!["leptos"@, "signals"@],
        4,
        "276"@,
        "ChenKai"@,
        "2 天前"@,
        430,
    )
    &&& is_topic(
        ts[10],
        "axum-body"@,
        TopicMarker::Read,
        "Axum 中间件处理 request body 的正确方式"@,
        "如何在不消耗 body 的情况下读取并复用请求体。"@,
        "问题"@,
        "orange"@,
        seq!["axum"@, "middleware"@],
        1,
        "198"@,
        "ZhangT"@,
        "2 天前"@,
        280,
    )
    &&& is_topic(
        ts[11],
        "component-library"@,
        TopicMarker::Read,
        "从零实现一个简单的 Leptos 组件库"@,
        "记录组件库从脚手架到发布 crates.io 的全过程。"@,
        "经验分享"@,
        "sky"@,
        seq!["leptos"@, "组件库"@],
        0,
        "512"@,
        "Evan"@,
        "3 天前"@,
        500,
    )
}

/// The topics of the demo workbench.
#[verifier::spinoff_prover]
pub fn dense_workbench_topics() -> (r: Vec<HomeTopic>)
    ensures
        seed_topics(r@),
{
    let mut v: Vec<HomeTopic> = Vec::new();
    v.push(
        topic(
            "leptos-release",
            TopicMarker::Pinned,
            "Leptos 0.6 发布：更快的编译、更小的体积、Signal 优化",
            "包含编译性能改进、Signal 内存优化、SSR 稳定性提升和迁移注意事项。",
            "公告",
            "blue",
            &["leptos"],
            12,
            "3.2k",
            "张晨",
            "2 小时前",
            980,
        ),
    );
    v.push(
        topic(
            "fullstack-guide",
            TopicMarker::Pinned,
            "新手指南：从 Axum + Leptos + SQLx 搭建全栈应用",
            "一步步搭建一个完整 CRUD 应用，包含认证、数据库操作和 SSR 渲染。",
            "教程",
            "green",
            &["axum", "sqlx", "+1"],
            28,
            "7.8k",
            "李明",
            "5 小时前",
            1200,
        ),
    );
    v.push(
        topic(
            "rules",
            TopicMarker::Locked,
            "站点规则与发帖规范（必读）",
            "请在发帖前阅读本站规则，帮助我们保持高质量的技术讨论环境。",
            "站务",
            "purple",
            &["规则"],
            3,
            "9.1k",
            "管理员",
            "3 天前",
            860,
        ),
    );
    v.push(
        topic(
            "server-function-sqlx",
            TopicMarker::Unread,
            "在 server function 中使用 SQLx 事务的最佳实践",
            "如何在 Leptos server function 中正确管理 SQLx 事务边界，避免连接泄漏。",
            "问题",
            "orange",
            &["leptos", "sqlx", "+1"],
            7,
            "452",
            "wangxy",
            "1 小时前",
            700,
        ),
    );
    v.push(
        topic(
            "flyio-deploy",
            TopicMarker::Unread,
            "Leptos + Axum 部署到 Fly.io 的完整流程",
            "分享 Leptos SSR 应用部署到 Fly.io 的配置、构建和环境变量设置。",
            "经验分享",
            "sky",
            &["leptos", "axum", "部署"],
            5,
            "613",
            "DreamMao",
            "3 小时前",
            690,
        ),
    );
    v.push(
        topic(
            "markdown-highlight",
            TopicMarker::Unread,
            "Markdown 渲染时如何高亮显示 Rust 代码？",
            "在 Leptos 中集成 pulldown-cmark 和 syntect，实现代码块高亮。",
            "问题",
            "orange",
            &["markdown", "rust", "+1"],
            3,
            "289",
            "coderLin",
            "昨天 22:15",
            520,
        ),
    );
    v.push(
        topic(
            "wasm-size",
            TopicMarker::Unread,
            "Leptos WebAssembly 包大小优化实践",
            "通过裁剪特性、增加缓存和 wasm-opt 减少包体积。",
            "经验分享",
            "sky",
            &["wasm", "leptos", "优化"],
            9,
            "1.1k",
            "Skyline",
            "昨天 18:42",
            760,
        ),
    );
    v.push(
        topic(
            "resources-repeat",
            TopicMarker::Read,
            "关于 resources! 宏在条件渲染下重复请求的问题",
            "当资源依赖发生变化且组件被重新挂载时，会触发重复请求，如何避免？",
            "问题",
            "orange",
            &["leptos", "resources"],
            2,
            "163",
            "小林",
            "昨天 11:03",
            300,
        ),
    );
    v.push(
        topic(
            "jsonb-config",
            TopicMarker::Read,
            "使用 PostgreSQL JSONB 存储配置的方案选择",
            "在配置灵活性和查询性能之间如何权衡？求推荐实践。",
            "讨论",
            "gray",
            &["postgresql", "jsonb"],
            6,
            "342",
            "不二",
            "2 天前",
            460,
        ),
    );
    v.push(
        topic(
            "signals-performance",
            TopicMarker::Read,
            "Leptos Signals 与派生状态的性能陷阱",
            "在大型列表和复杂计算中，如何避免不必要的派生和内存分配。",
            "讨论",
            "gray",
            &["leptos", "signals"],
            4,
            "276",
            "ChenKai",
            "2 天前",
            430,
        ),
    );
    v.push(
        topic(
            "axum-body",
            TopicMarker::Read,
            "Axum 中间件处理 request body 的正确方式",
            "如何在不消耗 body 的情况下读取并复用请求体。",
            "问题",
            "orange",
            &["axum", "middleware"],
            1,
            "198",
            "ZhangT",
            "2 天前",
            280,
        ),
    );
    v.push(
        topic(
            "component-library",
            TopicMarker::Read,
            "从零实现一个简单的 Leptos 组件库",
            "记录组件库从脚手架到发布 crates.io 的全过程。",
            "经验分享",
            "sky",
            &["leptos", "组件库"],
            0,
            "512",
            "Evan",
            "3 天前",
            500,
        ),
    );
    v
}

/// A sidebar category with the given fields.
pub open spec fn is_category(c: HomeCategory, name: Seq<char>, count: u32, color: Seq<char>) -> bool {
    c.name@ == name && c.count == count && c.color@ == color
}

/// Builds a sidebar category.
pub fn category(name: &str, count: u32, color: &str) -> (r: HomeCategory)
    ensures
        is_category(r, name@, count, color@),
{
    HomeCategory { name: owned(name), count, color: owned(color) }
}

/// The demo sidebar categories.
pub open spec fn seed_categories_are(cs: Seq<HomeCategory>) -> bool {
    &&& cs.len() == 6
    &&& is_category(cs[0], "公告"@, 12, "blue"@)
    &&& is_category(cs[1], "教程"@, 34, "green"@)
    &&& is_category(cs[2], "问题"@, 156, "orange"@)
    &&& is_category(cs[3], "经验分享"@, 78, "sky"@)
    &&& is_category(cs[4], "讨论"@, 45, "gray"@)
    &&& is_category(cs[5], "站务"@, 17, "purple"@)
}

/// The sidebar categories of the demo workbench.
pub fn seed_categories() -> (r: Vec<HomeCategory>)
    ensures
        seed_categories_are(r@),
{
    let mut v: Vec<HomeCategory> = Vec::new();
    v.push(category("公告", 12, "blue"));
    v.push(category("教程", 34, "green"));
    v.push(category("问题", 156, "orange"));
    v.push(category("经验分享", 78, "sky"));
    v.push(category("讨论", 45, "gray"));
    v.push(category("站务", 17, "purple"));
    v
}

/// The demo hot tags.
pub open spec fn seed_hot_tags_are(ts: Seq<HomeTag>) -> bool {
    &&& ts.len() == 8
    &&& ts[0].name@ == "leptos"@ && ts[0].count == 132
    &&& ts[1].name@ == "axum"@ && ts[1].count == 98
    &&& ts[2].name@ == "sqlx"@ && ts[2].count == 86
    &&& ts[3].name@ == "postgresql"@ && ts[3].count == 64
    &&& ts[4].name@ == "rust"@ && ts[4].count == 61
    &&& ts[5].name@ == "wasm"@ && ts[5].count == 48
    &&& ts[6].name@ == "server-functions"@ && ts[6].count == 42
    &&& ts[7].name@ == "markdown"@ && ts[7].count == 38
}

/// The hot tags of the demo workbench.
pub fn seed_hot_tags() -> (r: Vec<HomeTag>)
    ensures
        seed_hot_tags_are(r@),
{
    let mut v: Vec<HomeTag> = Vec::new();
    v.push(HomeTag { name: owned("leptos"), count: 132 });
    v.push(HomeTag { name: owned("axum"), count: 98 });
    v.push(HomeTag { name: owned("sqlx"), count: 86 });
    v.push(HomeTag { name: owned("postgresql"), count: 64 });
    v.push(HomeTag { name: owned("rust"), count: 61 });
    v.push(HomeTag { name: owned("wasm"), count: 48 });
    v.push(HomeTag { name: owned("server-functions"), count: 42 });
    v.push(HomeTag { name: owned("markdown"), count: 38 });
    v
}

/// The demo announcements.
pub open spec fn seed_announcements_are(a: Seq<HomeAnnouncement>) -> bool {
    &&& a.len() == 3
    &&& a[0].title@ == "Leptos 0.6 正式发布"@ && a[0].date_label@ == "5 月 20 日"@
    &&& a[1].title@ == "论坛升级与搜索增强说明"@ && a[1].date_label@ == "5 月 10 日"@
    &&& a[2].title@ == "标签体系调整公告"@ && a[2].date_label@ == "4 月 28 日"@
}

/// The announcements of the demo workbench.
pub fn seed_announcements() -> (r: Vec<HomeAnnouncement>)
    ensures
        seed_announcements_are(r@),
{
    let mut v: Vec<HomeAnnouncement> = Vec::new();
    v.push(HomeAnnouncement { title: owned("Leptos 0.6 正式发布"), date_label: owned("5 月 20 日") });
    v.push(HomeAnnouncement { title: owned("论坛升级与搜索增强说明"), date_label: owned("5 月 10 日") });
    v.push(HomeAnnouncement { title: owned("标签体系调整公告"), date_label: owned("4 月 28 日") });
    v
}

/// The demo active authors.
pub open spec fn seed_active_authors_are(a: Seq<HomeActiveAuthor>) -> bool {
    &&& a.len() == 5
    &&& a[0].name@ == "张晨"@ && a[0].avatar_label@ == avatar_of("张晨"@) && a[0].reply_count_label@ == "1.2k 条回复"@
    &&& a[1].name@ == "DreamMao"@ && a[1].avatar_label@ == avatar_of("DreamMao"@) && a[1].reply_count_label@ == "980 条回复"@
    &&& a[2].name@ == "Skyline"@ && a[2].avatar_label@ == avatar_of("Skyline"@) && a[2].reply_count_label@ == "876 条回复"@
    &&& a[3].name@ == "wangxy"@ && a[3].avatar_label@ == avatar_of("wangxy"@) && a[3].reply_count_label@ == "745 条回复"@
    &&& a[4].name@ == "coderLin"@ && a[4].avatar_label@ == avatar_of("coderLin"@) && a[4].reply_count_label@ == "612 条回复"@
}

fn active_author(name: &str, reply_count_label: &str) -> (r: HomeActiveAuthor)
    ensures
        r.name@ == name@,
        r.avatar_label@ == avatar_of(name@),
        r.reply_count_label@ == reply_count_label@,
{
    HomeActiveAuthor {
        name: owned(name),
        avatar_label: avatar_label(name),
        reply_count_label: owned(reply_count_label),
    }
}

/// The active authors of the demo workbench.
pub fn seed_active_authors() -> (r: Vec<HomeActiveAuthor>)
    ensures
        seed_active_authors_are(r@),
{
    let mut v: Vec<HomeActiveAuthor> = Vec::new();
    v.push(active_author("张晨", "1.2k 条回复"));
    v.push(active_author("DreamMao", "980 条回复"));
    v.push(active_author("Skyline", "876 条回复"));
    v.push(active_author("wangxy", "745 条回复"));
    v.push(active_author("coderLin", "612 条回复"));
    v
}

/// The topics of a home page: the selected topics of the first page in the query's order.
pub open spec fn home_topics(ts: Seq<HomeTopic>, q: HomeQuery) -> Seq<HomeTopic> {
    let selected = take_at_most(ts.filter(|t: HomeTopic| topic_selected(t, q)), q.page_size);
    if topic_order_applies(q.sort, q.tab) {
        sort_by(selected, topic_prec(q.sort, q.tab))
    } else {
        selected
    }
}

/// The pagination label for a page size.
pub open spec fn page_label(page_size: usize) -> Seq<char> {
    "显示 1-"@ + dec(page_size as nat) + " / 342 个主题"@
}

/// What `dense_workbench_home` gives for a query (see there).
pub open spec fn home_page_for(query: HomeQuery, logged_in: bool, r: HomePageData) -> bool {
    &&& r.query.tab == query.tab
    &&& r.query.time == query.time
    &&& r.query.sort == query.sort
    &&& r.query.page == norm_page(query.page)
    &&& r.query.page_size == norm_page_size(query.page_size, 12, 50)
    &&& opt_view(r.query.category) == filter_norm(opt_view(query.category))
    &&& opt_view(r.query.tag) == lower_opt(filter_norm(opt_view(query.tag)))
    &&& r.requires_login == (query.tab == HomeTab::Following && !logged_in)
    &&& (r.requires_login ==> r.topics@.len() == 0)
    &&& (!r.requires_login ==> exists|ts: Seq<HomeTopic>|
        #[trigger] seed_topics(ts) && r.topics@ == home_topics(ts, r.query))
    &&& r.pagination.page == r.query.page
    &&& r.pagination.page_size == r.query.page_size
    &&& r.pagination.total == 342
    &&& r.pagination.total_pages == 29
    &&& r.pagination.label@ == page_label(r.query.page_size)
    &&& seed_categories_are(r.categories@)
    &&& seed_hot_tags_are(r.hot_tags@)
    &&& seed_announcements_are(r.announcements@)
    &&& seed_active_authors_are(r.active_authors@)
}

proof fn lemma_home_topics_members(ts: Seq<HomeTopic>, q: HomeQuery)
    ensures
        forall|x: HomeTopic| #[trigger] home_topics(ts, q).contains(x) ==> ts.contains(x)
            && topic_selected(x, q),
        home_topics(ts, q).to_multiset() == take_at_most(
            ts.filter(|t: HomeTopic| topic_selected(t, q)),
            q.page_size,
        ).to_multiset(),
        home_topics(ts, q).len() == take_at_most(
            ts.filter(|t: HomeTopic| topic_selected(t, q)),
            q.page_size,
        ).len(),
{
    broadcast use vstd::seq_lib::group_to_multiset_ensures;
    let sel = |t: HomeTopic| topic_selected(t, q);
    let f = ts.filter(sel);
    let s = take_at_most(f, q.page_size);
    if topic_order_applies(q.sort, q.tab) {
        law_topic_order(s, q.sort, q.tab);
        crate::sorting::lemma_sort_by_len(s, topic_prec(q.sort, q.tab));
    }
    assert forall|x: HomeTopic| #[trigger] home_topics(ts, q).contains(x) implies ts.contains(x)
        && topic_selected(x, q) by {
        assert(home_topics(ts, q).to_multiset().count(x) > 0);
        assert(s.contains(x));
        let k = choose|k: int| 0 <= k < s.len() && s[k] == x;
        assert(f[k] == x);
        assert(f.contains(x));
        ts.lemma_filter_contains_rev(sel, x);
        ts.lemma_filter_pred(sel, k);
    }
}

/// The topics of the home workbench follow the query: none for a visitor on the following
/// tab; otherwise at most a page of demo topics, each with no reply on the unanswered tab,
/// of the requested category and carrying the requested tag, which are, up to their order,
/// the first page of the demo topics that pass those filters; the hot tab and ordering put
/// higher heat first, the replies ordering more replies first. A category filter is the
/// requested text trimmed, unless it is blank or `all`.
pub proof fn law_home_topics_follow_query(query: HomeQuery, logged_in: bool, r: HomePageData)
    requires
        home_page_for(query, logged_in, r),
    ensures
        r.requires_login <==> (query.tab == HomeTab::Following && !logged_in),
        r.requires_login ==> r.topics@.len() == 0,
        r.topics@.len() <= r.query.page_size,
        query.category matches Some(c0) ==> (trim(c0@).len() > 0 && trim(c0@) != "all"@
            ==> opt_view(r.query.category) == Some(trim(c0@))),
        forall|i: int|
            0 <= i < r.topics@.len() ==> {
                &&& (query.tab == HomeTab::Unanswered ==> (#[trigger] r.topics@[i]).reply_count == 0)
                &&& (opt_view(r.query.category) matches Some(c) ==> r.topics@[i].category.name@ == c)
                &&& (opt_view(r.query.tag) matches Some(g) ==> exists|k: int|
                    0 <= k < r.topics@[i].tags@.len() && #[trigger] r.topics@[i].tags@[k].name@ == g)
            },
        !r.requires_login ==> exists|ts: Seq<HomeTopic>|
            #[trigger] seed_topics(ts) && (forall|i: int|
                0 <= i < r.topics@.len() ==> ts.contains(#[trigger] r.topics@[i])) && r.topics@.to_multiset()
                == take_at_most(
                ts.filter(
                    |t: HomeTopic|
                        (query.tab == HomeTab::Unanswered ==> t.reply_count == 0) && (opt_view(
                            r.query.category,
                        ) matches Some(c) ==> t.category.name@ == c) && (opt_view(r.query.tag) matches Some(
                            g,
                        ) ==> exists|k: int| 0 <= k < t.tags@.len() && #[trigger] t.tags@[k].name@ == g),
                ),
                r.query.page_size,
            ).to_multiset(),
        query.tab == HomeTab::Hot || query.sort == HomeSort::Hot ==> forall|i: int, j: int|
            0 <= i < j < r.topics@.len() ==> r.topics@[i].hot_score >= r.topics@[j].hot_score,
        query.tab != HomeTab::Hot && query.sort == HomeSort::Replies ==> forall|i: int, j: int|
            0 <= i < j < r.topics@.len() ==> r.topics@[i].reply_count >= r.topics@[j].reply_count,
        query.tab != HomeTab::Hot && query.sort == HomeSort::Views ==> forall|i: int, j: int|
            0 <= i < j < r.topics@.len() ==> !text_lt(
                r.topics@[i].view_count_label@,
                r.topics@[j].view_count_label@,
            ),
        !r.requires_login && query.tab != HomeTab::Hot && (query.sort == HomeSort::LastReply
            || query.sort == HomeSort::Created) ==> exists|ts: Seq<HomeTopic>|
            #[trigger] seed_topics(ts) && r.topics@ == take_at_most(
                ts.filter(
                    |t: HomeTopic|
                        (query.tab == HomeTab::Unanswered ==> t.reply_count == 0) && (opt_view(
                            r.query.category,
                        ) matches Some(c) ==> t.category.name@ == c) && (opt_view(r.query.tag) matches Some(
                            g,
                        ) ==> exists|k: int| 0 <= k < t.tags@.len() && #[trigger] t.tags@[k].name@ == g),
                ),
                r.query.page_size,
            ),
{
    broadcast use vstd::seq_lib::group_to_multiset_ensures;
    if let Some(c0) = opt_view(query.category) {
        crate::text::lemma_trim_idempotent(c0);
    }
    let q = r.query;
    if !r.requires_login {
        let ts = choose|ts: Seq<HomeTopic>| #[trigger] seed_topics(ts) && r.topics@ == home_topics(ts, q);
        lemma_home_topics_members(ts, q);
        let sel = |t: HomeTopic| topic_selected(t, q);
        let raw = |t: HomeTopic|
            (query.tab == HomeTab::Unanswered ==> t.reply_count == 0) && (opt_view(q.category) matches Some(
                c,
            ) ==> t.category.name@ == c) && (opt_view(q.tag) matches Some(g) ==> exists|k: int|
                0 <= k < t.tags@.len() && #[trigger] t.tags@[k].name@ == g);
        assert(raw =~= sel);
        assert forall|i: int| 0 <= i < r.topics@.len() implies ts.contains(#[trigger] r.topics@[i]) by {
            assert(r.topics@.contains(r.topics@[i]));
        }
        assert forall|i: int| 0 <= i < r.topics@.len() implies topic_selected(#[trigger] r.topics@[i], q) by {
            assert(r.topics@.contains(r.topics@[i]));
        }
        let f = ts.filter(sel);
        if q.page_size < f.len() {
            assert(take_at_most(f, q.page_size).len() == q.page_size);
        }
        if topic_order_applies(q.sort, q.tab) {
            law_topic_order(take_at_most(f, q.page_size), q.sort, q.tab);
            let p = topic_prec(q.sort, q.tab);
            assert(r.topics@ == sort_by(take_at_most(f, q.page_size), p));
            assert forall|i: int, j: int| 0 <= i < j < r.topics@.len() implies !p(r.topics@[j], r.topics@[i]) by {
            }
        }
    }
}

/// The demo home page for a query; the following tab asks a visitor to log in.
pub fn dense_workbench_home(query: HomeQuery, logged_in: bool) -> (r: HomePageData)
    ensures
        home_page_for(query, logged_in, r),
{
    let query = query.normalized();
    let requires_login = query.tab == HomeTab::Following && !logged_in;
    let mut topics = if requires_login {
        Vec::new()
    } else {
        let seed = dense_workbench_topics();
        let ghost ts = seed@;
        let t = filter_topics(seed, &query);
        assert(seed_topics(ts));
        t
    };
    let ghost before = topics@;
    sort_topics(&mut topics, query.sort, query.tab);
    proof {
        if requires_login {
            assert(before.len() == 0);
            assert(sort_by(before, topic_prec(query.sort, query.tab)) =~= before);
        }
    }
    let mut label: Vec<char> = Vec::new();
    extend_str(&mut label, "显示 1-");
    let digits = u64_dec(query.page_size as u64);
    extend(&mut label, &digits);
    extend_str(&mut label, " / 342 个主题");
    let page = query.page;
    let page_size = query.page_size;
    HomePageData {
        query,
        topics,
        pagination: HomePagination {
            page,
            page_size,
            total: 342,
            total_pages: 29,
            label: crate::bridge::string_from_chars(&label),
        },
        categories: seed_categories(),
        hot_tags: seed_hot_tags(),
        announcements: seed_announcements(),
        active_authors: seed_active_authors(),
        requires_login,
    }
}

/// The sidebar part of a home page, cached apart from the topics.
#[derive(Clone, Debug, PartialEq, Eq)]
pub struct HomeSidebarSnapshot {
    pub categories: Vec<HomeCategory>,
    pub hot_tags: Vec<HomeTag>,
    pub announcements: Vec<HomeAnnouncement>,
    pub active_authors: Vec<HomeActiveAuthor>,
}

fn clone_categories(v: &Vec<HomeCategory>) -> (r: Vec<HomeCategory>)
    ensures
        r@ == v@,
{
    let r = v.clone();
    assert(r@ =~= v@);
    r
}

fn clone_tags(v: &Vec<HomeTag>) -> (r: Vec<HomeTag>)
    ensures
        r@ == v@,
{
    let r = v.clone();
    assert(r@ =~= v@);
    r
}

fn clone_announcements(v: &Vec<HomeAnnouncement>) -> (r: Vec<HomeAnnouncement>)
    ensures
        r@ == v@,
{
    let r = v.clone();
    assert(r@ =~= v@);
    r
}

fn clone_authors(v: &Vec<HomeActiveAuthor>) -> (r: Vec<HomeActiveAuthor>)
    ensures
        r@ == v@,
{
    let r = v.clone();
    assert(r@ =~= v@);
    r
}

/// Whether a snapshot holds exactly the sidebar lists of a page.
pub open spec fn snapshot_of(snap: HomeSidebarSnapshot, home: HomePageData) -> bool {
    &&& snap.categories@ == home.categories@
    &&& snap.hot_tags@ == home.hot_tags@
    &&& snap.announcements@ == home.announcements@
    &&& snap.active_authors@ == home.active_authors@
}

/// Whether `after` is the page `before` with the snapshot's sidebar lists.
pub open spec fn applied(after: HomePageData, before: HomePageData, snap: HomeSidebarSnapshot) -> bool {
    &&& after.categories == snap.categories
    &&& after.hot_tags == snap.hot_tags
    &&& after.announcements == snap.announcements
    &&& after.active_authors == snap.active_authors
    &&& after.query == before.query
    &&& after.topics == before.topics
    &&& after.pagination == before.pagination
    &&& after.requires_login == before.requires_login
}

impl HomeSidebarSnapshot {
    /// Copies the sidebar lists of a home page.
    pub fn from_home(home: &HomePageData) -> (r: HomeSidebarSnapshot)
        ensures
            snapshot_of(r, *home),
    {
        HomeSidebarSnapshot {
            categories: clone_categories(&home.categories),
            hot_tags: clone_tags(&home.hot_tags),
            announcements: clone_announcements(&home.announcements),
            active_authors: clone_authors(&home.active_authors),
        }
    }

    /// Replaces the sidebar lists of a home page; the rest of the page is kept.
    pub fn apply_to_home(self, home: &mut HomePageData)
        ensures
            applied(*final(home), *old(home), self),
    {
        home.categories = self.categories;
        home.hot_tags = self.hot_tags;
        home.announcements = self.announcements;
        home.active_authors = self.active_authors;
    }
}

/// Taking a page's sidebar into a snapshot and putting it on another page gives that
/// page the first page's sidebar lists, and leaves the rest of it as it was.
pub proof fn law_sidebar_round_trip(
    home: HomePageData,
    snap: HomeSidebarSnapshot,
    other: HomePageData,
    after: HomePageData,
)
    requires
        snapshot_of(snap, home),
        applied(after, other, snap),
    ensures
        after.categories@ == home.categories@,
        after.hot_tags@ == home.hot_tags@,
        after.announcements@ == home.announcements@,
        after.active_authors@ == home.active_authors@,
        after.query == other.query,
        after.topics == other.topics,
        after.pagination == other.pagination,
        after.requires_login == other.requires_login,
{
}

/// The key under which the sidebar snapshot is cached.
pub fn sidebar_cache_key() -> (r: &'static str)
    ensures
        r@ == "home:sidebar:v1"@,
{
    "home:sidebar:v1"
}

/// View of an optional string slice.
pub open spec fn opt_str_view(o: Option<&str>) -> Option<Seq<char>> {
    match o {
        Some(s) => Some(s@),
        None => None,
    }
}

/// The tab named by a query parameter; anything else is the latest tab.
pub open spec fn tab_from_param(v: Option<Seq<char>>) -> HomeTab {
    if v == Some("hot"@) {
        HomeTab::Hot
    } else if v == Some("unanswered"@) {
        HomeTab::Unanswered
    } else if v == Some("following"@) {
        HomeTab::Following
    } else {
        HomeTab::Latest
    }
}

/// The time range named by a query parameter; anything else is all time.
pub open spec fn time_from_param(v: Option<Seq<char>>) -> HomeTimeRange {
    if v == Some("today"@) {
        HomeTimeRange::Today
    } else if v == Some("week"@) {
        HomeTimeRange::Week
    } else if v == Some("month"@) {
        HomeTimeRange::Month
    } else {
        HomeTimeRange::All
    }
}

/// The ordering named by a query parameter; anything else is by last reply.
pub open spec fn sort_from_param(v: Option<Seq<char>>) -> HomeSort {
    if v == Some("created"@) {
        HomeSort::Created
    } else if v == Some("replies"@) {
        HomeSort::Replies
    } else if v == Some("views"@) {
        HomeSort::Views
    } else if v == Some("hot"@) {
        HomeSort::Hot
    } else {
        HomeSort::LastReply
    }
}

fn opt_is(v: Option<&str>, lit: &str) -> (b: bool)
    ensures
        b == (opt_str_view(v) == Some(lit@)),
{
    match v {
        Some(s) => str_eq(s, lit),
        None => false,
    }
}

/// Parses the `tab` query parameter.
pub fn parse_tab(value: Option<&str>) -> (r: HomeTab)
    ensures
        r == tab_from_param(opt_str_view(value)),
{
    if opt_is(value, "hot") {
        HomeTab::Hot
    } else if opt_is(value, "unanswered") {
        HomeTab::Unanswered
    } else if opt_is(value, "following") {
        HomeTab::Following
    } else {
        HomeTab::Latest
    }
}

/// Parses the `time` query parameter.
pub fn parse_time_range(value: Option<&str>) -> (r: HomeTimeRange)
    ensures
        r == time_from_param(opt_str_view(value)),
{
    if opt_is(value, "today") {
        HomeTimeRange::Today
    } else if opt_is(value, "week") {
        HomeTimeRange::Week
    } else if opt_is(value, "month") {
        HomeTimeRange::Month
    } else {
        HomeTimeRange::All
    }
}

/// Parses the `sort` query parameter.
pub fn parse_sort(value: Option<&str>) -> (r: HomeSort)
    ensures
        r == sort_from_param(opt_str_view(value)),
{
    if opt_is(value, "created") {
        HomeSort::Created
    } else if opt_is(value, "replies") {
        HomeSort::Replies
    } else if opt_is(value, "views") {
        HomeSort::Views
    } else if opt_is(value, "hot") {
        HomeSort::Hot
    } else {
        HomeSort::LastReply
    }
}

/// The query parameter text of a tab.
pub open spec fn tab_param(tab: HomeTab) -> Seq<char> {
    match tab {
        HomeTab::Latest => "latest"@,
        HomeTab::Hot => "hot"@,
        HomeTab::Unanswered => "unanswered"@,
        HomeTab::Following => "following"@,
    }
}

/// The query parameter text of a time range.
pub open spec fn time_param(time: HomeTimeRange) -> Seq<char> {
    match time {
        HomeTimeRange::All => "all"@,
        HomeTimeRange::Today => "today"@,
        HomeTimeRange::Week => "week"@,
        HomeTimeRange::Month => "month"@,
    }
}

/// The query parameter text of an ordering.
pub open spec fn sort_param(sort: HomeSort) -> Seq<char> {
    match sort {
        HomeSort::LastReply => "last_reply"@,
        HomeSort::Created => "created"@,
        HomeSort::Replies => "replies"@,
        HomeSort::Views => "views"@,
        HomeSort::Hot => "hot"@,
    }
}

/// The URL parameter value of a tab.
pub fn home_tab_param(tab: HomeTab) -> (r: &'static str)
    ensures
        r@ == tab_param(tab),
{
    match tab {
        HomeTab::Latest => "latest",
        HomeTab::Hot => "hot",
        HomeTab::Unanswered => "unanswered",
        HomeTab::Following => "following",
    }
}

/// The URL parameter value of a time range.
pub fn home_time_param(time: HomeTimeRange) -> (r: &'static str)
    ensures
        r@ == time_param(time),
{
    match time {
        HomeTimeRange::All => "all",
        HomeTimeRange::Today => "today",
        HomeTimeRange::Week => "week",
        HomeTimeRange::Month => "month",
    }
}

/// The URL parameter value of an ordering.
pub fn home_sort_param(sort: HomeSort) -> (r: &'static str)
    ensures
        r@ == sort_param(sort),
{
    match sort {
        HomeSort::LastReply => "last_reply",
        HomeSort::Created => "created",
        HomeSort::Replies => "replies",
        HomeSort::Views => "views",
        HomeSort::Hot => "hot",
    }
}

/// Reading back the parameter text of a tab, time range or ordering gives it back.
pub proof fn law_home_params_round_trip(tab: HomeTab, time: HomeTimeRange, sort: HomeSort)
    ensures
        tab_from_param(Some(tab_param(tab))) == tab,
        time_from_param(Some(time_param(time))) == time,
        sort_from_param(Some(sort_param(sort))) == sort,
{
    reveal_strlit("latest");
    reveal_strlit("hot");
    reveal_strlit("unanswered");
    reveal_strlit("following");
    reveal_strlit("all");
    reveal_strlit("today");
    reveal_strlit("week");
    reveal_strlit("month");
    reveal_strlit("last_reply");
    reveal_strlit("created");
    reveal_strlit("replies");
    reveal_strlit("views");
    assert("latest"@.len() == 6 && "hot"@.len() == 3 && "unanswered"@.len() == 10
        && "following"@.len() == 9);
    assert("all"@.len() == 3 && "today"@.len() == 5 && "week"@.len() == 4 && "month"@.len() == 5);
    assert("last_reply"@.len() == 10 && "created"@.len() == 7 && "replies"@.len() == 7
        && "views"@.len() == 5);
    assert("today"@[0] != "month"@[0]);
    assert("created"@[0] != "replies"@[0]);
}

/// The badge colour of a category name.
pub open spec fn category_color_of(c: Seq<char>) -> Seq<char> {
    if c == "公告"@ {
        "blue"@
    } else if c == "教程"@ {
        "green"@
    } else if c == "问题"@ {
        "orange"@
    } else if c == "经验分享"@ {
        "sky"@
    } else if c == "站务"@ {
        "purple"@
    } else {
        "gray"@
    }
}

/// The badge color of a category (see `category_color_of`).
pub fn category_color(category: &str) -> (r: &'static str)
    ensures
        r@ == category_color_of(category@),
{
    if str_eq(category, "公告") {
        "blue"
    } else if str_eq(category, "教程") {
        "green"
    } else if str_eq(category, "问题") {
        "orange"
    } else if str_eq(category, "经验分享") {
        "sky"
    } else if str_eq(category, "站务") {
        "purple"
    } else {
        "gray"
    }
}

/// The category a post is listed under: its own, or `讨论` where it has none.
pub open spec fn listed_category(c: Option<String>) -> Seq<char> {
    match c {
        Some(n) => n@,
        None => "讨论"@,
    }
}

/// The ranking score of a post from its counters.
pub open spec fn hot_score_of(s: PostSummary) -> int {
    s.view_count + s.comment_count * 20 + s.like_count * 10 + s.favorite_count * 5
}

/// Whether the score of a post can be added up left to right without leaving `i64`.
pub open spec fn hot_score_fits(s: PostSummary) -> bool {
    let a = s.comment_count * 20;
    let b = s.like_count * 10;
    let c = s.favorite_count * 5;
    &&& i64::MIN <= a <= i64::MAX
    &&& i64::MIN <= b <= i64::MAX
    &&& i64::MIN <= c <= i64::MAX
    &&& i64::MIN <= s.view_count + a <= i64::MAX
    &&& i64::MIN <= s.view_count + a + b <= i64::MAX
    &&& i64::MIN <= s.view_count + a + b + c <= i64::MAX
}

/// The reply count shown for a post: negative counts show as 0, and the count is cut to
/// 32 bits.
pub open spec fn shown_replies(c: i64) -> u32 {
    if c < 0 {
        0
    } else {
        c as u32
    }
}

/// The workbench topic of a post summary, with the view label computed by the caller.
pub open spec fn topic_of_summary(t: HomeTopic, s: PostSummary, view_label: Seq<char>) -> bool {
    &&& t.id@ == uuid_text(s.post_id)
    &&& t.marker == TopicMarker::Unread
    &&& t.title == s.title
    &&& t.summary == s.summary
    &&& t.category.name@ == listed_category(s.category_name)
    &&& t.category.color@ == category_color_of(listed_category(s.category_name))
    &&& t.tags@.len() == s.tags@.len()
    &&& forall|i: int|
        0 <= i < t.tags@.len() ==> (#[trigger] t.tags@[i]).name == s.tags@[i] && t.tags@[i].count
            == 0
    &&& t.reply_count == shown_replies(s.comment_count)
    &&& t.view_count_label@ == view_label
    &&& t.last_reply.author == s.author_name
    &&& t.last_reply.avatar_label@ == avatar_of(s.author_name@)
    &&& t.last_reply.time_label@ == (if s.published_at is Some {
        "已发布"@
    } else {
        "草稿"@
    })
    &&& t.hot_score == hot_score_of(s)
}

/// A post summary as a workbench topic. The view label is the compact text of the view
/// count, which the caller formats.
pub fn home_topic_from_post_summary(summary: PostSummary, view_count_label: String) -> (r: HomeTopic)
    requires
        hot_score_fits(summary),
    ensures
        topic_of_summary(r, summary, view_count_label@),
{
    let ghost s0 = summary;
    let category_name = match summary.category_name {
        Some(n) => n,
        None => owned("讨论"),
    };
    let author_name = summary.author_name;
    let color = owned(category_color(category_name.as_str()));
    let mut tags: Vec<HomeTag> = Vec::new();
    let names = summary.tags;
    let mut i: usize = 0;
    while i < names.len()
        invariant
            i <= names@.len(),
            names@ == s0.tags@,
            tags@.len() == i,
            forall|k: int|
                0 <= k < i ==> (#[trigger] tags@[k]).name == names@[k] && tags@[k].count == 0,
        decreases names@.len() - i,
    {
        tags.push(HomeTag { name: names[i].clone(), count: 0 });
        i = i + 1;
    }
    let reply_count: u32 = if summary.comment_count < 0 {
        0
    } else {
        #[verifier::truncate]
        (summary.comment_count as u32)
    };
    let time_label = if summary.published_at.is_some() {
        owned("已发布")
    } else {
        owned("草稿")
    };
    let hot_score = summary.view_count + summary.comment_count * 20 + summary.like_count * 10
        + summary.favorite_count * 5;
    HomeTopic {
        id: uuid_string(summary.post_id),
        marker: TopicMarker::Unread,
        title: summary.title,
        summary: summary.summary,
        category: HomeCategoryBadge { color, name: category_name },
        tags,
        reply_count,
        view_count_label,
        last_reply: HomeLastReply {
            avatar_label: avatar_label(author_name.as_str()),
            author: author_name,
            time_label,
        },
        hot_score,
    }
}

/// A count cut to 32 bits, where negative counts are 0.
pub open spec fn count_u32(c: i64) -> u32 {
    if c < 0 {
        0
    } else {
        c as u32
    }
}

pub(crate) fn to_count(c: i64) -> (r: u32)
    ensures
        r == count_u32(c),
{
    if c < 0 {
        0
    } else {
        #[verifier::truncate]
        (c as u32)
    }
}

/// A stored category with its number of published posts.
#[derive(Clone, Debug, PartialEq, Eq)]
pub struct HomeCategoryRow {
    pub name: String,
    pub count: i64,
    pub color: String,
}

impl HomeCategory {
    /// The sidebar category of a stored row.
    pub fn from_row(row: HomeCategoryRow) -> (r: HomeCategory)
        ensures
            r.name == row.name,
            r.count == count_u32(row.count),
            r.color == row.color,
    {
        HomeCategory { name: row.name, count: to_count(row.count), color: row.color }
    }
}

/// A stored tag with its use count.
#[derive(Clone, Debug, PartialEq, Eq)]
pub struct HomeTagRow {
    pub name: String,
    pub count: i64,
}

impl HomeTag {
    /// The sidebar tag of a stored row.
    pub fn from_row(row: HomeTagRow) -> (r: HomeTag)
        ensures
            r.name == row.name,
            r.count == count_u32(row.count),
    {
        HomeTag { name: row.name, count: to_count(row.count) }
    }
}

/// A stored announcement headline.
#[derive(Clone, Debug, PartialEq, Eq)]
pub struct HomeAnnouncementRow {
    pub title: String,
    pub date_label: String,
}

impl HomeAnnouncement {
    /// The sidebar announcement of a stored row.
    pub fn from_row(row: HomeAnnouncementRow) -> (r: HomeAnnouncement)
        ensures
            r.title == row.title,
            r.date_label == row.date_label,
    {
        HomeAnnouncement { title: row.title, date_label: row.date_label }
    }
}

/// A stored active author.
#[derive(Clone, Debug, PartialEq, Eq)]
pub struct HomeActiveAuthorRow {
    pub name: String,
    pub avatar_label: String,
    pub reply_count_label: String,
}

impl HomeActiveAuthor {
    /// The sidebar author of a stored row.
    pub fn from_row(row: HomeActiveAuthorRow) -> (r: HomeActiveAuthor)
        ensures
            r.name == row.name,
            r.avatar_label == row.avatar_label,
            r.reply_count_label == row.reply_count_label,
    {
        HomeActiveAuthor {
            name: row.name,
            avatar_label: row.avatar_label,
            reply_count_label: row.reply_count_label,
        }
    }
}

/// The query that lists enabled categories with their published post counts.
pub const HOMEPAGE_CATEGORIES_SQL: &'static str = r#"
select
    c.name,
    count(p.post_id) as count,
    case c.name
        when '公告' then 'blue'
        when '教程' then 'green'
        when '问题' then 'orange'
        when '经验分享' then 'sky'
        when '站务' then 'purple'
        else 'gray'
    end as color
from categories c
left join posts p on p.category_id = c.category_id and p.status = 'published'
where c.enabled = true
group by c.category_id, c.name, c.sort_order
order by c.sort_order asc, c.name asc
"#;

/// The query that lists the most used tags.
pub const HOT_TAGS_SQL: &'static str = r#"
select
    t.name,
    greatest(t.use_count, count(p.post_id)) as count
from tags t
left join post_tags pt on pt.tag_id = t.tag_id
left join posts p on p.post_id = pt.post_id
where p.status = 'published'
  and t.enabled = true
  or (t.enabled = true and t.use_count > 0 and pt.post_id is null)
group by t.tag_id, t.name, t.sort_order, t.use_count
order by greatest(t.use_count, count(p.post_id)) desc, t.sort_order asc, t.name asc
limit $1
"#;

/// The query that lists the announcements in effect.
pub const ANNOUNCEMENTS_SQL: &'static str = r#"
select
    title,
    to_char(coalesce(starts_at, created_at), 'FMMM 月 FMDD 日') as date_label
from announcements
where status = 'published'
  and (starts_at is null or starts_at <= now())
  and (ends_at is null or ends_at > now())
order by is_pinned desc, created_at desc
limit $1
"#;

/// The query that lists the authors with the most recent replies.
pub const ACTIVE_AUTHORS_SQL: &'static str = r#"
select
    u.nickname as name,
    left(u.nickname, 1) as avatar_label,
    case
        when count(c.comment_id) >= 1000
            then trim(to_char(count(c.comment_id)::numeric / 1000.0, 'FM999999990.0')) || 'k 条回复'
        else count(c.comment_id)::text || ' 条回复'
    end as reply_count_label
from users u
join comments c on c.author_id = u.user_id and c.status = 'visible'
where u.status = 'active'
  and c.created_at >= now() - interval '30 days'
group by u.user_id, u.nickname
order by count(c.comment_id) desc, u.nickname asc
limit $1
"#;

/// Reading the home page from storage.
pub struct PostgresHomeRepository;

impl PostgresHomeRepository {
    /// The query that lists enabled categories with their published post counts.
    pub fn homepage_categories_sql() -> (r: &'static str)
        ensures
            r@ == HOMEPAGE_CATEGORIES_SQL@,
    {
        HOMEPAGE_CATEGORIES_SQL
    }

    /// The query that lists the most used tags.
    pub fn hot_tags_sql() -> (r: &'static str)
        ensures
            r@ == HOT_TAGS_SQL@,
    {
        HOT_TAGS_SQL
    }

    /// The query that lists the announcements in effect.
    pub fn announcements_sql() -> (r: &'static str)
        ensures
            r@ == ANNOUNCEMENTS_SQL@,
    {
        ANNOUNCEMENTS_SQL
    }

    /// The query that lists the authors with the most recent replies.
    pub fn active_authors_sql() -> (r: &'static str)
        ensures
            r@ == ACTIVE_AUTHORS_SQL@,
    {
        ACTIVE_AUTHORS_SQL
    }
}

} // verus!
