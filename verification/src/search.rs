//! Search over the demo workbench: query normalisation, matching, highlighting, paging.
use vstd::prelude::*;
use vstd::string::StringSliceAdditionalSpecFns;
use vstd::utf8::{
    valid_utf8, decode_utf8, encode_utf8, encode_utf8_decode_utf8, encode_utf8_valid_utf8,
    is_char_boundary, is_char_boundary_iff_is_leading_byte, is_char_boundary_start_end_of_seq,
    valid_utf8_split, decode_utf8_split,
};

use crate::bridge::{lowercase, string_from_chars, to_lowercase, uuid_string, uuid_text};
use crate::sorting::{
    keys_distinct, lemma_filter_keys, lemma_sort_by_keys,
    in_order, law_sort_by_sorted_permutation, lemma_filter_take_next, lemma_sort_by_len, sort_by,
    sort_vec_by, strict_order,
};
use crate::home::{
    dense_workbench_home, dense_workbench_topics, has_tag, seed_active_authors_are,
    seed_hot_tags_are, seed_topics, topic_has_tag, HomeQuery, filter_norm, lower_opt, norm_page, norm_page_size, normalize_filter, HomeActiveAuthor, HomeTag,
    HomeTopic, lemma_tag_norm_settles, tag_settles, lemma_text_lt_irreflexive, lemma_text_lt_transitive, text_less, text_lt,
};
use crate::text::{
    char_is_ascii_alnum, chars_of, contains_chars, contains_seq, dec, extend, extend_str,
    concat_str, find_bytes, first_bytes_at, hex, str_eq, is_ascii_alnum, join, opt_view, owned, trim,
    trim_str, u64_dec,
    u64_hex,
};

verus! {

#[derive(Clone, Copy, Debug, PartialEq, Eq, Structural)]
pub enum SearchSort {
    Relevance,
    Latest,
    Hot,
}

impl Default for SearchSort {
    fn default() -> (r: Self)
        ensures
            r == SearchSort::Relevance,
    {
        SearchSort::Relevance
    }
}

#[derive(Clone, Copy, Debug, PartialEq, Eq, Structural)]
pub enum SearchResultKind {
    Post,
    Tag,
    User,
}

#[derive(Clone, Debug, PartialEq, Eq)]
pub struct SearchQuery {
    pub q: String,
    pub category: Option<String>,
    pub tag: Option<String>,
    pub sort: SearchSort,
    pub page: usize,
    pub page_size: usize,
}

impl Default for SearchQuery {
    fn default() -> (r: Self)
        ensures
            r.q@ == Seq::<char>::empty(),
            r.category is None,
            r.tag is None,
            r.sort == SearchSort::Relevance,
            r.page == 1,
            r.page_size == 10,
    {
        SearchQuery {
            q: String::new(),
            category: None,
            tag: None,
            sort: SearchSort::Relevance,
            page: 1,
            page_size: 10,
        }
    }
}

#[derive(Clone, Debug, PartialEq, Eq)]
pub struct SearchResultPage {
    pub query: SearchQuery,
    pub total: usize,
    pub items: Vec<SearchResultItem>,
    pub suggestions: Vec<String>,
}

#[derive(Clone, Debug, PartialEq, Eq)]
pub struct SearchResultItem {
    pub id: String,
    pub kind: SearchResultKind,
    pub title: String,
    pub title_highlighted: String,
    pub summary: String,
    pub summary_highlighted: String,
    pub category_name: Option<String>,
    pub tags: Vec<String>,
    pub author_name: String,
    pub score: i64,
    pub url: String,
}

impl SearchQuery {
    /// The text is trimmed, filters are normalised (the tag lower-cased), page defaults to
    /// 1 and page size to 10 (at most 50).
    pub fn normalized(self) -> (r: SearchQuery)
        ensures
            search_normalized(self, r),
    {
        let q = trim_str(self.q.as_str());
        let category = normalize_filter(self.category);
        let tag = match normalize_filter(self.tag) {
            Some(t) => Some(to_lowercase(t.as_str())),
            None => None,
        };
        let mut page = self.page;
        if page == 0 {
            page = 1;
        }
        let mut page_size = self.page_size;
        if page_size == 0 {
            page_size = 10;
        }
        if page_size > 50 {
            page_size = 50;
        }
        SearchQuery { q, category, tag, sort: self.sort, page, page_size }
    }
}

/// `vb` with the bytes `s..e` wrapped in `<mark>` tags, decoded back to characters.
pub open spec fn marked(vb: Seq<u8>, s: int, e: int) -> Seq<char> {
    decode_utf8(vb.subrange(0, s)) + "<mark>"@ + decode_utf8(vb.subrange(s, e)) + "</mark>"@
        + decode_utf8(vb.subrange(e, vb.len() as int))
}

/// The marked-up text: the first occurrence of the trimmed query in the text, compared
/// in lower case byte by byte, is wrapped in `<mark>`. `None` when the match does not
/// fall on character boundaries of the text itself (lower-casing can change byte
/// lengths), where slicing the text there would fail.
pub open spec fn highlight_spec(value: Seq<char>, query: Seq<char>) -> Option<Seq<char>> {
    let q = trim(query);
    if q.len() == 0 {
        Some(value)
    } else {
        let vb = encode_utf8(value);
        let qb = encode_utf8(lowercase(q));
        match first_bytes_at(encode_utf8(lowercase(value)), qb) {
            None => Some(value),
            Some(s) => {
                let e = s + qb.len();
                if is_char_boundary(vb, s) && is_char_boundary(vb, e) {
                    Some(marked(vb, s, e))
                } else {
                    None
                }
            },
        }
    }
}

proof fn lemma_prefix_boundary(vb: Seq<u8>, s: int, e: int)
    requires
        valid_utf8(vb),
        0 <= s <= e,
        is_char_boundary(vb, s),
        is_char_boundary(vb, e),
    ensures
        valid_utf8(vb.subrange(0, e)),
        is_char_boundary(vb.subrange(0, e), s),
{
    valid_utf8_split(vb, e);
    let pb = vb.subrange(0, e);
    if s == e {
        is_char_boundary_start_end_of_seq(pb);
    } else {
        is_char_boundary_iff_is_leading_byte(pb, s);
        is_char_boundary_iff_is_leading_byte(vb, s);
    }
}

fn mark_range(value: &str, start: usize, end: usize) -> (r: String)
    requires
        start <= end,
        is_char_boundary(value.spec_bytes(), start as int),
        is_char_boundary(value.spec_bytes(), end as int),
    ensures
        r@ == marked(encode_utf8(value@), start as int, end as int),
{
    let ghost vb = value.spec_bytes();
    proof {
        encode_utf8_valid_utf8(value@);
        lemma_prefix_boundary(vb, start as int, end as int);
    }
    let (pre, z) = value.split_at(end);
    proof {
        assert(pre.spec_bytes() =~= vb.subrange(0, end as int));
    }
    let (a, m) = pre.split_at(start);
    proof {
        encode_utf8_decode_utf8(a@);
        encode_utf8_decode_utf8(m@);
        encode_utf8_decode_utf8(z@);
        assert(a.spec_bytes() =~= vb.subrange(0, start as int));
        assert(m.spec_bytes() =~= vb.subrange(start as int, end as int));
    }
    let mut out: Vec<char> = Vec::new();
    extend_str(&mut out, a);
    extend_str(&mut out, "<mark>");
    extend_str(&mut out, m);
    extend_str(&mut out, "</mark>");
    extend_str(&mut out, z);
    string_from_chars(&out)
}

/// Wraps the first case-insensitive occurrence of `query` in `value` in `<mark>` tags.
#[verifier::rlimit(60)]
pub fn highlight(value: &str, query: &str) -> (r: Option<String>)
    ensures
        opt_view(r) == highlight_spec(value@, query@),
{
    let q = trim_str(query);
    if q.as_str().is_empty() {
        return Some(owned(value));
    }
    let lv = to_lowercase(value);
    let lq = to_lowercase(q.as_str());
    let hay: &[u8] = lv.as_str().as_bytes();
    let needle: &[u8] = lq.as_str().as_bytes();
    match find_bytes(hay, needle) {
        None => Some(owned(value)),
        Some(start) => {
            let end: usize = start + needle.len();
            if !value.is_char_boundary(start) || !value.is_char_boundary(end) {
                return None;
            }
            Some(mark_range(value, start, end))
        },
    }
}

/// The names of a topic's tags.
pub open spec fn tag_names(t: HomeTopic) -> Seq<Seq<char>> {
    t.tags@.map_values(|g: HomeTag| g.name@)
}

/// The text a topic is searched in: title, summary, category, tags and author.
pub open spec fn topic_haystack(t: HomeTopic) -> Seq<char> {
    t.title@ + " "@ + t.summary@ + " "@ + t.category.name@ + " "@ + join(tag_names(t), " "@) + " "@
        + t.last_reply.author@
}

/// Whether a topic matches a lower-cased needle (an empty needle matches everything).
pub open spec fn topic_matches(t: HomeTopic, needle: Seq<char>) -> bool {
    needle.len() == 0 || contains_seq(lowercase(topic_haystack(t)), needle)
}

/// Whether a name matches a lower-cased needle.
pub open spec fn name_matches(name: Seq<char>, needle: Seq<char>) -> bool {
    needle.len() == 0 || contains_seq(lowercase(name), needle)
}

fn join_tag_names(t: &HomeTopic, out: &mut Vec<char>)
    ensures
        final(out)@ == old(out)@ + join(tag_names(*t), " "@),
{
    let ghost names = tag_names(*t);
    let ghost start = out@;
    let n: usize = t.tags.len();
    let mut i: usize = 0;
    while i < n
        invariant
            n == t.tags@.len(),
            names == tag_names(*t),
            i <= n,
            out@ == start + join(names.take(i as int), " "@),
        decreases n - i,
    {
        let ghost before = out@;
        if i > 0 {
            extend_str(out, " ");
        }
        extend_str(out, t.tags[i].name.as_str());
        proof {
            let p = names.take(i + 1);
            assert(p.drop_last() =~= names.take(i as int));
            assert(p.last() == t.tags@[i as int].name@);
            if i == 0 {
                assert(names.take(0) =~= Seq::<Seq<char>>::empty());
                assert(out@ =~= start + join(p, " "@));
            } else {
                assert(out@ =~= start + join(p, " "@));
            }
        }
        i = i + 1;
    }
    assert(names.take(n as int) =~= names);
}

/// Whether a topic matches the lower-cased `needle`.
pub fn matches_query(topic: &HomeTopic, needle: &str) -> (b: bool)
    ensures
        b == topic_matches(*topic, needle@),
{
    if needle.is_empty() {
        return true;
    }
    let mut hay: Vec<char> = Vec::new();
    extend_str(&mut hay, topic.title.as_str());
    extend_str(&mut hay, " ");
    extend_str(&mut hay, topic.summary.as_str());
    extend_str(&mut hay, " ");
    extend_str(&mut hay, topic.category.name.as_str());
    extend_str(&mut hay, " ");
    join_tag_names(topic, &mut hay);
    extend_str(&mut hay, " ");
    extend_str(&mut hay, topic.last_reply.author.as_str());
    assert(hay@ =~= topic_haystack(*topic));
    let text = string_from_chars(&hay);
    let lowered = to_lowercase(text.as_str());
    contains_chars(&chars_of(lowered.as_str()), &chars_of(needle))
}

fn name_matches_exec(name: &str, needle: &str) -> (b: bool)
    ensures
        b == name_matches(name@, needle@),
{
    if needle.is_empty() {
        return true;
    }
    let lowered = to_lowercase(name);
    contains_chars(&chars_of(lowered.as_str()), &chars_of(needle))
}

/// Whether a tag name matches the lower-cased `needle`.
pub fn matches_tag_query(tag: &HomeTag, needle: &str) -> (b: bool)
    ensures
        b == name_matches(tag.name@, needle@),
{
    name_matches_exec(tag.name.as_str(), needle)
}

/// Whether an author name matches the lower-cased `needle`.
pub fn matches_author_query(author: &HomeActiveAuthor, needle: &str) -> (b: bool)
    ensures
        b == name_matches(author.name@, needle@),
{
    name_matches_exec(author.name.as_str(), needle)
}

/// Views of a list of strings.
pub open spec fn strings_view(v: Seq<String>) -> Seq<Seq<char>> {
    v.map_values(|s: String| s@)
}

/// The result entry of a topic for the (trimmed) query text `q`.
pub open spec fn post_item_ok(item: SearchResultItem, t: HomeTopic, q: Seq<char>) -> bool {
    &&& item.id@ == t.id@
    &&& item.kind == SearchResultKind::Post
    &&& item.title@ == t.title@
    &&& highlight_spec(t.title@, q) == Some(item.title_highlighted@)
    &&& item.summary@ == t.summary@
    &&& highlight_spec(t.summary@, q) == Some(item.summary_highlighted@)
    &&& opt_view(item.category_name) == Some(t.category.name@)
    &&& strings_view(item.tags@) == tag_names(t)
    &&& item.author_name@ == t.last_reply.author@
    &&& item.score == t.hot_score
    &&& item.url@ == "/posts/"@ + t.id@
}

/// Whether both highlights of a topic's entry are defined.
pub open spec fn post_item_defined(t: HomeTopic, q: Seq<char>) -> bool {
    highlight_spec(t.title@, q) is Some && highlight_spec(t.summary@, q) is Some
}

fn tag_texts(t: &HomeTopic) -> (r: Vec<String>)
    ensures
        strings_view(r@) == tag_names(*t),
{
    let mut r: Vec<String> = Vec::new();
    let mut i: usize = 0;
    while i < t.tags.len()
        invariant
            i <= t.tags@.len(),
            r@.len() == i,
            strings_view(r@) == tag_names(*t).take(i as int),
        decreases t.tags@.len() - i,
    {
        let ghost before = r@;
        let name = t.tags[i].name.clone();
        assert(name@ == t.tags@[i as int].name@);
        r.push(name);
        proof {
            assert forall|j: int| 0 <= j < i + 1 implies strings_view(r@)[j] == tag_names(*t).take(
                i + 1,
            )[j] by {
                if j < i {
                    assert(r@[j] == before[j]);
                    assert(strings_view(before)[j] == tag_names(*t).take(i as int)[j]);
                }
            }
        }
        i = i + 1;
        assert(strings_view(r@) =~= tag_names(*t).take(i as int));
    }
    assert(tag_names(*t).take(i as int) =~= tag_names(*t));
    r
}

/// The result entry of a topic; `None` where a highlight is undefined.
pub fn to_result_item(topic: HomeTopic, query: &str) -> (r: Option<SearchResultItem>)
    ensures
        r matches Some(item) ==> post_item_ok(item, topic, query@),
        r is None <==> !post_item_defined(topic, query@),
{
    let th = match highlight(topic.title.as_str(), query) {
        Some(h) => h,
        None => return None,
    };
    let sh = match highlight(topic.summary.as_str(), query) {
        Some(h) => h,
        None => return None,
    };
    let tags = tag_texts(&topic);
    let url = concat_str("/posts/", topic.id.as_str());
    Some(
        SearchResultItem {
            id: topic.id,
            kind: SearchResultKind::Post,
            title: topic.title,
            title_highlighted: th,
            summary: topic.summary,
            summary_highlighted: sh,
            category_name: Some(topic.category.name),
            tags,
            author_name: topic.last_reply.author,
            score: topic.hot_score,
            url,
        },
    )
}

/// The summary text of a tag entry.
pub open spec fn tag_summary(count: u32) -> Seq<char> {
    dec(count as nat) + " 个主题使用该标签"@
}

/// The result entry of a hot tag for the query text `q`.
pub open spec fn tag_item_ok(item: SearchResultItem, g: HomeTag, q: Seq<char>) -> bool {
    &&& item.id@ == g.name@
    &&& item.kind == SearchResultKind::Tag
    &&& item.title@ == "#"@ + g.name@
    &&& highlight_spec("#"@ + g.name@, q) == Some(item.title_highlighted@)
    &&& item.summary@ == tag_summary(g.count)
    &&& highlight_spec(tag_summary(g.count), q) == Some(item.summary_highlighted@)
    &&& item.category_name is None
    &&& strings_view(item.tags@) == seq![g.name@]
    &&& item.author_name@ == "标签"@
    &&& item.score == g.count as i64
    &&& item.url@ == "/search?tag="@ + g.name@
}

/// Whether both highlights of a tag entry are defined.
pub open spec fn tag_item_defined(g: HomeTag, q: Seq<char>) -> bool {
    highlight_spec("#"@ + g.name@, q) is Some && highlight_spec(tag_summary(g.count), q) is Some
}

/// The result entry of a hot tag; `None` where a highlight is undefined.
pub fn tag_to_result_item(tag: HomeTag, query: &str) -> (r: Option<SearchResultItem>)
    ensures
        r matches Some(item) ==> tag_item_ok(item, tag, query@),
        r is None <==> !tag_item_defined(tag, query@),
{
    let title = concat_str("#", tag.name.as_str());
    let mut sv: Vec<char> = u64_dec(tag.count as u64);
    extend_str(&mut sv, " 个主题使用该标签");
    let summary = string_from_chars(&sv);
    let th = match highlight(title.as_str(), query) {
        Some(h) => h,
        None => return None,
    };
    let sh = match highlight(summary.as_str(), query) {
        Some(h) => h,
        None => return None,
    };
    let mut tags: Vec<String> = Vec::new();
    tags.push(tag.name.clone());
    assert(strings_view(tags@) =~= seq![tag.name@]);
    let url = concat_str("/search?tag=", tag.name.as_str());
    Some(
        SearchResultItem {
            id: tag.name,
            kind: SearchResultKind::Tag,
            title,
            title_highlighted: th,
            summary,
            summary_highlighted: sh,
            category_name: None,
            tags,
            author_name: owned("标签"),
            score: tag.count as i64,
            url,
        },
    )
}

/// The identifier of an author in search results: the lower-cased ASCII letters and
/// digits of the name, or `u-` and the hexadecimal code points joined by `-`.
pub open spec fn user_search_id_spec(name: Seq<char>) -> Seq<char> {
    let ascii = lowercase(name.filter(|c: char| is_ascii_alnum(c)));
    if ascii.len() > 0 {
        ascii
    } else {
        "u-"@ + join(name.map_values(|c: char| hex((c as u32) as nat)), "-"@)
    }
}

/// Search identifier of an author name.
pub fn user_search_id(name: &str) -> (r: String)
    ensures
        r@ == user_search_id_spec(name@),
{
    let chars = chars_of(name);
    let n: usize = chars.len();
    let mut ascii: Vec<char> = Vec::new();
    let mut i: usize = 0;
    while i < n
        invariant
            n == chars@.len(),
            chars@ == name@,
            i <= n,
            ascii@ == chars@.take(i as int).filter(|c: char| is_ascii_alnum(c)),
        decreases n - i,
    {
        proof {
            reveal(Seq::filter);
            assert(chars@.take(i + 1).drop_last() =~= chars@.take(i as int));
        }
        if char_is_ascii_alnum(chars[i]) {
            ascii.push(chars[i]);
        }
        i = i + 1;
    }
    assert(chars@.take(n as int) =~= chars@);
    let lowered = to_lowercase(string_from_chars(&ascii).as_str());
    if !lowered.as_str().is_empty() {
        return lowered;
    }
    let ghost parts = name@.map_values(|c: char| hex((c as u32) as nat));
    let mut out: Vec<char> = Vec::new();
    extend_str(&mut out, "u-");
    let ghost start = out@;
    let mut k: usize = 0;
    while k < n
        invariant
            n == chars@.len(),
            chars@ == name@,
            parts == name@.map_values(|c: char| hex((c as u32) as nat)),
            k <= n,
            out@ == start + join(parts.take(k as int), "-"@),
        decreases n - k,
    {
        if k > 0 {
            extend_str(&mut out, "-");
        }
        let digits = u64_hex(chars[k] as u32 as u64);
        extend(&mut out, &digits);
        proof {
            let p = parts.take(k + 1);
            assert(p.drop_last() =~= parts.take(k as int));
            assert(p.last() == hex((chars@[k as int] as u32) as nat));
            if k == 0 {
                assert(parts.take(0) =~= Seq::<Seq<char>>::empty());
            }
            assert(out@ =~= start + join(p, "-"@));
        }
        k = k + 1;
    }
    assert(parts.take(n as int) =~= parts);
    string_from_chars(&out)
}

/// The summary text of an author entry.
pub open spec fn author_summary(a: HomeActiveAuthor) -> Seq<char> {
    "活跃作者，"@ + a.reply_count_label@
}

/// The result entry of an active author with its reply score, for the query text `q`.
pub open spec fn author_item_ok(item: SearchResultItem, a: HomeActiveAuthor, score: i64, q: Seq<char>) -> bool {
    &&& item.id@ == user_search_id_spec(a.name@)
    &&& item.kind == SearchResultKind::User
    &&& item.title@ == a.name@
    &&& highlight_spec(a.name@, q) == Some(item.title_highlighted@)
    &&& item.summary@ == author_summary(a)
    &&& highlight_spec(author_summary(a), q) == Some(item.summary_highlighted@)
    &&& item.category_name is None
    &&& item.tags@.len() == 0
    &&& item.author_name@ == "用户"@
    &&& item.score == score
    &&& item.url@ == "/users/"@ + user_search_id_spec(a.name@)
}

/// Whether both highlights of an author entry are defined.
pub open spec fn author_item_defined(a: HomeActiveAuthor, q: Seq<char>) -> bool {
    highlight_spec(a.name@, q) is Some && highlight_spec(author_summary(a), q) is Some
}

/// The result entry of an active author; `score` is the author's reply count read from
/// the reply label. `None` where a highlight is undefined.
pub fn author_to_result_item(author: HomeActiveAuthor, query: &str, score: i64) -> (r: Option<
    SearchResultItem,
>)
    ensures
        r matches Some(item) ==> author_item_ok(item, author, score, query@),
        r is None <==> !author_item_defined(author, query@),
{
    let user_id = user_search_id(author.name.as_str());
    let summary = concat_str("活跃作者，", author.reply_count_label.as_str());
    let th = match highlight(author.name.as_str(), query) {
        Some(h) => h,
        None => return None,
    };
    let sh = match highlight(summary.as_str(), query) {
        Some(h) => h,
        None => return None,
    };
    let url = concat_str("/users/", user_id.as_str());
    Some(
        SearchResultItem {
            id: user_id,
            kind: SearchResultKind::User,
            title: author.name,
            title_highlighted: th,
            summary,
            summary_highlighted: sh,
            category_name: None,
            tags: Vec::new(),
            author_name: owned("用户"),
            score,
            url,
        },
    )
}

/// Whether a topic is selected by a search: it matches the lower-cased needle and the
/// category and tag filters.
pub open spec fn search_post_selected(
    t: HomeTopic,
    needle: Seq<char>,
    cat: Option<Seq<char>>,
    tag: Option<Seq<char>>,
) -> bool {
    &&& topic_matches(t, needle)
    &&& (cat matches Some(c) ==> t.category.name@ == c)
    &&& (tag matches Some(g) ==> has_tag(t, g))
}

/// The selection of topics as a predicate.
pub open spec fn post_pred(needle: Seq<char>, cat: Option<Seq<char>>, tag: Option<Seq<char>>) -> spec_fn(
    HomeTopic,
) -> bool {
    |t: HomeTopic| search_post_selected(t, needle, cat, tag)
}

/// The selection of tags as a predicate.
pub open spec fn tag_pred(needle: Seq<char>) -> spec_fn(HomeTag) -> bool {
    |g: HomeTag| name_matches(g.name@, needle)
}

/// The selection of scored authors as a predicate.
pub open spec fn author_pred(needle: Seq<char>) -> spec_fn((HomeActiveAuthor, i64)) -> bool {
    |p: (HomeActiveAuthor, i64)| name_matches(p.0.name@, needle)
}

/// The topics a search selects, in order.
pub open spec fn sel_posts(
    ts: Seq<HomeTopic>,
    needle: Seq<char>,
    cat: Option<Seq<char>>,
    tag: Option<Seq<char>>,
) -> Seq<HomeTopic> {
    ts.filter(post_pred(needle, cat, tag))
}

/// The hot tags a search selects: only a search without filters lists tags.
pub open spec fn sel_tags(
    hs: Seq<HomeTag>,
    needle: Seq<char>,
    cat: Option<Seq<char>>,
    tag: Option<Seq<char>>,
) -> Seq<HomeTag> {
    if cat is None && tag is None {
        hs.filter(tag_pred(needle))
    } else {
        seq![]
    }
}

/// Authors paired with their reply scores.
pub open spec fn scored(au: Seq<HomeActiveAuthor>, scores: Seq<i64>) -> Seq<(HomeActiveAuthor, i64)> {
    Seq::new(au.len(), |i: int| (au[i], scores[i]))
}

/// The authors a search selects: only a search without filters lists authors.
pub open spec fn sel_authors(
    au: Seq<HomeActiveAuthor>,
    scores: Seq<i64>,
    needle: Seq<char>,
    cat: Option<Seq<char>>,
    tag: Option<Seq<char>>,
) -> Seq<(HomeActiveAuthor, i64)> {
    if cat is None && tag is None {
        scored(au, scores).filter(author_pred(needle))
    } else {
        seq![]
    }
}

/// Result entries of the selected topics, tags and authors, in that order.
pub open spec fn items_ok(
    all: Seq<SearchResultItem>,
    ps: Seq<HomeTopic>,
    gs: Seq<HomeTag>,
    aus: Seq<(HomeActiveAuthor, i64)>,
    q: Seq<char>,
) -> bool {
    &&& all.len() == ps.len() + gs.len() + aus.len()
    &&& forall|i: int| 0 <= i < ps.len() ==> post_item_ok(#[trigger] all[i], ps[i], q)
    &&& forall|j: int|
        0 <= j < gs.len() ==> tag_item_ok(#[trigger] all[ps.len() + j], gs[j], q)
    &&& forall|k: int|
        0 <= k < aus.len() ==> author_item_ok(
            #[trigger] all[ps.len() + gs.len() + k],
            aus[k].0,
            aus[k].1,
            q,
        )
}

/// Whether every selected entry has defined highlights.
pub open spec fn items_defined(
    ps: Seq<HomeTopic>,
    gs: Seq<HomeTag>,
    aus: Seq<(HomeActiveAuthor, i64)>,
    q: Seq<char>,
) -> bool {
    &&& forall|t: HomeTopic| ps.contains(t) ==> post_item_defined(t, q)
    &&& forall|g: HomeTag| gs.contains(g) ==> tag_item_defined(g, q)
    &&& forall|p: (HomeActiveAuthor, i64)| aus.contains(p) ==> author_item_defined(p.0, q)
}

/// Entries ordered for a sort: the hot ordering puts higher scores first (stably).
pub open spec fn result_order(all: Seq<SearchResultItem>, sort: SearchSort) -> Seq<SearchResultItem> {
    if sort == SearchSort::Hot {
        sort_by(all, |a: SearchResultItem, b: SearchResultItem| a.score > b.score)
    } else {
        all
    }
}

/// The entries of one page.
pub open spec fn page_of<T>(s: Seq<T>, page: usize, page_size: usize) -> Seq<T> {
    let start = (page - 1) * page_size;
    if start >= s.len() {
        seq![]
    } else if start + page_size >= s.len() {
        s.subrange(start, s.len() as int)
    } else {
        s.subrange(start, start + page_size)
    }
}

/// The key of a result entry: its kind and identifier.
pub open spec fn result_key(item: SearchResultItem) -> (SearchResultKind, Seq<char>) {
    (item.kind, item.id@)
}

proof fn lemma_seed_topic_ids(ts: Seq<HomeTopic>)
    requires
        seed_topics(ts),
    ensures
        keys_distinct(ts, |t: HomeTopic| t.id@),
{
    reveal_strlit("leptos-release");
    reveal_strlit("fullstack-guide");
    reveal_strlit("rules");
    reveal_strlit("server-function-sqlx");
    reveal_strlit("flyio-deploy");
    reveal_strlit("markdown-highlight");
    reveal_strlit("wasm-size");
    reveal_strlit("resources-repeat");
    reveal_strlit("jsonb-config");
    reveal_strlit("signals-performance");
    reveal_strlit("axum-body");
    reveal_strlit("component-library");
    assert forall|i: int, j: int| 0 <= i < j < ts.len() implies ts[i].id@ != ts[j].id@ by {
        assert(i == 0 || i == 1 || i == 2 || i == 3 || i == 4 || i == 5 || i == 6 || i == 7 || i == 8 || i == 9 || i == 10 || i == 11);
        assert(j == 0 || j == 1 || j == 2 || j == 3 || j == 4 || j == 5 || j == 6 || j == 7 || j == 8 || j == 9 || j == 10 || j == 11);
        assert(ts[i].id@.len() != ts[j].id@.len() || ts[i].id@[0] != ts[j].id@[0]);
    }
}

proof fn lemma_seed_tag_names(hs: Seq<HomeTag>)
    requires
        seed_hot_tags_are(hs),
    ensures
        keys_distinct(hs, |g: HomeTag| g.name@),
{
    reveal_strlit("leptos");
    reveal_strlit("axum");
    reveal_strlit("sqlx");
    reveal_strlit("postgresql");
    reveal_strlit("rust");
    reveal_strlit("wasm");
    reveal_strlit("server-functions");
    reveal_strlit("markdown");
    assert forall|i: int, j: int| 0 <= i < j < hs.len() implies hs[i].name@ != hs[j].name@ by {
        assert(i == 0 || i == 1 || i == 2 || i == 3 || i == 4 || i == 5 || i == 6 || i == 7);
        assert(j == 0 || j == 1 || j == 2 || j == 3 || j == 4 || j == 5 || j == 6 || j == 7);
        assert(hs[i].name@.len() != hs[j].name@.len() || hs[i].name@[0] != hs[j].name@[0]);
    }
}

proof fn lemma_filter_all<T>(s: Seq<T>, pred: spec_fn(T) -> bool)
    requires
        forall|i: int| 0 <= i < s.len() ==> pred(#[trigger] s[i]),
    ensures
        s.filter(pred) == s,
    decreases s.len(),
{
    if s.len() > 0 {
        let d = s.drop_last();
        assert forall|i: int| 0 <= i < d.len() implies pred(#[trigger] d[i]) by {
            assert(d[i] == s[i]);
        }
        lemma_filter_all(d, pred);
        assert(d.push(s.last()) =~= s);
        crate::sorting::lemma_filter_push(d, pred, s.last());
        assert(pred(s[s.len() - 1]));
    }
}

proof fn lemma_ascii_name_id(name: Seq<char>)
    requires
        name.len() > 0,
        forall|i: int| 0 <= i < name.len() ==> is_ascii_alnum(#[trigger] name[i]),
    ensures
        user_search_id_spec(name).len() > 0,
        user_search_id_spec(name)[0] == crate::text::ascii_lower(name[0]),
{
    lemma_filter_all(name, |c: char| is_ascii_alnum(c));
    reveal(lowercase);
    assert(crate::text::is_ascii_text(name)) by {
        assert forall|i: int| 0 <= i < name.len() implies (#[trigger] name[i] as u32) < 128 by {
            assert(is_ascii_alnum(name[i]));
        }
    }
}

proof fn lemma_non_ascii_name_id(name: Seq<char>)
    requires
        forall|i: int| 0 <= i < name.len() ==> !is_ascii_alnum(#[trigger] name[i]),
    ensures
        user_search_id_spec(name)[0] == 'u',
{
    let f = name.filter(|c: char| is_ascii_alnum(c));
    assert(name.all(|x: char| !is_ascii_alnum(x)));
    name.lemma_all_neg_filter_empty(|c: char| is_ascii_alnum(c));
    reveal(lowercase);
    assert(f =~= Seq::<char>::empty());
    assert(crate::text::is_ascii_text(f));
    assert(lowercase(f).len() == 0);
    reveal_strlit("u-");
}

proof fn lemma_seed_author_ids(au: Seq<HomeActiveAuthor>, scores: Seq<i64>)
    requires
        seed_active_authors_are(au),
    ensures
        keys_distinct(scored(au, scores), |p: (HomeActiveAuthor, i64)| user_search_id_spec(p.0.name@)),
{
    reveal_strlit("张晨");
    reveal_strlit("DreamMao");
    reveal_strlit("Skyline");
    reveal_strlit("wangxy");
    reveal_strlit("coderLin");
    lemma_non_ascii_name_id(au[0].name@);
    lemma_ascii_name_id(au[1].name@);
    lemma_ascii_name_id(au[2].name@);
    lemma_ascii_name_id(au[3].name@);
    lemma_ascii_name_id(au[4].name@);
    let sc = scored(au, scores);
    assert forall|i: int, j: int| 0 <= i < j < sc.len() implies user_search_id_spec(sc[i].0.name@)
        != user_search_id_spec(sc[j].0.name@) by {
        assert(i == 0 || i == 1 || i == 2 || i == 3 || i == 4);
        assert(j == 0 || j == 1 || j == 2 || j == 3 || j == 4);
        assert(sc[i].0 == au[i] && sc[j].0 == au[j]);
    }
}

/// The kinds and identifiers of result entries: the topics', the tags' and the authors'.
pub open spec fn item_keys_are(
    all: Seq<SearchResultItem>,
    ps: Seq<HomeTopic>,
    gs: Seq<HomeTag>,
    aus: Seq<(HomeActiveAuthor, i64)>,
) -> bool {
    &&& all.len() == ps.len() + gs.len() + aus.len()
    &&& forall|i: int| 0 <= i < ps.len() ==> (#[trigger] all[i]).kind == SearchResultKind::Post
        && all[i].id@ == ps[i].id@
    &&& forall|k: int| 0 <= k < gs.len() ==> (#[trigger] all[ps.len() + k]).kind
        == SearchResultKind::Tag && all[ps.len() + k].id@ == gs[k].name@
    &&& forall|k: int| 0 <= k < aus.len() ==> (#[trigger] all[ps.len() + gs.len() + k]).kind
        == SearchResultKind::User && all[ps.len() + gs.len() + k].id@ == user_search_id_spec(
        aus[k].0.name@,
    )
}

#[verifier::spinoff_prover]
proof fn lemma_item_keys(
    all: Seq<SearchResultItem>,
    ps: Seq<HomeTopic>,
    gs: Seq<HomeTag>,
    aus: Seq<(HomeActiveAuthor, i64)>,
    q: Seq<char>,
)
    requires
        items_ok(all, ps, gs, aus, q),
    ensures
        item_keys_are(all, ps, gs, aus),
{
    assert forall|i: int| 0 <= i < ps.len() implies (#[trigger] all[i]).kind
        == SearchResultKind::Post && all[i].id@ == ps[i].id@ by {
        assert(post_item_ok(all[i], ps[i], q));
    }
    assert forall|k: int| 0 <= k < gs.len() implies (#[trigger] all[ps.len() + k]).kind
        == SearchResultKind::Tag && all[ps.len() + k].id@ == gs[k].name@ by {
        assert(tag_item_ok(all[ps.len() + k], gs[k], q));
    }
    assert forall|k: int| 0 <= k < aus.len() implies (#[trigger] all[ps.len() + gs.len()
        + k]).kind == SearchResultKind::User && all[ps.len() + gs.len() + k].id@
        == user_search_id_spec(aus[k].0.name@) by {
        assert(author_item_ok(all[ps.len() + gs.len() + k], aus[k].0, aus[k].1, q));
    }
}

#[verifier::spinoff_prover]
proof fn lemma_items_keys_distinct(
    all: Seq<SearchResultItem>,
    ps: Seq<HomeTopic>,
    gs: Seq<HomeTag>,
    aus: Seq<(HomeActiveAuthor, i64)>,
)
    requires
        item_keys_are(all, ps, gs, aus),
        keys_distinct(ps, |t: HomeTopic| t.id@),
        keys_distinct(gs, |g: HomeTag| g.name@),
        keys_distinct(aus, |x: (HomeActiveAuthor, i64)| user_search_id_spec(x.0.name@)),
    ensures
        keys_distinct(all, |e: SearchResultItem| result_key(e)),
{
    let np = ps.len() as int;
    let ng = gs.len() as int;
    assert forall|i: int, j: int| 0 <= i < j < all.len() implies result_key(all[i]) != result_key(
        all[j],
    ) by {
        if j < np {
            assert(all[i].id@ == ps[i].id@);
            assert(all[j].id@ == ps[j].id@);
        } else if j < np + ng {
            let jj = j - np;
            assert(all[ps.len() + jj].kind == SearchResultKind::Tag);
            if i >= np {
                let ii = i - np;
                assert(all[ps.len() + ii].id@ == gs[ii].name@);
                assert(all[ps.len() + jj].id@ == gs[jj].name@);
            } else {
                assert(all[i].kind == SearchResultKind::Post);
            }
        } else {
            let jj = j - np - ng;
            assert(all[ps.len() + gs.len() + jj].kind == SearchResultKind::User);
            if i >= np + ng {
                let ii = i - np - ng;
                assert(all[ps.len() + gs.len() + ii].id@ == user_search_id_spec(aus[ii].0.name@));
                assert(all[ps.len() + gs.len() + jj].id@ == user_search_id_spec(aus[jj].0.name@));
            } else if i >= np {
                let ii = i - np;
                assert(all[ps.len() + ii].kind == SearchResultKind::Tag);
            } else {
                assert(all[i].kind == SearchResultKind::Post);
            }
        }
    }
}

/// No two entries of a search's results share a kind and identifier, in the order in which
/// the pages list them as well: with the pages law, every result is on exactly one page.
pub proof fn law_search_results_distinct(
    p: SearchResultPage,
    ts: Seq<HomeTopic>,
    hs: Seq<HomeTag>,
    au: Seq<HomeActiveAuthor>,
    scores: Seq<i64>,
    all: Seq<SearchResultItem>,
)
    requires
        seed_topics(ts),
        seed_hot_tags_are(hs),
        seed_active_authors_are(au),
        search_page_ok(p, ts, hs, au, scores, all),
    ensures
        keys_distinct(all, |e: SearchResultItem| result_key(e)),
        keys_distinct(result_order(all, p.query.sort), |e: SearchResultItem| result_key(e)),
{
    let q = p.query.q@;
    let needle = lowercase(q);
    let cat = opt_view(p.query.category);
    let tag = opt_view(p.query.tag);
    let ps = sel_posts(ts, needle, cat, tag);
    let gs = sel_tags(hs, needle, cat, tag);
    let aus = sel_authors(au, scores, needle, cat, tag);
    lemma_seed_topic_ids(ts);
    lemma_filter_keys(ts, post_pred(needle, cat, tag), |t: HomeTopic| t.id@);
    lemma_seed_tag_names(hs);
    lemma_filter_keys(hs, tag_pred(needle), |g: HomeTag| g.name@);
    lemma_seed_author_ids(au, scores);
    let akey = |x: (HomeActiveAuthor, i64)| user_search_id_spec(x.0.name@);
    lemma_filter_keys(scored(au, scores), author_pred(needle), akey);
    assert(keys_distinct(gs, |g: HomeTag| g.name@));
    assert(keys_distinct(aus, akey));
    lemma_item_keys(all, ps, gs, aus, q);
    lemma_items_keys_distinct(all, ps, gs, aus);
    let key = |e: SearchResultItem| result_key(e);
    if p.query.sort == SearchSort::Hot {
        lemma_sort_by_keys(all, |a: SearchResultItem, b: SearchResultItem| a.score > b.score, key);
    }
}

proof fn lemma_page_items_in_all(p: SearchResultPage, all: Seq<SearchResultItem>)
    requires
        p.items@ == page_of(result_order(all, p.query.sort), p.query.page, p.query.page_size),
        p.query.page >= 1,
    ensures
        forall|i: int| 0 <= i < p.items@.len() ==> all.contains(#[trigger] p.items@[i]),
{
    broadcast use vstd::seq_lib::group_to_multiset_ensures;
    let ro = result_order(all, p.query.sort);
    if p.query.sort == SearchSort::Hot {
        law_sort_by_sorted_permutation(all, |a: SearchResultItem, b: SearchResultItem| a.score > b.score);
    }
    assert forall|i: int| 0 <= i < p.items@.len() implies all.contains(#[trigger] p.items@[i]) by {
        let start = (p.query.page - 1) * p.query.page_size;
        assert(start >= 0) by (nonlinear_arith)
            requires
                p.query.page >= 1,
                start == (p.query.page - 1) * p.query.page_size,
        ;
        assert(p.items@[i] == ro[start + i]);
        assert(ro.contains(ro[start + i]));
        assert(ro.to_multiset().count(p.items@[i]) > 0);
    }
}

/// A topic a search selects passes its category and tag filters.
proof fn lemma_selected_passes_filters(
    t: HomeTopic,
    needle: Seq<char>,
    cat: Option<Seq<char>>,
    tag: Option<Seq<char>>,
)
    requires
        search_post_selected(t, needle, cat, tag),
    ensures
        tag matches Some(g) ==> has_tag(t, g),
        cat matches Some(c) ==> t.category.name@ == c,
{
}

/// With a filter, every result is the entry of a selected demo topic.
#[verifier::spinoff_prover]
proof fn lemma_filtered_results_are_posts(
    p: SearchResultPage,
    ts: Seq<HomeTopic>,
    hs: Seq<HomeTag>,
    au: Seq<HomeActiveAuthor>,
    scores: Seq<i64>,
    all: Seq<SearchResultItem>,
)
    requires
        search_page_ok(p, ts, hs, au, scores, all),
        p.query.category is Some || p.query.tag is Some,
    ensures
        forall|i: int|
            0 <= i < all.len() ==> {
                let t = sel_posts(
                    ts,
                    lowercase(p.query.q@),
                    opt_view(p.query.category),
                    opt_view(p.query.tag),
                )[i];
                &&& (#[trigger] all[i]).kind == SearchResultKind::Post
                &&& all[i].id@ == t.id@
                &&& strings_view(all[i].tags@) == tag_names(t)
                &&& opt_view(all[i].category_name) == Some(t.category.name@)
                &&& ts.contains(t)
                &&& (opt_view(p.query.tag) matches Some(g) ==> has_tag(t, g))
                &&& (opt_view(p.query.category) matches Some(c) ==> t.category.name@ == c)
                &&& search_post_selected(
                    t,
                    lowercase(p.query.q@),
                    opt_view(p.query.category),
                    opt_view(p.query.tag),
                )
            },
{
    let q = p.query.q@;
    let needle = lowercase(q);
    let cat = opt_view(p.query.category);
    let tag = opt_view(p.query.tag);
    let pred = post_pred(needle, cat, tag);
    let ps = sel_posts(ts, needle, cat, tag);
    assert(sel_tags(hs, needle, cat, tag).len() == 0);
    assert(sel_authors(au, scores, needle, cat, tag).len() == 0);
    assert forall|i: int| 0 <= i < all.len() implies post_item_ok(all[i], ps[i], q) && ts.contains(ps[i])
        && search_post_selected(ps[i], needle, cat, tag) by {
        ts.lemma_filter_pred(pred, i);
        assert(ps.contains(ps[i]));
        ts.lemma_filter_contains_rev(pred, ps[i]);
        lemma_selected_passes_filters(ps[i], needle, cat, tag);
    }
}

/// The filters of a search hold of its results: with a tag filter every result, and so
/// every entry of its page, is a post that carries the tag, and a demo post without the
/// tag is never among them; with a category filter every result is a post of that
/// category. Only a search without filters lists tags and authors.
#[verifier::spinoff_prover]
pub proof fn law_search_filters_hold(
    p: SearchResultPage,
    ts: Seq<HomeTopic>,
    hs: Seq<HomeTag>,
    au: Seq<HomeActiveAuthor>,
    scores: Seq<i64>,
    all: Seq<SearchResultItem>,
)
    requires
        seed_topics(ts),
        seed_hot_tags_are(hs),
        seed_active_authors_are(au),
        search_page_ok(p, ts, hs, au, scores, all),
        p.query.page >= 1,
    ensures
        opt_view(p.query.tag) matches Some(g) ==> forall|i: int|
            0 <= i < all.len() ==> (#[trigger] all[i]).kind == SearchResultKind::Post
                && strings_view(all[i].tags@).contains(g),
        opt_view(p.query.tag) matches Some(g) ==> forall|i: int|
            0 <= i < p.items@.len() ==> (#[trigger] p.items@[i]).kind == SearchResultKind::Post
                && strings_view(p.items@[i].tags@).contains(g),
        opt_view(p.query.tag) matches Some(g) ==> forall|k: int, i: int|
            0 <= k < ts.len() && 0 <= i < all.len() && (forall|m: int|
                0 <= m < ts[k].tags@.len() ==> #[trigger] ts[k].tags@[m].name@ != g) ==> !(
            (#[trigger] all[i]).kind == SearchResultKind::Post && all[i].id@ == (#[trigger] ts[k]).id@),
        opt_view(p.query.category) matches Some(c) ==> forall|i: int|
            0 <= i < all.len() ==> (#[trigger] all[i]).kind == SearchResultKind::Post
                && opt_view(all[i].category_name) == Some(c),
{
    let needle = lowercase(p.query.q@);
    let cat = opt_view(p.query.category);
    let tag = opt_view(p.query.tag);
    let ps = sel_posts(ts, needle, cat, tag);
    if cat is Some || tag is Some {
        lemma_filtered_results_are_posts(p, ts, hs, au, scores, all);
        if let Some(g) = tag {
            assert forall|i: int| 0 <= i < all.len() implies (#[trigger] all[i]).kind
                == SearchResultKind::Post && strings_view(all[i].tags@).contains(g) by {
                assert(has_tag(ps[i], g));
                let k = choose|k: int| 0 <= k < ps[i].tags@.len() && #[trigger] ps[i].tags@[k].name@ == g;
                assert(tag_names(ps[i])[k] == g);
            }
            lemma_page_items_in_all(p, all);
            assert forall|i: int| 0 <= i < p.items@.len() implies (#[trigger] p.items@[i]).kind
                == SearchResultKind::Post && strings_view(p.items@[i].tags@).contains(g) by {
                assert(all.contains(p.items@[i]));
                let j = choose|j: int| 0 <= j < all.len() && all[j] == p.items@[i];
                assert(all[j].kind == SearchResultKind::Post && strings_view(all[j].tags@).contains(g));
            }
            lemma_seed_topic_ids(ts);
            assert forall|k: int, i: int|
                0 <= k < ts.len() && 0 <= i < all.len() && (forall|m: int|
                    0 <= m < ts[k].tags@.len() ==> #[trigger] ts[k].tags@[m].name@ != g) implies !(
                (#[trigger] all[i]).kind == SearchResultKind::Post && all[i].id@ == (
                #[trigger] ts[k]).id@) by {
                if all[i].kind == SearchResultKind::Post && all[i].id@ == ts[k].id@ {
                    assert(ts.contains(ps[i]) && has_tag(ps[i], g));
                    let n = choose|n: int| 0 <= n < ts.len() && ts[n] == ps[i];
                    if n != k {
                        if n < k {
                            assert(ts[n].id@ != ts[k].id@);
                        } else {
                            assert(ts[k].id@ != ts[n].id@);
                        }
                    }
                    let m = choose|m: int| 0 <= m < ps[i].tags@.len() && #[trigger] ps[i].tags@[m].name@ == g;
                    assert(ts[k].tags@[m].name@ == g);
                }
            }
        }
        if let Some(c) = cat {
            assert forall|i: int| 0 <= i < all.len() implies (#[trigger] all[i]).kind
                == SearchResultKind::Post && opt_view(all[i].category_name) == Some(c) by {
                assert(search_post_selected(ps[i], needle, cat, tag));
            }
        }
    }
}

/// A search's page lists its results from position `(page - 1) * page_size` on, at most
/// a page of them: by falling score for the hot ordering, and in the order the results are
/// gathered (posts, then tags, then authors) otherwise; its total counts every result.
pub proof fn law_search_page_window(
    p: SearchResultPage,
    ts: Seq<HomeTopic>,
    hs: Seq<HomeTag>,
    au: Seq<HomeActiveAuthor>,
    scores: Seq<i64>,
    all: Seq<SearchResultItem>,
)
    requires
        search_page_ok(p, ts, hs, au, scores, all),
        p.query.page >= 1,
    ensures
        p.total == all.len(),
        p.items@.len() == (if (p.query.page - 1) * p.query.page_size >= all.len() {
            0
        } else if (p.query.page - 1) * p.query.page_size + p.query.page_size >= all.len() {
            all.len() - (p.query.page - 1) * p.query.page_size
        } else {
            p.query.page_size as int
        }),
        p.query.sort == SearchSort::Hot ==> forall|i: int, j: int|
            0 <= i < j < p.items@.len() ==> p.items@[i].score >= p.items@[j].score,
        p.query.sort != SearchSort::Hot ==> forall|i: int|
            0 <= i < p.items@.len() ==> #[trigger] p.items@[i] == all[(p.query.page - 1)
                * p.query.page_size + i],
{
    let prec = |a: SearchResultItem, b: SearchResultItem| a.score > b.score;
    let start = (p.query.page - 1) * p.query.page_size;
    assert(start >= 0) by (nonlinear_arith)
        requires
            p.query.page >= 1,
            start == (p.query.page - 1) * p.query.page_size,
    ;
    if p.query.sort == SearchSort::Hot {
        law_sort_by_sorted_permutation(all, prec);
        lemma_sort_by_len(all, prec);
        let ro = sort_by(all, prec);
        assert forall|i: int, j: int| 0 <= i < j < p.items@.len() implies p.items@[i].score
            >= p.items@[j].score by {
            assert(p.items@[i] == ro[start + i]);
            assert(p.items@[j] == ro[start + j]);
            assert(!prec(ro[start + j], ro[start + i]));
        }
    }
}

/// The number of pages of `size` entries that `n` entries fill: `ceil(n / size)`.
pub open spec fn page_count(n: nat, size: usize) -> nat {
    ((n + size - 1) / (size as int)) as nat
}

/// Pages `1..=n` of a list, joined in order.
pub open spec fn pages_joined<T>(s: Seq<T>, size: usize, n: nat) -> Seq<T>
    decreases n,
{
    if n == 0 {
        seq![]
    } else {
        pages_joined(s, size, (n - 1) as nat) + page_of(s, n as usize, size)
    }
}

proof fn lemma_pages_prefix<T>(s: Seq<T>, size: usize, n: nat)
    requires
        size >= 1,
        n <= page_count(s.len(), size),
        s.len() <= usize::MAX,
    ensures
        n * size <= s.len() ==> pages_joined(s, size, n) == s.subrange(0, n * size),
        n * size > s.len() ==> pages_joined(s, size, n) == s,
    decreases n,
{
    let len = s.len() as int;
    let k = page_count(s.len(), size);
    let sz = size as int;
    if n > 0 {
        assert((k - 1) * sz < len) by (nonlinear_arith)
            requires
                k == (len + sz - 1) / sz,
                sz >= 1,
                len >= 0,
                k >= 1,
        ;
        lemma_pages_prefix(s, size, (n - 1) as nat);
        let m = (n - 1) as nat;
        assert(m * sz <= (k - 1) * sz) by (nonlinear_arith)
            requires
                m <= k - 1,
                sz >= 1,
        ;
        assert(n * sz == m * sz + sz) by (nonlinear_arith)
            requires
                n == m + 1,
        ;
        assert(n <= usize::MAX) by (nonlinear_arith)
            requires
                n <= k,
                k == (len + sz - 1) / sz,
                sz >= 1,
                len <= usize::MAX,
        ;
        assert((n as usize) - 1 == m);
        let start = m * sz;
        assert(start < len);
        if n * sz <= len {
            assert(pages_joined(s, size, n) =~= s.subrange(0, n * sz));
        } else {
            assert(pages_joined(s, size, n) =~= s);
        }
    } else {
        assert(n * sz == 0) by (nonlinear_arith)
            requires
                n == 0,
        ;
        assert(pages_joined(s, size, n) =~= s.subrange(0, 0));
    }
}

/// Pages `1..=ceil(n / size)` of a list of `n` entries, joined in order, give the list:
/// each entry is on exactly one page, in its place.
pub proof fn law_pages_cover_list<T>(s: Seq<T>, size: usize)
    requires
        size >= 1,
        s.len() <= usize::MAX,
    ensures
        pages_joined(s, size, page_count(s.len(), size)) == s,
{
    let len = s.len() as int;
    let k = page_count(s.len(), size);
    let sz = size as int;
    assert(k * sz >= len) by (nonlinear_arith)
        requires
            k == (len + sz - 1) / sz,
            sz >= 1,
            len >= 0,
    ;
    lemma_pages_prefix(s, size, k);
    if k * sz <= len {
        assert(s.subrange(0, k * sz) =~= s);
    }
}

/// The pages `1..=ceil(total / size)` of one search, joined, hold every result of the
/// search exactly once: they are the ordered result list, which rearranges the results.
pub proof fn law_search_pages_hold_every_result(all: Seq<SearchResultItem>, sort: SearchSort, size: usize)
    requires
        size >= 1,
        all.len() <= usize::MAX,
    ensures
        pages_joined(result_order(all, sort), size, page_count(all.len(), size))
            == result_order(all, sort),
        result_order(all, sort).to_multiset() == all.to_multiset(),
        result_order(all, sort).len() == all.len(),
{
    let prec = |a: SearchResultItem, b: SearchResultItem| a.score > b.score;
    if sort == SearchSort::Hot {
        law_sort_by_sorted_permutation(all, prec);
        lemma_sort_by_len(all, prec);
    }
    law_pages_cover_list(result_order(all, sort), size);
}

fn search_selected_exec(t: &HomeTopic, needle: &str, cat: &Option<String>, tag: &Option<String>) -> (b:
    bool)
    ensures
        b == search_post_selected(*t, needle@, opt_view(*cat), opt_view(*tag)),
{
    if !matches_query(t, needle) {
        return false;
    }
    match cat {
        Some(c) => {
            if !str_eq(t.category.name.as_str(), c.as_str()) {
                return false;
            }
        },
        None => {},
    }
    match tag {
        Some(g) => topic_has_tag(t, g.as_str()),
        None => true,
    }
}

#[verifier::spinoff_prover]
fn collect_posts(
    topics: Vec<HomeTopic>,
    q: &str,
    needle: &str,
    cat: &Option<String>,
    tag: &Option<String>,
) -> (r: Option<Vec<SearchResultItem>>)
    ensures
        ({
            let ps = sel_posts(topics@, needle@, opt_view(*cat), opt_view(*tag));
            &&& r matches Some(v) ==> v@.len() == ps.len() && forall|i: int|
                0 <= i < ps.len() ==> post_item_ok(#[trigger] v@[i], ps[i], q@)
            &&& r is None ==> exists|t: HomeTopic| ps.contains(t) && !post_item_defined(t, q@)
        }),
{
    let ghost orig = topics@;
    let ghost pred = post_pred(needle@, opt_view(*cat), opt_view(*tag));
    let n: usize = topics.len();
    let mut rest = topics;
    let mut out: Vec<SearchResultItem> = Vec::new();
    let mut i: usize = 0;
    while i < n
        invariant
            n == orig.len(),
            orig == topics@,
            i <= n,
            rest@ == orig.subrange(i as int, n as int),
            pred == post_pred(needle@, opt_view(*cat), opt_view(*tag)),
            out@.len() == orig.take(i as int).filter(pred).len(),
            forall|j: int|
                0 <= j < out@.len() ==> post_item_ok(
                    #[trigger] out@[j],
                    orig.take(i as int).filter(pred)[j],
                    q@,
                ),
        decreases n - i,
    {
        let x = rest.remove(0);
        proof {
            lemma_filter_take_next(orig, pred, i as int);
        }
        if search_selected_exec(&x, needle, cat, tag) {
            let ghost gx = x;
            match to_result_item(x, q) {
                Some(item) => {
                    out.push(item);
                },
                None => {
                    assert(orig.filter(pred).contains(gx) && !post_item_defined(gx, q@));
                    assert(sel_posts(orig, needle@, opt_view(*cat), opt_view(*tag)).contains(gx));
                    return None;
                },
            }
        }
        i = i + 1;
    }
    assert(orig.take(n as int) =~= orig);
    Some(out)
}

fn collect_tags(hs: Vec<HomeTag>, q: &str, needle: &str) -> (r: Option<Vec<SearchResultItem>>)
    ensures
        ({
            let gs = hs@.filter(tag_pred(needle@));
            &&& r matches Some(v) ==> v@.len() == gs.len() && forall|j: int|
                0 <= j < gs.len() ==> tag_item_ok(#[trigger] v@[j], gs[j], q@)
            &&& r is None ==> exists|g: HomeTag| gs.contains(g) && !tag_item_defined(g, q@)
        }),
{
    let ghost orig = hs@;
    let ghost pred = tag_pred(needle@);
    let n: usize = hs.len();
    let mut rest = hs;
    let mut out: Vec<SearchResultItem> = Vec::new();
    let mut i: usize = 0;
    while i < n
        invariant
            n == orig.len(),
            orig == hs@,
            i <= n,
            rest@ == orig.subrange(i as int, n as int),
            pred == tag_pred(needle@),
            out@.len() == orig.take(i as int).filter(pred).len(),
            forall|j: int|
                0 <= j < out@.len() ==> tag_item_ok(
                    #[trigger] out@[j],
                    orig.take(i as int).filter(pred)[j],
                    q@,
                ),
        decreases n - i,
    {
        let x = rest.remove(0);
        proof {
            lemma_filter_take_next(orig, pred, i as int);
        }
        if matches_tag_query(&x, needle) {
            let ghost gx = x;
            match tag_to_result_item(x, q) {
                Some(item) => {
                    out.push(item);
                },
                None => {
                    assert(orig.filter(pred).contains(gx) && !tag_item_defined(gx, q@));
                    assert(orig.filter(tag_pred(needle@)).contains(gx));
                    return None;
                },
            }
        }
        i = i + 1;
    }
    assert(orig.take(n as int) =~= orig);
    Some(out)
}

fn collect_authors(au: Vec<HomeActiveAuthor>, scores: &Vec<i64>, q: &str, needle: &str) -> (r:
    Option<Vec<SearchResultItem>>)
    requires
        scores@.len() == au@.len(),
    ensures
        ({
            let aus = scored(au@, scores@).filter(author_pred(needle@));
            &&& r matches Some(v) ==> v@.len() == aus.len() && forall|k: int|
                0 <= k < aus.len() ==> author_item_ok(#[trigger] v@[k], aus[k].0, aus[k].1, q@)
            &&& r is None ==> exists|p: (HomeActiveAuthor, i64)|
                aus.contains(p) && !author_item_defined(p.0, q@)
        }),
{
    let ghost orig = scored(au@, scores@);
    let ghost pred = author_pred(needle@);
    let ghost au0 = au@;
    let n: usize = au.len();
    let mut rest = au;
    let mut out: Vec<SearchResultItem> = Vec::new();
    let mut i: usize = 0;
    while i < n
        invariant
            n == au0.len(),
            au0 == au@,
            n == scores@.len(),
            orig == scored(au0, scores@),
            i <= n,
            rest@ == au0.subrange(i as int, n as int),
            pred == author_pred(needle@),
            out@.len() == orig.take(i as int).filter(pred).len(),
            forall|k: int|
                0 <= k < out@.len() ==> author_item_ok(
                    #[trigger] out@[k],
                    orig.take(i as int).filter(pred)[k].0,
                    orig.take(i as int).filter(pred)[k].1,
                    q@,
                ),
        decreases n - i,
    {
        let x = rest.remove(0);
        let s: i64 = scores[i];
        proof {
            lemma_filter_take_next(orig, pred, i as int);
        }
        if matches_author_query(&x, needle) {
            let ghost gx = x;
            match author_to_result_item(x, q, s) {
                Some(item) => {
                    out.push(item);
                },
                None => {
                    assert(orig.filter(pred).contains((gx, s)) && !author_item_defined(gx, q@));
                    assert(scored(au0, scores@).filter(author_pred(needle@)).contains((gx, s)));
                    return None;
                },
            }
        }
        i = i + 1;
    }
    assert(orig.take(n as int) =~= orig);
    Some(out)
}

/// A search result page built from the demo topics `ts`, hot tags `hs` and active
/// authors `au` (with reply scores `scores`), whose entries before ordering and paging
/// are `all`.
pub open spec fn search_page_ok(
    p: SearchResultPage,
    ts: Seq<HomeTopic>,
    hs: Seq<HomeTag>,
    au: Seq<HomeActiveAuthor>,
    scores: Seq<i64>,
    all: Seq<SearchResultItem>,
) -> bool {
    let q = p.query.q@;
    let needle = lowercase(q);
    let cat = opt_view(p.query.category);
    let tag = opt_view(p.query.tag);
    &&& items_ok(
        all,
        sel_posts(ts, needle, cat, tag),
        sel_tags(hs, needle, cat, tag),
        sel_authors(au, scores, needle, cat, tag),
        q,
    )
    &&& p.total == all.len()
    &&& p.items@ == page_of(result_order(all, p.query.sort), p.query.page, p.query.page_size)
}

/// The suggested queries shown with every result page.
pub open spec fn suggestions_ok(s: Seq<String>) -> bool {
    &&& s.len() == 3
    &&& s[0]@ == "leptos server functions"@
    &&& s[1]@ == "sqlx transaction"@
    &&& s[2]@ == "axum middleware"@
}

#[verifier::spinoff_prover]
#[verifier::rlimit(40)]
fn collect_all(
    ts: Vec<HomeTopic>,
    hs: Vec<HomeTag>,
    au: Vec<HomeActiveAuthor>,
    scores: &Vec<i64>,
    q: &str,
    needle: &str,
    cat: &Option<String>,
    tag: &Option<String>,
) -> (r: Option<Vec<SearchResultItem>>)
    requires
        scores@.len() == au@.len(),
    ensures
        ({
            let ps = sel_posts(ts@, needle@, opt_view(*cat), opt_view(*tag));
            let gs = sel_tags(hs@, needle@, opt_view(*cat), opt_view(*tag));
            let aus = sel_authors(au@, scores@, needle@, opt_view(*cat), opt_view(*tag));
            &&& r matches Some(v) ==> items_ok(v@, ps, gs, aus, q@)
            &&& r is None ==> !items_defined(ps, gs, aus, q@)
        }),
{
    let ghost ps = sel_posts(ts@, needle@, opt_view(*cat), opt_view(*tag));
    let ghost gs = sel_tags(hs@, needle@, opt_view(*cat), opt_view(*tag));
    let ghost aus = sel_authors(au@, scores@, needle@, opt_view(*cat), opt_view(*tag));
    let mut all = match collect_posts(ts, q, needle, cat, tag) {
        Some(v) => v,
        None => {
            return None;
        },
    };
    if cat.is_none() && tag.is_none() {
        let mut tags = match collect_tags(hs, q, needle) {
            Some(v) => v,
            None => {
                return None;
            },
        };
        let mut authors = match collect_authors(au, scores, q, needle) {
            Some(v) => v,
            None => {
                return None;
            },
        };
        let ghost pv = all@;
        let ghost tv = tags@;
        let ghost av = authors@;
        all.append(&mut tags);
        all.append(&mut authors);
        proof {
            assert forall|j: int| 0 <= j < gs.len() implies tag_item_ok(
                #[trigger] all@[ps.len() + j],
                gs[j],
                q@,
            ) by {
                assert(all@[ps.len() + j] == tv[j]);
            }
            assert forall|k: int| 0 <= k < aus.len() implies author_item_ok(
                #[trigger] all@[ps.len() + gs.len() + k],
                aus[k].0,
                aus[k].1,
                q@,
            ) by {
                assert(all@[ps.len() + gs.len() + k] == av[k]);
            }
            assert forall|i: int| 0 <= i < ps.len() implies post_item_ok(#[trigger] all@[i], ps[i], q@) by {
                assert(all@[i] == pv[i]);
            }
        }
    }
    Some(all)
}

fn order_and_page(all: Vec<SearchResultItem>, sort: SearchSort, page: usize, page_size: usize) -> (r: (
    Vec<SearchResultItem>,
    usize,
))
    requires
        page >= 1,
        (page - 1) * page_size <= usize::MAX,
    ensures
        r.0@ == page_of(result_order(all@, sort), page, page_size),
        r.1 == all@.len(),
{
    let sorted = if sort == SearchSort::Hot {
        let f = |a: &SearchResultItem, b: &SearchResultItem| -> (r: bool)
            ensures
                r == (a.score > b.score),
            { a.score > b.score };
        sort_vec_by(all, &f, Ghost(|a: SearchResultItem, b: SearchResultItem| a.score > b.score))
    } else {
        all
    };
    proof {
        if sort == SearchSort::Hot {
            lemma_sort_by_len(all@, |a: SearchResultItem, b: SearchResultItem| a.score > b.score);
        }
    }
    let total: usize = sorted.len();
    let start: usize = (page - 1) * page_size;
    let mut items: Vec<SearchResultItem> = Vec::new();
    let mut rest = sorted;
    if start < total {
        items = rest.split_off(start);
        items.truncate(page_size);
    }
    assert(items@ =~= page_of(result_order(all@, sort), page, page_size));
    (items, total)
}

/// Searches the demo workbench. `author_scores[i]` is the reply count of the `i`-th
/// demo active author. `None` where a highlight is undefined (see `highlight_spec`).
pub fn search_dense_workbench(query: SearchQuery, author_scores: &Vec<i64>) -> (r: Option<
    SearchResultPage,
>)
    requires
        author_scores@.len() == 5,
        (norm_page(query.page) - 1) * norm_page_size(query.page_size, 10, 50) <= usize::MAX,
    ensures
        r matches Some(p) ==> {
            &&& p.query.q@ == trim(query.q@)
            &&& p.query.sort == query.sort
            &&& p.query.page == norm_page(query.page)
            &&& p.query.page_size == norm_page_size(query.page_size, 10, 50)
            &&& opt_view(p.query.category) == filter_norm(opt_view(query.category))
            &&& opt_view(p.query.tag) == lower_opt(filter_norm(opt_view(query.tag)))
            &&& suggestions_ok(p.suggestions@)
            &&& exists|
                ts: Seq<HomeTopic>,
                hs: Seq<HomeTag>,
                au: Seq<HomeActiveAuthor>,
                all: Seq<SearchResultItem>,
            |
                #![trigger search_page_ok(p, ts, hs, au, author_scores@, all)]
                seed_topics(ts) && seed_hot_tags_are(hs) && seed_active_authors_are(au)
                    && search_page_ok(p, ts, hs, au, author_scores@, all)
        },
        r is None ==> {
            let q = trim(query.q@);
            let needle = lowercase(q);
            let cat = filter_norm(opt_view(query.category));
            let tag = lower_opt(filter_norm(opt_view(query.tag)));
            exists|ts: Seq<HomeTopic>, hs: Seq<HomeTag>, au: Seq<HomeActiveAuthor>|
                #![trigger items_defined(
                    sel_posts(ts, needle, cat, tag),
                    sel_tags(hs, needle, cat, tag),
                    sel_authors(au, author_scores@, needle, cat, tag),
                    q,
                )]
                seed_topics(ts) && seed_hot_tags_are(hs) && seed_active_authors_are(au)
                    && !items_defined(
                    sel_posts(ts, needle, cat, tag),
                    sel_tags(hs, needle, cat, tag),
                    sel_authors(au, author_scores@, needle, cat, tag),
                    q,
                )
        },
{
    let query = query.normalized();
    let needle = to_lowercase(query.q.as_str());
    let topics = dense_workbench_topics();
    let home = dense_workbench_home(HomeQuery::default(), true);
    let ghost ts = topics@;
    let ghost hs = home.hot_tags@;
    let ghost au = home.active_authors@;
    let all = match collect_all(
        topics,
        home.hot_tags,
        home.active_authors,
        author_scores,
        query.q.as_str(),
        needle.as_str(),
        &query.category,
        &query.tag,
    ) {
        Some(v) => v,
        None => {
            return None;
        },
    };
    let ghost unsorted = all@;
    let (items, total) = order_and_page(all, query.sort, query.page, query.page_size);
    let mut suggestions: Vec<String> = Vec::new();
    suggestions.push(owned("leptos server functions"));
    suggestions.push(owned("sqlx transaction"));
    suggestions.push(owned("axum middleware"));
    let page = SearchResultPage { query, total, items, suggestions };
    assert(search_page_ok(page, ts, hs, au, author_scores@, unsorted));
    Some(page)
}

/// What `SearchQuery::normalized` gives for a query: the text trimmed; the ordering kept;
/// page 0 read as 1; page size 0 read as 10 and capped at 50; the category trimmed; the
/// tag trimmed and lower-cased; an empty or `all` filter dropped.
pub open spec fn search_normalized(q: SearchQuery, r: SearchQuery) -> bool {
    &&& r.q@ == trim(q.q@)
    &&& r.sort == q.sort
    &&& r.page == norm_page(q.page)
    &&& r.page_size == norm_page_size(q.page_size, 10, 50)
    &&& opt_view(r.category) == filter_norm(opt_view(q.category))
    &&& opt_view(r.tag) == lower_opt(filter_norm(opt_view(q.tag)))
}

/// A search query as values: text, category, tag, ordering, page and page size.
pub open spec fn search_query_view(q: SearchQuery) -> (
    Seq<char>,
    Option<Seq<char>>,
    Option<Seq<char>>,
    SearchSort,
    usize,
    usize,
) {
    (q.q@, opt_view(q.category), opt_view(q.tag), q.sort, q.page, q.page_size)
}

/// Normalizing a normalized search query changes nothing, where its tag settles (see
/// `tag_settles`); the normalized page size lies in `1..=50`.
pub proof fn law_search_query_normalization_settles(q: SearchQuery, n: SearchQuery, m: SearchQuery)
    requires
        search_normalized(q, n),
        search_normalized(n, m),
        tag_settles(opt_view(q.tag)),
    ensures
        search_query_view(m) == search_query_view(n),
        1 <= n.page_size <= 50,
{
    crate::text::lemma_trim_idempotent(q.q@);
    if let Some(c) = opt_view(q.category) {
        crate::text::lemma_trim_idempotent(c);
    }
    lemma_tag_norm_settles(opt_view(q.tag));
}

proof fn lemma_three_parts(vb: Seq<u8>, s: int, e: int)
    requires
        valid_utf8(vb),
        0 <= s <= e,
        is_char_boundary(vb, s),
        is_char_boundary(vb, e),
    ensures
        decode_utf8(vb) == decode_utf8(vb.subrange(0, s)) + decode_utf8(vb.subrange(s, e))
            + decode_utf8(vb.subrange(e, vb.len() as int)),
{
    decode_utf8_split(vb, e);
    lemma_prefix_boundary(vb, s, e);
    let pb = vb.subrange(0, e);
    decode_utf8_split(pb, s);
    assert(pb.subrange(0, s) =~= vb.subrange(0, s));
    assert(pb.subrange(s, pb.len() as int) =~= vb.subrange(s, e));
}

/// Taking the `<mark>` tags out of a highlighted text gives back the text: a highlight is
/// either the text itself, or the text cut in three with the middle part marked.
#[verifier::spinoff_prover]
pub proof fn law_highlight_keeps_text(value: Seq<char>, query: Seq<char>)
    requires
        highlight_spec(value, query) is Some,
    ensures
        highlight_spec(value, query) == Some(value) || exists|a: Seq<char>, m: Seq<char>, z: Seq<char>|
            value == a + m + z && highlight_spec(value, query) == Some(
                a + "<mark>"@ + m + "</mark>"@ + z,
            ),
{
    let q = trim(query);
    if q.len() > 0 {
        let vb = encode_utf8(value);
        let qb = encode_utf8(lowercase(q));
        if let Some(s) = first_bytes_at(encode_utf8(lowercase(value)), qb) {
            let e = s + qb.len();
            encode_utf8_valid_utf8(value);
            encode_utf8_decode_utf8(value);
            lemma_three_parts(vb, s, e);
            let a = decode_utf8(vb.subrange(0, s));
            let m = decode_utf8(vb.subrange(s, e));
            let z = decode_utf8(vb.subrange(e, vb.len() as int));
            assert(value == a + m + z);
            assert(highlight_spec(value, query) == Some(marked(vb, s, e)));
        }
    }
}

/// The rank of a result kind: posts, then tags, then users.
pub open spec fn kind_rank(kind: SearchResultKind) -> u8 {
    match kind {
        SearchResultKind::Post => 0,
        SearchResultKind::Tag => 1,
        SearchResultKind::User => 2,
    }
}

/// The rank of an entry kind in merged results: posts, then tags, then users.
pub fn result_kind_rank(kind: SearchResultKind) -> (r: u8)
    ensures
        r == kind_rank(kind),
{
    match kind {
        SearchResultKind::Post => 0,
        SearchResultKind::Tag => 1,
        SearchResultKind::User => 2,
    }
}

/// Whether `a` goes before `b` in a merged result list: by relevance or heat, higher
/// score first, then by kind rank, then by title; for the latest ordering, by kind rank
/// first, then higher score, then title.
pub open spec fn merged_before(sort: SearchSort, a: SearchResultItem, b: SearchResultItem) -> bool {
    let ra = kind_rank(a.kind);
    let rb = kind_rank(b.kind);
    if sort == SearchSort::Latest {
        ra < rb || (ra == rb && (a.score > b.score || (a.score == b.score && text_lt(
            a.title@,
            b.title@,
        ))))
    } else {
        a.score > b.score || (a.score == b.score && (ra < rb || (ra == rb && text_lt(
            a.title@,
            b.title@,
        ))))
    }
}

/// The precedence of `merged_before` for one ordering.
pub open spec fn merged_prec(sort: SearchSort) -> spec_fn(SearchResultItem, SearchResultItem) -> bool {
    |a: SearchResultItem, b: SearchResultItem| merged_before(sort, a, b)
}

proof fn lemma_merged_strict(sort: SearchSort)
    ensures
        strict_order(merged_prec(sort)),
{
    let p = merged_prec(sort);
    assert forall|a: SearchResultItem| !#[trigger] p(a, a) by {
        lemma_text_lt_irreflexive(a.title@);
    }
    assert forall|a: SearchResultItem, b: SearchResultItem, c: SearchResultItem|
        #[trigger] p(a, b) && #[trigger] p(b, c) implies p(a, c) by {
        if text_lt(a.title@, b.title@) && text_lt(b.title@, c.title@) {
            lemma_text_lt_transitive(a.title@, b.title@, c.title@);
        }
    }
}

/// Merging orders results without losing or adding any, and no result of the merged list
/// goes before an earlier one under the chosen ordering.
pub proof fn law_merged_results_in_order(items: Seq<SearchResultItem>, sort: SearchSort)
    ensures
        sort_by(items, merged_prec(sort)).to_multiset() == items.to_multiset(),
        in_order(sort_by(items, merged_prec(sort)), merged_prec(sort)),
{
    lemma_merged_strict(sort);
    law_sort_by_sorted_permutation(items, merged_prec(sort));
}

/// Orders merged results stably (see `merged_before`).
pub fn sort_search_items(items: &mut Vec<SearchResultItem>, sort: SearchSort)
    ensures
        final(items)@ == sort_by(old(items)@, merged_prec(sort)),
{
    let mut v: Vec<SearchResultItem> = Vec::new();
    std::mem::swap(&mut v, items);
    let f = |a: &SearchResultItem, b: &SearchResultItem| -> (r: bool)
        ensures
            r == merged_before(sort, *a, *b),
        {
            let ra = result_kind_rank(a.kind);
            let rb = result_kind_rank(b.kind);
            if sort == SearchSort::Latest {
                ra < rb || (ra == rb && (a.score > b.score || (a.score == b.score && text_less(
                    a.title.as_str(),
                    b.title.as_str(),
                ))))
            } else {
                a.score > b.score || (a.score == b.score && (ra < rb || (ra == rb && text_less(
                    a.title.as_str(),
                    b.title.as_str(),
                ))))
            }
        };
    let mut sorted = sort_vec_by(v, &f, Ghost(merged_prec(sort)));
    std::mem::swap(&mut sorted, items);
}

/// A stored post matching a search.
#[derive(Clone, Debug, PartialEq, Eq)]
pub struct SearchPostRow {
    pub post_id: u128,
    pub title: String,
    pub summary: String,
    pub author_name: String,
    pub category_name: Option<String>,
    pub tags: Vec<String>,
    pub score: i64,
    pub total_count: i64,
}

/// The result entry of a stored post for the query text `q`.
pub open spec fn post_row_item_ok(item: SearchResultItem, row: SearchPostRow, q: Seq<char>) -> bool {
    &&& item.id@ == uuid_text(row.post_id)
    &&& item.kind == SearchResultKind::Post
    &&& item.title == row.title
    &&& highlight_spec(row.title@, q) == Some(item.title_highlighted@)
    &&& item.summary == row.summary
    &&& highlight_spec(row.summary@, q) == Some(item.summary_highlighted@)
    &&& item.category_name == row.category_name
    &&& item.tags == row.tags
    &&& item.author_name == row.author_name
    &&& item.score == row.score
    &&& item.url@ == "/posts/"@ + uuid_text(row.post_id)
}

impl SearchPostRow {
    /// The result entry of the row; `None` where a highlight is undefined.
    pub fn into_item(self, query: &str) -> (r: Option<SearchResultItem>)
        ensures
            r matches Some(item) ==> post_row_item_ok(item, self, query@),
            r is None <==> !(highlight_spec(self.title@, query@) is Some && highlight_spec(
                self.summary@,
                query@,
            ) is Some),
    {
        let th = match highlight(self.title.as_str(), query) {
            Some(h) => h,
            None => return None,
        };
        let sh = match highlight(self.summary.as_str(), query) {
            Some(h) => h,
            None => return None,
        };
        let id = uuid_string(self.post_id);
        let url = concat_str("/posts/", id.as_str());
        Some(
            SearchResultItem {
                id,
                kind: SearchResultKind::Post,
                title_highlighted: th,
                summary_highlighted: sh,
                title: self.title,
                summary: self.summary,
                category_name: self.category_name,
                tags: self.tags,
                author_name: self.author_name,
                score: self.score,
                url,
            },
        )
    }
}

/// A stored tag matching a search.
#[derive(Clone, Debug, PartialEq, Eq)]
pub struct SearchTagRow {
    pub tag_id: u128,
    pub name: String,
    pub post_count: i64,
    pub score: i64,
    pub total_count: i64,
}

/// A count as shown: negative counts as 0.
pub open spec fn shown(c: i64) -> nat {
    if c < 0 {
        0
    } else {
        c as nat
    }
}

/// The summary of a stored tag entry.
pub open spec fn tag_row_summary(post_count: i64) -> Seq<char> {
    dec(shown(post_count)) + " 个主题使用该标签"@
}

/// The result entry of a stored tag for the query text `q`.
pub open spec fn tag_row_item_ok(item: SearchResultItem, row: SearchTagRow, q: Seq<char>) -> bool {
    &&& item.id@ == row.name@
    &&& item.kind == SearchResultKind::Tag
    &&& item.title@ == "#"@ + row.name@
    &&& highlight_spec("#"@ + row.name@, q) == Some(item.title_highlighted@)
    &&& item.summary@ == tag_row_summary(row.post_count)
    &&& highlight_spec(tag_row_summary(row.post_count), q) == Some(item.summary_highlighted@)
    &&& item.category_name is None
    &&& strings_view(item.tags@) == seq![row.name@]
    &&& item.author_name@ == "标签"@
    &&& item.score == row.score
    &&& item.url@ == "/search?tag="@ + row.name@
}

pub(crate) fn shown_dec(c: i64) -> (v: Vec<char>)
    ensures
        v@ == dec(shown(c)),
{
    if c < 0 {
        u64_dec(0)
    } else {
        u64_dec(c as u64)
    }
}

impl SearchTagRow {
    /// The result entry of the row; `None` where a highlight is undefined.
    pub fn into_item(self, query: &str) -> (r: Option<SearchResultItem>)
        ensures
            r matches Some(item) ==> tag_row_item_ok(item, self, query@),
            r is None <==> !(highlight_spec("#"@ + self.name@, query@) is Some && highlight_spec(
                tag_row_summary(self.post_count),
                query@,
            ) is Some),
    {
        let title = concat_str("#", self.name.as_str());
        let mut sv = shown_dec(self.post_count);
        extend_str(&mut sv, " 个主题使用该标签");
        let summary = string_from_chars(&sv);
        let th = match highlight(title.as_str(), query) {
            Some(h) => h,
            None => return None,
        };
        let sh = match highlight(summary.as_str(), query) {
            Some(h) => h,
            None => return None,
        };
        let mut tags: Vec<String> = Vec::new();
        tags.push(self.name.clone());
        assert(strings_view(tags@) =~= seq![self.name@]);
        let url = concat_str("/search?tag=", self.name.as_str());
        Some(
            SearchResultItem {
                id: self.name,
                kind: SearchResultKind::Tag,
                title,
                title_highlighted: th,
                summary,
                summary_highlighted: sh,
                category_name: None,
                tags,
                author_name: owned("标签"),
                score: self.score,
                url,
            },
        )
    }
}

/// A stored user matching a search.
#[derive(Clone, Debug, PartialEq, Eq)]
pub struct SearchUserRow {
    pub user_id: u128,
    pub nickname: String,
    pub username: String,
    pub bio: String,
    pub post_count: i64,
    pub comment_count: i64,
    pub score: i64,
    pub total_count: i64,
}

/// The summary of a stored user entry.
pub open spec fn user_row_summary(posts: i64, comments: i64) -> Seq<char> {
    "活跃作者，"@ + dec(shown(posts)) + " 篇帖子，"@ + dec(shown(comments)) + " 条评论"@
}

/// The result entry of a stored user for the query text `q`.
pub open spec fn user_row_item_ok(item: SearchResultItem, row: SearchUserRow, q: Seq<char>) -> bool {
    let summary = user_row_summary(row.post_count, row.comment_count);
    &&& item.id@ == uuid_text(row.user_id)
    &&& item.kind == SearchResultKind::User
    &&& item.title == row.nickname
    &&& highlight_spec(row.nickname@, q) == Some(item.title_highlighted@)
    &&& item.summary@ == summary
    &&& highlight_spec(summary, q) == Some(item.summary_highlighted@)
    &&& item.category_name is None
    &&& item.tags@.len() == 0
    &&& item.author_name == row.username
    &&& item.score == row.score
    &&& item.url@ == "/users/"@ + uuid_text(row.user_id)
}

impl SearchUserRow {
    /// The result entry of the row; `None` where a highlight is undefined.
    pub fn into_item(self, query: &str) -> (r: Option<SearchResultItem>)
        ensures
            r matches Some(item) ==> user_row_item_ok(item, self, query@),
            r is None <==> !(highlight_spec(self.nickname@, query@) is Some && highlight_spec(
                user_row_summary(self.post_count, self.comment_count),
                query@,
            ) is Some),
    {
        let mut sv: Vec<char> = Vec::new();
        extend_str(&mut sv, "活跃作者，");
        let p = shown_dec(self.post_count);
        extend(&mut sv, &p);
        extend_str(&mut sv, " 篇帖子，");
        let c = shown_dec(self.comment_count);
        extend(&mut sv, &c);
        extend_str(&mut sv, " 条评论");
        let summary = string_from_chars(&sv);
        let th = match highlight(self.nickname.as_str(), query) {
            Some(h) => h,
            None => return None,
        };
        let sh = match highlight(summary.as_str(), query) {
            Some(h) => h,
            None => return None,
        };
        let id = uuid_string(self.user_id);
        let url = concat_str("/users/", id.as_str());
        Some(
            SearchResultItem {
                id,
                kind: SearchResultKind::User,
                title_highlighted: th,
                summary_highlighted: sh,
                title: self.nickname,
                summary,
                category_name: None,
                tags: Vec::new(),
                author_name: self.username,
                score: self.score,
                url,
            },
        )
    }
}

/// Searching storage.
pub struct PostgresSearchRepository;

} // verus!
