//! Identifiers, slugs and bodies of the demonstration data written at start-up.
use vstd::prelude::*;

use crate::bridge::string_from_chars;
use crate::home::{HomeTopic, TopicMarker};
use crate::text::{ascii_lower, chars_of, dec, extend, extend_str, hex, is_ascii_alnum, join, str_eq, u64_dec, u64_hex};

verus! {

/// The base of every demonstration identifier.
pub const DEMO_UUID_BASE: u128 = 0x9000_0000_0000_0000_0000_0000_0000_0000;

/// The identifier of the `index`-th demonstration record of a kind: the base, plus the
/// kind's prefix, plus the index.
pub fn demo_uuid(prefix: u128, index: usize) -> (r: u128)
    requires
        DEMO_UUID_BASE + prefix + index <= u128::MAX,
    ensures
        r == DEMO_UUID_BASE + prefix + index,
{
    DEMO_UUID_BASE + prefix + index as u128
}

/// Whether `str::is_ascii_whitespace` holds of a character: space, tab, line feed, form
/// feed or carriage return.
pub open spec fn is_ascii_space(c: char) -> bool {
    c == ' ' || c == '\t' || c == '\n' || c == '\x0C' || c == '\r'
}

/// The slug pieces of a name: each ASCII letter or digit lower-cased, each other
/// character but ASCII white space as its code in lower-case hexadecimal.
pub open spec fn slug_pieces(name: Seq<char>) -> Seq<Seq<char>>
    decreases name.len(),
{
    if name.len() == 0 {
        seq![]
    } else {
        let c = name.last();
        let rest = slug_pieces(name.drop_last());
        if is_ascii_alnum(c) {
            rest.push(seq![ascii_lower(c)])
        } else if !is_ascii_space(c) {
            rest.push(hex((c as u32) as nat))
        } else {
            rest
        }
    }
}

/// The slug of a demonstration name: `{prefix}-` and its pieces joined by `-`, or
/// `{prefix}-demo` where there are none.
pub open spec fn demo_slug_text(prefix: Seq<char>, name: Seq<char>) -> Seq<char> {
    let joined = join(slug_pieces(name), "-"@);
    if joined.len() == 0 {
        prefix + "-demo"@
    } else {
        prefix + "-"@ + joined
    }
}

fn lower_ascii(c: char) -> (r: char)
    ensures
        r == ascii_lower(c),
{
    if c >= 'A' && c <= 'Z' {
        let b: u8 = (c as u32 + 32) as u8;
        b as char
    } else {
        c
    }
}

proof fn lemma_join_empty(ps: Seq<Seq<char>>, sep: Seq<char>)
    requires
        sep.len() > 0,
    ensures
        (join(ps, sep).len() == 0) <==> (ps.len() == 0 || (ps.len() == 1 && ps[0].len() == 0)),
    decreases ps.len(),
{
    if ps.len() > 1 {
        lemma_join_empty(ps.drop_last(), sep);
    }
}

/// The slug of a demonstration name (see `demo_slug_text`).
pub fn demo_slug(prefix: &str, name: &str) -> (r: String)
    ensures
        r@ == demo_slug_text(prefix@, name@),
{
    let cs = chars_of(name);
    let mut joined: Vec<char> = Vec::new();
    let mut count: usize = 0;
    let mut i: usize = 0;
    while i < cs.len()
        invariant
            i <= cs@.len(),
            cs@ == name@,
            count == slug_pieces(name@.take(i as int)).len(),
            count <= i,
            joined@ == join(slug_pieces(name@.take(i as int)), "-"@),
        decreases cs@.len() - i,
    {
        let c = cs[i];
        let ghost pre = slug_pieces(name@.take(i as int));
        proof {
            assert(name@.take(i + 1).drop_last() =~= name@.take(i as int));
            assert(name@.take(i + 1).last() == c);
        }
        let alnum = (c >= 'a' && c <= 'z') || (c >= 'A' && c <= 'Z') || (c >= '0' && c <= '9');
        let space = c == ' ' || c == '\t' || c == '\n' || c == '\x0C' || c == '\r';
        if alnum || !space {
            if count > 0 {
                extend_str(&mut joined, "-");
            }
            let ghost before = joined@;
            let ghost piece = if is_ascii_alnum(c) {
                seq![ascii_lower(c)]
            } else {
                hex((c as u32) as nat)
            };
            if alnum {
                joined.push(lower_ascii(c));
                assert(joined@ =~= before + piece);
            } else {
                let code: u64 = c as u32 as u64;
                assert(code as nat == (c as u32) as nat);
                let h = u64_hex(code);
                extend(&mut joined, &h);
                assert(joined@ =~= before + piece);
            }
            proof {
                let now = pre.push(piece);
                assert(slug_pieces(name@.take(i + 1)) == now);
                assert(now.drop_last() =~= pre);
                assert(now.last() == piece);
                if count == 0 {
                    assert(pre.len() == 0);
                    assert(before.len() == 0);
                    assert(now =~= seq![piece]);
                    assert(joined@ =~= join(now, "-"@));
                } else {
                    assert(join(now, "-"@) == join(pre, "-"@) + "-"@ + piece);
                    assert(joined@ =~= join(now, "-"@));
                }
            }
            count = count + 1;
        }
        i = i + 1;
    }
    assert(name@.take(cs@.len() as int) =~= name@);
    let ghost pieces = slug_pieces(name@);
    proof {
        reveal_strlit("-");
        lemma_slug_pieces_nonempty(name@);
        lemma_join_empty(pieces, "-"@);
    }
    let mut v: Vec<char> = Vec::new();
    extend_str(&mut v, prefix);
    if count == 0 {
        extend_str(&mut v, "-demo");
    } else {
        extend_str(&mut v, "-");
        extend(&mut v, &joined);
        assert(joined@.len() > 0);
    }
    string_from_chars(&v)
}

proof fn lemma_slug_pieces_nonempty(name: Seq<char>)
    ensures
        forall|i: int| 0 <= i < slug_pieces(name).len() ==> #[trigger] slug_pieces(name)[i].len() > 0,
    decreases name.len(),
{
    if name.len() > 0 {
        lemma_slug_pieces_nonempty(name.drop_last());
        let c = name.last();
        let p = slug_pieces(name);
        let q = slug_pieces(name.drop_last());
        if !is_ascii_alnum(c) && !is_ascii_space(c) {
            lemma_hex_nonempty((c as u32) as nat);
        }
        assert forall|i: int| 0 <= i < p.len() implies #[trigger] p[i].len() > 0 by {
            if i < q.len() {
                assert(p[i] == q[i]);
            }
        }
    }
}

proof fn lemma_hex_nonempty(n: nat)
    ensures
        hex(n).len() > 0,
    decreases n,
{
    if n >= 16 {
        lemma_hex_nonempty(n / 16);
    }
}

/// The Markdown body of a demonstration topic: its title as a heading, then its summary.
pub fn demo_markdown(topic: &HomeTopic) -> (r: String)
    ensures
        r@ == "# "@ + topic.title@ + "\n\n"@ + topic.summary@ + "\n"@,
{
    let mut v: Vec<char> = Vec::new();
    extend_str(&mut v, "# ");
    extend_str(&mut v, topic.title.as_str());
    extend_str(&mut v, "\n\n");
    extend_str(&mut v, topic.summary.as_str());
    extend_str(&mut v, "\n");
    string_from_chars(&v)
}

/// The HTML body of a demonstration topic: its title as a heading, then its summary as a
/// paragraph.
pub fn demo_html(topic: &HomeTopic) -> (r: String)
    ensures
        r@ == "<h1>"@ + topic.title@ + "</h1><p>"@ + topic.summary@ + "</p>"@,
{
    let mut v: Vec<char> = Vec::new();
    extend_str(&mut v, "<h1>");
    extend_str(&mut v, topic.title.as_str());
    extend_str(&mut v, "</h1><p>");
    extend_str(&mut v, topic.summary.as_str());
    extend_str(&mut v, "</p>");
    string_from_chars(&v)
}

/// The moment the demonstration topics are dated from: 2024-05-20 08:00:00 UTC, in Unix
/// nanoseconds.
pub const DEMO_SEED_EPOCH_NANOS: i128 = 1_716_192_000_000_000_000;

/// One minute in nanoseconds.
pub const MINUTE_NANOS: i128 = 60_000_000_000;

/// A demonstration tag of a topic, as written.
#[derive(Clone, Debug, PartialEq, Eq)]
pub struct DemoSeedTag {
    pub tag_id: u128,
    pub name: String,
    pub slug: String,
    pub sort_order: i32,
    pub use_count: i64,
}

/// A demonstration topic, as written: its author, its category, the post and its tags.
#[derive(Clone, Debug, PartialEq, Eq)]
pub struct DemoSeedTopic {
    pub author_id: u128,
    pub username: String,
    pub nickname: String,
    pub is_admin: bool,
    pub category_id: u128,
    pub category_name: String,
    pub category_slug: String,
    pub category_sort_order: i32,
    pub category_color: String,
    pub post_id: u128,
    pub title: String,
    pub summary: String,
    pub pinned: bool,
    pub locked: bool,
    pub view_count: i64,
    pub comment_count: i64,
    pub published_at: i128,
    pub markdown: String,
    pub html: String,
    pub tags: Vec<DemoSeedTag>,
}

/// Whether a written tag is the `j`-th tag of the `index`-th topic.
pub open spec fn seed_tag_ok(t: DemoSeedTag, index: int, j: int, name: Seq<char>, count: u32) -> bool {
    &&& t.tag_id == DEMO_UUID_BASE + 0x7400_0000 + index * 100 + j
    &&& t.name@ == name
    &&& t.slug@ == demo_slug_text("tag"@, name)
    &&& t.sort_order == j as i32
    &&& t.use_count == count
}

/// What the `index`-th demonstration topic is written as, with the view count read from
/// its label: identifiers from the kinds' prefixes, the author named
/// `demo_home_author_{index}` after the topic's last replier (an administrator where that
/// is `管理员`), the category at position `index`, the post published
/// `index * 30 + 1` minutes before `DEMO_SEED_EPOCH_NANOS`, and each tag with its own
/// identifier, slug and position. The publication time must stay within the calendar's
/// range, which starts with the year -9999 (`-377_705_203_200` Unix seconds).
pub fn seed_topic_plan(index: usize, topic: &HomeTopic, view_count: i64) -> (r: DemoSeedTopic)
    requires
        DEMO_SEED_EPOCH_NANOS - (index * 30 + 1) * MINUTE_NANOS >= -377_705_203_200_000_000_000,
    ensures
        r.author_id == DEMO_UUID_BASE + 0x7100 + index,
        r.category_id == DEMO_UUID_BASE + 0x7200 + index,
        r.post_id == DEMO_UUID_BASE + 0x7300 + index,
        r.username@ == "demo_home_author_"@ + dec(index as nat),
        r.nickname == topic.last_reply.author,
        r.is_admin == (topic.last_reply.author@ == "管理员"@),
        r.category_name == topic.category.name,
        r.category_slug@ == demo_slug_text("category"@, topic.category.name@),
        r.category_sort_order == index as i32,
        r.category_color == topic.category.color,
        r.title == topic.title,
        r.summary == topic.summary,
        r.pinned == (topic.marker == TopicMarker::Pinned),
        r.locked == (topic.marker == TopicMarker::Locked),
        r.view_count == view_count,
        r.comment_count == topic.reply_count as i64,
        r.published_at == DEMO_SEED_EPOCH_NANOS - (index * 30 + 1) * MINUTE_NANOS,
        r.markdown@ == "# "@ + topic.title@ + "\n\n"@ + topic.summary@ + "\n"@,
        r.html@ == "<h1>"@ + topic.title@ + "</h1><p>"@ + topic.summary@ + "</p>"@,
        r.tags@.len() == topic.tags@.len(),
        forall|j: int| 0 <= j < topic.tags@.len() ==> seed_tag_ok(#[trigger] r.tags@[j], index as int, j, topic.tags@[j].name@, topic.tags@[j].count),
{
    let mut name: Vec<char> = Vec::new();
    extend_str(&mut name, "demo_home_author_");
    let digits = u64_dec(index as u64);
    extend(&mut name, &digits);
    let minutes: i128 = (index as i128) * 30 + 1;
    let mut tags: Vec<DemoSeedTag> = Vec::new();
    let mut j: usize = 0;
    let n = topic.tags.len();
    while j < n
        invariant
            n == topic.tags@.len(),
            j <= n,
            tags@.len() == j,
            forall|k: int| 0 <= k < j ==> seed_tag_ok(#[trigger] tags@[k], index as int, k, topic.tags@[k].name@, topic.tags@[k].count),
        decreases n - j,
    {
        let tag = &topic.tags[j];
        let prefix: u128 = 0x7400_0000 + (index as u128) * 100;
        tags.push(DemoSeedTag {
            tag_id: demo_uuid(prefix, j),
            name: tag.name.clone(),
            slug: demo_slug("tag", tag.name.as_str()),
            sort_order: #[verifier::truncate] (j as i32),
            use_count: tag.count as i64,
        });
        j = j + 1;
    }
    DemoSeedTopic {
        author_id: demo_uuid(0x7100, index),
        username: string_from_chars(&name),
        nickname: topic.last_reply.author.clone(),
        is_admin: str_eq(topic.last_reply.author.as_str(), "管理员"),
        category_id: demo_uuid(0x7200, index),
        category_name: topic.category.name.clone(),
        category_slug: demo_slug("category", topic.category.name.as_str()),
        category_sort_order: #[verifier::truncate] (index as i32),
        category_color: topic.category.color.clone(),
        post_id: demo_uuid(0x7300, index),
        title: topic.title.clone(),
        summary: topic.summary.clone(),
        pinned: matches!(topic.marker, TopicMarker::Pinned),
        locked: matches!(topic.marker, TopicMarker::Locked),
        view_count,
        comment_count: topic.reply_count as i64,
        published_at: DEMO_SEED_EPOCH_NANOS - minutes * MINUTE_NANOS,
        markdown: demo_markdown(topic),
        html: demo_html(topic),
        tags,
    }
}

/// Writing the demonstration data to storage.
pub struct PostgresDemoSeedRepository;

} // verus!
