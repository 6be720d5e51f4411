//! Comment threads: paging queries and the reply tree built from stored rows.
use vstd::prelude::*;

use crate::home::{norm_page, norm_page_size};
use crate::text::{owned, str_eq};

verus! {

/// A comment with its replies. Identifiers are 128-bit UUID values; times are Unix
/// timestamps in nanoseconds.
#[derive(Debug, PartialEq, Eq)]
pub struct CommentNode {
    pub comment_id: u128,
    pub post_id: u128,
    pub parent_comment_id: Option<u128>,
    pub author_id: u128,
    pub author_name: String,
    pub content: String,
    pub deleted: bool,
    pub author_reply: bool,
    pub like_count: i64,
    pub created_at: i128,
    pub replies: Vec<CommentNode>,
}

/// The mathematical form of a comment thread.
pub struct CommentTree {
    pub comment_id: u128,
    pub post_id: u128,
    pub parent_comment_id: Option<u128>,
    pub author_id: u128,
    pub author_name: Seq<char>,
    pub content: Seq<char>,
    pub deleted: bool,
    pub author_reply: bool,
    pub like_count: i64,
    pub created_at: i128,
    pub replies: Seq<CommentTree>,
}

/// Which page of a post's comments to show.
#[derive(Clone, Debug, PartialEq, Eq, Structural)]
pub struct CommentPageQuery {
    pub page: usize,
    pub page_size: usize,
}

impl Default for CommentPageQuery {
    /// The first page, twenty comments long.
    fn default() -> (r: CommentPageQuery)
        ensures
            r == (CommentPageQuery { page: 1, page_size: 20 }),
    {
        CommentPageQuery { page: 1, page_size: 20 }
    }
}

impl CommentPageQuery {
    /// Page 0 stands for the first page, size 0 for 20, and sizes are capped at 100.
    pub fn normalized(self) -> (r: CommentPageQuery)
        ensures
            r.page == norm_page(self.page),
            r.page_size == norm_page_size(self.page_size, 20, 100),
    {
        let mut q = self;
        if q.page == 0 {
            q.page = 1;
        }
        if q.page_size == 0 {
            q.page_size = 20;
        }
        if q.page_size > 100 {
            q.page_size = 100;
        }
        q
    }
}

/// Normalizing a comment page query twice gives what normalizing it once gives.
pub proof fn law_comment_page_normalization_settles(page: usize, page_size: usize)
    ensures
        norm_page(norm_page(page)) == norm_page(page),
        norm_page_size(norm_page_size(page_size, 20, 100), 20, 100) == norm_page_size(page_size, 20, 100),
{
}

/// One page of a post's comment threads.
#[derive(Debug, PartialEq, Eq)]
pub struct CommentPage {
    pub comments: Vec<CommentNode>,
    pub page: usize,
    pub page_size: usize,
    pub total: usize,
    pub total_pages: usize,
}

/// A comment being written.
#[derive(Clone, Debug, PartialEq, Eq)]
pub struct CommentInput {
    pub post_id: u128,
    pub parent_comment_id: Option<u128>,
    pub content: String,
}

/// A request to publish a comment.
#[derive(Clone, Debug, PartialEq, Eq)]
pub struct CreateCommentRequest {
    pub post_id: u128,
    pub parent_comment_id: Option<u128>,
    pub content: String,
}

/// The mathematical form of one comment and its replies.
pub open spec fn tree_of(n: CommentNode) -> CommentTree
    decreases n,
{
    CommentTree {
        comment_id: n.comment_id,
        post_id: n.post_id,
        parent_comment_id: n.parent_comment_id,
        author_id: n.author_id,
        author_name: n.author_name@,
        content: n.content@,
        deleted: n.deleted,
        author_reply: n.author_reply,
        like_count: n.like_count,
        created_at: n.created_at,
        replies: Seq::new(
            n.replies@.len(),
            |i: int|
                if 0 <= i < n.replies@.len() {
                    tree_of(n.replies@[i])
                } else {
                    arbitrary()
                },
        ),
    }
}

impl View for CommentNode {
    type V = CommentTree;

    open spec fn view(&self) -> CommentTree {
        tree_of(*self)
    }
}

/// Views of a list of comments.
pub open spec fn trees(v: Seq<CommentNode>) -> Seq<CommentTree> {
    Seq::new(v.len(), |i: int| v[i]@)
}

proof fn lemma_view_replies(x: CommentNode)
    ensures
        x@.replies == trees(x.replies@),
{
    let a = x@.replies;
    let b = trees(x.replies@);
    assert(a.len() == x.replies@.len());
    assert(b.len() == x.replies@.len());
    assert forall|i: int| 0 <= i < a.len() implies a[i] == b[i] by {
        assert(a[i] == x.replies@[i]@);
    }
    assert(a =~= b);
}

/// A stored comment row joined with its author and its post's author.
#[derive(Clone, Debug, PartialEq, Eq)]
pub struct CommentRow {
    pub comment_id: u128,
    pub post_id: u128,
    pub parent_comment_id: Option<u128>,
    pub author_id: u128,
    pub author_name: String,
    pub content: String,
    pub status: String,
    pub like_count: i64,
    pub created_at: i128,
    pub post_author_id: u128,
}

/// The reply-less comment of a row: it is deleted when its status is `deleted`, and an
/// author reply when written by the post's author.
pub open spec fn row_leaf(r: CommentRow) -> CommentTree {
    CommentTree {
        comment_id: r.comment_id,
        post_id: r.post_id,
        parent_comment_id: r.parent_comment_id,
        author_id: r.author_id,
        author_name: r.author_name@,
        content: r.content@,
        deleted: r.status@ == "deleted"@,
        author_reply: r.author_id == r.post_author_id,
        like_count: r.like_count,
        created_at: r.created_at,
        replies: seq![],
    }
}

impl CommentRow {
    /// The comment of a row, without replies.
    pub fn into_node(self) -> (r: CommentNode)
        ensures
            r@ == row_leaf(self),
            r.replies@.len() == 0,
    {
        let deleted = str_eq(self.status.as_str(), "deleted");
        let r = CommentNode {
            comment_id: self.comment_id,
            post_id: self.post_id,
            parent_comment_id: self.parent_comment_id,
            author_id: self.author_id,
            author_name: self.author_name,
            content: self.content,
            deleted,
            author_reply: self.author_id == self.post_author_id,
            like_count: self.like_count,
            created_at: self.created_at,
            replies: Vec::new(),
        };
        assert(r@.replies =~= Seq::<CommentTree>::empty());
        r
    }
}

/// Comments grouped under one parent (`None` for top-level comments).
pub struct CommentGroup {
    pub parent: Option<u128>,
    pub nodes: Vec<CommentNode>,
}

/// The mathematical form of a list of groups.
pub open spec fn groups_view(gs: Seq<CommentGroup>) -> Seq<(Option<u128>, Seq<CommentTree>)> {
    Seq::new(gs.len(), |i: int| (gs[i].parent, trees(gs[i].nodes@)))
}

/// The position of the last group with the given parent, or -1.
pub open spec fn key_pos(gs: Seq<(Option<u128>, Seq<CommentTree>)>, k: Option<u128>) -> int
    decreases gs.len(),
{
    if gs.len() == 0 {
        -1
    } else if gs.last().0 == k {
        gs.len() - 1
    } else {
        key_pos(gs.drop_last(), k)
    }
}

/// Groups after adding one comment under parent `k`.
pub open spec fn add_to_group(
    gs: Seq<(Option<u128>, Seq<CommentTree>)>,
    k: Option<u128>,
    t: CommentTree,
) -> Seq<(Option<u128>, Seq<CommentTree>)> {
    let p = key_pos(gs, k);
    if p < 0 {
        gs.push((k, seq![t]))
    } else {
        gs.update(p, (k, gs[p].1.push(t)))
    }
}

/// The rows grouped by parent, each group in row order.
pub open spec fn group_rows(rows: Seq<CommentRow>) -> Seq<(Option<u128>, Seq<CommentTree>)>
    decreases rows.len(),
{
    if rows.len() == 0 {
        seq![]
    } else {
        add_to_group(
            group_rows(rows.drop_last()),
            rows.last().parent_comment_id,
            row_leaf(rows.last()),
        )
    }
}

/// The replies of parent `k`: its group is taken out of `gs`, and each of its comments,
/// in order, receives the replies attached under its own identifier. Returns the replies
/// and the groups that are left.
pub open spec fn attach(k: Option<u128>, gs: Seq<(Option<u128>, Seq<CommentTree>)>) -> (
    Seq<CommentTree>,
    Seq<(Option<u128>, Seq<CommentTree>)>,
)
    decreases gs.len(), 0nat, 0nat,
{
    let p = key_pos(gs, k);
    if p < 0 || p >= gs.len() {
        (seq![], gs)
    } else {
        attach_list(gs[p].1, gs.remove(p))
    }
}

/// Each comment of `ns`, in order, with the replies attached under its identifier.
pub open spec fn attach_list(ns: Seq<CommentTree>, gs: Seq<(Option<u128>, Seq<CommentTree>)>) -> (
    Seq<CommentTree>,
    Seq<(Option<u128>, Seq<CommentTree>)>,
)
    decreases gs.len(), 1nat, ns.len(),
{
    if ns.len() == 0 {
        (seq![], gs)
    } else {
        let r1 = attach(Some(ns[0].comment_id), gs);
        if r1.1.len() <= gs.len() {
            let r2 = attach_list(ns.drop_first(), r1.1);
            (seq![CommentTree { replies: r1.0, ..ns[0] }] + r2.0, r2.1)
        } else {
            (seq![], gs)
        }
    }
}

pub(crate) proof fn lemma_key_pos(gs: Seq<(Option<u128>, Seq<CommentTree>)>, k: Option<u128>)
    ensures
        -1 <= key_pos(gs, k) < gs.len(),
        key_pos(gs, k) >= 0 ==> gs[key_pos(gs, k)].0 == k,
        key_pos(gs, k) < 0 ==> forall|i: int| 0 <= i < gs.len() ==> gs[i].0 != k,
    decreases gs.len(),
{
    if gs.len() > 0 {
        lemma_key_pos(gs.drop_last(), k);
        assert forall|i: int| 0 <= i < gs.len() - 1 implies gs.drop_last()[i] == gs[i] by {}
    }
}

pub(crate) proof fn lemma_attach_shrinks(k: Option<u128>, gs: Seq<(Option<u128>, Seq<CommentTree>)>)
    ensures
        attach(k, gs).1.len() <= gs.len(),
    decreases gs.len(), 0nat, 0nat,
{
    let p = key_pos(gs, k);
    if p < 0 || p >= gs.len() {
    } else {
        lemma_attach_list_shrinks(gs[p].1, gs.remove(p));
    }
}

proof fn lemma_attach_list_shrinks(ns: Seq<CommentTree>, gs: Seq<(Option<u128>, Seq<CommentTree>)>)
    ensures
        attach_list(ns, gs).1.len() <= gs.len(),
    decreases gs.len(), 1nat, ns.len(),
{
    if ns.len() > 0 {
        lemma_attach_shrinks(Some(ns[0].comment_id), gs);
        let r1 = attach(Some(ns[0].comment_id), gs);
        lemma_attach_list_shrinks(ns.drop_first(), r1.1);
    }
}

fn find_group(groups: &Vec<CommentGroup>, k: Option<u128>) -> (r: Option<usize>)
    ensures
        r matches Some(p) ==> p < groups@.len() && p as int == key_pos(groups_view(groups@), k),
        r is None ==> key_pos(groups_view(groups@), k) < 0,
{
    let ghost gv = groups_view(groups@);
    let mut j: usize = groups.len();
    assert(gv.take(j as int) =~= gv);
    while j > 0
        invariant
            j <= groups@.len(),
            gv == groups_view(groups@),
            key_pos(gv, k) == key_pos(gv.take(j as int), k),
        decreases j,
    {
        proof {
            assert(gv.take(j as int).drop_last() =~= gv.take(j - 1));
        }
        if groups[j - 1].parent == k {
            return Some(j - 1);
        }
        j = j - 1;
    }
    None
}

/// The replies of `parent`, taken from `groups` (see `attach`).
pub fn attach_replies(parent: Option<u128>, groups: &mut Vec<CommentGroup>) -> (r: Vec<CommentNode>)
    ensures
        trees(r@) == attach(parent, groups_view(old(groups)@)).0,
        groups_view(final(groups)@) == attach(parent, groups_view(old(groups)@)).1,
        final(groups)@.len() <= old(groups)@.len(),
    decreases old(groups)@.len(), 0nat,
{
    let ghost gv = groups_view(groups@);
    proof {
        lemma_key_pos(gv, parent);
    }
    match find_group(groups, parent) {
        None => {
            let r: Vec<CommentNode> = Vec::new();
            assert(trees(r@) =~= Seq::<CommentTree>::empty());
            r
        },
        Some(p) => {
            let g = groups.remove(p);
            assert(groups_view(groups@) =~= gv.remove(p as int));
            assert(trees(g.nodes@) == gv[p as int].1);
            attach_nodes(g.nodes, groups)
        },
    }
}

fn attach_nodes(nodes: Vec<CommentNode>, groups: &mut Vec<CommentGroup>) -> (r: Vec<CommentNode>)
    ensures
        trees(r@) == attach_list(trees(nodes@), groups_view(old(groups)@)).0,
        groups_view(final(groups)@) == attach_list(trees(nodes@), groups_view(old(groups)@)).1,
        final(groups)@.len() <= old(groups)@.len(),
    decreases old(groups)@.len(), 1nat,
{
    let ghost ns0 = trees(nodes@);
    let ghost gs0 = groups_view(groups@);
    let ghost len0 = groups@.len();
    let n: usize = nodes.len();
    let mut rest = nodes;
    let mut out: Vec<CommentNode> = Vec::new();
    let mut i: usize = 0;
    assert(ns0.skip(0) =~= ns0);
    assert(trees(out@) =~= Seq::<CommentTree>::empty());
    while i < n
        invariant
            n == ns0.len(),
            i <= n,
            trees(rest@) == ns0.skip(i as int),
            rest@.len() == n - i,
            groups@.len() <= len0,
            len0 == old(groups)@.len(),
            gs0 == groups_view(old(groups)@),
            attach_list(ns0, gs0).0 == trees(out@) + attach_list(ns0.skip(i as int), groups_view(groups@)).0,
            attach_list(ns0, gs0).1 == attach_list(ns0.skip(i as int), groups_view(groups@)).1,
        decreases n - i,
    {
        let ghost cur = groups_view(groups@);
        let ghost ns = ns0.skip(i as int);
        let mut x = rest.remove(0);
        assert(x@ == ns[0]);
        proof {
            lemma_attach_shrinks(Some(ns[0].comment_id), cur);
            assert(ns.drop_first() =~= ns0.skip(i + 1));
            assert(trees(rest@) =~= ns0.skip(i + 1));
        }
        let kids = attach_replies(Some(x.comment_id), groups);
        let ghost old_x = x@;
        x.replies = kids;
        proof {
            lemma_view_replies(x);
            assert(x@ == CommentTree { replies: attach(Some(ns[0].comment_id), cur).0, ..ns[0] });
        }
        let ghost before = out@;
        out.push(x);
        proof {
            assert(trees(out@) =~= trees(before).push(x@));
            let r1 = attach(Some(ns[0].comment_id), cur);
            let r2 = attach_list(ns.drop_first(), r1.1);
            assert(attach_list(ns, cur).0 == seq![CommentTree { replies: r1.0, ..ns[0] }] + r2.0);
            assert(trees(out@) + r2.0 =~= trees(before) + (seq![x@] + r2.0));
        }
        i = i + 1;
    }
    proof {
        assert(ns0.skip(n as int).len() == 0);
        assert(trees(out@) + Seq::<CommentTree>::empty() =~= trees(out@));
    }
    out
}

/// The text shown in place of a deleted comment.
pub open spec fn deleted_text() -> Seq<char> {
    "该评论已被删除"@
}

/// A thread as it is shown: the text of every deleted comment, at any depth, is replaced
/// by `deleted_text()`.
pub open spec fn mask(t: CommentTree) -> CommentTree
    decreases t,
{
    CommentTree {
        content: if t.deleted {
            deleted_text()
        } else {
            t.content
        },
        replies: Seq::new(
            t.replies.len(),
            |i: int|
                if 0 <= i < t.replies.len() {
                    mask(t.replies[i])
                } else {
                    arbitrary()
                },
        ),
        ..t
    }
}

/// Each thread of `ts`, masked.
pub open spec fn mask_all(ts: Seq<CommentTree>) -> Seq<CommentTree> {
    Seq::new(ts.len(), |i: int| mask(ts[i]))
}

/// The comment with its deleted comments masked (see `mask`).
pub fn mask_deleted(node: CommentNode) -> (r: CommentNode)
    ensures
        r@ == mask(node@),
    decreases node,
{
    let ghost orig = node;
    let mut comment = node;
    if comment.deleted {
        comment.content = owned("该评论已被删除");
    }
    let mut rest: Vec<CommentNode> = Vec::new();
    std::mem::swap(&mut rest, &mut comment.replies);
    let n: usize = rest.len();
    let mut out: Vec<CommentNode> = Vec::new();
    let mut i: usize = 0;
    while i < n
        invariant
            n == orig.replies@.len(),
            orig == node,
            i <= n,
            rest@ == orig.replies@.skip(i as int),
            out@.len() == i,
            forall|j: int| 0 <= j < i ==> #[trigger] out@[j]@ == mask(orig.replies@[j]@),
        decreases n - i,
    {
        let x = rest.remove(0);
        assert(x == orig.replies@[i as int]);
        assert(rest@ =~= orig.replies@.skip(i + 1));
        assert(decreases_to!(orig => x));
        let m = mask_deleted(x);
        out.push(m);
        i = i + 1;
    }
    comment.replies = out;
    proof {
        lemma_view_replies(comment);
        lemma_view_replies(orig);
        assert(comment@.replies =~= mask(orig@).replies);
    }
    comment
}

/// Whether no deleted comment of a thread, at any depth, shows its text.
pub open spec fn fully_masked(t: CommentTree) -> bool
    decreases t,
{
    &&& (t.deleted ==> t.content == deleted_text())
    &&& forall|i: int| 0 <= i < t.replies.len() ==> fully_masked(#[trigger] t.replies[i])
}

pub(crate) proof fn lemma_mask_hides(t: CommentTree)
    ensures
        fully_masked(mask(t)),
        mask(t).replies.len() == t.replies.len(),
        mask(t).comment_id == t.comment_id,
        mask(t).deleted == t.deleted,
    decreases t,
{
    let m = mask(t);
    assert forall|i: int| 0 <= i < m.replies.len() implies fully_masked(#[trigger] m.replies[i]) by {
        lemma_mask_hides(t.replies[i]);
    }
}

/// No deleted comment of a built thread, at any depth, shows its text; masking keeps the
/// number of threads.
pub proof fn law_masked_threads_hide_deleted(rows: Seq<CommentRow>)
    ensures
        forall|i: int|
            0 <= i < comment_forest(rows).len() ==> fully_masked(#[trigger] comment_forest(rows)[i]),
        comment_forest(rows).len() == attach(None, group_rows(rows)).0.len(),
{
    let ts = attach(None, group_rows(rows)).0;
    assert forall|i: int| 0 <= i < comment_forest(rows).len() implies fully_masked(
        #[trigger] comment_forest(rows)[i],
    ) by {
        lemma_mask_hides(ts[i]);
    }
}

/// The identifiers of a list of comments.
pub open spec fn ids(ts: Seq<CommentTree>) -> Seq<u128> {
    Seq::new(ts.len(), |i: int| ts[i].comment_id)
}

/// The identifiers of the rows with the given parent, in row order.
pub open spec fn child_ids(rows: Seq<CommentRow>, k: Option<u128>) -> Seq<u128>
    decreases rows.len(),
{
    if rows.len() == 0 {
        seq![]
    } else if rows.last().parent_comment_id == k {
        child_ids(rows.drop_last(), k).push(rows.last().comment_id)
    } else {
        child_ids(rows.drop_last(), k)
    }
}

pub(crate) proof fn lemma_attach_list_ids(ns: Seq<CommentTree>, gs: Seq<(Option<u128>, Seq<CommentTree>)>)
    ensures
        ids(attach_list(ns, gs).0) == ids(ns),
    decreases ns.len(),
{
    if ns.len() > 0 {
        lemma_attach_shrinks(Some(ns[0].comment_id), gs);
        let r1 = attach(Some(ns[0].comment_id), gs);
        lemma_attach_list_ids(ns.drop_first(), r1.1);
        let r2 = attach_list(ns.drop_first(), r1.1);
        let head = CommentTree { replies: r1.0, ..ns[0] };
        let all = seq![head] + r2.0;
        assert(attach_list(ns, gs).0 == all);
        assert(ids(r2.0).len() == ids(ns.drop_first()).len());
        assert forall|i: int| 0 <= i < ns.len() implies #[trigger] all[i].comment_id == ns[i].comment_id by {
            if i > 0 {
                assert(all[i] == r2.0[i - 1]);
                assert(ids(r2.0)[i - 1] == ids(ns.drop_first())[i - 1]);
            }
        }
        assert(ids(all) =~= ids(ns));
    } else {
        assert(ids(attach_list(ns, gs).0) =~= ids(ns));
    }
}

pub(crate) proof fn lemma_group_rows_key(rows: Seq<CommentRow>, k: Option<u128>)
    ensures
        key_pos(group_rows(rows), k) >= 0 ==> ids(group_rows(rows)[key_pos(group_rows(rows), k)].1)
            == child_ids(rows, k),
        key_pos(group_rows(rows), k) < 0 ==> child_ids(rows, k).len() == 0,
    decreases rows.len(),
{
    if rows.len() > 0 {
        let prev = group_rows(rows.drop_last());
        let r = rows.last();
        lemma_group_rows_key(rows.drop_last(), k);
        lemma_key_pos(prev, k);
        lemma_key_pos(prev, r.parent_comment_id);
        let cur = group_rows(rows);
        lemma_key_pos(cur, k);
        let p = key_pos(prev, r.parent_comment_id);
        if p < 0 {
            assert(cur == prev.push((r.parent_comment_id, seq![row_leaf(r)])));
            lemma_key_pos_push(prev, (r.parent_comment_id, seq![row_leaf(r)]), k);
            if r.parent_comment_id == k {
                assert(ids(seq![row_leaf(r)]) =~= seq![r.comment_id]);
                assert(child_ids(rows.drop_last(), k) =~= Seq::<u128>::empty());
            }
        } else {
            assert(cur == prev.update(p, (r.parent_comment_id, prev[p].1.push(row_leaf(r)))));
            lemma_key_pos_update(prev, p, (r.parent_comment_id, prev[p].1.push(row_leaf(r))), k);
            if r.parent_comment_id == k {
                assert(ids(prev[p].1.push(row_leaf(r))) =~= ids(prev[p].1).push(r.comment_id));
            }
        }
    }
}

proof fn lemma_key_pos_push(
    gs: Seq<(Option<u128>, Seq<CommentTree>)>,
    g: (Option<u128>, Seq<CommentTree>),
    k: Option<u128>,
)
    ensures
        key_pos(gs.push(g), k) == (if g.0 == k {
            gs.len() as int
        } else {
            key_pos(gs, k)
        }),
{
    assert(gs.push(g).drop_last() =~= gs);
}

proof fn lemma_key_pos_update(
    gs: Seq<(Option<u128>, Seq<CommentTree>)>,
    p: int,
    g: (Option<u128>, Seq<CommentTree>),
    k: Option<u128>,
)
    requires
        0 <= p < gs.len(),
        gs[p].0 == g.0,
    ensures
        key_pos(gs.update(p, g), k) == key_pos(gs, k),
    decreases gs.len(),
{
    let u = gs.update(p, g);
    if p == gs.len() - 1 {
        assert(u.drop_last() =~= gs.drop_last());
    } else {
        assert(u.drop_last() =~= gs.drop_last().update(p, g));
        lemma_key_pos_update(gs.drop_last(), p, g, k);
    }
}

/// The top-level threads of a post are its rows without a parent, in row order.
pub proof fn law_top_level_threads(rows: Seq<CommentRow>)
    ensures
        ids(comment_forest(rows)) == child_ids(rows, None),
{
    let gs = group_rows(rows);
    lemma_key_pos(gs, None);
    lemma_group_rows_key(rows, None);
    let p = key_pos(gs, None);
    let roots = attach(None, gs).0;
    if p >= 0 {
        lemma_attach_list_ids(gs[p].1, gs.remove(p));
    } else {
        assert(roots =~= Seq::<CommentTree>::empty());
        assert(child_ids(rows, None) =~= Seq::<u128>::empty());
    }
    let f = comment_forest(rows);
    assert forall|i: int| 0 <= i < f.len() implies #[trigger] f[i].comment_id == roots[i].comment_id by {
        lemma_mask_hides(roots[i]);
    }
    assert(ids(f) =~= ids(roots));
}

/// The comment threads of a post, built from its rows: the rows are grouped by parent
/// (each group in row order), the group without a parent gives the threads, and each
/// comment, depth first, receives as replies the group of its own identifier where that
/// group has not been taken yet (see `attach`); deleted comments are masked. With
/// distinct identifiers every comment thus carries the comments whose parent it is (see
/// `crate::comment_threads::law_replies_are_children`).
pub open spec fn comment_forest(rows: Seq<CommentRow>) -> Seq<CommentTree> {
    mask_all(attach(None, group_rows(rows)).0)
}

/// The query that reads the comments of a post, oldest first.
pub const COMMENTS_FOR_POST_SQL: &'static str = r#"
select
    c.comment_id,
    c.post_id,
    c.parent_comment_id,
    c.author_id,
    u.nickname as author_name,
    c.content,
    c.status,
    c.like_count,
    c.created_at,
    p.author_id as post_author_id
from comments c
join users u on u.user_id = c.author_id
join posts p on p.post_id = c.post_id
where c.post_id = $1
order by c.created_at asc
"#;

/// Reading comments from storage.
pub struct PostgresCommentRepository;

impl PostgresCommentRepository {
    /// The query that reads the comments of a post, oldest first.
    pub fn comments_for_post_sql() -> (r: &'static str)
        ensures
            r@ == COMMENTS_FOR_POST_SQL@,
    {
        COMMENTS_FOR_POST_SQL
    }

    /// The threads of a post from its rows (see `comment_forest`).
    pub fn build_comment_tree(rows: Vec<CommentRow>) -> (r: Vec<CommentNode>)
        ensures
            trees(r@) == comment_forest(rows@),
    {
        let ghost all = rows@;
        let n: usize = rows.len();
        let mut rest = rows;
        let mut groups: Vec<CommentGroup> = Vec::new();
        let mut i: usize = 0;
        assert(groups_view(groups@) =~= group_rows(all.take(0)));
        while i < n
            invariant
                n == all.len(),
                i <= n,
                rest@ == all.skip(i as int),
                groups_view(groups@) == group_rows(all.take(i as int)),
            decreases n - i,
        {
            let row = rest.remove(0);
            assert(row == all[i as int]);
            assert(rest@ =~= all.skip(i + 1));
            let ghost before = groups_view(groups@);
            let node = row.into_node();
            let key = node.parent_comment_id;
            proof {
                lemma_key_pos(before, key);
                assert(all.take(i + 1).drop_last() =~= all.take(i as int));
                assert(all.take(i + 1).last() == row);
            }
            match find_group(&groups, key) {
                None => {
                    let mut nodes: Vec<CommentNode> = Vec::new();
                    nodes.push(node);
                    groups.push(CommentGroup { parent: key, nodes });
                    proof {
                        assert(trees(nodes@) =~= seq![row_leaf(row)]);
                        assert(groups_view(groups@) =~= before.push((key, seq![row_leaf(row)])));
                    }
                },
                Some(p) => {
                    let mut g = groups.remove(p);
                    let ghost gn = g.nodes@;
                    g.nodes.push(node);
                    assert(trees(g.nodes@) =~= trees(gn).push(row_leaf(row)));
                    groups.insert(p, g);
                    assert(groups_view(groups@) =~= before.update(
                        p as int,
                        (key, before[p as int].1.push(row_leaf(row))),
                    ));
                },
            }
            i = i + 1;
        }
        assert(all.take(n as int) =~= all);
        let roots = attach_replies(None, &mut groups);
        let ghost rts = attach(None, group_rows(all)).0;
        let m: usize = roots.len();
        let mut rest_roots = roots;
        let mut out: Vec<CommentNode> = Vec::new();
        let mut j: usize = 0;
        while j < m
            invariant
                m == rts.len(),
                j <= m,
                trees(rest_roots@) == rts.skip(j as int),
                rest_roots@.len() == m - j,
                out@.len() == j,
                forall|k: int| 0 <= k < j ==> #[trigger] out@[k]@ == mask(rts[k]),
            decreases m - j,
        {
            let ghost before = rest_roots@;
            let x = rest_roots.remove(0);
            assert(x@ == trees(before)[0]);
            assert(trees(rest_roots@) =~= rts.skip(j + 1)) by {
                assert(trees(rest_roots@) =~= trees(before).drop_first());
            }
            out.push(mask_deleted(x));
            j = j + 1;
        }
        assert(trees(out@) =~= comment_forest(all));
        out
    }
}

} // verus!
