//! Why built comment threads are right at every depth: when the comments of a post have
//! distinct identifiers, every comment of a thread carries as replies exactly the
//! comments whose parent it is, in row order.
use vstd::prelude::*;

use crate::comments::{
    add_to_group, attach, attach_list, child_ids, comment_forest, group_rows, ids, key_pos,
    lemma_attach_list_ids, lemma_attach_shrinks, lemma_group_rows_key, lemma_key_pos,
    lemma_mask_hides, mask, row_leaf, CommentRow, CommentTree,
};

verus! {

/// Groups of comments by parent, as the thread builder holds them.
pub type Groups = Seq<(Option<u128>, Seq<CommentTree>)>;

/// Whether no two groups share a parent.
pub open spec fn keys_distinct(gs: Groups) -> bool {
    forall|i: int, j: int| 0 <= i < gs.len() && 0 <= j < gs.len() && i != j ==> gs[i].0 != gs[j].0
}

/// Whether every grouped comment is still without replies.
pub open spec fn groups_leaves(gs: Groups) -> bool {
    forall|i: int, j: int| 0 <= i < gs.len() && 0 <= j < gs[i].1.len() ==> (#[trigger] gs[i].1[j]).replies.len() == 0
}

/// Whether a comment with the given identifier is in some group.
pub open spec fn in_groups(gs: Groups, x: u128) -> bool {
    exists|i: int, j: int| 0 <= i < gs.len() && 0 <= j < gs[i].1.len() && (#[trigger] gs[i].1[j]).comment_id == x
}

/// Whether no identifier occurs twice across all groups.
pub open spec fn groups_distinct(gs: Groups) -> bool {
    forall|i: int, j: int, i2: int, j2: int|
        0 <= i < gs.len() && 0 <= j < gs[i].1.len() && 0 <= i2 < gs.len() && 0 <= j2 < gs[i2].1.len()
            && (#[trigger] gs[i].1[j]).comment_id == (#[trigger] gs[i2].1[j2]).comment_id ==> i == i2 && j == j2
}

/// Whether the rows have distinct identifiers.
pub open spec fn rows_distinct(rows: Seq<CommentRow>) -> bool {
    forall|i: int, j: int| 0 <= i < rows.len() && 0 <= j < rows.len() && i != j ==> rows[i].comment_id != rows[j].comment_id
}

/// Whether some row has the given identifier.
pub open spec fn row_has_id(rows: Seq<CommentRow>, x: u128) -> bool {
    exists|i: int| 0 <= i < rows.len() && (#[trigger] rows[i]).comment_id == x
}

proof fn lemma_add_to_group_shape(gs: Groups, k: Option<u128>, t: CommentTree)
    requires
        keys_distinct(gs),
        groups_leaves(gs),
        t.replies.len() == 0,
    ensures
        keys_distinct(add_to_group(gs, k, t)),
        groups_leaves(add_to_group(gs, k, t)),
        forall|x: u128| in_groups(add_to_group(gs, k, t), x) ==> in_groups(gs, x) || x == t.comment_id,
        in_groups(add_to_group(gs, k, t), t.comment_id),
{
    lemma_key_pos(gs, k);
    let p = key_pos(gs, k);
    let g = add_to_group(gs, k, t);
    if p < 0 {
        assert(g == gs.push((k, seq![t])));
        assert(g[gs.len() as int].1[0] == t);
    } else {
        assert(g == gs.update(p, (k, gs[p].1.push(t))));
        assert(g[p].1[gs[p].1.len() as int] == t);
        assert forall|i: int, j: int| 0 <= i < g.len() && 0 <= j < g[i].1.len() implies (#[trigger] g[i].1[j]).replies.len() == 0 by {
            if i == p && j < gs[p].1.len() {
                assert(g[i].1[j] == gs[p].1[j]);
            }
        }
    }
    assert forall|x: u128| in_groups(g, x) implies in_groups(gs, x) || x == t.comment_id by {
        let (i, j) = choose|i: int, j: int| 0 <= i < g.len() && 0 <= j < g[i].1.len() && (#[trigger] g[i].1[j]).comment_id == x;
        if i < gs.len() && j < gs[i].1.len() && g[i].1[j] == gs[i].1[j] {
            assert(gs[i].1[j].comment_id == x);
        }
    }
}

/// Grouping keeps one group per parent, with comments that have no replies yet.
pub proof fn lemma_group_rows_shape(rows: Seq<CommentRow>)
    ensures
        keys_distinct(group_rows(rows)),
        groups_leaves(group_rows(rows)),
        forall|x: u128| in_groups(group_rows(rows), x) ==> row_has_id(rows, x),
    decreases rows.len(),
{
    if rows.len() > 0 {
        let front = rows.drop_last();
        lemma_group_rows_shape(front);
        let r = rows.last();
        lemma_add_to_group_shape(group_rows(front), r.parent_comment_id, row_leaf(r));
        assert forall|x: u128| in_groups(group_rows(rows), x) implies row_has_id(rows, x) by {
            assert(group_rows(rows) == add_to_group(group_rows(front), r.parent_comment_id, row_leaf(r)));
            if in_groups(group_rows(front), x) {
                assert(row_has_id(front, x));
                let i = choose|i: int| 0 <= i < front.len() && (#[trigger] front[i]).comment_id == x;
                assert(rows[i] == front[i]);
            } else {
                assert(x == row_leaf(r).comment_id);
                assert(rows[rows.len() - 1] == r);
            }
        }
    }
}

proof fn lemma_add_to_group_distinct(gs: Groups, k: Option<u128>, t: CommentTree)
    requires
        groups_distinct(gs),
        !in_groups(gs, t.comment_id),
    ensures
        groups_distinct(add_to_group(gs, k, t)),
{
    lemma_key_pos(gs, k);
    let p = key_pos(gs, k);
    let g = add_to_group(gs, k, t);
    // The comment at a position of the new groups: the old one, or `t` where it was added.
    assert forall|i: int, j: int, i2: int, j2: int|
        0 <= i < g.len() && 0 <= j < g[i].1.len() && 0 <= i2 < g.len() && 0 <= j2 < g[i2].1.len()
            && (#[trigger] g[i].1[j]).comment_id == (#[trigger] g[i2].1[j2]).comment_id implies i == i2 && j == j2 by {
        let new_i = if p < 0 { gs.len() as int } else { p };
        let new_j = if p < 0 { 0 } else { gs[p].1.len() as int };
        let a_new = i == new_i && j == new_j;
        let b_new = i2 == new_i && j2 == new_j;
        if p < 0 {
            assert(g == gs.push((k, seq![t])));
        } else {
            assert(g == gs.update(p, (k, gs[p].1.push(t))));
        }
        if !a_new {
            assert(0 <= i < gs.len() && 0 <= j < gs[i].1.len());
            assert(g[i].1[j] == gs[i].1[j]);
        }
        if !b_new {
            assert(0 <= i2 < gs.len() && 0 <= j2 < gs[i2].1.len());
            assert(g[i2].1[j2] == gs[i2].1[j2]);
        }
        if a_new {
            assert(g[i].1[j] == t);
        }
        if b_new {
            assert(g[i2].1[j2] == t);
        }
    }
}

/// With distinct row identifiers, no identifier occurs twice among the groups.
pub proof fn lemma_group_rows_distinct(rows: Seq<CommentRow>)
    requires
        rows_distinct(rows),
    ensures
        groups_distinct(group_rows(rows)),
    decreases rows.len(),
{
    if rows.len() > 0 {
        let front = rows.drop_last();
        assert forall|i: int, j: int| 0 <= i < front.len() && 0 <= j < front.len() && i != j implies front[i].comment_id != front[j].comment_id by {
            assert(front[i] == rows[i] && front[j] == rows[j]);
        }
        lemma_group_rows_distinct(front);
        lemma_group_rows_shape(front);
        let r = rows.last();
        assert(!in_groups(group_rows(front), r.comment_id)) by {
            if in_groups(group_rows(front), r.comment_id) {
                assert(row_has_id(front, r.comment_id));
                let i = choose|i: int| 0 <= i < front.len() && (#[trigger] front[i]).comment_id == r.comment_id;
                assert(rows[i] == front[i]);
                assert(rows[rows.len() - 1] == r);
            }
        }
        lemma_add_to_group_distinct(group_rows(front), r.parent_comment_id, row_leaf(r));
        assert(group_rows(rows) == add_to_group(group_rows(front), r.parent_comment_id, row_leaf(r)));
    }
}

/// Whether every group holds exactly the comments whose parent is its key, in row order.
pub open spec fn groups_match(gs: Groups, rows: Seq<CommentRow>) -> bool {
    forall|i: int| 0 <= i < gs.len() ==> ids(#[trigger] gs[i].1) == child_ids(rows, gs[i].0)
}

/// Whether every parent that has children and no group left has been served already.
pub open spec fn complete(gs: Groups, rows: Seq<CommentRow>, served: Set<Option<u128>>) -> bool {
    forall|k: Option<u128>| #[trigger] child_ids(rows, k).len() > 0 && key_pos(gs, k) < 0 ==> served.contains(k)
}

/// Whether `f` sends each group of `gs2` to the same group in `gs`.
pub open spec fn maps_into(gs2: Groups, gs: Groups, f: spec_fn(int) -> int) -> bool {
    forall|i2: int| #![trigger gs2[i2]] 0 <= i2 < gs2.len() ==> 0 <= f(i2) && f(i2) < gs.len() && gs2[i2] == gs[f(i2)]
}

/// Whether `gs2` keeps only groups of `gs`.
pub open spec fn kept_from(gs2: Groups, gs: Groups) -> bool {
    exists|f: spec_fn(int) -> int| #[trigger] maps_into(gs2, gs, f)
}

/// Whether a list of comments has distinct identifiers.
pub open spec fn list_distinct(ns: Seq<CommentTree>) -> bool {
    forall|i: int, j: int| 0 <= i < ns.len() && 0 <= j < ns.len() && i != j ==> ns[i].comment_id != ns[j].comment_id
}

/// Whether a comment, at every depth, carries as replies exactly the comments whose parent
/// it is, in row order.
pub open spec fn replies_are_children(t: CommentTree, rows: Seq<CommentRow>) -> bool
    decreases t,
{
    &&& ids(t.replies) == child_ids(rows, Some(t.comment_id))
    &&& forall|i: int| 0 <= i < t.replies.len() ==> replies_are_children(#[trigger] t.replies[i], rows)
}

proof fn lemma_kept(gs2: Groups, gs: Groups, rows: Seq<CommentRow>)
    requires
        kept_from(gs2, gs),
        keys_distinct(gs2),
        groups_distinct(gs),
        groups_match(gs, rows),
        groups_leaves(gs),
    ensures
        groups_distinct(gs2),
        groups_match(gs2, rows),
        groups_leaves(gs2),
        forall|x: u128| in_groups(gs2, x) ==> in_groups(gs, x),
{
    let f = choose|f: spec_fn(int) -> int| #[trigger] maps_into(gs2, gs, f);
    assert forall|i2: int| 0 <= i2 < gs2.len() implies ids(#[trigger] gs2[i2].1) == child_ids(rows, gs2[i2].0) by {
        assert(gs2[i2] == gs[f(i2)]);
    }
    assert forall|i2: int, j: int| 0 <= i2 < gs2.len() && 0 <= j < gs2[i2].1.len() implies (#[trigger] gs2[i2].1[j]).replies.len() == 0 by {
        let i = f(i2);
        assert(gs2[i2] == gs[i]);
        assert(gs2[i2].1[j] == gs[i].1[j]);
    }
    assert forall|a: int, j: int, b: int, j2: int|
        0 <= a < gs2.len() && 0 <= j < gs2[a].1.len() && 0 <= b < gs2.len() && 0 <= j2 < gs2[b].1.len()
            && (#[trigger] gs2[a].1[j]).comment_id == (#[trigger] gs2[b].1[j2]).comment_id implies a == b && j == j2 by {
        let i = f(a);
        let i2 = f(b);
        assert(gs2[a] == gs[i] && gs2[b] == gs[i2]);
        assert(gs2[a].1[j] == gs[i].1[j]);
        assert(gs2[b].1[j2] == gs[i2].1[j2]);
        assert(i == i2 && j == j2);
        assert(gs2[a].0 == gs2[b].0);
    }
    assert forall|x: u128| in_groups(gs2, x) implies in_groups(gs, x) by {
        let (a, j) = choose|a: int, j: int| 0 <= a < gs2.len() && 0 <= j < gs2[a].1.len() && (#[trigger] gs2[a].1[j]).comment_id == x;
        let i = f(a);
        assert(gs2[a] == gs[i]);
        assert(gs2[a].1[j] == gs[i].1[j]);
    }
}

proof fn lemma_remove_group(gs: Groups, p: int)
    requires
        keys_distinct(gs),
        0 <= p < gs.len(),
    ensures
        keys_distinct(gs.remove(p)),
        kept_from(gs.remove(p), gs),
        forall|k: Option<u128>| k != gs[p].0 ==> (key_pos(gs.remove(p), k) >= 0 <==> key_pos(gs, k) >= 0),
        forall|x: u128| in_groups(gs.remove(p), x) ==> exists|i: int, j: int| 0 <= i < gs.len() && i != p && 0 <= j < gs[i].1.len() && (#[trigger] gs[i].1[j]).comment_id == x,
{
    let g2 = gs.remove(p);
    assert forall|a: int, b: int| 0 <= a < g2.len() && 0 <= b < g2.len() && a != b implies g2[a].0 != g2[b].0 by {
        let ia = if a < p { a } else { a + 1 };
        let ib = if b < p { b } else { b + 1 };
        assert(g2[a] == gs[ia] && g2[b] == gs[ib]);
    }
    let f = |i2: int| if i2 < p { i2 } else { i2 + 1 };
    assert forall|i2: int| #![trigger g2[i2]] 0 <= i2 < g2.len() implies 0 <= f(i2) && f(i2) < gs.len() && g2[i2] == gs[f(i2)] by {
    }
    assert(maps_into(g2, gs, f));
    assert forall|k: Option<u128>| k != gs[p].0 implies (key_pos(g2, k) >= 0 <==> key_pos(gs, k) >= 0) by {
        lemma_key_pos(gs, k);
        lemma_key_pos(g2, k);
        if key_pos(gs, k) >= 0 {
            let q = key_pos(gs, k);
            let q2 = if q < p { q } else { q - 1 };
            assert(g2[q2] == gs[q]);
        }
        if key_pos(g2, k) >= 0 {
            let q2 = key_pos(g2, k);
            let q = if q2 < p { q2 } else { q2 + 1 };
            assert(g2[q2] == gs[q]);
        }
    }
    assert forall|x: u128| in_groups(g2, x) implies exists|i: int, j: int| 0 <= i < gs.len() && i != p && 0 <= j < gs[i].1.len() && (#[trigger] gs[i].1[j]).comment_id == x by {
        let (a, j) = choose|a: int, j: int| 0 <= a < g2.len() && 0 <= j < g2[a].1.len() && (#[trigger] g2[a].1[j]).comment_id == x;
        let i = if a < p { a } else { a + 1 };
        assert(g2[a] == gs[i]);
        assert(gs[i].1[j].comment_id == x);
    }
}

/// Attaching the replies of `k` to a comment that has not been served yet gives exactly
/// the comments whose parent is `k`, each right at every depth, and serves `k` and every
/// comment taken out of the groups.
proof fn lemma_attach_right(k: Option<u128>, gs: Groups, rows: Seq<CommentRow>, served: Set<Option<u128>>)
    requires
        keys_distinct(gs),
        groups_match(gs, rows),
        groups_leaves(gs),
        groups_distinct(gs),
        complete(gs, rows, served),
        !served.contains(k),
        forall|x: u128| in_groups(gs, x) ==> !served.contains(Some(x)),
        k matches Some(x) ==> !in_groups(gs, x),
    ensures
        ids(attach(k, gs).0) == child_ids(rows, k),
        forall|i: int| 0 <= i < attach(k, gs).0.len() ==> replies_are_children(#[trigger] attach(k, gs).0[i], rows),
        keys_distinct(attach(k, gs).1),
        groups_distinct(attach(k, gs).1),
        groups_match(attach(k, gs).1, rows),
        groups_leaves(attach(k, gs).1),
        forall|x: u128| in_groups(attach(k, gs).1, x) ==> in_groups(gs, x),
        forall|kk: Option<u128>| #[trigger] child_ids(rows, kk).len() > 0 && key_pos(attach(k, gs).1, kk) < 0
            ==> served.contains(kk) || kk == k || (kk matches Some(x) && in_groups(gs, x) && !in_groups(attach(k, gs).1, x)),
    decreases gs.len(), 0nat, 0nat,
{
    lemma_key_pos(gs, k);
    let p = key_pos(gs, k);
    if p < 0 || p >= gs.len() {
        if child_ids(rows, k).len() > 0 {
            assert(served.contains(k));
        }
        assert(ids(attach(k, gs).0) =~= child_ids(rows, k));
    } else {
        let ns = gs[p].1;
        let g2 = gs.remove(p);
        lemma_remove_group(gs, p);
        lemma_kept(g2, gs, rows);
        assert(ids(ns) == child_ids(rows, k));
        let served2 = served.insert(k);
        // The comments of the group, and what is left of the groups.
        assert forall|i: int, j: int| 0 <= i < ns.len() && 0 <= j < ns.len() && i != j implies ns[i].comment_id != ns[j].comment_id by {
            assert(gs[p].1[i] == ns[i] && gs[p].1[j] == ns[j]);
        }
        assert forall|j: int| 0 <= j < ns.len() implies !in_groups(g2, (#[trigger] ns[j]).comment_id) by {
            assert(gs[p].1[j] == ns[j]);
            if in_groups(g2, ns[j].comment_id) {
                let (i, j2) = choose|i: int, j2: int| 0 <= i < gs.len() && i != p && 0 <= j2 < gs[i].1.len() && (#[trigger] gs[i].1[j2]).comment_id == ns[j].comment_id;
            }
        }
        assert forall|j: int| 0 <= j < ns.len() implies !served2.contains(Some((#[trigger] ns[j]).comment_id)) by {
            assert(gs[p].1[j] == ns[j]);
            assert(in_groups(gs, ns[j].comment_id));
        }
        assert forall|x: u128| in_groups(g2, x) implies !served2.contains(Some(x)) by {
            assert(in_groups(gs, x));
        }
        assert forall|j: int| 0 <= j < ns.len() implies (#[trigger] ns[j]).replies.len() == 0 by {
            assert(gs[p].1[j] == ns[j]);
        }
        assert forall|kk: Option<u128>| #[trigger] child_ids(rows, kk).len() > 0 && key_pos(g2, kk) < 0 implies served2.contains(kk) by {
            lemma_key_pos(gs, kk);
            if kk != k {
                assert(key_pos(gs, kk) < 0);
            }
        }
        lemma_attach_list_right(ns, g2, rows, served2);
        let r = attach_list(ns, g2);
        assert(attach(k, gs) == r);
        lemma_attach_list_ids(ns, g2);
        assert forall|kk: Option<u128>| #[trigger] child_ids(rows, kk).len() > 0 && key_pos(r.1, kk) < 0 implies
            served.contains(kk) || kk == k || (kk matches Some(x) && in_groups(gs, x) && !in_groups(r.1, x)) by {
            if !served2.contains(kk) {
                let x = kk->0;
                if ids(ns).contains(x) {
                    let j = choose|j: int| 0 <= j < ids(ns).len() && ids(ns)[j] == x;
                    assert(gs[p].1[j] == ns[j]);
                    assert(in_groups(gs, x));
                    assert(!in_groups(g2, x));
                } else {
                    assert(in_groups(g2, x));
                    assert(in_groups(gs, x));
                }
            }
        }
    }
}

/// Attaching the replies of each comment of `ns`, none served yet and none left in the
/// groups, makes each right at every depth, and serves them and every comment taken out
/// of the groups.
proof fn lemma_attach_list_right(ns: Seq<CommentTree>, gs: Groups, rows: Seq<CommentRow>, served: Set<Option<u128>>)
    requires
        keys_distinct(gs),
        groups_match(gs, rows),
        groups_leaves(gs),
        groups_distinct(gs),
        complete(gs, rows, served),
        list_distinct(ns),
        forall|j: int| 0 <= j < ns.len() ==> (#[trigger] ns[j]).replies.len() == 0,
        forall|j: int| 0 <= j < ns.len() ==> !in_groups(gs, (#[trigger] ns[j]).comment_id),
        forall|j: int| 0 <= j < ns.len() ==> !served.contains(Some((#[trigger] ns[j]).comment_id)),
        forall|x: u128| in_groups(gs, x) ==> !served.contains(Some(x)),
    ensures
        forall|i: int| 0 <= i < attach_list(ns, gs).0.len() ==> replies_are_children(#[trigger] attach_list(ns, gs).0[i], rows),
        keys_distinct(attach_list(ns, gs).1),
        groups_distinct(attach_list(ns, gs).1),
        groups_match(attach_list(ns, gs).1, rows),
        groups_leaves(attach_list(ns, gs).1),
        forall|x: u128| in_groups(attach_list(ns, gs).1, x) ==> in_groups(gs, x),
        forall|kk: Option<u128>| #[trigger] child_ids(rows, kk).len() > 0 && key_pos(attach_list(ns, gs).1, kk) < 0
            ==> served.contains(kk) || (kk matches Some(x) && (ids(ns).contains(x) || (in_groups(gs, x) && !in_groups(attach_list(ns, gs).1, x)))),
    decreases gs.len(), 1nat, ns.len(),
{
    if ns.len() == 0 {
    } else {
        let n0 = ns[0];
        let x0 = n0.comment_id;
        lemma_attach_right(Some(x0), gs, rows, served);
        lemma_attach_shrinks(Some(x0), gs);
        let r1 = attach(Some(x0), gs);
        let g1 = r1.1;
        let served1 = served.insert(Some(x0)).union(
            Set::new(|kk: Option<u128>| kk matches Some(x) && in_groups(gs, x) && !in_groups(g1, x)),
        );
        let rest = ns.drop_first();
        assert forall|i: int, j: int| 0 <= i < rest.len() && 0 <= j < rest.len() && i != j implies rest[i].comment_id != rest[j].comment_id by {
            assert(rest[i] == ns[i + 1] && rest[j] == ns[j + 1]);
        }
        assert forall|j: int| 0 <= j < rest.len() implies (#[trigger] rest[j]).replies.len() == 0 by {
            assert(rest[j] == ns[j + 1]);
        }
        assert forall|j: int| 0 <= j < rest.len() implies !in_groups(g1, (#[trigger] rest[j]).comment_id) by {
            assert(rest[j] == ns[j + 1]);
        }
        assert forall|j: int| 0 <= j < rest.len() implies !served1.contains(Some((#[trigger] rest[j]).comment_id)) by {
            assert(rest[j] == ns[j + 1]);
            assert(ns[j + 1].comment_id != ns[0].comment_id);
            assert(!in_groups(gs, ns[j + 1].comment_id));
        }
        assert forall|x: u128| in_groups(g1, x) implies !served1.contains(Some(x)) by {
            assert(in_groups(gs, x));
            assert(!in_groups(gs, x0));
        }
        assert forall|kk: Option<u128>| #[trigger] child_ids(rows, kk).len() > 0 && key_pos(g1, kk) < 0 implies served1.contains(kk) by {
        }
        lemma_attach_list_right(rest, g1, rows, served1);
        let r2 = attach_list(rest, g1);
        let head = CommentTree { replies: r1.0, ..n0 };
        assert(attach_list(ns, gs) == (seq![head] + r2.0, r2.1));
        assert(replies_are_children(head, rows));
        assert forall|i: int| 0 <= i < attach_list(ns, gs).0.len() implies replies_are_children(#[trigger] attach_list(ns, gs).0[i], rows) by {
            if i > 0 {
                assert(attach_list(ns, gs).0[i] == r2.0[i - 1]);
            }
        }
        assert forall|kk: Option<u128>| #[trigger] child_ids(rows, kk).len() > 0 && key_pos(r2.1, kk) < 0 implies
            served.contains(kk) || (kk matches Some(x) && (ids(ns).contains(x) || (in_groups(gs, x) && !in_groups(r2.1, x)))) by {
            if !served.contains(kk) {
                let x = kk->0;
                if kk == Some(x0) {
                    assert(ids(ns)[0] == x0);
                } else if ids(rest).contains(x) {
                    let j = choose|j: int| 0 <= j < ids(rest).len() && ids(rest)[j] == x;
                    assert(ids(ns)[j + 1] == x);
                } else if served1.contains(kk) {
                    assert(in_groups(gs, x) && !in_groups(g1, x));
                } else {
                    assert(in_groups(g1, x) && !in_groups(r2.1, x));
                }
            }
        }
    }
}

proof fn lemma_mask_keeps_children(t: CommentTree, rows: Seq<CommentRow>)
    requires
        replies_are_children(t, rows),
    ensures
        replies_are_children(mask(t), rows),
    decreases t,
{
    let m = mask(t);
    lemma_mask_hides(t);
    assert forall|i: int| 0 <= i < m.replies.len() implies replies_are_children(#[trigger] m.replies[i], rows) by {
        lemma_mask_keeps_children(t.replies[i], rows);
    }
    assert forall|i: int| 0 <= i < m.replies.len() implies #[trigger] m.replies[i].comment_id == t.replies[i].comment_id by {
        lemma_mask_hides(t.replies[i]);
    }
    assert(ids(m.replies) =~= ids(t.replies));
}

/// With distinct comment identifiers, every comment of a post's threads, at every depth,
/// carries as replies exactly the comments whose parent it is, in row order; the threads
/// themselves are the comments without a parent (see `law_top_level_threads`).
pub proof fn law_replies_are_children(rows: Seq<CommentRow>)
    requires
        rows_distinct(rows),
    ensures
        forall|i: int| 0 <= i < comment_forest(rows).len() ==> replies_are_children(#[trigger] comment_forest(rows)[i], rows),
{
    let gs = group_rows(rows);
    lemma_group_rows_shape(rows);
    lemma_group_rows_distinct(rows);
    assert forall|i: int| 0 <= i < gs.len() implies ids(#[trigger] gs[i].1) == child_ids(rows, gs[i].0) by {
        let k = gs[i].0;
        lemma_group_rows_key(rows, k);
        lemma_key_pos(gs, k);
        let q = key_pos(gs, k);
        assert(q >= 0);
        if q != i {
            assert(gs[q].0 == gs[i].0);
        }
    }
    let served = Set::<Option<u128>>::empty();
    assert forall|k: Option<u128>| #[trigger] child_ids(rows, k).len() > 0 && key_pos(gs, k) < 0 implies served.contains(k) by {
        lemma_group_rows_key(rows, k);
    }
    lemma_attach_right(None, gs, rows, served);
    let roots = attach(None, gs).0;
    assert forall|i: int| 0 <= i < comment_forest(rows).len() implies replies_are_children(#[trigger] comment_forest(rows)[i], rows) by {
        lemma_mask_keeps_children(roots[i], rows);
    }
}

} // verus!
