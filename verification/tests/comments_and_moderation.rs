use post::comments::{mask_deleted, CommentNode, CommentPageQuery, CommentRow, PostgresCommentRepository};
use post::moderation::{
    ModerationCommentDbRow, ModerationCommentRow, ModerationPostAction, ModerationPostActionRow,
    ModerationPostDbRow, ModerationPostRow,
};
use post::posts::PostStatus;

fn row(id: u128, parent: Option<u128>, status: &str, author: u128) -> CommentRow {
    CommentRow {
        comment_id: id,
        post_id: 100,
        parent_comment_id: parent,
        author_id: author,
        author_name: format!("user{author}"),
        content: format!("comment {id}"),
        status: status.to_string(),
        like_count: 0,
        created_at: id as i128,
        post_author_id: 7,
    }
}

fn ids(nodes: &[CommentNode]) -> Vec<u128> {
    nodes.iter().map(|n| n.comment_id).collect()
}

#[test]
fn comment_tree_nests_replies_in_row_order() {
    let rows = vec![
        row(1, None, "visible", 7),
        row(2, Some(1), "visible", 8),
        row(3, None, "deleted", 9),
        row(4, Some(2), "visible", 7),
        row(5, Some(1), "visible", 9),
    ];
    let tree = PostgresCommentRepository::build_comment_tree(rows);
    assert_eq!(ids(&tree), vec![1, 3]);
    assert_eq!(ids(&tree[0].replies), vec![2, 5]);
    assert_eq!(ids(&tree[0].replies[0].replies), vec![4]);
    assert!(tree[0].author_reply);
    assert!(!tree[0].replies[0].author_reply);
    assert!(tree[1].deleted);
    assert_eq!(tree[1].content, "该评论已被删除");
    assert_eq!(tree[0].content, "comment 1");
}

#[test]
fn orphan_replies_are_left_out() {
    let rows = vec![row(1, None, "visible", 1), row(2, Some(99), "visible", 1)];
    let tree = PostgresCommentRepository::build_comment_tree(rows);
    assert_eq!(ids(&tree), vec![1]);
    assert!(tree[0].replies.is_empty());
    assert!(PostgresCommentRepository::build_comment_tree(Vec::new()).is_empty());
}

#[test]
fn deleted_replies_are_masked_at_depth() {
    let rows = vec![row(1, None, "visible", 1), row(2, Some(1), "deleted", 1), row(3, Some(2), "deleted", 1)];
    let tree = PostgresCommentRepository::build_comment_tree(rows);
    assert_eq!(tree[0].replies[0].content, "该评论已被删除");
    assert_eq!(tree[0].replies[0].replies[0].content, "该评论已被删除");
    let node = CommentNode {
        comment_id: 1,
        post_id: 1,
        parent_comment_id: None,
        author_id: 1,
        author_name: "a".to_string(),
        content: "kept".to_string(),
        deleted: false,
        author_reply: false,
        like_count: 3,
        created_at: 0,
        replies: Vec::new(),
    };
    assert_eq!(mask_deleted(node).content, "kept");
}

#[test]
fn comment_page_query_normalization() {
    assert_eq!(CommentPageQuery::default(), CommentPageQuery { page: 1, page_size: 20 });
    assert_eq!(CommentPageQuery { page: 0, page_size: 0 }.normalized(), CommentPageQuery { page: 1, page_size: 20 });
    assert_eq!(CommentPageQuery { page: 3, page_size: 500 }.normalized(), CommentPageQuery { page: 3, page_size: 100 });
    let once = CommentPageQuery { page: 0, page_size: 250 }.normalized();
    assert_eq!(CommentPageQuery { page: once.page, page_size: once.page_size }.normalized(), once);
    assert!(PostgresCommentRepository::comments_for_post_sql().contains("order by c.created_at asc"));
}

#[test]
fn moderation_rows() {
    let post: ModerationPostRow = ModerationPostDbRow {
        post_id: 1,
        title: "t".to_string(),
        author_name: "a".to_string(),
        category_name: None,
        status: "offline".to_string(),
        pinned: true,
        comment_count: 2,
        view_count: 3,
        updated_at: None,
    }
    .into();
    assert_eq!(post.status, PostStatus::Offline);
    assert!(post.pinned);
    assert!(!post.locked);
    let action: ModerationPostAction = ModerationPostActionRow { post_id: 1, status: "weird".to_string(), pinned: false }.into();
    assert_eq!(action.status, PostStatus::Draft);
    let comment: ModerationCommentRow = ModerationCommentDbRow {
        comment_id: 2,
        post_id: 1,
        post_title: "p".to_string(),
        author_name: "b".to_string(),
        content: "c".to_string(),
        deleted: true,
        created_at: 5,
    }
    .into();
    assert!(comment.deleted);
    assert_eq!(comment.created_at, 5);
}

#[test]
fn replies_find_their_parent_whatever_the_row_order() {
    let rows = vec![
        row(3, Some(2), "visible", 1),
        row(2, Some(1), "visible", 1),
        row(1, None, "visible", 1),
        row(4, Some(1), "visible", 1),
    ];
    let tree = PostgresCommentRepository::build_comment_tree(rows);
    assert_eq!(ids(&tree), vec![1]);
    assert_eq!(ids(&tree[0].replies), vec![2, 4]);
    assert_eq!(ids(&tree[0].replies[0].replies), vec![3]);
    assert!(tree[0].replies[1].replies.is_empty());
}
