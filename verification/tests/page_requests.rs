use post::error::ForumError;
use post::page_data::fallback_post_detail_page;
use post::page_requests::{
    editor_ids, editor_post_access, optional_session_field, session_field, space_owner, space_target,
    SpaceTarget,
};

const ID: &str = "00000000-0000-0000-0000-00000000002a";

#[test]
fn session_fields_are_optional() {
    assert_eq!(session_field("  "), Ok(None));
    assert_eq!(session_field(ID), Ok(Some(42)));
    assert!(session_field(" 00000000-0000-0000-0000-00000000002a ").is_err());
    assert!(session_field("nope").is_err());
    assert_eq!(optional_session_field(&None), Ok(None));
    assert_eq!(optional_session_field(&Some(String::new())), Ok(None));
    assert_eq!(optional_session_field(&Some(ID.to_string())), Ok(Some(42)));
}

#[test]
fn spaces_are_named_by_route() {
    assert_eq!(space_target("me"), Ok(SpaceTarget::Own));
    assert_eq!(space_target("sample"), Ok(SpaceTarget::Own));
    assert_eq!(space_target(""), Ok(SpaceTarget::Own));
    assert_eq!(space_target(ID), Ok(SpaceTarget::User(42)));
    assert!(space_target("Me").is_err());
    assert_eq!(space_owner(SpaceTarget::Own, None, 7), (7, Some(7)));
    assert_eq!(space_owner(SpaceTarget::Own, Some(3), 7), (3, Some(3)));
    assert_eq!(space_owner(SpaceTarget::User(42), None, 7), (42, None));
    assert_eq!(space_owner(SpaceTarget::User(42), Some(3), 7), (42, Some(3)));
}

#[test]
fn the_editor_opens_only_own_posts() {
    assert_eq!(editor_ids("", "  "), Ok(None));
    assert_eq!(editor_ids(ID, ID), Ok(Some((42, 42))));
    assert!(editor_ids("bad", ID).is_err());
    assert!(editor_ids(ID, "bad").is_err());
    let mut post = fallback_post_detail_page(String::new()).post;
    post.summary.author_id = 5;
    assert_eq!(editor_post_access(post.clone(), 6), Err(ForumError::Forbidden));
    assert_eq!(editor_post_access(post.clone(), 5), Ok(post));
}
