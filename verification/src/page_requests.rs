//! The decisions a page takes on its request before the forum is asked: which session it
//! speaks for, whose space it shows, and whether the editor may open a post.
use vstd::prelude::*;

use crate::bridge::{parse_uuid, uuid_parse};
use crate::error::ForumError;
use crate::posts::PostDetail;
use crate::text::{is_blank, str_eq, trim};

verus! {

/// The session a page speaks for: none for a blank field, else the field (as it is, not
/// trimmed) read as a UUID, whose parse error is passed on.
pub open spec fn session_of(text: Seq<char>) -> Result<Option<u128>, Seq<char>> {
    if trim(text).len() == 0 {
        Ok(None)
    } else {
        match uuid_parse(text) {
            Ok(v) => Ok(Some(v)),
            Err(e) => Err(e),
        }
    }
}

/// The outcome of reading an optional identifier, by its views.
pub open spec fn id_view(r: Result<Option<u128>, String>) -> Result<Option<u128>, Seq<char>> {
    match r {
        Ok(v) => Ok(v),
        Err(e) => Err(e@),
    }
}

/// Reads a page's session field (see `session_of`).
pub fn session_field(session_id: &str) -> (r: Result<Option<u128>, String>)
    ensures
        id_view(r) == session_of(session_id@),
{
    if is_blank(session_id) {
        return Ok(None);
    }
    match parse_uuid(session_id) {
        Ok(v) => Ok(Some(v)),
        Err(e) => Err(e),
    }
}

/// Reads an optional session field of a page: absent or blank is no session.
pub fn optional_session_field(session_id: &Option<String>) -> (r: Result<Option<u128>, String>)
    ensures
        id_view(r) == match *session_id {
            Some(s) => session_of(s@),
            None => Ok(None),
        },
{
    match session_id {
        Some(s) => session_field(s.as_str()),
        None => Ok(None),
    }
}

/// Whose space a user-space page shows.
#[derive(Clone, Copy, Debug, PartialEq, Eq, Structural)]
pub enum SpaceTarget {
    /// The viewer's own space (or the demonstration user's without a session).
    Own,
    /// The space of the given user.
    User(u128),
}

/// The space a route names: `me`, `sample` or nothing is one's own, anything else is
/// read as a user's UUID, whose parse error is passed on.
pub open spec fn space_target_of(text: Seq<char>) -> Result<SpaceTarget, Seq<char>> {
    if text == "me"@ || text == "sample"@ || text.len() == 0 {
        Ok(SpaceTarget::Own)
    } else {
        match uuid_parse(text) {
            Ok(v) => Ok(SpaceTarget::User(v)),
            Err(e) => Err(e),
        }
    }
}

/// Reads the space a route names (see `space_target_of`).
pub fn space_target(profile_user_id: &str) -> (r: Result<SpaceTarget, String>)
    ensures
        match r {
            Ok(t) => space_target_of(profile_user_id@) == Ok::<SpaceTarget, Seq<char>>(t),
            Err(e) => space_target_of(profile_user_id@) == Err::<SpaceTarget, Seq<char>>(e@),
        },
{
    if str_eq(profile_user_id, "me") || str_eq(profile_user_id, "sample") || profile_user_id.is_empty() {
        return Ok(SpaceTarget::Own);
    }
    match parse_uuid(profile_user_id) {
        Ok(v) => Ok(SpaceTarget::User(v)),
        Err(e) => Err(e),
    }
}

/// The owner of the space shown and the viewer it is shown to: one's own space belongs
/// to the signed-in viewer (or, without one, to the demonstration user) and is viewed by
/// its owner; another user's space is viewed by whoever is signed in.
pub fn space_owner(target: SpaceTarget, viewer: Option<u128>, demo_user: u128) -> (r: (u128, Option<u128>))
    ensures
        match target {
            SpaceTarget::Own => {
                let owner = match viewer {
                    Some(v) => v,
                    None => demo_user,
                };
                r == (owner, Some(owner))
            },
            SpaceTarget::User(id) => r == (id, viewer),
        },
{
    match target {
        SpaceTarget::Own => {
            let owner = match viewer {
                Some(v) => v,
                None => demo_user,
            };
            (owner, Some(owner))
        },
        SpaceTarget::User(id) => (id, viewer),
    }
}

/// What the editor is asked to open: nothing for a blank post field; else the session
/// and the post, both read as UUIDs as they are (the session first), whose parse errors
/// are passed on.
pub open spec fn editor_ids_of(session_id: Seq<char>, post_id: Seq<char>) -> Result<Option<(u128, u128)>, Seq<char>> {
    if trim(post_id).len() == 0 {
        Ok(None)
    } else {
        match uuid_parse(session_id) {
            Err(e) => Err(e),
            Ok(s) => match uuid_parse(post_id) {
                Err(e) => Err(e),
                Ok(p) => Ok(Some((s, p))),
            },
        }
    }
}

/// Reads the editor's session and post fields (see `editor_ids_of`).
pub fn editor_ids(session_id: &str, post_id: &str) -> (r: Result<Option<(u128, u128)>, String>)
    ensures
        match r {
            Ok(v) => editor_ids_of(session_id@, post_id@) == Ok::<Option<(u128, u128)>, Seq<char>>(v),
            Err(e) => editor_ids_of(session_id@, post_id@) == Err::<Option<(u128, u128)>, Seq<char>>(e@),
        },
{
    if is_blank(post_id) {
        return Ok(None);
    }
    let s = match parse_uuid(session_id) {
        Ok(v) => v,
        Err(e) => return Err(e),
    };
    match parse_uuid(post_id) {
        Ok(p) => Ok(Some((s, p))),
        Err(e) => Err(e),
    }
}

/// The editor opens only the signed-in user's own posts; anyone else's is forbidden.
pub fn editor_post_access(post: PostDetail, session_user_id: u128) -> (r: Result<PostDetail, ForumError>)
    ensures
        post.summary.author_id == session_user_id ==> r == Ok::<PostDetail, ForumError>(post),
        post.summary.author_id != session_user_id ==> r == Err::<PostDetail, ForumError>(ForumError::Forbidden),
{
    if post.summary.author_id != session_user_id {
        return Err(ForumError::Forbidden);
    }
    Ok(post)
}

} // verus!
