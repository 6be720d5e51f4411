//! The decisions taken on submitted forms before the forum acts on them: which request a
//! post form becomes, and how optional identifiers and times are read.
use vstd::prelude::*;

use crate::announcements::{AnnouncementAudience, CreateAnnouncementRequest};
use crate::bridge::{parse_plain_datetime, parse_uuid, plain_datetime_parse, string_from_chars, uuid_parse};
use crate::comments::CreateCommentRequest;
use crate::posts::{AutosaveDraftRequest, CreatePostRequest, PostDetail, UpdatePostRequest};
use crate::text::{
    is_blank, is_ws, join, kept_trimmed, lemma_kept_trimmed_padded, lemma_split_join,
    lemma_trim_empty_iff_blank, opt_view, padded,
    push_joined, split_on, split_trimmed, str_eq, texts, trim, trim_str,
};

verus! {

/// An optional identifier field: blank means none, otherwise the trimmed text is parsed
/// as a UUID, and a parse error is passed on.
pub open spec fn optional_uuid_of(text: Seq<char>) -> Result<Option<u128>, Seq<char>> {
    if trim(text).len() == 0 {
        Ok(None)
    } else {
        match uuid_parse(trim(text)) {
            Ok(v) => Ok(Some(v)),
            Err(e) => Err(e),
        }
    }
}

/// The outcome of reading an optional identifier, by its views.
pub open spec fn optional_uuid_view(r: Result<Option<u128>, String>) -> Result<Option<u128>, Seq<char>> {
    match r {
        Ok(v) => Ok(v),
        Err(e) => Err(e@),
    }
}

/// Reads an optional identifier field (see `optional_uuid_of`).
pub fn optional_uuid(text: &str) -> (r: Result<Option<u128>, String>)
    ensures
        optional_uuid_view(r) == optional_uuid_of(text@),
{
    if is_blank(text) {
        return Ok(None);
    }
    let t = trim_str(text);
    match parse_uuid(t.as_str()) {
        Ok(v) => Ok(Some(v)),
        Err(e) => Err(e),
    }
}

/// The request a post form becomes.
#[derive(Clone, Debug, PartialEq, Eq)]
pub enum PostSubmission {
    Draft(AutosaveDraftRequest),
    Update(u128, UpdatePostRequest),
    Create(CreatePostRequest),
}

/// The category of a form: the trimmed text, or none where it is blank.
pub open spec fn form_category(c: Seq<char>) -> Option<Seq<char>> {
    if trim(c).len() == 0 {
        None
    } else {
        Some(trim(c))
    }
}

/// The tags of a form: split at `,`, trimmed, empty ones left out.
pub open spec fn form_tags(t: Seq<char>) -> Seq<Seq<char>> {
    kept_trimmed(split_on(t, ','))
}

/// What a post form becomes once its post identifier has been read as `id`: a saved
/// draft when the save mode is `draft`; else an update of the identified post, or a new
/// post, both published.
pub open spec fn submission_ok(
    r: PostSubmission,
    id: Option<u128>,
    title: Seq<char>,
    summary: Seq<char>,
    category: Seq<char>,
    tags: Seq<char>,
    markdown: Seq<char>,
    save_mode: Seq<char>,
) -> bool {
    if save_mode == "draft"@ {
        r matches PostSubmission::Draft(d) && d.post_id == id && d.title@ == title && d.markdown@
            == markdown && d.summary@ == summary && opt_view(d.category_name) == form_category(
            category,
        ) && texts(d.tag_names@) == form_tags(tags)
    } else if id is Some {
        r matches PostSubmission::Update(pid, u) && pid == id->0 && u.title@ == title
            && u.markdown@ == markdown && u.summary@ == summary && opt_view(u.category_name)
            == form_category(category) && texts(u.tag_names@) == form_tags(tags) && u.publish
    } else {
        r matches PostSubmission::Create(c) && c.title@ == title && c.markdown@ == markdown
            && c.summary@ == summary && opt_view(c.category_name) == form_category(category)
            && texts(c.tag_names@) == form_tags(tags) && c.publish
    }
}

/// The tag field of the editor for a post's tags: the names joined by `, `.
pub fn editor_tag_value(tags: &Vec<String>) -> (r: String)
    ensures
        r@ == join(texts(tags@), ", "@),
{
    let mut v: Vec<char> = Vec::new();
    push_joined(&mut v, tags, ", ");
    string_from_chars(&v)
}

/// A post's tags, shown in the editor's tag field and submitted again, are read back as
/// the same tags in the same order, where every tag is non-empty, has no surrounding
/// white space and holds no `,`.
pub proof fn law_editor_tags_round_trip(tags: Seq<Seq<char>>)
    requires
        forall|i: int| 0 <= i < tags.len() ==> (#[trigger] tags[i]).len() > 0 && trim(tags[i])
            == tags[i] && !tags[i].contains(','),
    ensures
        form_tags(join(tags, ", "@)) == tags,
{
    let pad = seq![' '];
    assert(", "@ == seq![','] + pad) by {
        reveal_strlit(", ");
        assert(", "@ =~= seq![','] + pad);
    }
    assert forall|k: int| 0 <= k < pad.len() implies is_ws(#[trigger] pad[k]) by {
        assert(pad[k] == ' ');
    }
    if tags.len() == 0 {
        let e = Seq::<char>::empty();
        let p = seq![e];
        assert(join(tags, ", "@) =~= e);
        assert(split_on(e, ',') == p);
        assert(p.last() == e);
        assert(trim(e) == e);
        assert(p.drop_last() =~= Seq::<Seq<char>>::empty());
        assert(kept_trimmed(Seq::<Seq<char>>::empty()) == Seq::<Seq<char>>::empty());
        assert(kept_trimmed(p) == kept_trimmed(p.drop_last()));
        assert(tags =~= Seq::<Seq<char>>::empty());
    } else {
        assert(!pad.contains(',')) by {
            if pad.contains(',') {
                let k = choose|k: int| 0 <= k < pad.len() && pad[k] == ',';
                assert(pad[k] == ' ');
            }
        }
        lemma_split_join(tags, ',', pad);
        lemma_kept_trimmed_padded(tags, pad);
    }
}

/// The editor's fields once a post is loaded into it.
#[derive(Clone, Debug, PartialEq, Eq)]
pub struct EditorFields {
    pub title: String,
    pub summary: String,
    pub category_name: String,
    pub tag_names: String,
    pub markdown: String,
}

/// The text of an optional field, empty where it is absent.
pub open spec fn text_or_empty(o: Option<String>) -> Seq<char> {
    match o {
        Some(s) => s@,
        None => seq![],
    }
}

/// The editor's fields for a post: its title, summary and Markdown as they are, its
/// category (empty without one) and its tags joined by `, `.
pub fn editor_fields(post: &PostDetail) -> (r: EditorFields)
    ensures
        r.title == post.summary.title,
        r.summary == post.summary.summary,
        r.category_name@ == text_or_empty(post.summary.category_name),
        r.tag_names@ == join(texts(post.summary.tags@), ", "@),
        r.markdown == post.markdown,
{
    EditorFields {
        title: post.summary.title.clone(),
        summary: post.summary.summary.clone(),
        category_name: match &post.summary.category_name {
            Some(c) => c.clone(),
            None => String::new(),
        },
        tag_names: editor_tag_value(&post.summary.tags),
        markdown: post.markdown.clone(),
    }
}

/// Publishing a post just as the editor loaded it updates that post with the same title,
/// summary, Markdown, category and tags, where its category (if any) and its tags are
/// non-empty, have no surrounding white space, and the tags hold no `,`.
pub proof fn law_editor_round_trip(post: PostDetail, s: PostSubmission)
    requires
        post.summary.category_name matches Some(c) ==> c@.len() > 0 && trim(c@) == c@,
        forall|i: int| 0 <= i < post.summary.tags@.len() ==> {
            let t = (#[trigger] post.summary.tags@[i])@;
            t.len() > 0 && trim(t) == t && !t.contains(',')
        },
        submission_ok(
            s,
            Some(post.summary.post_id),
            post.summary.title@,
            post.summary.summary@,
            text_or_empty(post.summary.category_name),
            join(texts(post.summary.tags@), ", "@),
            post.markdown@,
            "publish"@,
        ),
    ensures
        s matches PostSubmission::Update(id, u) && id == post.summary.post_id && u.title@
            == post.summary.title@ && u.summary@ == post.summary.summary@ && u.markdown@
            == post.markdown@ && opt_view(u.category_name) == opt_view(post.summary.category_name)
            && texts(u.tag_names@) == texts(post.summary.tags@) && u.publish,
{
    let tags = texts(post.summary.tags@);
    assert forall|i: int| 0 <= i < tags.len() implies (#[trigger] tags[i]).len() > 0 && trim(tags[i])
        == tags[i] && !tags[i].contains(',') by {
        assert(tags[i] == post.summary.tags@[i]@);
    }
    law_editor_tags_round_trip(tags);
    assert("publish"@ != "draft"@) by {
        reveal_strlit("publish");
        reveal_strlit("draft");
        assert("publish"@[0] != "draft"@[0]);
    }
    if post.summary.category_name is None {
        assert(trim(Seq::<char>::empty()).len() == 0);
    }
}

fn category_field(c: &str) -> (r: Option<String>)
    ensures
        opt_view(r) == form_category(c@),
{
    if is_blank(c) {
        None
    } else {
        Some(trim_str(c))
    }
}

/// What `plan_post_submission` gives for a form (see there).
pub open spec fn post_submission_planned(
    post_id: Seq<char>,
    title: Seq<char>,
    summary: Seq<char>,
    category: Seq<char>,
    tags: Seq<char>,
    markdown: Seq<char>,
    save_mode: Seq<char>,
    r: Result<PostSubmission, String>,
) -> bool {
    match optional_uuid_of(post_id) {
        Err(e) => r matches Err(m) && m@ == e,
        Ok(id) => r matches Ok(s) && submission_ok(
            s,
            id,
            title,
            summary,
            category,
            tags,
            markdown,
            save_mode,
        ),
    }
}

/// A post form becomes: with the `draft` save mode, a draft; otherwise a published post,
/// new where the post identifier field is blank and an update of the identified post where
/// it holds one. The title, summary and body are taken as written, and a blank category
/// field means no category.
pub proof fn law_post_submission(
    post_id: Seq<char>,
    title: Seq<char>,
    summary: Seq<char>,
    category: Seq<char>,
    tags: Seq<char>,
    markdown: Seq<char>,
    save_mode: Seq<char>,
    r: Result<PostSubmission, String>,
)
    requires
        post_submission_planned(post_id, title, summary, category, tags, markdown, save_mode, r),
    ensures
        (forall|i: int| 0 <= i < post_id.len() ==> is_ws(#[trigger] post_id[i])) && save_mode
            != "draft"@ ==> (r matches Ok(PostSubmission::Create(c)) && c.publish && c.title@
            == title && c.summary@ == summary && c.markdown@ == markdown),
        (forall|i: int| 0 <= i < post_id.len() ==> is_ws(#[trigger] post_id[i])) && save_mode
            == "draft"@ ==> (r matches Ok(PostSubmission::Draft(d)) && d.post_id is None
            && d.title@ == title && d.summary@ == summary && d.markdown@ == markdown),
        save_mode != "draft"@ && optional_uuid_of(post_id) == Ok::<Option<u128>, Seq<char>>(
            Some(post_id_value(post_id)),
        ) ==> (r matches Ok(PostSubmission::Update(pid, u)) && pid == post_id_value(post_id)
            && u.publish && u.title@ == title && u.summary@ == summary && u.markdown@ == markdown),
        save_mode != "draft"@ && r is Ok ==> (r matches Ok(PostSubmission::Create(c)) && c.publish)
            || (r matches Ok(PostSubmission::Update(_, u)) && u.publish),
        (forall|i: int| 0 <= i < category.len() ==> is_ws(#[trigger] category[i])) ==> (r matches Ok(
            PostSubmission::Create(c),
        ) ==> c.category_name is None),
{
    lemma_trim_empty_iff_blank(post_id);
    lemma_trim_empty_iff_blank(category);
}

/// The identifier an identifier field names, where it names one.
pub open spec fn post_id_value(post_id: Seq<char>) -> u128 {
    match optional_uuid_of(post_id) {
        Ok(Some(v)) => v,
        _ => 0,
    }
}

/// The request a post form becomes (see `submission_ok`); the post identifier field is
/// read first (see `optional_uuid`), and its error is passed on.
pub fn plan_post_submission(
    post_id: &str,
    title: String,
    summary: String,
    category_name: &str,
    tag_names: &str,
    markdown: String,
    save_mode: &str,
) -> (r: Result<PostSubmission, String>)
    ensures
        post_submission_planned(
            post_id@,
            title@,
            summary@,
            category_name@,
            tag_names@,
            markdown@,
            save_mode@,
            r,
        ),
{
    let id = optional_uuid(post_id)?;
    let tags = split_trimmed(tag_names, ',');
    let category = category_field(category_name);
    if str_eq(save_mode, "draft") {
        return Ok(
            PostSubmission::Draft(
                AutosaveDraftRequest {
                    post_id: id,
                    title,
                    markdown,
                    summary,
                    category_name: category,
                    tag_names: tags,
                },
            ),
        );
    }
    match id {
        Some(pid) => Ok(
            PostSubmission::Update(
                pid,
                UpdatePostRequest {
                    title,
                    markdown,
                    summary,
                    category_name: category,
                    tag_names: tags,
                    publish: true,
                },
            ),
        ),
        None => Ok(
            PostSubmission::Create(
                CreatePostRequest {
                    title,
                    markdown,
                    summary,
                    category_name: category,
                    tag_names: tags,
                    publish: true,
                },
            ),
        ),
    }
}

/// The comment request of a comment form: the post identifier is parsed as a UUID, the
/// parent field is read as an optional identifier; their errors are passed on in that
/// order.
pub fn plan_comment_submission(post_id: &str, parent_comment_id: &str, content: String) -> (r: Result<
    CreateCommentRequest,
    String,
>)
    ensures
        match uuid_parse(post_id@) {
            Err(e) => r matches Err(m) && m@ == e,
            Ok(pid) => match optional_uuid_of(parent_comment_id@) {
                Err(e) => r matches Err(m) && m@ == e,
                Ok(parent) => r matches Ok(c) && c.post_id == pid && c.parent_comment_id == parent
                    && c.content == content,
            },
        },
{
    let post_id = parse_uuid(post_id)?;
    let parent_comment_id = optional_uuid(parent_comment_id)?;
    Ok(CreateCommentRequest { post_id, parent_comment_id, content })
}

/// The format of the date-time fields of the announcement forms (`datetime-local`).
pub const ANNOUNCEMENT_TIME_FORMAT: &'static str = "[year]-[month]-[day]T[hour]:[minute]";

/// An optional announcement time: blank means none, otherwise the trimmed text is read
/// with `ANNOUNCEMENT_TIME_FORMAT` as a UTC date-time (in Unix nanoseconds), and a parse
/// error is passed on.
pub open spec fn announcement_time_of(value: Seq<char>) -> Result<Option<i128>, Seq<char>> {
    if trim(value).len() == 0 {
        Ok(None)
    } else {
        match plain_datetime_parse(trim(value), ANNOUNCEMENT_TIME_FORMAT@) {
            Ok(n) => Ok(Some(n)),
            Err(e) => Err(e),
        }
    }
}

/// The outcome of reading an optional time, by its views.
pub open spec fn optional_time_view(r: Result<Option<i128>, String>) -> Result<Option<i128>, Seq<char>> {
    match r {
        Ok(v) => Ok(v),
        Err(e) => Err(e@),
    }
}

/// Reads an optional announcement time field (see `announcement_time_of`).
pub fn parse_optional_announcement_time(value: &str) -> (r: Result<Option<i128>, String>)
    ensures
        optional_time_view(r) == announcement_time_of(value@),
{
    if is_blank(value) {
        return Ok(None);
    }
    let t = trim_str(value);
    match parse_plain_datetime(t.as_str(), ANNOUNCEMENT_TIME_FORMAT) {
        Ok(n) => Ok(Some(n)),
        Err(e) => Err(e),
    }
}

/// The request that an announcement form becomes, addressed to all users: its times are
/// read in turn (the effective time first), and the first error stops it.
pub fn plan_announcement_request(
    title: String,
    content: String,
    announcement_type: String,
    pinned: bool,
    effective_at: &str,
    expires_at: &str,
) -> (r: Result<CreateAnnouncementRequest, String>)
    ensures
        match announcement_time_of(effective_at@) {
            Err(e) => r matches Err(m) && m@ == e,
            Ok(a) => match announcement_time_of(expires_at@) {
                Err(e) => r matches Err(m) && m@ == e,
                Ok(b) => r matches Ok(req) && req.title == title && req.content == content
                    && req.announcement_type == announcement_type && req.pinned == pinned
                    && req.effective_at == a && req.expires_at == b
                    && req.audience is AllUsers,
            },
        },
{
    let effective = parse_optional_announcement_time(effective_at)?;
    let expires = parse_optional_announcement_time(expires_at)?;
    Ok(CreateAnnouncementRequest {
        title,
        content,
        announcement_type,
        pinned,
        effective_at: effective,
        expires_at: expires,
        audience: AnnouncementAudience::AllUsers,
    })
}

} // verus!
