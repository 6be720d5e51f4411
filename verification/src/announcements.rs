//! Announcements: their life cycle, who sees them, and how they are stored.
use vstd::prelude::*;

use crate::text::{is_blank, outcome, owned, str_eq, trim};

verus! {

/// Where an announcement stands.
#[derive(Clone, Debug, PartialEq, Eq, Structural)]
pub enum AnnouncementStatus {
    Draft,
    Published,
    Withdrawn,
}

/// Who an announcement is for.
#[derive(Clone, Debug, PartialEq, Eq)]
pub enum AnnouncementAudience {
    AllUsers,
    UserIds(Vec<u128>),
}

/// The mathematical form of an audience.
pub enum AudienceView {
    AllUsers,
    UserIds(Seq<u128>),
}

impl View for AnnouncementAudience {
    type V = AudienceView;

    open spec fn view(&self) -> AudienceView {
        match self {
            AnnouncementAudience::AllUsers => AudienceView::AllUsers,
            AnnouncementAudience::UserIds(ids) => AudienceView::UserIds(ids@),
        }
    }
}

/// A request to write an announcement. Times are Unix timestamps in nanoseconds.
#[derive(Clone, Debug, PartialEq, Eq)]
pub struct CreateAnnouncementRequest {
    pub title: String,
    pub content: String,
    pub announcement_type: String,
    pub pinned: bool,
    pub effective_at: Option<i128>,
    pub expires_at: Option<i128>,
    pub audience: AnnouncementAudience,
}

/// The message for an announcement that fails its checks, or `None`: title, content and
/// type must not be blank, and where both times are given it must expire after it takes
/// effect.
pub open spec fn announcement_error(
    title: Seq<char>,
    content: Seq<char>,
    kind: Seq<char>,
    effective_at: Option<i128>,
    expires_at: Option<i128>,
) -> Option<Seq<char>> {
    if trim(title).len() == 0 {
        Some("公告标题不能为空"@)
    } else if trim(content).len() == 0 {
        Some("公告内容不能为空"@)
    } else if trim(kind).len() == 0 {
        Some("公告类型不能为空"@)
    } else if expires_at matches Some(x) && effective_at matches Some(e) && x <= e {
        Some("失效时间必须晚于生效时间"@)
    } else {
        None
    }
}

impl CreateAnnouncementRequest {
    /// Checks the request (see `announcement_error`).
    pub fn validate(&self) -> (r: Result<(), String>)
        ensures
            outcome(r) == announcement_error(
                self.title@,
                self.content@,
                self.announcement_type@,
                self.effective_at,
                self.expires_at,
            ),
    {
        if is_blank(self.title.as_str()) {
            return Err(owned("公告标题不能为空"));
        }
        if is_blank(self.content.as_str()) {
            return Err(owned("公告内容不能为空"));
        }
        if is_blank(self.announcement_type.as_str()) {
            return Err(owned("公告类型不能为空"));
        }
        if let (Some(expires_at), Some(effective_at)) = (self.expires_at, self.effective_at) {
            if expires_at <= effective_at {
                return Err(owned("失效时间必须晚于生效时间"));
            }
        }
        Ok(())
    }
}

/// An announcement. Times are Unix timestamps in nanoseconds.
#[derive(Clone, Debug, PartialEq, Eq)]
pub struct AnnouncementItem {
    pub announcement_id: u128,
    pub title: String,
    pub content: String,
    pub announcement_type: String,
    pub pinned: bool,
    pub status: AnnouncementStatus,
    pub audience: AnnouncementAudience,
    pub creator_id: u128,
    pub creator_name: String,
    pub effective_at: Option<i128>,
    pub expires_at: Option<i128>,
    pub published_at: Option<i128>,
    pub withdrawn_at: Option<i128>,
    pub created_at: i128,
    pub updated_at: i128,
}

/// Whether an announcement is shown at `now`: it is published, already in effect (or
/// without a start) and not yet expired (or without an end).
pub open spec fn public_at(
    status: AnnouncementStatus,
    effective_at: Option<i128>,
    expires_at: Option<i128>,
    now: i128,
) -> bool {
    &&& status == AnnouncementStatus::Published
    &&& (effective_at matches Some(e) ==> e <= now)
    &&& (expires_at matches Some(x) ==> x > now)
}

impl AnnouncementItem {
    /// Whether the announcement is shown at `now` (see `public_at`).
    pub fn is_public_at(&self, now: i128) -> (b: bool)
        ensures
            b == public_at(self.status, self.effective_at, self.expires_at, now),
    {
        self.status == AnnouncementStatus::Published && match self.effective_at {
            Some(e) => e <= now,
            None => true,
        } && match self.expires_at {
            Some(x) => x > now,
            None => true,
        }
    }
}

/// Whether a reader has read an announcement.
#[derive(Clone, Debug, PartialEq, Eq, Structural)]
pub struct AnnouncementReadState {
    pub announcement_id: u128,
    pub user_id: u128,
    pub read: bool,
}

/// The stored text of a status; a withdrawn announcement is stored as `offline`.
pub open spec fn announcement_status_text(s: AnnouncementStatus) -> Seq<char> {
    match s {
        AnnouncementStatus::Draft => "draft"@,
        AnnouncementStatus::Published => "published"@,
        AnnouncementStatus::Withdrawn => "offline"@,
    }
}

/// The status of a stored text; anything unknown is a draft.
pub open spec fn announcement_status_of(s: Seq<char>) -> AnnouncementStatus {
    if s == "published"@ {
        AnnouncementStatus::Published
    } else if s == "offline"@ {
        AnnouncementStatus::Withdrawn
    } else {
        AnnouncementStatus::Draft
    }
}

/// The stored kind of an audience.
pub open spec fn audience_kind(a: AudienceView) -> Seq<char> {
    match a {
        AudienceView::AllUsers => "all_users"@,
        AudienceView::UserIds(_) => "user_ids"@,
    }
}

/// The stored user list of an audience: empty for everyone.
pub open spec fn audience_ids(a: AudienceView) -> Seq<u128> {
    match a {
        AudienceView::AllUsers => seq![],
        AudienceView::UserIds(ids) => ids,
    }
}

/// The audience of a stored kind and user list: `user_ids` names the users, anything
/// else is everyone.
pub open spec fn audience_of(kind: Seq<char>, ids: Seq<u128>) -> AudienceView {
    if kind == "user_ids"@ {
        AudienceView::UserIds(ids)
    } else {
        AudienceView::AllUsers
    }
}

/// The stored text of an announcement status.
pub fn announcement_status_as_str(status: &AnnouncementStatus) -> (r: &'static str)
    ensures
        r@ == announcement_status_text(*status),
{
    match status {
        AnnouncementStatus::Draft => "draft",
        AnnouncementStatus::Published => "published",
        AnnouncementStatus::Withdrawn => "offline",
    }
}

/// The announcement status of a stored text (see `announcement_status_of`).
pub fn announcement_status_from_str(status: &str) -> (r: AnnouncementStatus)
    ensures
        r == announcement_status_of(status@),
{
    if str_eq(status, "published") {
        AnnouncementStatus::Published
    } else if str_eq(status, "offline") {
        AnnouncementStatus::Withdrawn
    } else {
        AnnouncementStatus::Draft
    }
}

/// The stored kind and user list of an audience.
pub fn announcement_audience_parts(audience: &AnnouncementAudience) -> (r: (&'static str, Vec<u128>))
    ensures
        r.0@ == audience_kind(audience@),
        r.1@ == audience_ids(audience@),
{
    match audience {
        AnnouncementAudience::AllUsers => ("all_users", Vec::new()),
        AnnouncementAudience::UserIds(user_ids) => {
            let ids = user_ids.clone();
            assert(ids@ =~= user_ids@);
            ("user_ids", ids)
        },
    }
}

/// The audience of a stored kind and user list (see `audience_of`).
pub fn announcement_audience_from_parts(audience_type: &str, audience_user_ids: Vec<u128>) -> (r:
    AnnouncementAudience)
    ensures
        r@ == audience_of(audience_type@, audience_user_ids@),
{
    if str_eq(audience_type, "user_ids") {
        AnnouncementAudience::UserIds(audience_user_ids)
    } else {
        AnnouncementAudience::AllUsers
    }
}

/// A stored announcement row.
#[derive(Clone, Debug, PartialEq, Eq)]
pub struct AnnouncementRow {
    pub announcement_id: u128,
    pub title: String,
    pub content: String,
    pub announcement_type: String,
    pub pinned: bool,
    pub status: String,
    pub audience_type: String,
    pub audience_user_ids: Vec<u128>,
    pub creator_id: u128,
    pub creator_name: String,
    pub effective_at: Option<i128>,
    pub expires_at: Option<i128>,
    pub published_at: Option<i128>,
    pub withdrawn_at: Option<i128>,
    pub created_at: i128,
    pub updated_at: i128,
}

impl AnnouncementRow {
    /// The announcement of a stored row: texts become variants.
    pub fn into_item(self) -> (r: AnnouncementItem)
        ensures
            r.announcement_id == self.announcement_id,
            r.title == self.title,
            r.content == self.content,
            r.announcement_type == self.announcement_type,
            r.pinned == self.pinned,
            r.status == announcement_status_of(self.status@),
            r.audience@ == audience_of(self.audience_type@, self.audience_user_ids@),
            r.creator_id == self.creator_id,
            r.creator_name == self.creator_name,
            r.effective_at == self.effective_at,
            r.expires_at == self.expires_at,
            r.published_at == self.published_at,
            r.withdrawn_at == self.withdrawn_at,
            r.created_at == self.created_at,
            r.updated_at == self.updated_at,
    {
        AnnouncementItem {
            announcement_id: self.announcement_id,
            title: self.title,
            content: self.content,
            announcement_type: self.announcement_type,
            pinned: self.pinned,
            status: announcement_status_from_str(self.status.as_str()),
            audience: announcement_audience_from_parts(
                self.audience_type.as_str(),
                self.audience_user_ids,
            ),
            creator_id: self.creator_id,
            creator_name: self.creator_name,
            effective_at: self.effective_at,
            expires_at: self.expires_at,
            published_at: self.published_at,
            withdrawn_at: self.withdrawn_at,
            created_at: self.created_at,
            updated_at: self.updated_at,
        }
    }
}

/// Storing a status or an audience and reading it back gives the same value.
pub proof fn law_announcement_storage_round_trip(s: AnnouncementStatus, a: AudienceView)
    ensures
        announcement_status_of(announcement_status_text(s)) == s,
        audience_of(audience_kind(a), audience_ids(a)) == a,
{
    reveal_strlit("draft");
    reveal_strlit("published");
    reveal_strlit("offline");
    reveal_strlit("all_users");
    reveal_strlit("user_ids");
    assert("draft"@.len() == 5 && "published"@.len() == 9 && "offline"@.len() == 7);
    assert("all_users"@.len() == 9 && "user_ids"@.len() == 8);
}

/// The query that lists every announcement for administrators.
pub const ADMIN_ANNOUNCEMENTS_SQL: &'static str = r#"
select
    a.announcement_id,
    a.title,
    a.content,
    a.announcement_type,
    a.is_pinned as pinned,
    a.status,
    a.audience_type,
    a.audience_user_ids,
    a.creator_id,
    u.nickname as creator_name,
    a.starts_at as effective_at,
    a.ends_at as expires_at,
    a.published_at,
    a.withdrawn_at,
    a.created_at,
    a.updated_at
from announcements a
join users u on u.user_id = a.creator_id
order by a.is_pinned desc, a.updated_at desc
"#;

/// Reading storage.
pub struct PostgresAnnouncementRepository;

impl PostgresAnnouncementRepository {
    /// The query that lists every announcement for administrators.
    pub fn list_admin_announcements_sql() -> (r: &'static str)
        ensures
            r@ == ADMIN_ANNOUNCEMENTS_SQL@,
    {
        ADMIN_ANNOUNCEMENTS_SQL
    }
}

} // verus!
