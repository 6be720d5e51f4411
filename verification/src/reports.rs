//! Reports on posts, comments and users, and how they are stored.
use vstd::prelude::*;

use crate::text::{
    char_count, is_blank, is_ws, lemma_trim_empty_iff_blank, opt_view, outcome, owned, str_eq, trim,
    trim_str,
};

verus! {

/// What a report is about.
#[derive(Clone, Debug, PartialEq, Eq, Structural)]
pub enum ReportTargetType {
    Post,
    Comment,
    User,
}

/// Where a report stands.
#[derive(Clone, Debug, PartialEq, Eq, Structural)]
pub enum ReportStatus {
    Pending,
    Handled,
    Rejected,
}

/// A report filed by a reader.
#[derive(Clone, Debug, PartialEq, Eq)]
pub struct CreateReportRequest {
    pub target_type: ReportTargetType,
    pub target_id: u128,
    pub reason: String,
    pub description: Option<String>,
}

/// The message for a report that fails its checks, or `None`: the reason must not be
/// blank and may have at most 120 characters; a description at most 500.
pub open spec fn report_error(reason: Seq<char>, description: Option<Seq<char>>) -> Option<
    Seq<char>,
> {
    if trim(reason).len() == 0 {
        Some("举报原因不能为空"@)
    } else if reason.len() > 120 {
        Some("举报原因不能超过 120 个字符"@)
    } else if description matches Some(d) && d.len() > 500 {
        Some("补充说明不能超过 500 个字符"@)
    } else {
        None
    }
}

impl CreateReportRequest {
    /// Checks the reason and the description (see `report_error`).
    pub fn validate(&self) -> (r: Result<(), String>)
        ensures
            outcome(r) == report_error(self.reason@, opt_view(self.description)),
    {
        if is_blank(self.reason.as_str()) {
            return Err(owned("举报原因不能为空"));
        }
        if char_count(self.reason.as_str()) > 120 {
            return Err(owned("举报原因不能超过 120 个字符"));
        }
        if let Some(d) = &self.description {
            if char_count(d.as_str()) > 500 {
                return Err(owned("补充说明不能超过 500 个字符"));
            }
        }
        Ok(())
    }
}

/// An administrator's decision on a report.
#[derive(Clone, Debug, PartialEq, Eq)]
pub struct HandleReportRequest {
    pub status: ReportStatus,
    pub note: String,
}

/// The message for a decision that fails its checks, or `None`: a report cannot go back
/// to pending, and the note must not be blank.
pub open spec fn handle_error(status: ReportStatus, note: Seq<char>) -> Option<Seq<char>> {
    if status == ReportStatus::Pending {
        Some("处理结果不能回退为待处理"@)
    } else if trim(note).len() == 0 {
        Some("处理说明不能为空"@)
    } else {
        None
    }
}

impl HandleReportRequest {
    /// Checks the decision (see `handle_error`).
    pub fn validate(&self) -> (r: Result<(), String>)
        ensures
            outcome(r) == handle_error(self.status, self.note@),
    {
        if self.status == ReportStatus::Pending {
            return Err(owned("处理结果不能回退为待处理"));
        }
        if is_blank(self.note.as_str()) {
            return Err(owned("处理说明不能为空"));
        }
        Ok(())
    }
}

/// A moderator's decision on a report is accepted exactly when it does not send the report
/// back to pending and its note holds something other than white space.
pub proof fn law_report_decision_accepted(req: HandleReportRequest, r: Result<(), String>)
    requires
        outcome(r) == handle_error(req.status, req.note@),
    ensures
        r is Ok <==> (req.status != ReportStatus::Pending && exists|i: int|
            0 <= i < req.note@.len() && !is_ws(#[trigger] req.note@[i])),
{
    lemma_trim_empty_iff_blank(req.note@);
}

/// A reader's report is accepted exactly when its reason holds something other than white
/// space and has at most 120 characters, and its description, if any, at most 500.
pub proof fn law_report_accepted(req: CreateReportRequest, r: Result<(), String>)
    requires
        outcome(r) == report_error(req.reason@, opt_view(req.description)),
    ensures
        r is Ok <==> ((exists|i: int| 0 <= i < req.reason@.len() && !is_ws(#[trigger] req.reason@[i]))
            && req.reason@.len() <= 120 && (req.description matches Some(d) ==> d@.len() <= 500)),
{
    lemma_trim_empty_iff_blank(req.reason@);
}

/// A report as administrators see it. Times are Unix timestamps in nanoseconds.
#[derive(Clone, Debug, PartialEq, Eq)]
pub struct ReportItem {
    pub report_id: u128,
    pub target_type: ReportTargetType,
    pub target_id: u128,
    pub target_title: Option<String>,
    pub reporter_id: u128,
    pub reporter_name: String,
    pub reason: String,
    pub description: Option<String>,
    pub status: ReportStatus,
    pub handler_id: Option<u128>,
    pub handler_name: Option<String>,
    pub handle_note: Option<String>,
    pub created_at: i128,
    pub handled_at: Option<i128>,
}

/// A stored report row.
#[derive(Clone, Debug, PartialEq, Eq)]
pub struct ReportRow {
    pub report_id: u128,
    pub target_type: String,
    pub target_id: u128,
    pub target_title: Option<String>,
    pub reporter_id: u128,
    pub reporter_name: String,
    pub reason: String,
    pub description: String,
    pub status: String,
    pub handler_id: Option<u128>,
    pub handler_name: Option<String>,
    pub handle_note: String,
    pub created_at: i128,
    pub handled_at: Option<i128>,
}

/// The stored text of a target type.
pub open spec fn target_type_text(t: ReportTargetType) -> Seq<char> {
    match t {
        ReportTargetType::Post => "post"@,
        ReportTargetType::Comment => "comment"@,
        ReportTargetType::User => "user"@,
    }
}

/// The target type of a stored text; anything unknown is a post.
pub open spec fn target_type_of(s: Seq<char>) -> ReportTargetType {
    if s == "comment"@ {
        ReportTargetType::Comment
    } else if s == "user"@ {
        ReportTargetType::User
    } else {
        ReportTargetType::Post
    }
}

/// The stored text of a status; a handled report is stored as `accepted`.
pub open spec fn report_status_text(s: ReportStatus) -> Seq<char> {
    match s {
        ReportStatus::Pending => "pending"@,
        ReportStatus::Handled => "accepted"@,
        ReportStatus::Rejected => "rejected"@,
    }
}

/// The status of a stored text: `accepted` and `handled` are handled, `rejected` is
/// rejected, anything else is pending.
pub open spec fn report_status_of(s: Seq<char>) -> ReportStatus {
    if s == "accepted"@ || s == "handled"@ {
        ReportStatus::Handled
    } else if s == "rejected"@ {
        ReportStatus::Rejected
    } else {
        ReportStatus::Pending
    }
}

/// The trimmed text, or `None` where it is blank.
pub open spec fn non_empty(s: Seq<char>) -> Option<Seq<char>> {
    if trim(s).len() == 0 {
        None
    } else {
        Some(trim(s))
    }
}

/// The stored text of a report target.
pub fn report_target_type_as_str(target_type: &ReportTargetType) -> (r: &'static str)
    ensures
        r@ == target_type_text(*target_type),
{
    match target_type {
        ReportTargetType::Post => "post",
        ReportTargetType::Comment => "comment",
        ReportTargetType::User => "user",
    }
}

/// The report target of a stored text.
pub fn report_target_type_from_str(target_type: &str) -> (r: ReportTargetType)
    ensures
        r == target_type_of(target_type@),
{
    if str_eq(target_type, "comment") {
        ReportTargetType::Comment
    } else if str_eq(target_type, "user") {
        ReportTargetType::User
    } else {
        ReportTargetType::Post
    }
}

/// The stored text of a report status.
pub fn report_status_as_str(status: &ReportStatus) -> (r: &'static str)
    ensures
        r@ == report_status_text(*status),
{
    match status {
        ReportStatus::Pending => "pending",
        ReportStatus::Handled => "accepted",
        ReportStatus::Rejected => "rejected",
    }
}

/// The report status of a stored text.
pub fn report_status_from_str(status: &str) -> (r: ReportStatus)
    ensures
        r == report_status_of(status@),
{
    if str_eq(status, "accepted") || str_eq(status, "handled") {
        ReportStatus::Handled
    } else if str_eq(status, "rejected") {
        ReportStatus::Rejected
    } else {
        ReportStatus::Pending
    }
}

/// The trimmed text, or `None` where it is blank.
pub fn non_empty_string(value: String) -> (r: Option<String>)
    ensures
        opt_view(r) == non_empty(value@),
{
    let value = trim_str(value.as_str());
    if char_count(value.as_str()) == 0 {
        None
    } else {
        Some(value)
    }
}

impl ReportRow {
    /// The report of a stored row: texts become variants, blank notes become `None`.
    pub fn into_item(self) -> (r: ReportItem)
        ensures
            r.report_id == self.report_id,
            r.target_type == target_type_of(self.target_type@),
            r.target_id == self.target_id,
            r.target_title == self.target_title,
            r.reporter_id == self.reporter_id,
            r.reporter_name == self.reporter_name,
            r.reason == self.reason,
            opt_view(r.description) == non_empty(self.description@),
            r.status == report_status_of(self.status@),
            r.handler_id == self.handler_id,
            r.handler_name == self.handler_name,
            opt_view(r.handle_note) == non_empty(self.handle_note@),
            r.created_at == self.created_at,
            r.handled_at == self.handled_at,
    {
        ReportItem {
            report_id: self.report_id,
            target_type: report_target_type_from_str(self.target_type.as_str()),
            target_id: self.target_id,
            target_title: self.target_title,
            reporter_id: self.reporter_id,
            reporter_name: self.reporter_name,
            reason: self.reason,
            description: non_empty_string(self.description),
            status: report_status_from_str(self.status.as_str()),
            handler_id: self.handler_id,
            handler_name: self.handler_name,
            handle_note: non_empty_string(self.handle_note),
            created_at: self.created_at,
            handled_at: self.handled_at,
        }
    }
}

/// Storing a target type or a status and reading it back gives the same value.
pub proof fn law_report_text_round_trip(t: ReportTargetType, s: ReportStatus)
    ensures
        target_type_of(target_type_text(t)) == t,
        report_status_of(report_status_text(s)) == s,
{
    reveal_strlit("post");
    reveal_strlit("comment");
    reveal_strlit("user");
    reveal_strlit("pending");
    reveal_strlit("accepted");
    reveal_strlit("handled");
    reveal_strlit("rejected");
    assert("post"@.len() == 4 && "comment"@.len() == 7 && "user"@.len() == 4);
    assert("post"@[0] != "user"@[0]);
    assert("pending"@.len() == 7 && "accepted"@.len() == 8 && "handled"@.len() == 7
        && "rejected"@.len() == 8);
    assert("pending"@[0] != "handled"@[0]);
    assert("accepted"@[0] != "rejected"@[0]);
}

/// The query that lists every report.
pub const REPORTS_SQL: &'static str = r#"
select
    r.report_id,
    r.target_type,
    r.target_id,
    case
        when r.target_type = 'post' then p.title
        when r.target_type = 'comment' then left(c.content, 40)
        when r.target_type = 'user' then tu.nickname
        else null
    end as target_title,
    r.reporter_id,
    ru.nickname as reporter_name,
    r.reason,
    r.description,
    r.status,
    r.handler_id,
    hu.nickname as handler_name,
    r.handle_note,
    r.created_at,
    r.handled_at
from reports r
join users ru on ru.user_id = r.reporter_id
left join users hu on hu.user_id = r.handler_id
left join posts p on r.target_type = 'post' and p.post_id = r.target_id
left join comments c on r.target_type = 'comment' and c.comment_id = r.target_id
left join users tu on r.target_type = 'user' and tu.user_id = r.target_id
order by r.created_at desc
"#;

/// Reading storage.
pub struct PostgresReportRepository;

impl PostgresReportRepository {
    /// The query that lists every report with the title of what it is about.
    pub fn list_reports_sql() -> (r: &'static str)
        ensures
            r@ == REPORTS_SQL@,
    {
        REPORTS_SQL
    }
}

} // verus!
