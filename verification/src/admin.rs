//! The administration dashboard: its panels, the audit export and the demonstration data.
use vstd::prelude::*;

use crate::bridge::{string_from_chars, utc_fields, utc_fields_of};
use crate::rbac::{admin_permissions, admin_table, pairs, Permission, Role};
use crate::sorting::lemma_filter_push;
use vstd::utf8::encode_utf8;
use crate::text::{
    chars_of, dec, extend, extend_str, hex_digit, join, kept_trimmed, lemma_comma_list_round_trip,
    owned, push_joined, split_on, str_eq, strings, texts, trim, u64_dec,
};

verus! {

/// The site-wide counts that the dashboard summarises.
#[derive(Clone, Debug)]
pub struct AdminStatsSummary {
    pub user_count: i64,
    pub today_user_count: i64,
    pub post_count: i64,
    pub today_post_count: i64,
    pub comment_count: i64,
    pub today_comment_count: i64,
    pub like_count: i64,
}

/// The hottest published post, by its weighted activity score.
#[derive(Clone, Debug)]
pub struct AdminHotPostRow {
    pub title: String,
    pub hot_score: i64,
}

/// The tag on the most published posts.
#[derive(Clone, Debug)]
pub struct AdminHotTagRow {
    pub name: String,
    pub use_count: i64,
}

/// Everything the administration dashboard shows.
#[derive(Clone, Debug, PartialEq, Eq)]
pub struct AdminDashboard {
    pub stats: Vec<AdminStat>,
    pub menu: Vec<AdminMenuItem>,
    pub permissions: Vec<Permission>,
    pub roles: Vec<Role>,
    pub users: Vec<AdminUserRow>,
    pub moderation_posts: Vec<AdminPostRow>,
    pub moderation_comments: Vec<AdminCommentRow>,
    pub categories: Vec<AdminCategoryRow>,
    pub tags: Vec<AdminTagRow>,
    pub announcements: Vec<AdminAnnouncementRow>,
    pub reports: Vec<AdminReportRow>,
    pub governance_queue: Vec<GovernanceQueueItem>,
    pub audit_entries: Vec<AuditEntry>,
}

/// A headline figure.
#[derive(Clone, Debug, PartialEq, Eq)]
pub struct AdminStat {
    pub label: String,
    pub value: String,
    pub delta: String,
}

/// An entry of the dashboard menu and the permission it needs.
#[derive(Clone, Debug, PartialEq, Eq)]
pub struct AdminMenuItem {
    pub label: String,
    pub permission: String,
}

/// A user in the dashboard's user panel.
#[derive(Clone, Debug, PartialEq, Eq)]
pub struct AdminUserRow {
    pub user_id: u128,
    pub username: String,
    pub nickname: String,
    pub roles: Vec<String>,
    pub status: String,
    pub actions: Vec<String>,
}

/// The role field of a user's row in the user table: the role codes joined by `,`.
pub fn user_roles_value(user: &AdminUserRow) -> (r: String)
    ensures
        r@ == join(texts(user.roles@), ","@),
{
    let mut v: Vec<char> = Vec::new();
    push_joined(&mut v, &user.roles, ",");
    string_from_chars(&v)
}

/// A user's roles, shown in the role field of the user table and submitted again, are
/// read back (see `crate::rbac::role_codes`) as the same codes in the same order, where
/// every code is non-empty, has no surrounding white space and holds no `,`.
pub proof fn law_user_roles_round_trip(roles: Seq<Seq<char>>)
    requires
        forall|i: int| 0 <= i < roles.len() ==> (#[trigger] roles[i]).len() > 0 && trim(roles[i])
            == roles[i] && !roles[i].contains(','),
    ensures
        kept_trimmed(split_on(join(roles, ","@), ',')) == roles,
{
    lemma_comma_list_round_trip(roles);
}

/// A post in the dashboard's moderation panel.
#[derive(Clone, Debug, PartialEq, Eq)]
pub struct AdminPostRow {
    pub post_id: u128,
    pub title: String,
    pub author: String,
    pub category: String,
    pub status: String,
    pub locked: bool,
    pub actions: Vec<String>,
}

/// A comment in the dashboard's moderation panel.
#[derive(Clone, Debug, PartialEq, Eq)]
pub struct AdminCommentRow {
    pub comment_id: u128,
    pub post_id: u128,
    pub post_title: String,
    pub author: String,
    pub content: String,
    pub status: String,
    pub actions: Vec<String>,
}

/// A report in the dashboard's report panel.
#[derive(Clone, Debug, PartialEq, Eq)]
pub struct AdminReportRow {
    pub report_id: u128,
    pub target: String,
    pub target_type: String,
    pub reason: String,
    pub reporter: String,
    pub status: String,
    pub actions: Vec<String>,
}

/// A category in the dashboard's category panel.
#[derive(Clone, Debug, PartialEq, Eq)]
pub struct AdminCategoryRow {
    pub category_id: u128,
    pub name: String,
    pub color: String,
    pub sort_order: i32,
    pub post_count: u32,
    pub status: String,
    pub actions: Vec<String>,
}

/// A tag in the dashboard's tag panel.
#[derive(Clone, Debug, PartialEq, Eq)]
pub struct AdminTagRow {
    pub tag_id: u128,
    pub name: String,
    pub sort_order: i32,
    pub use_count: u32,
    pub status: String,
    pub actions: Vec<String>,
}

/// An announcement in the dashboard's announcement panel. Times are Unix timestamps in
/// nanoseconds.
#[derive(Clone, Debug, PartialEq, Eq)]
pub struct AdminAnnouncementRow {
    pub announcement_id: u128,
    pub title: String,
    pub content: String,
    pub announcement_type: String,
    pub pinned: bool,
    pub effective_at: Option<i128>,
    pub expires_at: Option<i128>,
    pub audience: String,
    pub status: String,
    pub actions: Vec<String>,
}

/// A pending governance task and its size.
#[derive(Clone, Debug, PartialEq, Eq)]
pub struct GovernanceQueueItem {
    pub label: String,
    pub value: String,
}

/// An entry of the audit panel.
#[derive(Clone, Debug, PartialEq, Eq)]
pub struct AuditEntry {
    pub actor: String,
    pub action: String,
    pub target: String,
    pub ip: String,
    pub user_agent: String,
    pub time_label: String,
}

/// Whether a character forces a CSV field into quotes.
pub open spec fn csv_special(c: char) -> bool {
    c == ',' || c == '"' || c == '\n' || c == '\r'
}

/// The text with every `"` doubled.
pub open spec fn double_quotes(s: Seq<char>) -> Seq<char>
    decreases s.len(),
{
    if s.len() == 0 {
        seq![]
    } else if s.last() == '"' {
        double_quotes(s.drop_last()) + seq!['"', '"']
    } else {
        double_quotes(s.drop_last()).push(s.last())
    }
}

/// A CSV field: the value itself, or, where it holds a comma, a quote or a line break,
/// the value with doubled quotes between quotes.
pub open spec fn csv_field(s: Seq<char>) -> Seq<char> {
    if exists|i: int| 0 <= i < s.len() && csv_special(#[trigger] s[i]) {
        seq!['"'] + double_quotes(s) + seq!['"']
    } else {
        s
    }
}

/// The CSV fields of a list of values.
pub open spec fn csv_fields(vs: Seq<Seq<char>>) -> Seq<Seq<char>> {
    Seq::new(vs.len(), |i: int| csv_field(vs[i]))
}

/// One CSV line (without its line break): the fields joined by `,`.
pub open spec fn csv_line(vs: Seq<Seq<char>>) -> Seq<char> {
    join(csv_fields(vs), ","@)
}

/// The values of an audit entry, in column order.
pub open spec fn audit_values(e: AuditEntry) -> Seq<Seq<char>> {
    seq![e.actor@, e.action@, e.target@, e.ip@, e.user_agent@, e.time_label@]
}

/// The header line of the audit export.
pub open spec fn audit_header() -> Seq<char> {
    "actor,action,target,ip,user_agent,time_label\n"@
}

/// The lines of the audit export after the header, each ended by a line break.
pub open spec fn audit_lines(es: Seq<AuditEntry>) -> Seq<char>
    decreases es.len(),
{
    if es.len() == 0 {
        seq![]
    } else {
        audit_lines(es.drop_last()) + csv_line(audit_values(es.last())) + "\n"@
    }
}

fn csv_value(value: &str, out: &mut Vec<char>)
    ensures
        final(out)@ == old(out)@ + csv_field(value@),
{
    let cs = chars_of(value);
    let mut special = false;
    let mut i: usize = 0;
    while i < cs.len()
        invariant
            i <= cs@.len(),
            cs@ == value@,
            special == exists|k: int| 0 <= k < i && csv_special(#[trigger] cs@[k]),
        decreases cs@.len() - i,
    {
        let c = cs[i];
        if c == ',' || c == '"' || c == '\n' || c == '\r' {
            special = true;
        }
        i = i + 1;
    }
    if !special {
        extend(out, &cs);
        return;
    }
    let ghost start = out@;
    out.push('"');
    let mut j: usize = 0;
    while j < cs.len()
        invariant
            j <= cs@.len(),
            cs@ == value@,
            out@ == start + seq!['"'] + double_quotes(value@.take(j as int)),
        decreases cs@.len() - j,
    {
        let c = cs[j];
        proof {
            assert(value@.take(j + 1).drop_last() =~= value@.take(j as int));
            assert(value@.take(j + 1).last() == c);
        }
        if c == '"' {
            out.push('"');
            out.push('"');
        } else {
            out.push(c);
        }
        assert(out@ =~= start + seq!['"'] + double_quotes(value@.take(j + 1)));
        j = j + 1;
    }
    assert(value@.take(cs@.len() as int) =~= value@);
    out.push('"');
    assert(out@ =~= start + csv_field(value@));
}

fn csv_row(values: &[&str], out: &mut Vec<char>)
    ensures
        final(out)@ == old(out)@ + csv_line(values@.map_values(|t: &str| t@)),
{
    let ghost vs = values@.map_values(|t: &str| t@);
    let ghost fs = csv_fields(vs);
    let ghost start = out@;
    let mut i: usize = 0;
    while i < values.len()
        invariant
            i <= values@.len(),
            vs == values@.map_values(|t: &str| t@),
            fs == csv_fields(vs),
            out@ == start + join(fs.take(i as int), ","@),
        decreases values@.len() - i,
    {
        if i > 0 {
            extend_str(out, ",");
        }
        csv_value(values[i], out);
        proof {
            let p = fs.take(i + 1);
            assert(p.drop_last() =~= fs.take(i as int));
            assert(p.last() == csv_field(values@[i as int]@));
            if i == 0 {
                assert(fs.take(0) =~= Seq::<Seq<char>>::empty());
            }
            assert(out@ =~= start + join(p, ","@));
        }
        i = i + 1;
    }
    assert(fs.take(values@.len() as int) =~= fs);
}

/// The audit entries as CSV: the header line, then one line per entry with its actor,
/// action, target, IP, user agent and time label.
pub fn audit_entries_csv(entries: &[AuditEntry]) -> (r: String)
    ensures
        r@ == audit_header() + audit_lines(entries@),
{
    let mut csv: Vec<char> = Vec::new();
    extend_str(&mut csv, "actor,action,target,ip,user_agent,time_label\n");
    let mut i: usize = 0;
    while i < entries.len()
        invariant
            i <= entries@.len(),
            csv@ == audit_header() + audit_lines(entries@.take(i as int)),
        decreases entries@.len() - i,
    {
        let e = &entries[i];
        let row: [&str; 6] = [
            e.actor.as_str(),
            e.action.as_str(),
            e.target.as_str(),
            e.ip.as_str(),
            e.user_agent.as_str(),
            e.time_label.as_str(),
        ];
        let ghost before = csv@;
        csv_row(&row, &mut csv);
        csv.push('\n');
        proof {
            assert(row@.map_values(|t: &str| t@) =~= audit_values(*e));
            assert(entries@.take(i + 1).drop_last() =~= entries@.take(i as int));
            assert(entries@.take(i + 1).last() == *e);
            reveal_strlit("\n");
            assert(csv@ =~= audit_header() + audit_lines(entries@.take(i + 1)));
        }
        i = i + 1;
    }
    assert(entries@.take(entries@.len() as int) =~= entries@);
    string_from_chars(&csv)
}

/// The permissions of the administration table whose codes are listed.
pub open spec fn table_with(codes: Seq<Seq<char>>) -> Seq<(Seq<char>, Seq<char>)> {
    admin_table().filter(|p: (Seq<char>, Seq<char>)| codes.contains(p.0))
}

fn listed(code: &str, codes: &[&str]) -> (b: bool)
    ensures
        b == codes@.map_values(|t: &str| t@).contains(code@),
{
    let ghost cs = codes@.map_values(|t: &str| t@);
    let mut i: usize = 0;
    while i < codes.len()
        invariant
            i <= codes@.len(),
            cs == codes@.map_values(|t: &str| t@),
            forall|k: int| 0 <= k < i ==> cs[k] != code@,
        decreases codes@.len() - i,
    {
        if str_eq(codes[i], code) {
            assert(cs[i as int] == code@);
            return true;
        }
        i = i + 1;
    }
    false
}

fn permissions_with(codes: &[&str]) -> (r: Vec<Permission>)
    ensures
        pairs(r@) == table_with(codes@.map_values(|t: &str| t@)),
{
    let ghost cs = codes@.map_values(|t: &str| t@);
    let ghost pred = |p: (Seq<char>, Seq<char>)| cs.contains(p.0);
    let all = admin_permissions();
    let ghost t = pairs(all@);
    let mut out: Vec<Permission> = Vec::new();
    let mut i: usize = 0;
    assert(t.take(0).filter(pred) =~= Seq::<(Seq<char>, Seq<char>)>::empty()) by {
        reveal(Seq::filter);
    }
    while i < all.len()
        invariant
            i <= all@.len(),
            t == pairs(all@),
            t == admin_table(),
            cs == codes@.map_values(|t: &str| t@),
            pred == (|p: (Seq<char>, Seq<char>)| cs.contains(p.0)),
            pairs(out@) == t.take(i as int).filter(pred),
        decreases all@.len() - i,
    {
        proof {
            assert(t.take(i + 1) =~= t.take(i as int).push(t[i as int]));
            lemma_filter_push(t.take(i as int), pred, t[i as int]);
        }
        if listed(all[i].code.as_str(), codes) {
            let ghost before = out@;
            out.push(all[i].clone());
            assert(pairs(out@) =~= pairs(before).push(t[i as int]));
        }
        i = i + 1;
    }
    assert(t.take(all@.len() as int) =~= t);
    out
}

/// The demonstration roles: administrator with every permission, moderator with the post,
/// comment and report permissions, operator with the announcement, category and tag ones.
pub open spec fn demo_roles_ok(r: Seq<Role>) -> bool {
    &&& r.len() == 3
    &&& r[0].code@ == "admin"@ && r[0].name@ == "管理员"@
    &&& pairs(r[0].permissions@) == admin_table()
    &&& r[1].code@ == "moderator"@ && r[1].name@ == "内容审核员"@
    &&& pairs(r[1].permissions@) == table_with(
        seq!["post:view"@, "post:update"@, "comment:view"@, "comment:delete"@, "report:view"@],
    )
    &&& r[2].code@ == "operator"@ && r[2].name@ == "运营人员"@
    &&& pairs(r[2].permissions@) == table_with(
        seq!["announcement:create"@, "announcement:publish"@, "category:view"@, "tag:view"@],
    )
}

/// The demonstration roles (see `demo_roles_ok`).
pub fn demo_roles() -> (r: Vec<Role>)
    ensures
        demo_roles_ok(r@),
{
    let moderator: [&str; 5] = [
        "post:view",
        "post:update",
        "comment:view",
        "comment:delete",
        "report:view",
    ];
    let operator: [&str; 4] = [
        "announcement:create",
        "announcement:publish",
        "category:view",
        "tag:view",
    ];
    let mut roles: Vec<Role> = Vec::new();
    roles.push(Role { code: owned("admin"), name: owned("管理员"), permissions: admin_permissions() });
    roles.push(
        Role {
            code: owned("moderator"),
            name: owned("内容审核员"),
            permissions: permissions_with(&moderator),
        },
    );
    roles.push(
        Role {
            code: owned("operator"),
            name: owned("运营人员"),
            permissions: permissions_with(&operator),
        },
    );
    proof {
        assert(moderator@.map_values(|t: &str| t@) =~= seq![
            "post:view"@,
            "post:update"@,
            "comment:view"@,
            "comment:delete"@,
            "report:view"@,
        ]);
        assert(operator@.map_values(|t: &str| t@) =~= seq![
            "announcement:create"@,
            "announcement:publish"@,
            "category:view"@,
            "tag:view"@,
        ]);
    }
    roles
}

/// Whether `x` has the given fields.
pub open spec fn stat_is(x: AdminStat, label: Seq<char>, value: Seq<char>, delta: Seq<char>) -> bool {
    &&& x.label@ == label
    &&& x.value@ == value
    &&& x.delta@ == delta
}

fn stat(label: &str, value: &str, delta: &str) -> (r: AdminStat)
    ensures
        stat_is(r, label@, value@, delta@),
{
    AdminStat { label: owned(label), value: owned(value), delta: owned(delta) }
}

/// Whether `x` has the given fields.
pub open spec fn menu_is(x: AdminMenuItem, label: Seq<char>, permission: Seq<char>) -> bool {
    &&& x.label@ == label
    &&& x.permission@ == permission
}

fn menu(label: &str, permission: &str) -> (r: AdminMenuItem)
    ensures
        menu_is(r, label@, permission@),
{
    AdminMenuItem { label: owned(label), permission: owned(permission) }
}

/// Whether `x` has the given fields.
pub open spec fn queue_is(x: GovernanceQueueItem, label: Seq<char>, value: Seq<char>) -> bool {
    &&& x.label@ == label
    &&& x.value@ == value
}

fn queue(label: &str, value: &str) -> (r: GovernanceQueueItem)
    ensures
        queue_is(r, label@, value@),
{
    GovernanceQueueItem { label: owned(label), value: owned(value) }
}

/// Whether `x` has the given fields.
pub open spec fn user_row_is(x: AdminUserRow, user_id: u128, username: Seq<char>, nickname: Seq<char>, roles: Seq<Seq<char>>, status: Seq<char>, actions: Seq<Seq<char>>) -> bool {
    &&& x.user_id == user_id
    &&& x.username@ == username
    &&& x.nickname@ == nickname
    &&& texts(x.roles@) == roles
    &&& x.status@ == status
    &&& texts(x.actions@) == actions
}

fn user_row(user_id: u128, username: &str, nickname: &str, roles: &[&str], status: &str, actions: &[&str]) -> (r: AdminUserRow)
    ensures
        user_row_is(r, user_id, username@, nickname@, roles@.map_values(|t: &str| t@), status@, actions@.map_values(|t: &str| t@)),
{
    AdminUserRow { user_id, username: owned(username), nickname: owned(nickname), roles: strings(roles), status: owned(status), actions: strings(actions) }
}

/// Whether `x` has the given fields.
pub open spec fn post_row_is(x: AdminPostRow, post_id: u128, title: Seq<char>, author: Seq<char>, category: Seq<char>, status: Seq<char>, locked: bool, actions: Seq<Seq<char>>) -> bool {
    &&& x.post_id == post_id
    &&& x.title@ == title
    &&& x.author@ == author
    &&& x.category@ == category
    &&& x.status@ == status
    &&& x.locked == locked
    &&& texts(x.actions@) == actions
}

fn post_row(post_id: u128, title: &str, author: &str, category: &str, status: &str, locked: bool, actions: &[&str]) -> (r: AdminPostRow)
    ensures
        post_row_is(r, post_id, title@, author@, category@, status@, locked, actions@.map_values(|t: &str| t@)),
{
    AdminPostRow { post_id, title: owned(title), author: owned(author), category: owned(category), status: owned(status), locked, actions: strings(actions) }
}

/// Whether `x` has the given fields.
pub open spec fn comment_row_is(x: AdminCommentRow, comment_id: u128, post_id: u128, post_title: Seq<char>, author: Seq<char>, content: Seq<char>, status: Seq<char>, actions: Seq<Seq<char>>) -> bool {
    &&& x.comment_id == comment_id
    &&& x.post_id == post_id
    &&& x.post_title@ == post_title
    &&& x.author@ == author
    &&& x.content@ == content
    &&& x.status@ == status
    &&& texts(x.actions@) == actions
}

fn comment_row(comment_id: u128, post_id: u128, post_title: &str, author: &str, content: &str, status: &str, actions: &[&str]) -> (r: AdminCommentRow)
    ensures
        comment_row_is(r, comment_id, post_id, post_title@, author@, content@, status@, actions@.map_values(|t: &str| t@)),
{
    AdminCommentRow { comment_id, post_id, post_title: owned(post_title), author: owned(author), content: owned(content), status: owned(status), actions: strings(actions) }
}

/// Whether `x` has the given fields.
pub open spec fn category_row_is(x: AdminCategoryRow, category_id: u128, name: Seq<char>, color: Seq<char>, sort_order: i32, post_count: u32, status: Seq<char>, actions: Seq<Seq<char>>) -> bool {
    &&& x.category_id == category_id
    &&& x.name@ == name
    &&& x.color@ == color
    &&& x.sort_order == sort_order
    &&& x.post_count == post_count
    &&& x.status@ == status
    &&& texts(x.actions@) == actions
}

fn category_row(category_id: u128, name: &str, color: &str, sort_order: i32, post_count: u32, status: &str, actions: &[&str]) -> (r: AdminCategoryRow)
    ensures
        category_row_is(r, category_id, name@, color@, sort_order, post_count, status@, actions@.map_values(|t: &str| t@)),
{
    AdminCategoryRow { category_id, name: owned(name), color: owned(color), sort_order, post_count, status: owned(status), actions: strings(actions) }
}

/// Whether `x` has the given fields.
pub open spec fn tag_row_is(x: AdminTagRow, tag_id: u128, name: Seq<char>, sort_order: i32, use_count: u32, status: Seq<char>, actions: Seq<Seq<char>>) -> bool {
    &&& x.tag_id == tag_id
    &&& x.name@ == name
    &&& x.sort_order == sort_order
    &&& x.use_count == use_count
    &&& x.status@ == status
    &&& texts(x.actions@) == actions
}

fn tag_row(tag_id: u128, name: &str, sort_order: i32, use_count: u32, status: &str, actions: &[&str]) -> (r: AdminTagRow)
    ensures
        tag_row_is(r, tag_id, name@, sort_order, use_count, status@, actions@.map_values(|t: &str| t@)),
{
    AdminTagRow { tag_id, name: owned(name), sort_order, use_count, status: owned(status), actions: strings(actions) }
}

/// Whether `x` has the given fields.
pub open spec fn announcement_row_is(x: AdminAnnouncementRow, announcement_id: u128, title: Seq<char>, content: Seq<char>, announcement_type: Seq<char>, pinned: bool, effective_at: Option<i128>, expires_at: Option<i128>, audience: Seq<char>, status: Seq<char>, actions: Seq<Seq<char>>) -> bool {
    &&& x.announcement_id == announcement_id
    &&& x.title@ == title
    &&& x.content@ == content
    &&& x.announcement_type@ == announcement_type
    &&& x.pinned == pinned
    &&& x.effective_at == effective_at
    &&& x.expires_at == expires_at
    &&& x.audience@ == audience
    &&& x.status@ == status
    &&& texts(x.actions@) == actions
}

fn announcement_row(announcement_id: u128, title: &str, content: &str, announcement_type: &str, pinned: bool, effective_at: Option<i128>, expires_at: Option<i128>, audience: &str, status: &str, actions: &[&str]) -> (r: AdminAnnouncementRow)
    ensures
        announcement_row_is(r, announcement_id, title@, content@, announcement_type@, pinned, effective_at, expires_at, audience@, status@, actions@.map_values(|t: &str| t@)),
{
    AdminAnnouncementRow { announcement_id, title: owned(title), content: owned(content), announcement_type: owned(announcement_type), pinned, effective_at, expires_at, audience: owned(audience), status: owned(status), actions: strings(actions) }
}

/// Whether `x` has the given fields.
pub open spec fn report_row_is(x: AdminReportRow, report_id: u128, target: Seq<char>, target_type: Seq<char>, reason: Seq<char>, reporter: Seq<char>, status: Seq<char>, actions: Seq<Seq<char>>) -> bool {
    &&& x.report_id == report_id
    &&& x.target@ == target
    &&& x.target_type@ == target_type
    &&& x.reason@ == reason
    &&& x.reporter@ == reporter
    &&& x.status@ == status
    &&& texts(x.actions@) == actions
}

fn report_row(report_id: u128, target: &str, target_type: &str, reason: &str, reporter: &str, status: &str, actions: &[&str]) -> (r: AdminReportRow)
    ensures
        report_row_is(r, report_id, target@, target_type@, reason@, reporter@, status@, actions@.map_values(|t: &str| t@)),
{
    AdminReportRow { report_id, target: owned(target), target_type: owned(target_type), reason: owned(reason), reporter: owned(reporter), status: owned(status), actions: strings(actions) }
}

/// Whether `x` has the given fields.
pub open spec fn audit_entry_is(x: AuditEntry, actor: Seq<char>, action: Seq<char>, target: Seq<char>, ip: Seq<char>, user_agent: Seq<char>, time_label: Seq<char>) -> bool {
    &&& x.actor@ == actor
    &&& x.action@ == action
    &&& x.target@ == target
    &&& x.ip@ == ip
    &&& x.user_agent@ == user_agent
    &&& x.time_label@ == time_label
}

fn audit_entry(actor: &str, action: &str, target: &str, ip: &str, user_agent: &str, time_label: &str) -> (r: AuditEntry)
    ensures
        audit_entry_is(r, actor@, action@, target@, ip@, user_agent@, time_label@),
{
    AuditEntry { actor: owned(actor), action: owned(action), target: owned(target), ip: owned(ip), user_agent: owned(user_agent), time_label: owned(time_label) }
}

/// The demonstration stats of the dashboard.
pub open spec fn demo_stats_ok(r: Seq<AdminStat>) -> bool {
    &&& r.len() == 4
    &&& stat_is(r[0], "用户总数"@, "12,480"@, "今日 +38"@)
    &&& stat_is(r[1], "帖子总数"@, "3,426"@, "今日 +64"@)
    &&& stat_is(r[2], "评论总数"@, "18,902"@, "今日 +210"@)
    &&& stat_is(r[3], "在线用户"@, "328"@, "WebSocket"@)
}

fn demo_stats() -> (r: Vec<AdminStat>)
    ensures
        demo_stats_ok(r@),
{
    let mut v: Vec<AdminStat> = Vec::new();
    v.push(stat("用户总数", "12,480", "今日 +38"));
    v.push(stat("帖子总数", "3,426", "今日 +64"));
    v.push(stat("评论总数", "18,902", "今日 +210"));
    v.push(stat("在线用户", "328", "WebSocket"));
    v
}

/// The demonstration menu of the dashboard.
pub open spec fn demo_menu_ok(r: Seq<AdminMenuItem>) -> bool {
    &&& r.len() == 11
    &&& menu_is(r[0], "系统统计"@, "audit:view"@)
    &&& menu_is(r[1], "用户管理"@, "user:view"@)
    &&& menu_is(r[2], "角色管理"@, "role:view"@)
    &&& menu_is(r[3], "权限管理"@, "permission:view"@)
    &&& menu_is(r[4], "帖子管理"@, "post:view"@)
    &&& menu_is(r[5], "评论管理"@, "comment:view"@)
    &&& menu_is(r[6], "分类管理"@, "category:view"@)
    &&& menu_is(r[7], "标签管理"@, "tag:view"@)
    &&& menu_is(r[8], "公告推送"@, "announcement:publish"@)
    &&& menu_is(r[9], "举报处理"@, "report:view"@)
    &&& menu_is(r[10], "审计日志"@, "audit:view"@)
}

fn demo_menu() -> (r: Vec<AdminMenuItem>)
    ensures
        demo_menu_ok(r@),
{
    let mut v: Vec<AdminMenuItem> = Vec::new();
    v.push(menu("系统统计", "audit:view"));
    v.push(menu("用户管理", "user:view"));
    v.push(menu("角色管理", "role:view"));
    v.push(menu("权限管理", "permission:view"));
    v.push(menu("帖子管理", "post:view"));
    v.push(menu("评论管理", "comment:view"));
    v.push(menu("分类管理", "category:view"));
    v.push(menu("标签管理", "tag:view"));
    v.push(menu("公告推送", "announcement:publish"));
    v.push(menu("举报处理", "report:view"));
    v.push(menu("审计日志", "audit:view"));
    v
}

/// The demonstration users of the dashboard.
pub open spec fn demo_users_ok(r: Seq<AdminUserRow>) -> bool {
    &&& r.len() == 2
    &&& user_row_is(r[0], 1, "mah"@, "mah"@, seq!["admin"@], "正常"@, seq!["调整角色"@, "禁用用户"@])
    &&& user_row_is(r[1], 2, "managed-user"@, "managed-user"@, seq!["member"@], "已禁用"@, seq!["解禁用户"@, "调整角色"@])
}

fn demo_users() -> (r: Vec<AdminUserRow>)
    ensures
        demo_users_ok(r@),
{
    let mut v: Vec<AdminUserRow> = Vec::new();
    let a0_roles: [&str; 1] = ["admin"];
    let a0_actions: [&str; 2] = ["调整角色", "禁用用户"];
    v.push(user_row(1, "mah", "mah", &a0_roles, "正常", &a0_actions));
    let a1_roles: [&str; 1] = ["member"];
    let a1_actions: [&str; 2] = ["解禁用户", "调整角色"];
    v.push(user_row(2, "managed-user", "managed-user", &a1_roles, "已禁用", &a1_actions));
    proof {
        assert(a0_roles@.map_values(|t: &str| t@) =~= seq!["admin"@]);
        assert(a0_actions@.map_values(|t: &str| t@) =~= seq!["调整角色"@, "禁用用户"@]);
        assert(a1_roles@.map_values(|t: &str| t@) =~= seq!["member"@]);
        assert(a1_actions@.map_values(|t: &str| t@) =~= seq!["解禁用户"@, "调整角色"@]);
    }
    v
}

/// The demonstration posts of the dashboard.
pub open spec fn demo_posts_ok(r: Seq<AdminPostRow>) -> bool {
    &&& r.len() == 2
    &&& post_row_is(r[0], 101, "Leptos + Axum 构建全栈应用"@, "Skyline"@, "经验分享"@, "已发布"@, false, seq!["下架"@, "置顶"@, "取消置顶"@, "锁定"@, "删除"@])
    &&& post_row_is(r[1], 102, "表单验证实践"@, "hello-rust"@, "教程"@, "已下架"@, false, seq!["恢复"@, "查看"@, "删除"@])
}

fn demo_posts() -> (r: Vec<AdminPostRow>)
    ensures
        demo_posts_ok(r@),
{
    let mut v: Vec<AdminPostRow> = Vec::new();
    let a0_actions: [&str; 5] = ["下架", "置顶", "取消置顶", "锁定", "删除"];
    v.push(post_row(101, "Leptos + Axum 构建全栈应用", "Skyline", "经验分享", "已发布", false, &a0_actions));
    let a1_actions: [&str; 3] = ["恢复", "查看", "删除"];
    v.push(post_row(102, "表单验证实践", "hello-rust", "教程", "已下架", false, &a1_actions));
    proof {
        assert(a0_actions@.map_values(|t: &str| t@) =~= seq!["下架"@, "置顶"@, "取消置顶"@, "锁定"@, "删除"@]);
        assert(a1_actions@.map_values(|t: &str| t@) =~= seq!["恢复"@, "查看"@, "删除"@]);
    }
    v
}

/// The demonstration comments of the dashboard.
pub open spec fn demo_comments_ok(r: Seq<AdminCommentRow>) -> bool {
    &&& r.len() == 2
    &&& comment_row_is(r[0], 201, 101, "在 server function 中使用 SQLx 事务的最佳实践"@, "wangxy"@, "这个事务边界解释得很清楚"@, "正常"@, seq!["删除评论"@, "查看帖子"@])
    &&& comment_row_is(r[1], 202, 102, "Markdown 渲染时如何高亮显示 Rust 代码？"@, "visitor"@, "该评论已被删除"@, "已删除"@, seq!["恢复评论"@, "查看帖子"@])
}

fn demo_comments() -> (r: Vec<AdminCommentRow>)
    ensures
        demo_comments_ok(r@),
{
    let mut v: Vec<AdminCommentRow> = Vec::new();
    let a0_actions: [&str; 2] = ["删除评论", "查看帖子"];
    v.push(comment_row(201, 101, "在 server function 中使用 SQLx 事务的最佳实践", "wangxy", "这个事务边界解释得很清楚", "正常", &a0_actions));
    let a1_actions: [&str; 2] = ["恢复评论", "查看帖子"];
    v.push(comment_row(202, 102, "Markdown 渲染时如何高亮显示 Rust 代码？", "visitor", "该评论已被删除", "已删除", &a1_actions));
    proof {
        assert(a0_actions@.map_values(|t: &str| t@) =~= seq!["删除评论"@, "查看帖子"@]);
        assert(a1_actions@.map_values(|t: &str| t@) =~= seq!["恢复评论"@, "查看帖子"@]);
    }
    v
}

/// The demonstration categories of the dashboard.
pub open spec fn demo_categories_ok(r: Seq<AdminCategoryRow>) -> bool {
    &&& r.len() == 2
    &&& category_row_is(r[0], 401, "公告"@, "#0064E0"@, 1, 12, "启用"@, seq!["编辑"@, "调整排序"@, "停用"@])
    &&& category_row_is(r[1], 402, "教程"@, "#35A853"@, 2, 34, "启用"@, seq!["编辑"@, "调整排序"@, "停用"@])
}

fn demo_categories() -> (r: Vec<AdminCategoryRow>)
    ensures
        demo_categories_ok(r@),
{
    let mut v: Vec<AdminCategoryRow> = Vec::new();
    let a0_actions: [&str; 3] = ["编辑", "调整排序", "停用"];
    v.push(category_row(401, "公告", "#0064E0", 1, 12, "启用", &a0_actions));
    let a1_actions: [&str; 3] = ["编辑", "调整排序", "停用"];
    v.push(category_row(402, "教程", "#35A853", 2, 34, "启用", &a1_actions));
    proof {
        assert(a0_actions@.map_values(|t: &str| t@) =~= seq!["编辑"@, "调整排序"@, "停用"@]);
        assert(a1_actions@.map_values(|t: &str| t@) =~= seq!["编辑"@, "调整排序"@, "停用"@]);
    }
    v
}

/// The demonstration tags of the dashboard.
pub open spec fn demo_tags_ok(r: Seq<AdminTagRow>) -> bool {
    &&& r.len() == 2
    &&& tag_row_is(r[0], 501, "leptos"@, 1, 132, "启用"@, seq!["编辑"@, "合并标签"@, "禁用"@])
    &&& tag_row_is(r[1], 502, "axum"@, 2, 98, "启用"@, seq!["编辑"@, "合并标签"@, "禁用"@])
}

fn demo_tags() -> (r: Vec<AdminTagRow>)
    ensures
        demo_tags_ok(r@),
{
    let mut v: Vec<AdminTagRow> = Vec::new();
    let a0_actions: [&str; 3] = ["编辑", "合并标签", "禁用"];
    v.push(tag_row(501, "leptos", 1, 132, "启用", &a0_actions));
    let a1_actions: [&str; 3] = ["编辑", "合并标签", "禁用"];
    v.push(tag_row(502, "axum", 2, 98, "启用", &a1_actions));
    proof {
        assert(a0_actions@.map_values(|t: &str| t@) =~= seq!["编辑"@, "合并标签"@, "禁用"@]);
        assert(a1_actions@.map_values(|t: &str| t@) =~= seq!["编辑"@, "合并标签"@, "禁用"@]);
    }
    v
}

/// The demonstration announcements of the dashboard.
pub open spec fn demo_announcements_ok(r: Seq<AdminAnnouncementRow>) -> bool {
    &&& r.len() == 2
    &&& announcement_row_is(r[0], 201, "论坛升级与搜索增强说明"@, "搜索索引和标签筛选能力将在本周完成升级。"@, "系统公告"@, true, None, None, "全体用户"@, "已发布"@, seq!["下线公告"@, "推送公告"@])
    &&& announcement_row_is(r[1], 202, "标签体系调整公告"@, "标签命名和合并规则将按新版后台配置执行。"@, "运营公告"@, false, None, None, "指定角色"@, "草稿"@, seq!["发布公告"@, "编辑"@])
}

fn demo_announcements() -> (r: Vec<AdminAnnouncementRow>)
    ensures
        demo_announcements_ok(r@),
{
    let mut v: Vec<AdminAnnouncementRow> = Vec::new();
    let a0_actions: [&str; 2] = ["下线公告", "推送公告"];
    v.push(announcement_row(201, "论坛升级与搜索增强说明", "搜索索引和标签筛选能力将在本周完成升级。", "系统公告", true, None, None, "全体用户", "已发布", &a0_actions));
    let a1_actions: [&str; 2] = ["发布公告", "编辑"];
    v.push(announcement_row(202, "标签体系调整公告", "标签命名和合并规则将按新版后台配置执行。", "运营公告", false, None, None, "指定角色", "草稿", &a1_actions));
    proof {
        assert(a0_actions@.map_values(|t: &str| t@) =~= seq!["下线公告"@, "推送公告"@]);
        assert(a1_actions@.map_values(|t: &str| t@) =~= seq!["发布公告"@, "编辑"@]);
    }
    v
}

/// The demonstration reports of the dashboard.
pub open spec fn demo_reports_ok(r: Seq<AdminReportRow>) -> bool {
    &&& r.len() == 2
    &&& report_row_is(r[0], 301, "Markdown 渲染时如何高亮显示 Rust 代码？"@, "帖子"@, "垃圾广告"@, "wangxy"@, "待处理"@, seq!["标记已处理"@, "驳回"@, "删除违规内容"@])
    &&& report_row_is(r[1], 302, "关于 resources! 宏在条件渲染下重复请求的问题"@, "评论"@, "人身攻击"@, "Skyline"@, "待处理"@, seq!["标记已处理"@, "驳回"@])
}

fn demo_reports() -> (r: Vec<AdminReportRow>)
    ensures
        demo_reports_ok(r@),
{
    let mut v: Vec<AdminReportRow> = Vec::new();
    let a0_actions: [&str; 3] = ["标记已处理", "驳回", "删除违规内容"];
    v.push(report_row(301, "Markdown 渲染时如何高亮显示 Rust 代码？", "帖子", "垃圾广告", "wangxy", "待处理", &a0_actions));
    let a1_actions: [&str; 2] = ["标记已处理", "驳回"];
    v.push(report_row(302, "关于 resources! 宏在条件渲染下重复请求的问题", "评论", "人身攻击", "Skyline", "待处理", &a1_actions));
    proof {
        assert(a0_actions@.map_values(|t: &str| t@) =~= seq!["标记已处理"@, "驳回"@, "删除违规内容"@]);
        assert(a1_actions@.map_values(|t: &str| t@) =~= seq!["标记已处理"@, "驳回"@]);
    }
    v
}

/// The demonstration queue of the dashboard.
pub open spec fn demo_queue_ok(r: Seq<GovernanceQueueItem>) -> bool {
    &&& r.len() == 6
    &&& queue_is(r[0], "举报处理"@, "23 待处理"@)
    &&& queue_is(r[1], "评论管理"@, "8 条被举报评论"@)
    &&& queue_is(r[2], "分类管理"@, "6 个一级分类"@)
    &&& queue_is(r[3], "标签管理"@, "128 个标签，可合并"@)
    &&& queue_is(r[4], "公告推送"@, "NATS 全体 / 角色 / 指定用户"@)
    &&& queue_is(r[5], "审计日志"@, "记录 IP / User-Agent"@)
}

fn demo_queue() -> (r: Vec<GovernanceQueueItem>)
    ensures
        demo_queue_ok(r@),
{
    let mut v: Vec<GovernanceQueueItem> = Vec::new();
    v.push(queue("举报处理", "23 待处理"));
    v.push(queue("评论管理", "8 条被举报评论"));
    v.push(queue("分类管理", "6 个一级分类"));
    v.push(queue("标签管理", "128 个标签，可合并"));
    v.push(queue("公告推送", "NATS 全体 / 角色 / 指定用户"));
    v.push(queue("审计日志", "记录 IP / User-Agent"));
    v
}

/// The demonstration audit of the dashboard.
pub open spec fn demo_audit_ok(r: Seq<AuditEntry>) -> bool {
    &&& r.len() == 2
    &&& audit_entry_is(r[0], "管理员"@, "置顶帖子"@, "Leptos 0.6 发布"@, "127.0.0.1"@, "Post Forum Admin"@, "10 分钟前"@)
    &&& audit_entry_is(r[1], "运营"@, "发布公告"@, "论坛升级与搜索增强说明"@, "127.0.0.1"@, "Post Forum Admin"@, "1 小时前"@)
}

fn demo_audit() -> (r: Vec<AuditEntry>)
    ensures
        demo_audit_ok(r@),
{
    let mut v: Vec<AuditEntry> = Vec::new();
    v.push(audit_entry("管理员", "置顶帖子", "Leptos 0.6 发布", "127.0.0.1", "Post Forum Admin", "10 分钟前"));
    v.push(audit_entry("运营", "发布公告", "论坛升级与搜索增强说明", "127.0.0.1", "Post Forum Admin", "1 小时前"));
    v
}
/// The demonstration dashboard: every panel holds the demonstration rows given by the
/// `demo_*_ok` predicates, the permission panel lists the whole administration table and
/// the roles are the demonstration roles.
pub open spec fn demo_dashboard_ok(d: AdminDashboard) -> bool {
    &&& demo_stats_ok(d.stats@)
    &&& demo_menu_ok(d.menu@)
    &&& pairs(d.permissions@) == admin_table()
    &&& demo_roles_ok(d.roles@)
    &&& demo_users_ok(d.users@)
    &&& demo_posts_ok(d.moderation_posts@)
    &&& demo_comments_ok(d.moderation_comments@)
    &&& demo_categories_ok(d.categories@)
    &&& demo_tags_ok(d.tags@)
    &&& demo_announcements_ok(d.announcements@)
    &&& demo_reports_ok(d.reports@)
    &&& demo_queue_ok(d.governance_queue@)
    &&& demo_audit_ok(d.audit_entries@)
}

/// The dashboard shown where no live data is at hand (see `demo_dashboard_ok`).
pub fn admin_dashboard_demo() -> (r: AdminDashboard)
    ensures
        demo_dashboard_ok(r),
{
    AdminDashboard {
        stats: demo_stats(),
        menu: demo_menu(),
        permissions: admin_permissions(),
        roles: demo_roles(),
        users: demo_users(),
        moderation_posts: demo_posts(),
        moderation_comments: demo_comments(),
        categories: demo_categories(),
        tags: demo_tags(),
        announcements: demo_announcements(),
        reports: demo_reports(),
        governance_queue: demo_queue(),
        audit_entries: demo_audit(),
    }
}

/// Whether a byte is kept as it is in a data URI: an ASCII letter or digit, `-`, `_`, `.`
/// or `~`.
pub open spec fn uri_safe(b: u8) -> bool {
    (48 <= b <= 57) || (65 <= b <= 90) || (97 <= b <= 122) || b == 45 || b == 95 || b == 46
        || b == 126
}

/// The upper-case hexadecimal digit of a value below 16.
pub open spec fn hex_upper(d: nat) -> char {
    if d < 10 {
        ((d + 48) as u32) as char
    } else {
        ((d + 55) as u32) as char
    }
}

/// The percent-encoding of some bytes: safe bytes as their characters, every other byte
/// as `%` and two upper-case hexadecimal digits.
pub open spec fn percent_encoded(bs: Seq<u8>) -> Seq<char>
    decreases bs.len(),
{
    if bs.len() == 0 {
        seq![]
    } else {
        let b = bs.last();
        percent_encoded(bs.drop_last()) + if uri_safe(b) {
            seq![(b as u32) as char]
        } else {
            seq!['%', hex_upper((b / 16) as nat), hex_upper((b % 16) as nat)]
        }
    }
}

fn upper_digit(d: u8) -> (c: char)
    requires
        d < 16,
    ensures
        c == hex_upper(d as nat),
{
    if d < 10 {
        (d + 48) as char
    } else {
        (d + 55) as char
    }
}

/// Whether a character may appear in a percent-encoded text: an ASCII letter or digit,
/// `-`, `_`, `.`, `~` or `%`.
pub open spec fn encoded_char(c: char) -> bool {
    ('0' <= c && c <= '9') || ('A' <= c && c <= 'Z') || ('a' <= c && c <= 'z') || c == '-' || c
        == '_' || c == '.' || c == '~' || c == '%'
}

/// A percent-encoded text holds only letters, digits, `-`, `_`, `.`, `~` and `%`, so it
/// can stand in a data URI as it is; and it is at most three characters per byte.
pub proof fn law_percent_encoding_is_uri_safe(bs: Seq<u8>)
    ensures
        forall|i: int| 0 <= i < percent_encoded(bs).len() ==> encoded_char(#[trigger] percent_encoded(bs)[i]),
        percent_encoded(bs).len() <= 3 * bs.len(),
    decreases bs.len(),
{
    if bs.len() > 0 {
        let front = bs.drop_last();
        law_percent_encoding_is_uri_safe(front);
        let b = bs.last();
        let pre = percent_encoded(front);
        let tail = if uri_safe(b) {
            seq![(b as u32) as char]
        } else {
            seq!['%', hex_upper((b / 16) as nat), hex_upper((b % 16) as nat)]
        };
        assert(percent_encoded(bs) == pre + tail);
        assert forall|k: int| 0 <= k < tail.len() implies encoded_char(#[trigger] tail[k]) by {
            if uri_safe(b) {
                assert(tail[k] == (b as u32) as char);
            } else if k > 0 {
                let d: nat = if k == 1 { (b / 16) as nat } else { (b % 16) as nat };
                assert(d < 16);
                assert(tail[k] == hex_upper(d));
            }
        }
        assert forall|i: int| 0 <= i < percent_encoded(bs).len() implies encoded_char(#[trigger] percent_encoded(bs)[i]) by {
            if i < pre.len() {
                assert(percent_encoded(bs)[i] == pre[i]);
            } else {
                assert(percent_encoded(bs)[i] == tail[i - pre.len()]);
            }
        }
    }
}

/// The percent-encoding of a text's UTF-8 bytes (see `percent_encoded`).
pub fn percent_encode_data_uri(value: &str) -> (r: String)
    ensures
        r@ == percent_encoded(encode_utf8(value@)),
{
    let bytes: &[u8] = value.as_bytes();
    let mut v: Vec<char> = Vec::new();
    let mut i: usize = 0;
    while i < bytes.len()
        invariant
            i <= bytes@.len(),
            v@ == percent_encoded(bytes@.take(i as int)),
        decreases bytes@.len() - i,
    {
        let b = bytes[i];
        proof {
            assert(bytes@.take(i + 1).drop_last() =~= bytes@.take(i as int));
            assert(bytes@.take(i + 1).last() == b);
        }
        let safe = (b >= 48 && b <= 57) || (b >= 65 && b <= 90) || (b >= 97 && b <= 122) || b
            == 45 || b == 95 || b == 46 || b == 126;
        if safe {
            v.push(b as char);
        } else {
            v.push('%');
            v.push(upper_digit(b / 16));
            v.push(upper_digit(b % 16));
        }
        assert(v@ =~= percent_encoded(bytes@.take(i + 1)));
        i = i + 1;
    }
    assert(bytes@.take(bytes@.len() as int) =~= bytes@);
    string_from_chars(&v)
}

/// A decimal numeral padded on the left with zeros to `w` characters.
pub open spec fn zero_pad(s: Seq<char>, w: nat) -> Seq<char> {
    if s.len() >= w {
        s
    } else {
        Seq::new((w - s.len()) as nat, |i: int| '0') + s
    }
}

/// A year as `{:04}` writes it: four digits at least, a minus sign counted in the width.
pub open spec fn year_text(y: i32) -> Seq<char> {
    if y < 0 {
        seq!['-'] + zero_pad(dec((-y) as nat), 3)
    } else {
        zero_pad(dec(y as nat), 4)
    }
}

/// The value of a `datetime-local` field for a time: `YYYY-MM-DDTHH:MM` in UTC, or empty
/// where there is no time or it cannot be represented.
pub open spec fn datetime_local_text(value: Option<i128>) -> Seq<char> {
    match value {
        None => Seq::<char>::empty(),
        Some(n) => match utc_fields_of(n) {
            None => Seq::<char>::empty(),
            Some(f) => year_text(f.0) + "-"@ + zero_pad(dec(f.1 as nat), 2) + "-"@ + zero_pad(
                dec(f.2 as nat),
                2,
            ) + "T"@ + zero_pad(dec(f.3 as nat), 2) + ":"@ + zero_pad(dec(f.4 as nat), 2),
        },
    }
}

fn push_padded(v: &mut Vec<char>, n: u64, w: usize)
    ensures
        final(v)@ == old(v)@ + zero_pad(dec(n as nat), w as nat),
{
    let d = u64_dec(n);
    let ghost start = v@;
    if d.len() < w {
        let k = w - d.len();
        let mut i: usize = 0;
        while i < k
            invariant
                i <= k,
                v@ == start + Seq::new(i as nat, |j: int| '0'),
            decreases k - i,
        {
            v.push('0');
            i = i + 1;
            assert(v@ =~= start + Seq::new(i as nat, |j: int| '0'));
        }
    }
    extend(v, &d);
    assert(v@ =~= start + zero_pad(dec(n as nat), w as nat));
}

/// The value of a `datetime-local` field for a time (see `datetime_local_text`).
pub fn datetime_local_value(value: Option<i128>) -> (r: String)
    ensures
        r@ == datetime_local_text(value),
{
    let n = match value {
        None => return String::new(),
        Some(n) => n,
    };
    let f = match utc_fields(n) {
        None => return String::new(),
        Some(f) => f,
    };
    let mut v: Vec<char> = Vec::new();
    if f.0 < 0 {
        v.push('-');
        let m: u64 = (0i64 - f.0 as i64) as u64;
        push_padded(&mut v, m, 3);
    } else {
        push_padded(&mut v, f.0 as u64, 4);
    }
    let ghost y = v@;
    assert(y =~= year_text(f.0));
    extend_str(&mut v, "-");
    push_padded(&mut v, f.1 as u64, 2);
    extend_str(&mut v, "-");
    push_padded(&mut v, f.2 as u64, 2);
    extend_str(&mut v, "T");
    push_padded(&mut v, f.3 as u64, 2);
    extend_str(&mut v, ":");
    push_padded(&mut v, f.4 as u64, 2);
    string_from_chars(&v)
}

} // verus!
