//! What each row of the administration tables offers: the badge its status gets, the
//! controls shown for the actions it lists, and the actions left as plain labels.
use vstd::prelude::*;

use crate::admin::{
    AdminAnnouncementRow, AdminCategoryRow, AdminCommentRow, AdminPostRow, AdminReportRow,
    AdminTagRow, AdminUserRow,
};
use crate::bridge::{uuid_string, uuid_text};
use crate::text::{concat_str, str_eq, texts};

verus! {

/// Whether a list of actions holds the given one.
pub open spec fn lists(actions: Seq<String>, name: Seq<char>) -> bool {
    texts(actions).contains(name)
}

/// Whether the row's actions hold the given one.
pub fn has_action(actions: &Vec<String>, name: &str) -> (b: bool)
    ensures
        b == lists(actions@, name@),
{
    let mut i: usize = 0;
    while i < actions.len()
        invariant
            i <= actions@.len(),
            forall|j: int| 0 <= j < i ==> (#[trigger] actions@[j])@ != name@,
        decreases actions@.len() - i,
    {
        if str_eq(actions[i].as_str(), name) {
            assert(texts(actions@)[i as int] == name@);
            return true;
        }
        i = i + 1;
    }
    assert forall|j: int| 0 <= j < texts(actions@).len() implies texts(actions@)[j] != name@ by {
        assert(texts(actions@)[j] == actions@[j]@);
    }
    false
}

/// The actions other than the given ones, in order.
pub open spec fn others(actions: Seq<Seq<char>>, shown: Seq<Seq<char>>) -> Seq<Seq<char>>
    decreases actions.len(),
{
    if actions.len() == 0 {
        seq![]
    } else if shown.contains(actions.last()) {
        others(actions.drop_last(), shown)
    } else {
        others(actions.drop_last(), shown).push(actions.last())
    }
}

fn is_one_of(a: &str, shown: &[&str]) -> (b: bool)
    ensures
        b == shown@.map_values(|s: &str| s@).contains(a@),
{
    let mut i: usize = 0;
    while i < shown.len()
        invariant
            i <= shown@.len(),
            forall|j: int| 0 <= j < i ==> (#[trigger] shown@[j])@ != a@,
        decreases shown@.len() - i,
    {
        if str_eq(shown[i], a) {
            assert(shown@.map_values(|s: &str| s@)[i as int] == a@);
            return true;
        }
        i = i + 1;
    }
    let ghost names = shown@.map_values(|s: &str| s@);
    assert forall|j: int| 0 <= j < names.len() implies #[trigger] names[j] != a@ by {
        assert(names[j] == shown@[j]@);
    }
    false
}

/// The actions of a row that have no control of their own, in order.
pub fn passive_actions(actions: &Vec<String>, shown: &[&str]) -> (r: Vec<String>)
    ensures
        texts(r@) == others(texts(actions@), shown@.map_values(|s: &str| s@)),
{
    let ghost names = shown@.map_values(|s: &str| s@);
    let mut r: Vec<String> = Vec::new();
    let mut i: usize = 0;
    while i < actions.len()
        invariant
            i <= actions@.len(),
            names == shown@.map_values(|s: &str| s@),
            texts(r@) == others(texts(actions@).take(i as int), names),
        decreases actions@.len() - i,
    {
        let ghost before = r@;
        let ghost t = texts(actions@).take(i + 1);
        assert(t.drop_last() =~= texts(actions@).take(i as int));
        assert(t.last() == actions@[i as int]@);
        if !is_one_of(actions[i].as_str(), shown) {
            r.push(actions[i].clone());
            assert(texts(r@) =~= texts(before).push(actions@[i as int]@));
        }
        i = i + 1;
    }
    assert(texts(actions@).take(actions@.len() as int) =~= texts(actions@));
    r
}

/// The badge of a status: `badge badge-{on}` for the given status, `badge badge-{off}`
/// otherwise.
pub open spec fn badge_of(status: Seq<char>, on_status: Seq<char>, on: Seq<char>, off: Seq<char>) -> Seq<char> {
    if status == on_status {
        on
    } else {
        off
    }
}

fn badge(status: &str, on_status: &str, on: &'static str, off: &'static str) -> (r: &'static str)
    ensures
        r@ == badge_of(status@, on_status@, on@, off@),
{
    if str_eq(status, on_status) {
        on
    } else {
        off
    }
}

/// The controls of a row of the user table.
#[derive(Clone, Debug, PartialEq, Eq)]
pub struct UserRowControls {
    pub badge_class: &'static str,
    pub show_role_update: bool,
    pub is_disabled: bool,
    pub passive_actions: Vec<String>,
}

/// A user's row: a green badge when `正常`, grey otherwise; the role control when the
/// row offers `调整角色`; disabled when `已禁用`; the other actions (all but disabling,
/// enabling and the role change) as labels.
pub fn user_row_controls(user: &AdminUserRow) -> (r: UserRowControls)
    ensures
        r.badge_class@ == badge_of(user.status@, "正常"@, "badge badge-green"@, "badge badge-gray"@),
        r.show_role_update == lists(user.actions@, "调整角色"@),
        r.is_disabled == (user.status@ == "已禁用"@),
        texts(r.passive_actions@) == others(texts(user.actions@), seq!["禁用用户"@, "解禁用户"@, "调整角色"@]),
{
    let shown: [&str; 3] = ["禁用用户", "解禁用户", "调整角色"];
    let passive = passive_actions(&user.actions, &shown);
    assert(shown@.map_values(|s: &str| s@) =~= seq!["禁用用户"@, "解禁用户"@, "调整角色"@]);
    UserRowControls {
        badge_class: badge(user.status.as_str(), "正常", "badge badge-green", "badge badge-gray"),
        show_role_update: has_action(&user.actions, "调整角色"),
        is_disabled: str_eq(user.status.as_str(), "已禁用"),
        passive_actions: passive,
    }
}

/// The controls of a row of the post table.
#[derive(Clone, Debug, PartialEq, Eq)]
pub struct PostRowControls {
    pub badge_class: &'static str,
    pub show_take_down: bool,
    pub show_restore: bool,
    pub show_delete: bool,
    pub show_pin: bool,
    pub show_unpin: bool,
    pub show_lock: bool,
    pub show_unlock: bool,
    pub show_view: bool,
    pub post_href: String,
}

/// A post's row: a green badge when `已发布`, orange otherwise; one control for each of
/// `下架`, `恢复`, `删除`, `置顶`, `取消置顶`, `锁定`, `解锁` and `查看` that it lists; and
/// the link to the post.
pub fn post_row_controls(post: &AdminPostRow) -> (r: PostRowControls)
    ensures
        r.badge_class@ == badge_of(post.status@, "已发布"@, "badge badge-green"@, "badge badge-orange"@),
        r.show_take_down == lists(post.actions@, "下架"@),
        r.show_restore == lists(post.actions@, "恢复"@),
        r.show_delete == lists(post.actions@, "删除"@),
        r.show_pin == lists(post.actions@, "置顶"@),
        r.show_unpin == lists(post.actions@, "取消置顶"@),
        r.show_lock == lists(post.actions@, "锁定"@),
        r.show_unlock == lists(post.actions@, "解锁"@),
        r.show_view == lists(post.actions@, "查看"@),
        r.post_href@ == "/posts/"@ + uuid_text(post.post_id),
{
    let id = uuid_string(post.post_id);
    PostRowControls {
        badge_class: badge(post.status.as_str(), "已发布", "badge badge-green", "badge badge-orange"),
        show_take_down: has_action(&post.actions, "下架"),
        show_restore: has_action(&post.actions, "恢复"),
        show_delete: has_action(&post.actions, "删除"),
        show_pin: has_action(&post.actions, "置顶"),
        show_unpin: has_action(&post.actions, "取消置顶"),
        show_lock: has_action(&post.actions, "锁定"),
        show_unlock: has_action(&post.actions, "解锁"),
        show_view: has_action(&post.actions, "查看"),
        post_href: concat_str("/posts/", id.as_str()),
    }
}

/// The controls of a row of the comment table.
#[derive(Clone, Debug, PartialEq, Eq)]
pub struct CommentRowControls {
    pub badge_class: &'static str,
    pub show_delete: bool,
    pub show_recover: bool,
    pub show_view_post: bool,
    pub post_href: String,
}

/// A comment's row: a green badge when `正常`, grey otherwise; the controls for
/// `删除评论`, `恢复评论` and `查看帖子` that it lists; and the link to its post.
pub fn comment_row_controls(comment: &AdminCommentRow) -> (r: CommentRowControls)
    ensures
        r.badge_class@ == badge_of(comment.status@, "正常"@, "badge badge-green"@, "badge badge-gray"@),
        r.show_delete == lists(comment.actions@, "删除评论"@),
        r.show_recover == lists(comment.actions@, "恢复评论"@),
        r.show_view_post == lists(comment.actions@, "查看帖子"@),
        r.post_href@ == "/posts/"@ + uuid_text(comment.post_id),
{
    let id = uuid_string(comment.post_id);
    CommentRowControls {
        badge_class: badge(comment.status.as_str(), "正常", "badge badge-green", "badge badge-gray"),
        show_delete: has_action(&comment.actions, "删除评论"),
        show_recover: has_action(&comment.actions, "恢复评论"),
        show_view_post: has_action(&comment.actions, "查看帖子"),
        post_href: concat_str("/posts/", id.as_str()),
    }
}

/// The controls of a row of the category table.
#[derive(Clone, Debug, PartialEq, Eq)]
pub struct CategoryRowControls {
    pub badge_class: &'static str,
    pub show_update: bool,
    pub show_enable: bool,
    pub show_disable: bool,
    pub passive_actions: Vec<String>,
}

/// A category's row: a green badge when `启用`, grey otherwise; the edit form when it
/// lists `编辑` or `调整排序`; the controls for `启用` and `停用`; the other actions as
/// labels.
pub fn category_row_controls(category: &AdminCategoryRow) -> (r: CategoryRowControls)
    ensures
        r.badge_class@ == badge_of(category.status@, "启用"@, "badge badge-green"@, "badge badge-gray"@),
        r.show_update == (lists(category.actions@, "编辑"@) || lists(category.actions@, "调整排序"@)),
        r.show_enable == lists(category.actions@, "启用"@),
        r.show_disable == lists(category.actions@, "停用"@),
        texts(r.passive_actions@) == others(texts(category.actions@), seq!["启用"@, "停用"@, "编辑"@, "调整排序"@]),
{
    let shown: [&str; 4] = ["启用", "停用", "编辑", "调整排序"];
    let passive = passive_actions(&category.actions, &shown);
    assert(shown@.map_values(|s: &str| s@) =~= seq!["启用"@, "停用"@, "编辑"@, "调整排序"@]);
    let edit = has_action(&category.actions, "编辑");
    let reorder = has_action(&category.actions, "调整排序");
    CategoryRowControls {
        badge_class: badge(category.status.as_str(), "启用", "badge badge-green", "badge badge-gray"),
        show_update: edit || reorder,
        show_enable: has_action(&category.actions, "启用"),
        show_disable: has_action(&category.actions, "停用"),
        passive_actions: passive,
    }
}

/// The controls of a row of the tag table.
#[derive(Clone, Debug, PartialEq, Eq)]
pub struct TagRowControls {
    pub badge_class: &'static str,
    pub show_update: bool,
    pub show_enable: bool,
    pub show_disable: bool,
    pub show_merge: bool,
    pub passive_actions: Vec<String>,
}

/// A tag's row: a blue badge when `启用`, grey otherwise; the controls for `编辑`,
/// `启用`, `禁用` and `合并标签` that it lists; the other actions as labels.
pub fn tag_row_controls(tag: &AdminTagRow) -> (r: TagRowControls)
    ensures
        r.badge_class@ == badge_of(tag.status@, "启用"@, "badge badge-blue"@, "badge badge-gray"@),
        r.show_update == lists(tag.actions@, "编辑"@),
        r.show_enable == lists(tag.actions@, "启用"@),
        r.show_disable == lists(tag.actions@, "禁用"@),
        r.show_merge == lists(tag.actions@, "合并标签"@),
        texts(r.passive_actions@) == others(texts(tag.actions@), seq!["启用"@, "禁用"@, "合并标签"@, "编辑"@]),
{
    let shown: [&str; 4] = ["启用", "禁用", "合并标签", "编辑"];
    let passive = passive_actions(&tag.actions, &shown);
    assert(shown@.map_values(|s: &str| s@) =~= seq!["启用"@, "禁用"@, "合并标签"@, "编辑"@]);
    TagRowControls {
        badge_class: badge(tag.status.as_str(), "启用", "badge badge-blue", "badge badge-gray"),
        show_update: has_action(&tag.actions, "编辑"),
        show_enable: has_action(&tag.actions, "启用"),
        show_disable: has_action(&tag.actions, "禁用"),
        show_merge: has_action(&tag.actions, "合并标签"),
        passive_actions: passive,
    }
}

/// The tags another tag can be merged into: every other tag, in order.
pub open spec fn merge_targets_of(options: Seq<AdminTagRow>, tag_id: u128) -> Seq<AdminTagRow>
    decreases options.len(),
{
    if options.len() == 0 {
        seq![]
    } else if options.last().tag_id == tag_id {
        merge_targets_of(options.drop_last(), tag_id)
    } else {
        merge_targets_of(options.drop_last(), tag_id).push(options.last())
    }
}

/// The tags a tag can be merged into (see `merge_targets_of`).
pub fn merge_targets(tag_id: u128, options: Vec<AdminTagRow>) -> (r: Vec<AdminTagRow>)
    ensures
        r@ == merge_targets_of(options@, tag_id),
{
    let ghost all = options@;
    let mut rest = options;
    let mut r: Vec<AdminTagRow> = Vec::new();
    let mut i: usize = 0;
    let n: usize = rest.len();
    while rest.len() > 0
        invariant
            n == all.len(),
            i <= all.len(),
            rest@ == all.subrange(i as int, all.len() as int),
            r@ == merge_targets_of(all.take(i as int), tag_id),
        decreases rest@.len(),
    {
        let t = rest.remove(0);
        assert(t == all[i as int]);
        assert(rest@ =~= all.subrange(i + 1, all.len() as int));
        let ghost taken = all.take(i + 1);
        assert(taken.drop_last() =~= all.take(i as int));
        assert(taken.last() == t);
        if t.tag_id != tag_id {
            r.push(t);
        }
        i = i + 1;
    }
    assert(all.take(i as int) =~= all);
    r
}

/// The controls of a row of the announcement table.
#[derive(Clone, Debug, PartialEq, Eq)]
pub struct AnnouncementRowControls {
    pub badge_class: &'static str,
    pub show_publish: bool,
    pub show_withdraw: bool,
    pub show_push: bool,
    pub show_edit: bool,
    pub publish_label: &'static str,
}

/// An announcement's row: a green badge when `已发布`, orange otherwise; the publish
/// control when it lists `发布公告` or `重新发布`, labelled `重新发布` once withdrawn
/// (`已下线`) and `发布公告` otherwise; the controls for `下线公告`, `推送公告` and `编辑`.
pub fn announcement_row_controls(a: &AdminAnnouncementRow) -> (r: AnnouncementRowControls)
    ensures
        r.badge_class@ == badge_of(a.status@, "已发布"@, "badge badge-green"@, "badge badge-orange"@),
        r.show_publish == (lists(a.actions@, "发布公告"@) || lists(a.actions@, "重新发布"@)),
        r.show_withdraw == lists(a.actions@, "下线公告"@),
        r.show_push == lists(a.actions@, "推送公告"@),
        r.show_edit == lists(a.actions@, "编辑"@),
        r.publish_label@ == (if a.status@ == "已下线"@ { "重新发布"@ } else { "发布公告"@ }),
{
    let publish = has_action(&a.actions, "发布公告");
    let republish = has_action(&a.actions, "重新发布");
    AnnouncementRowControls {
        badge_class: badge(a.status.as_str(), "已发布", "badge badge-green", "badge badge-orange"),
        show_publish: publish || republish,
        show_withdraw: has_action(&a.actions, "下线公告"),
        show_push: has_action(&a.actions, "推送公告"),
        show_edit: has_action(&a.actions, "编辑"),
        publish_label: if str_eq(a.status.as_str(), "已下线") { "重新发布" } else { "发布公告" },
    }
}

/// The controls of a row of the report table.
#[derive(Clone, Debug, PartialEq, Eq)]
pub struct ReportRowControls {
    pub show_handle: bool,
    pub show_reject: bool,
    pub show_detail: bool,
}

/// A report's row: the controls for `标记已处理`, `驳回` and `查看详情` that it lists.
pub fn report_row_controls(report: &AdminReportRow) -> (r: ReportRowControls)
    ensures
        r.show_handle == lists(report.actions@, "标记已处理"@),
        r.show_reject == lists(report.actions@, "驳回"@),
        r.show_detail == lists(report.actions@, "查看详情"@),
{
    ReportRowControls {
        show_handle: has_action(&report.actions, "标记已处理"),
        show_reject: has_action(&report.actions, "驳回"),
        show_detail: has_action(&report.actions, "查看详情"),
    }
}

} // verus!
