//! Roles and permissions of the administration area.
use vstd::prelude::*;
use vstd::std_specs::convert::FromSpecImpl;

use crate::bridge::string_from_chars;
use crate::text::{dec, extend_str, join, owned, str_eq, strings, texts, u64_dec};
use crate::user_admin::AuditContext;

verus! {

/// A permission: its code and its display name.
#[derive(Debug, PartialEq, Eq)]
pub struct Permission {
    pub code: String,
    pub name: String,
}

impl Permission {
    /// A permission with its code and name.
    pub fn new(code: String, name: String) -> (r: Permission)
        ensures
            r.code == code,
            r.name == name,
    {
        Permission { code, name }
    }
}

impl Clone for Permission {
    fn clone(&self) -> (r: Permission)
        ensures
            r == *self,
    {
        Permission { code: self.code.clone(), name: self.name.clone() }
    }
}

/// A role and the permissions it grants.
#[derive(Clone, Debug, PartialEq, Eq)]
pub struct Role {
    pub code: String,
    pub name: String,
    pub permissions: Vec<Permission>,
}

/// A request to create a role.
#[derive(Clone, Debug, PartialEq, Eq)]
pub struct CreateRoleRequest {
    pub code: String,
    pub name: String,
    pub permission_codes: Vec<String>,
    pub context: AuditContext,
}

/// A request to change a role; absent fields stay as they are.
#[derive(Clone, Debug, PartialEq, Eq)]
pub struct UpdateRoleRequest {
    pub name: Option<String>,
    pub permission_codes: Option<Vec<String>>,
    pub context: AuditContext,
}

/// Code and name of each permission.
pub open spec fn pairs(ps: Seq<Permission>) -> Seq<(Seq<char>, Seq<char>)> {
    Seq::new(ps.len(), |i: int| (ps[i].code@, ps[i].name@))
}

/// The codes of a list of permissions.
pub open spec fn codes(ps: Seq<Permission>) -> Seq<Seq<char>> {
    Seq::new(ps.len(), |i: int| ps[i].code@)
}

/// Every permission of the administration area, in order.
pub open spec fn admin_table() -> Seq<(Seq<char>, Seq<char>)> {
    seq![
        ("user:view"@, "查看用户"@),
        ("user:update"@, "更新用户"@),
        ("user:disable"@, "禁用用户"@),
        ("post:view"@, "查看帖子"@),
        ("post:update"@, "更新帖子"@),
        ("post:delete"@, "删除帖子"@),
        ("comment:view"@, "查看评论"@),
        ("comment:delete"@, "删除评论"@),
        ("announcement:create"@, "创建公告"@),
        ("announcement:publish"@, "发布公告"@),
        ("role:view"@, "查看角色"@),
        ("role:create"@, "创建角色"@),
        ("role:update"@, "更新角色"@),
        ("role:delete"@, "删除角色"@),
        ("permission:view"@, "查看权限"@),
        ("category:view"@, "查看分类"@),
        ("tag:view"@, "查看标签"@),
        ("report:view"@, "查看举报"@),
        ("audit:view"@, "查看审计日志"@),
    ]
}

fn permission(code: &str, name: &str) -> (r: Permission)
    ensures
        r.code@ == code@,
        r.name@ == name@,
{
    Permission::new(owned(code), owned(name))
}

/// Every permission of the administration area (see `admin_table`).
pub fn admin_permissions() -> (r: Vec<Permission>)
    ensures
        pairs(r@) == admin_table(),
{
    let mut v: Vec<Permission> = Vec::new();
    v.push(permission("user:view", "查看用户"));
    v.push(permission("user:update", "更新用户"));
    v.push(permission("user:disable", "禁用用户"));
    v.push(permission("post:view", "查看帖子"));
    v.push(permission("post:update", "更新帖子"));
    v.push(permission("post:delete", "删除帖子"));
    v.push(permission("comment:view", "查看评论"));
    v.push(permission("comment:delete", "删除评论"));
    v.push(permission("announcement:create", "创建公告"));
    v.push(permission("announcement:publish", "发布公告"));
    v.push(permission("role:view", "查看角色"));
    v.push(permission("role:create", "创建角色"));
    v.push(permission("role:update", "更新角色"));
    v.push(permission("role:delete", "删除角色"));
    v.push(permission("permission:view", "查看权限"));
    v.push(permission("category:view", "查看分类"));
    v.push(permission("tag:view", "查看标签"));
    v.push(permission("report:view", "查看举报"));
    v.push(permission("audit:view", "查看审计日志"));
    assert(pairs(v@) =~= admin_table());
    v
}

/// The name listed for `code` in a table, where it is listed.
pub open spec fn lookup(t: Seq<(Seq<char>, Seq<char>)>, code: Seq<char>) -> Option<Seq<char>>
    decreases t.len(),
{
    if t.len() == 0 {
        None
    } else if t[0].0 == code {
        Some(t[0].1)
    } else {
        lookup(t.drop_first(), code)
    }
}

/// The display name of a permission code: its name in the administration table, or the
/// code itself where the table does not list it.
pub open spec fn permission_name(code: Seq<char>) -> Seq<char> {
    match lookup(admin_table(), code) {
        Some(n) => n,
        None => code,
    }
}

fn name_of_code(table: &Vec<Permission>, code: &str) -> (r: String)
    ensures
        r@ == (match lookup(pairs(table@), code@) {
            Some(n) => n,
            None => code@,
        }),
{
    let ghost t = pairs(table@);
    let mut j: usize = 0;
    assert(t.skip(0) =~= t);
    while j < table.len()
        invariant
            j <= table@.len(),
            t == pairs(table@),
            lookup(t, code@) == lookup(t.skip(j as int), code@),
        decreases table@.len() - j,
    {
        assert(t.skip(j as int)[0] == t[j as int]);
        if str_eq(table[j].code.as_str(), code) {
            return table[j].name.clone();
        }
        assert(t.skip(j as int).drop_first() =~= t.skip(j + 1));
        j = j + 1;
    }
    owned(code)
}

/// The permissions of a list of codes, each named as `permission_name` says, in order.
pub fn permissions_from_codes(codes: Vec<String>) -> (r: Vec<Permission>)
    ensures
        r@.len() == codes@.len(),
        forall|i: int|
            0 <= i < codes@.len() ==> (#[trigger] r@[i]).code == codes@[i] && r@[i].name@
                == permission_name(codes@[i]@),
{
    let table = admin_permissions();
    let mut out: Vec<Permission> = Vec::new();
    let mut i: usize = 0;
    while i < codes.len()
        invariant
            i <= codes@.len(),
            pairs(table@) == admin_table(),
            out@.len() == i,
            forall|k: int|
                0 <= k < i ==> (#[trigger] out@[k]).code == codes@[k] && out@[k].name@
                    == permission_name(codes@[k]@),
        decreases codes@.len() - i,
    {
        let name = name_of_code(&table, codes[i].as_str());
        out.push(Permission::new(codes[i].clone(), name));
        i = i + 1;
    }
    out
}

/// The permissions named by a list of codes (see `permissions_from_codes`).
pub open spec fn named_permissions(ps: Seq<Permission>, cs: Seq<Seq<char>>) -> bool {
    &&& ps.len() == cs.len()
    &&& forall|i: int|
        0 <= i < cs.len() ==> (#[trigger] ps[i]).code@ == cs[i] && ps[i].name@ == permission_name(
            cs[i],
        )
}

/// The roles every installation starts with: administrator (all permissions), member,
/// moderator and operator.
pub open spec fn seed_roles_ok(r: Seq<Role>) -> bool {
    &&& r.len() == 4
    &&& r[0].code@ == "admin"@ && r[0].name@ == "管理员"@
    &&& pairs(r[0].permissions@) == admin_table()
    &&& r[1].code@ == "member"@ && r[1].name@ == "普通用户"@
    &&& named_permissions(r[1].permissions@, seq!["post:view"@, "comment:view"@])
    &&& r[2].code@ == "moderator"@ && r[2].name@ == "内容审核员"@
    &&& named_permissions(
        r[2].permissions@,
        seq!["post:view"@, "post:update"@, "comment:view"@, "comment:delete"@, "report:view"@],
    )
    &&& r[3].code@ == "operator"@ && r[3].name@ == "运营人员"@
    &&& named_permissions(
        r[3].permissions@,
        seq!["announcement:create"@, "announcement:publish"@, "category:view"@, "tag:view"@],
    )
}

fn named(codes: &[&str]) -> (r: Vec<Permission>)
    ensures
        named_permissions(r@, codes@.map_values(|t: &str| t@)),
{
    let cs = strings(codes);
    let ghost cv = cs@;
    let ghost want = codes@.map_values(|t: &str| t@);
    assert(texts(cv).len() == cv.len());
    assert(cv.len() == want.len());
    let r = permissions_from_codes(cs);
    assert forall|i: int| 0 <= i < want.len() implies (#[trigger] r@[i]).code@ == want[i] by {
        assert(texts(cv)[i] == cv[i]@);
    }
    r
}

/// The roles every installation starts with (see `seed_roles_ok`).
pub fn seed_roles() -> (r: Vec<Role>)
    ensures
        seed_roles_ok(r@),
{
    let mut roles: Vec<Role> = Vec::new();
    roles.push(Role { code: owned("admin"), name: owned("管理员"), permissions: admin_permissions() });
    let member: [&str; 2] = ["post:view", "comment:view"];
    roles.push(
        Role { code: owned("member"), name: owned("普通用户"), permissions: named(&member) },
    );
    let moderator: [&str; 5] = [
        "post:view",
        "post:update",
        "comment:view",
        "comment:delete",
        "report:view",
    ];
    roles.push(
        Role {
            code: owned("moderator"),
            name: owned("内容审核员"),
            permissions: named(&moderator),
        },
    );
    let operator: [&str; 4] = [
        "announcement:create",
        "announcement:publish",
        "category:view",
        "tag:view",
    ];
    roles.push(
        Role { code: owned("operator"), name: owned("运营人员"), permissions: named(&operator) },
    );
    proof {
        assert(member@.map_values(|t: &str| t@) =~= seq!["post:view"@, "comment:view"@]);
        assert(moderator@.map_values(|t: &str| t@) =~= seq![
            "post:view"@,
            "post:update"@,
            "comment:view"@,
            "comment:delete"@,
            "report:view"@,
        ]);
        assert(operator@.map_values(|t: &str| t@) =~= seq![
            "announcement:create"@,
            "announcement:publish"@,
            "category:view"@,
            "tag:view"@,
        ]);
    }
    roles
}

fn push_codes(out: &mut Vec<char>, ps: &Vec<Permission>, sep: &str)
    ensures
        final(out)@ == old(out)@ + join(codes(ps@), sep@),
{
    let ghost names = codes(ps@);
    let ghost start = out@;
    let n: usize = ps.len();
    let mut i: usize = 0;
    while i < n
        invariant
            n == ps@.len(),
            names == codes(ps@),
            i <= n,
            out@ == start + join(names.take(i as int), sep@),
        decreases n - i,
    {
        if i > 0 {
            extend_str(out, sep);
        }
        extend_str(out, ps[i].code.as_str());
        proof {
            let p = names.take(i + 1);
            assert(p.drop_last() =~= names.take(i as int));
            assert(p.last() == ps@[i as int].code@);
            if i == 0 {
                assert(names.take(0) =~= Seq::<Seq<char>>::empty());
            }
            assert(out@ =~= start + join(p, sep@));
        }
        i = i + 1;
    }
    assert(names.take(n as int) =~= names);
}

/// The audit text of a role: `code=…,name=…,permissions=` and its permission codes
/// joined by `|`.
pub open spec fn role_snapshot_text(role: Role) -> Seq<char> {
    "code="@ + role.code@ + ",name="@ + role.name@ + ",permissions="@ + join(
        codes(role.permissions@),
        "|"@,
    )
}

/// The audit text of a role (see `role_snapshot_text`).
pub fn snapshot(role: &Role) -> (r: String)
    ensures
        r@ == role_snapshot_text(*role),
{
    let mut v: Vec<char> = Vec::new();
    extend_str(&mut v, "code=");
    extend_str(&mut v, role.code.as_str());
    extend_str(&mut v, ",name=");
    extend_str(&mut v, role.name.as_str());
    extend_str(&mut v, ",permissions=");
    push_codes(&mut v, &role.permissions, "|");
    string_from_chars(&v)
}

/// The permission codes of a role joined by `,`, as the role form shows them.
pub fn role_permission_codes_value(role: &Role) -> (r: String)
    ensures
        r@ == join(codes(role.permissions@), ","@),
{
    let mut v: Vec<char> = Vec::new();
    push_codes(&mut v, &role.permissions, ",");
    string_from_chars(&v)
}

/// The permission names of a list joined by ` / `.
pub open spec fn names(ps: Seq<Permission>) -> Seq<Seq<char>> {
    Seq::new(ps.len(), |i: int| ps[i].name@)
}

/// The short description of a role's permissions: `全部权限` from ten permissions on;
/// otherwise the first three names joined by ` / `, followed by ` / +n` where `n` more
/// are left out.
pub open spec fn permission_summary(ps: Seq<Permission>) -> Seq<char> {
    if ps.len() >= 10 {
        "全部权限"@
    } else if ps.len() > 3 {
        join(names(ps.take(3)), " / "@) + " / +"@ + dec((ps.len() - 3) as nat)
    } else {
        join(names(ps), " / "@)
    }
}

/// The short description of a role's permissions (see `permission_summary`).
pub fn role_permission_summary(role: &Role) -> (r: String)
    ensures
        r@ == permission_summary(role.permissions@),
{
    let ps = &role.permissions;
    let n = ps.len();
    if n >= 10 {
        return owned("全部权限");
    }
    let k: usize = if n > 3 {
        3
    } else {
        n
    };
    let ghost all = names(ps@.take(k as int));
    let mut v: Vec<char> = Vec::new();
    let mut i: usize = 0;
    while i < k
        invariant
            k <= n == ps@.len(),
            i <= k,
            all == names(ps@.take(k as int)),
            v@ == join(all.take(i as int), " / "@),
        decreases k - i,
    {
        let ghost before = v@;
        if i > 0 {
            extend_str(&mut v, " / ");
        }
        extend_str(&mut v, ps[i].name.as_str());
        proof {
            let p = all.take(i + 1);
            assert(p.drop_last() =~= all.take(i as int));
            assert(p.last() == ps@[i as int].name@);
            if i == 0 {
                assert(all.take(0) =~= Seq::<Seq<char>>::empty());
            }
            assert(v@ =~= join(p, " / "@));
        }
        i = i + 1;
    }
    assert(all.take(k as int) =~= all);
    if n > 3 {
        extend_str(&mut v, " / +");
        let d = u64_dec((n - 3) as u64);
        crate::text::extend(&mut v, &d);
    } else {
        assert(ps@.take(k as int) =~= ps@);
    }
    string_from_chars(&v)
}

/// The permission codes typed in a role form: split at `,`, trimmed, empty ones left
/// out.
pub fn role_permission_codes(value: &str) -> (r: Vec<String>)
    ensures
        texts(r@) == crate::text::kept_trimmed(crate::text::split_on(value@, ',')),
{
    crate::text::split_trimmed(value, ',')
}

/// A role's permission codes, shown in the role form joined by `,` and read back from
/// it, are the same codes, in the same order, where every code is non-empty, has no
/// surrounding whitespace and holds no `,`.
pub proof fn law_permission_codes_round_trip(ps: Seq<Permission>)
    requires
        forall|i: int| 0 <= i < ps.len() ==> {
            let c = (#[trigger] ps[i]).code@;
            c.len() > 0 && crate::text::trim(c) == c && !c.contains(',')
        },
    ensures
        crate::text::kept_trimmed(crate::text::split_on(join(codes(ps), ","@), ',')) == codes(ps),
{
    let cs = codes(ps);
    assert forall|i: int| 0 <= i < cs.len() implies (#[trigger] cs[i]).len() > 0
        && crate::text::trim(cs[i]) == cs[i] && !cs[i].contains(',') by {
        assert(cs[i] == ps[i].code@);
    }
    crate::text::lemma_comma_list_round_trip(cs);
}

/// The role codes typed in a user form: split at `,`, trimmed, empty ones left out.
pub fn role_codes(value: &str) -> (r: Vec<String>)
    ensures
        texts(r@) == crate::text::kept_trimmed(crate::text::split_on(value@, ',')),
{
    crate::text::split_trimmed(value, ',')
}

/// A stored role with its permission codes.
#[derive(Clone, Debug, PartialEq, Eq)]
pub struct RoleDbRow {
    pub code: String,
    pub name: String,
    pub permission_codes: Vec<String>,
}

impl Role {
    /// The role of a stored row: its codes become named permissions.
    pub fn from_row(row: RoleDbRow) -> (r: Role)
        ensures
            r.code == row.code,
            r.name == row.name,
            r.permissions@.len() == row.permission_codes@.len(),
            forall|i: int|
                0 <= i < row.permission_codes@.len() ==> (#[trigger] r.permissions@[i]).code
                    == row.permission_codes@[i] && r.permissions@[i].name@ == permission_name(
                    row.permission_codes@[i]@,
                ),
    {
        let permissions = permissions_from_codes(row.permission_codes);
        Role { code: row.code, name: row.name, permissions }
    }
}

/// Reading and writing roles in storage.
pub struct PostgresRbacRepository;

} // verus!
