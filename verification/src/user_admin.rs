//! Administration of user accounts: roles, audit context and the audit log.
use vstd::prelude::*;
use vstd::std_specs::convert::FromSpecImpl;

use crate::bridge::{lowercase, string_from_chars, to_lowercase, uuid_string, uuid_text};
use crate::home::lemma_trim_ascii;
use crate::text::{
    ascii_lower_text, char_count, extend_str, is_ascii_text, is_trimmed, join, lemma_ascii_lower_settles,
    lemma_trim_is_trimmed, lemma_trimmed_fixed, owned, push_joined, str_eq, texts, trim, trim_str,
};

verus! {

/// A user as the administration list shows it.
#[derive(Clone, Debug, PartialEq, Eq)]
pub struct AdminUserRow {
    pub user_id: u128,
    pub username: String,
    pub nickname: String,
    pub roles: Vec<String>,
    pub disabled: bool,
    pub post_count: usize,
    pub comment_count: usize,
}

/// Where an administrative request came from, for the audit log.
#[derive(Clone, Debug, PartialEq, Eq)]
pub struct AuditContext {
    pub ip: Option<String>,
    pub user_agent: Option<String>,
}

impl Default for AuditContext {
    fn default() -> (r: AuditContext)
        ensures
            r.ip is None,
            r.user_agent is None,
    {
        AuditContext { ip: None, user_agent: None }
    }
}

/// A request to replace a user's roles.
#[derive(Clone, Debug, PartialEq, Eq)]
pub struct UpdateUserRolesRequest {
    pub roles: Vec<String>,
    pub context: AuditContext,
}

/// Each role code trimmed and lower-cased, without the empty ones, in order.
pub open spec fn cleaned_roles(roles: Seq<Seq<char>>) -> Seq<Seq<char>>
    decreases roles.len(),
{
    if roles.len() == 0 {
        seq![]
    } else {
        let c = lowercase(trim(roles.last()));
        if c.len() > 0 {
            cleaned_roles(roles.drop_last()).push(c)
        } else {
            cleaned_roles(roles.drop_last())
        }
    }
}

/// The first occurrence of each value, in order.
pub open spec fn first_occurrences(s: Seq<Seq<char>>) -> Seq<Seq<char>>
    decreases s.len(),
{
    if s.len() == 0 {
        seq![]
    } else {
        let d = first_occurrences(s.drop_last());
        if d.contains(s.last()) {
            d
        } else {
            d.push(s.last())
        }
    }
}

/// Whether no value occurs twice.
pub open spec fn no_repeats(s: Seq<Seq<char>>) -> bool {
    forall|i: int, j: int| 0 <= i < j < s.len() ==> s[i] != s[j]
}

impl UpdateUserRolesRequest {
    /// The requested role codes, trimmed and lower-cased, without empty ones and without
    /// repeats, in the order of their first occurrence.
    pub fn normalized_roles(&self) -> (r: Vec<String>)
        ensures
            texts(r@) == first_occurrences(cleaned_roles(texts(self.roles@))),
    {
        let ghost all = texts(self.roles@);
        let mut seen: Vec<Seq<char>> = Vec::new();
        let mut acc: Vec<String> = Vec::new();
        let mut i: usize = 0;
        while i < self.roles.len()
            invariant
                i <= self.roles@.len(),
                all == texts(self.roles@),
                texts(acc@) == first_occurrences(cleaned_roles(all.take(i as int))),
            decreases self.roles@.len() - i,
        {
            let ghost pre = all.take(i as int);
            proof {
                assert(all.take(i + 1).drop_last() =~= pre);
                assert(all.take(i + 1).last() == self.roles@[i as int]@);
            }
            let t = trim_str(self.roles[i].as_str());
            let role = to_lowercase(t.as_str());
            assert(role@ == lowercase(trim(all[i as int])));
            if char_count(role.as_str()) > 0 {
                assert(cleaned_roles(all.take(i + 1)) == cleaned_roles(pre).push(role@));
                assert(cleaned_roles(pre).push(role@).drop_last() =~= cleaned_roles(pre));
                let mut found = false;
                let mut j: usize = 0;
                while j < acc.len()
                    invariant
                        j <= acc@.len(),
                        found == texts(acc@).take(j as int).contains(role@),
                    decreases acc@.len() - j,
                {
                    let ghost tk = texts(acc@).take(j as int);
                    let ghost nk = tk.push(acc@[j as int]@);
                    assert(texts(acc@).take(j + 1) =~= nk);
                    proof {
                        if nk.contains(role@) {
                            let k = choose|k: int| 0 <= k < nk.len() && nk[k] == role@;
                            if k < tk.len() {
                                assert(tk[k] == role@);
                            }
                        }
                        if tk.contains(role@) {
                            let k = choose|k: int| 0 <= k < tk.len() && tk[k] == role@;
                            assert(nk[k] == role@);
                        }
                        assert(nk[tk.len() as int] == acc@[j as int]@);
                    }
                    if str_eq(acc[j].as_str(), role.as_str()) {
                        found = true;
                    }
                    j = j + 1;
                }
                assert(texts(acc@).take(acc@.len() as int) =~= texts(acc@));
                if !found {
                    let ghost before = acc@;
                    acc.push(role);
                    assert(texts(acc@) =~= texts(before).push(acc@[before.len() as int]@));
                }
            } else {
                assert(cleaned_roles(all.take(i + 1)) == cleaned_roles(pre));
            }
            i = i + 1;
        }
        assert(all.take(self.roles@.len() as int) =~= all);
        acc
    }
}

/// The first occurrences of a list repeat no value.
pub proof fn lemma_first_occurrences_no_repeats(s: Seq<Seq<char>>)
    ensures
        no_repeats(first_occurrences(s)),
        forall|x: Seq<char>| #[trigger] first_occurrences(s).contains(x) <==> s.contains(x),
    decreases s.len(),
{
    if s.len() > 0 {
        lemma_first_occurrences_no_repeats(s.drop_last());
        let d = first_occurrences(s.drop_last());
        assert forall|x: Seq<char>| #[trigger] first_occurrences(s).contains(x) <==> s.contains(
            x,
        ) by {
            if s.contains(x) && x != s.last() {
                let k = choose|k: int| 0 <= k < s.len() && s[k] == x;
                assert(s.drop_last()[k] == x);
            }
            if s.drop_last().contains(x) {
                let k = choose|k: int| 0 <= k < s.len() - 1 && s.drop_last()[k] == x;
                assert(s[k] == x);
            }
            if !d.contains(s.last()) {
                if d.push(s.last()).contains(x) && x != s.last() {
                    let k = choose|k: int| 0 <= k < d.len() + 1 && d.push(s.last())[k] == x;
                    assert(d[k] == x);
                }
                if d.contains(x) {
                    let k = choose|k: int| 0 <= k < d.len() && d[k] == x;
                    assert(d.push(s.last())[k] == x);
                }
                assert(d.push(s.last())[d.len() as int] == s.last());
            }
            assert(s[s.len() - 1] == s.last());
        }
    }
}

/// The normalized roles of a request repeat no role, and are non-empty, trimmed and
/// lower-cased versions of the requested ones; every requested role that is non-empty
/// once cleaned is among them.
pub proof fn law_normalized_roles_distinct(roles: Seq<Seq<char>>)
    ensures
        no_repeats(first_occurrences(cleaned_roles(roles))),
        forall|x: Seq<char>|
            #[trigger] first_occurrences(cleaned_roles(roles)).contains(x) <==> cleaned_roles(
                roles,
            ).contains(x),
{
    lemma_first_occurrences_no_repeats(cleaned_roles(roles));
}

/// Whether a role code is as normalizing leaves it: non-empty ASCII text with no white
/// space at either end and no capital letter.
pub open spec fn role_settled(c: Seq<char>) -> bool {
    &&& c.len() > 0
    &&& is_ascii_text(c)
    &&& is_trimmed(c)
    &&& ascii_lower_text(c) == c
}

/// Whether every role code of a list is ASCII text.
pub open spec fn all_ascii(roles: Seq<Seq<char>>) -> bool {
    forall|i: int| 0 <= i < roles.len() ==> is_ascii_text(#[trigger] roles[i])
}

proof fn lemma_cleaned_settled(roles: Seq<Seq<char>>)
    requires
        all_ascii(roles),
    ensures
        forall|i: int|
            0 <= i < cleaned_roles(roles).len() ==> role_settled(#[trigger] cleaned_roles(roles)[i]),
    decreases roles.len(),
{
    if roles.len() > 0 {
        let rest = roles.drop_last();
        assert(all_ascii(rest)) by {
            assert forall|i: int| 0 <= i < rest.len() implies is_ascii_text(#[trigger] rest[i]) by {
                assert(rest[i] == roles[i]);
            }
        }
        lemma_cleaned_settled(rest);
        let e = roles.last();
        assert(is_ascii_text(roles[roles.len() - 1]));
        lemma_trim_ascii(e);
        lemma_trim_is_trimmed(e);
        lemma_ascii_lower_settles(trim(e));
        reveal(lowercase);
        let c = lowercase(trim(e));
        assert(c == ascii_lower_text(trim(e)));
        if c.len() > 0 {
            let p = cleaned_roles(rest).push(c);
            assert forall|i: int| 0 <= i < p.len() implies role_settled(#[trigger] p[i]) by {
                if i < cleaned_roles(rest).len() {
                    assert(p[i] == cleaned_roles(rest)[i]);
                }
            }
        }
    }
}

proof fn lemma_cleaned_fixed(s: Seq<Seq<char>>)
    requires
        forall|i: int| 0 <= i < s.len() ==> role_settled(#[trigger] s[i]),
    ensures
        cleaned_roles(s) == s,
    decreases s.len(),
{
    if s.len() > 0 {
        let rest = s.drop_last();
        assert forall|i: int| 0 <= i < rest.len() implies role_settled(#[trigger] rest[i]) by {
            assert(rest[i] == s[i]);
        }
        lemma_cleaned_fixed(rest);
        let e = s.last();
        assert(role_settled(s[s.len() - 1]));
        lemma_trimmed_fixed(e);
        reveal(lowercase);
        assert(lowercase(trim(e)) == e);
        assert(rest.push(e) =~= s);
    }
}

proof fn lemma_first_occurrences_of_distinct(s: Seq<Seq<char>>)
    requires
        no_repeats(s),
    ensures
        first_occurrences(s) == s,
    decreases s.len(),
{
    if s.len() > 0 {
        let rest = s.drop_last();
        assert(no_repeats(rest)) by {
            assert forall|i: int, j: int| 0 <= i < j < rest.len() implies rest[i] != rest[j] by {
                assert(rest[i] == s[i] && rest[j] == s[j]);
            }
        }
        lemma_first_occurrences_of_distinct(rest);
        if rest.contains(s.last()) {
            let k = choose|k: int| 0 <= k < rest.len() && rest[k] == s.last();
            assert(s[k] == s[s.len() - 1]);
        }
        assert(rest.push(s.last()) =~= s);
    }
}

/// Normalizing the normalized roles of a request again gives them back unchanged, where the
/// requested role codes are ASCII text.
pub proof fn law_normalized_roles_settle(roles: Seq<Seq<char>>)
    requires
        all_ascii(roles),
    ensures
        first_occurrences(cleaned_roles(first_occurrences(cleaned_roles(roles))))
            == first_occurrences(cleaned_roles(roles)),
{
    let c = cleaned_roles(roles);
    let n = first_occurrences(c);
    lemma_cleaned_settled(roles);
    lemma_first_occurrences_no_repeats(c);
    assert forall|i: int| 0 <= i < n.len() implies role_settled(#[trigger] n[i]) by {
        assert(n.contains(n[i]));
        assert(c.contains(n[i]));
        let k = choose|k: int| 0 <= k < c.len() && c[k] == n[i];
        assert(role_settled(c[k]));
    }
    lemma_cleaned_fixed(n);
    lemma_first_occurrences_of_distinct(n);
}

/// An entry of the audit log. Times are Unix timestamps in nanoseconds.
#[derive(Clone, Debug, PartialEq, Eq)]
pub struct AuditLogEntry {
    pub audit_id: u128,
    pub actor_id: u128,
    pub actor_name: String,
    pub action: String,
    pub target_type: String,
    pub target_id: u128,
    pub target_label: String,
    pub before: Option<String>,
    pub after: Option<String>,
    pub ip: Option<String>,
    pub user_agent: Option<String>,
    pub created_at: i128,
}

/// A stored user row of the administration list.
#[derive(Clone, Debug, PartialEq, Eq)]
pub struct AdminUserDbRow {
    pub user_id: u128,
    pub username: String,
    pub nickname: String,
    pub roles: Vec<String>,
    pub disabled: bool,
    pub post_count: i64,
    pub comment_count: i64,
}

/// A stored count as shown: negative counts show as 0.
pub open spec fn shown_count(c: i64) -> usize {
    if c < 0 {
        0
    } else {
        c as usize
    }
}

/// The listed user of a stored row.
pub open spec fn admin_user_of(row: AdminUserDbRow) -> AdminUserRow {
    AdminUserRow {
        user_id: row.user_id,
        username: row.username,
        nickname: row.nickname,
        roles: row.roles,
        disabled: row.disabled,
        post_count: shown_count(row.post_count),
        comment_count: shown_count(row.comment_count),
    }
}

fn count_of(c: i64) -> (r: usize)
    ensures
        r == shown_count(c),
{
    if c < 0 {
        0
    } else {
        #[verifier::truncate]
        (c as usize)
    }
}

impl From<AdminUserDbRow> for AdminUserRow {
    fn from(row: AdminUserDbRow) -> (r: AdminUserRow) {
        AdminUserRow {
            user_id: row.user_id,
            username: row.username,
            nickname: row.nickname,
            roles: row.roles,
            disabled: row.disabled,
            post_count: count_of(row.post_count),
            comment_count: count_of(row.comment_count),
        }
    }
}

impl FromSpecImpl<AdminUserDbRow> for AdminUserRow {
    open spec fn obeys_from_spec() -> bool {
        true
    }

    open spec fn from_spec(row: AdminUserDbRow) -> AdminUserRow {
        admin_user_of(row)
    }
}

/// A stored audit row; its actor and target may be missing.
#[derive(Clone, Debug, PartialEq, Eq)]
pub struct AuditLogDbRow {
    pub audit_id: u128,
    pub actor_id: Option<u128>,
    pub actor_name: Option<String>,
    pub action: String,
    pub target_type: String,
    pub target_id: Option<u128>,
    pub target_label: Option<String>,
    pub before: Option<String>,
    pub after: Option<String>,
    pub ip: Option<String>,
    pub user_agent: Option<String>,
    pub created_at: i128,
}

/// The audit entry of a stored row: a missing actor or target is the nil UUID, a missing
/// actor name is `系统`, and a missing target label is the target's UUID text.
pub open spec fn audit_entry_ok(e: AuditLogEntry, row: AuditLogDbRow) -> bool {
    let target_id = match row.target_id {
        Some(t) => t,
        None => 0u128,
    };
    &&& e.audit_id == row.audit_id
    &&& e.actor_id == (match row.actor_id {
        Some(a) => a,
        None => 0u128,
    })
    &&& e.actor_name@ == (match row.actor_name {
        Some(n) => n@,
        None => "系统"@,
    })
    &&& e.action == row.action
    &&& e.target_type == row.target_type
    &&& e.target_id == target_id
    &&& e.target_label@ == (match row.target_label {
        Some(l) => l@,
        None => uuid_text(target_id),
    })
    &&& e.before == row.before
    &&& e.after == row.after
    &&& e.ip == row.ip
    &&& e.user_agent == row.user_agent
    &&& e.created_at == row.created_at
}

impl AuditLogEntry {
    /// The audit entry of a stored row (see `audit_entry_ok`).
    pub fn from_row(row: AuditLogDbRow) -> (r: AuditLogEntry)
        ensures
            audit_entry_ok(r, row),
    {
        let target_id: u128 = match row.target_id {
            Some(t) => t,
            None => 0,
        };
        AuditLogEntry {
            audit_id: row.audit_id,
            actor_id: match row.actor_id {
                Some(a) => a,
                None => 0,
            },
            actor_name: match row.actor_name {
                Some(n) => n,
                None => owned("系统"),
            },
            action: row.action,
            target_type: row.target_type,
            target_id,
            target_label: match row.target_label {
                Some(l) => l,
                None => uuid_string(target_id),
            },
            before: row.before,
            after: row.after,
            ip: row.ip,
            user_agent: row.user_agent,
            created_at: row.created_at,
        }
    }
}

/// The text of a flag.
pub open spec fn bool_text(b: bool) -> Seq<char> {
    if b {
        "true"@
    } else {
        "false"@
    }
}

/// The audit text of a user: `username=…,disabled=…,roles=` and the roles joined by
/// `|`.
pub open spec fn user_snapshot_text(row: AdminUserRow) -> Seq<char> {
    "username="@ + row.username@ + ",disabled="@ + bool_text(row.disabled) + ",roles="@ + join(
        texts(row.roles@),
        "|"@,
    )
}

/// The audit text of a user (see `user_snapshot_text`).
pub fn snapshot(row: &AdminUserRow) -> (r: String)
    ensures
        r@ == user_snapshot_text(*row),
{
    let mut v: Vec<char> = Vec::new();
    extend_str(&mut v, "username=");
    extend_str(&mut v, row.username.as_str());
    extend_str(&mut v, ",disabled=");
    if row.disabled {
        extend_str(&mut v, "true");
    } else {
        extend_str(&mut v, "false");
    }
    extend_str(&mut v, ",roles=");
    push_joined(&mut v, &row.roles, "|");
    string_from_chars(&v)
}

/// Reading and writing user accounts in storage.
pub struct PostgresUserAdminRepository;

} // verus!
