//! Signed-in users and their sessions, as stored.
use vstd::prelude::*;

use crate::home::clone_opt_string;
use crate::text::str_eq;

verus! {

/// The user a session belongs to.
#[derive(Clone, Debug, PartialEq, Eq)]
pub struct SessionUser {
    pub user_id: u128,
    pub username: String,
    pub nickname: String,
    pub avatar_url: Option<String>,
    pub is_admin: bool,
}

/// A session and its user. Times are Unix timestamps in nanoseconds.
#[derive(Clone, Debug, PartialEq, Eq)]
pub struct Session {
    pub session_id: u128,
    pub user: SessionUser,
    pub expires_at: i128,
}

/// A stored user with its password hash.
#[derive(Clone, Debug, PartialEq, Eq)]
pub struct UserAuthRow {
    pub user_id: u128,
    pub username: String,
    pub password_hash: String,
    pub nickname: String,
    pub avatar_url: Option<String>,
    pub status: String,
    pub is_admin: bool,
}

impl UserAuthRow {
    /// The signed-in user of the row.
    pub fn session_user(&self) -> (r: SessionUser)
        ensures
            r == (SessionUser {
                user_id: self.user_id,
                username: self.username,
                nickname: self.nickname,
                avatar_url: self.avatar_url,
                is_admin: self.is_admin,
            }),
    {
        SessionUser {
            user_id: self.user_id,
            username: self.username.clone(),
            nickname: self.nickname.clone(),
            avatar_url: clone_opt_string(&self.avatar_url),
            is_admin: self.is_admin,
        }
    }

    /// Whether the account is disabled: its status is `disabled`.
    pub fn is_disabled(&self) -> (b: bool)
        ensures
            b == (self.status@ == "disabled"@),
    {
        str_eq(self.status.as_str(), "disabled")
    }
}

/// A stored session joined with its user.
#[derive(Clone, Debug, PartialEq, Eq)]
pub struct SessionAuthRow {
    pub session_id: u128,
    pub user_id: u128,
    pub username: String,
    pub nickname: String,
    pub avatar_url: Option<String>,
    pub status: String,
    pub is_admin: bool,
    pub expires_at: i128,
}

impl SessionAuthRow {
    /// The signed-in user of the row.
    pub fn session_user(&self) -> (r: SessionUser)
        ensures
            r == (SessionUser {
                user_id: self.user_id,
                username: self.username,
                nickname: self.nickname,
                avatar_url: self.avatar_url,
                is_admin: self.is_admin,
            }),
    {
        SessionUser {
            user_id: self.user_id,
            username: self.username.clone(),
            nickname: self.nickname.clone(),
            avatar_url: clone_opt_string(&self.avatar_url),
            is_admin: self.is_admin,
        }
    }

    /// The session of the row.
    pub fn session(&self) -> (r: Session)
        ensures
            r.session_id == self.session_id,
            r.user == self.session_user_spec(),
            r.expires_at == self.expires_at,
    {
        Session { session_id: self.session_id, user: self.session_user(), expires_at: self.expires_at }
    }

    /// The signed-in user of the row.
    pub open spec fn session_user_spec(&self) -> SessionUser {
        SessionUser {
            user_id: self.user_id,
            username: self.username,
            nickname: self.nickname,
            avatar_url: self.avatar_url,
            is_admin: self.is_admin,
        }
    }

    /// Whether the account is disabled: its status is `disabled`.
    pub fn is_disabled(&self) -> (b: bool)
        ensures
            b == (self.status@ == "disabled"@),
    {
        str_eq(self.status.as_str(), "disabled")
    }
}

/// The query that reads an account by user name.
pub const FIND_USER_BY_USERNAME_SQL: &'static str = r#"
select
    user_id,
    username,
    password_hash,
    nickname,
    avatar_url,
    status,
    is_admin
from users
where username = $1
limit 1
"#;

/// The query that reads an account by identifier.
pub const FIND_USER_BY_ID_SQL: &'static str = r#"
select
    user_id,
    username,
    password_hash,
    nickname,
    avatar_url,
    status,
    is_admin
from users
where user_id = $1
limit 1
"#;

/// The query that creates an account.
pub const INSERT_USER_SQL: &'static str = r#"
insert into users (
    user_id,
    username,
    password_hash,
    nickname,
    avatar_url,
    is_admin
)
values ($1, $2, $3, $4, $5, $6)
returning
    user_id,
    username,
    password_hash,
    nickname,
    avatar_url,
    status,
    is_admin
"#;

/// The query that creates a session.
pub const INSERT_SESSION_SQL: &'static str = r#"
insert into sessions (
    session_id,
    user_id,
    token_hash,
    expires_at
)
values ($1, $2, $3, $4)
"#;

/// The query that reads a session with its user.
pub const FIND_SESSION_SQL: &'static str = r#"
select
    s.session_id,
    u.user_id,
    u.username,
    u.nickname,
    u.avatar_url,
    u.status,
    u.is_admin,
    s.expires_at
from sessions s
join users u on u.user_id = s.user_id
where s.session_id = $1
limit 1
"#;

/// The query that deletes a session.
pub const DELETE_SESSION_SQL: &'static str = r#"
delete from sessions
where session_id = $1
"#;

/// Reading and writing accounts and sessions in storage.
pub struct PostgresAuthRepository;

impl PostgresAuthRepository {
    /// The query that reads an account by user name.
    pub fn find_user_by_username_sql() -> (r: &'static str)
        ensures
            r@ == FIND_USER_BY_USERNAME_SQL@,
    {
        FIND_USER_BY_USERNAME_SQL
    }

    /// The query that reads an account by identifier.
    pub fn find_user_by_id_sql() -> (r: &'static str)
        ensures
            r@ == FIND_USER_BY_ID_SQL@,
    {
        FIND_USER_BY_ID_SQL
    }

    /// The query that creates an account.
    pub fn insert_user_sql() -> (r: &'static str)
        ensures
            r@ == INSERT_USER_SQL@,
    {
        INSERT_USER_SQL
    }

    /// The query that creates a session.
    pub fn insert_session_sql() -> (r: &'static str)
        ensures
            r@ == INSERT_SESSION_SQL@,
    {
        INSERT_SESSION_SQL
    }

    /// The query that reads a session with its user.
    pub fn find_session_sql() -> (r: &'static str)
        ensures
            r@ == FIND_SESSION_SQL@,
    {
        FIND_SESSION_SQL
    }

    /// The query that deletes a session.
    pub fn delete_session_sql() -> (r: &'static str)
        ensures
            r@ == DELETE_SESSION_SQL@,
    {
        DELETE_SESSION_SQL
    }
}

} // verus!
