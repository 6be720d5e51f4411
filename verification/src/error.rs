//! The errors of the forum's operations.
use vstd::prelude::*;

use crate::text::{concat_str, owned};

verus! {

/// Why an operation failed.
#[derive(Clone, Debug, PartialEq, Eq)]
pub enum ForumError {
    Unauthorized,
    Forbidden,
    NotFound,
    Conflict(String),
    Validation(String),
    Internal,
}

/// The message shown for an error.
pub open spec fn error_message(e: ForumError) -> Seq<char> {
    match e {
        ForumError::Unauthorized => "请先登录"@,
        ForumError::Forbidden => "没有权限执行该操作"@,
        ForumError::NotFound => "资源不存在"@,
        ForumError::Conflict(m) => "请求冲突: "@ + m@,
        ForumError::Validation(m) => "请求数据不合法: "@ + m@,
        ForumError::Internal => "服务内部错误"@,
    }
}

impl ForumError {
    /// The message shown for the error (see `error_message`).
    pub fn message(&self) -> (r: String)
        ensures
            r@ == error_message(*self),
    {
        match self {
            ForumError::Unauthorized => owned("请先登录"),
            ForumError::Forbidden => owned("没有权限执行该操作"),
            ForumError::NotFound => owned("资源不存在"),
            ForumError::Conflict(m) => concat_str("请求冲突: ", m.as_str()),
            ForumError::Validation(m) => concat_str("请求数据不合法: ", m.as_str()),
            ForumError::Internal => owned("服务内部错误"),
        }
    }
}

} // verus!
