//! Credentials sent to the user endpoint and the checks on them.
use vstd::prelude::*;

use crate::bridge::{is_word_ascii, regex_is_match};
use crate::text::{char_count, owned};

verus! {

/// A user name and password as sent by a client.
#[derive(Clone, Debug, PartialEq, Eq)]
pub struct UserAuth {
    pub username: String,
    pub password: String,
}

/// The codes of the failed checks on a user name, in the order they are declared: its
/// length must be from 3 to 16 characters (`length`), and it must be made of ASCII letters,
/// digits and `_` (`regex`).
pub open spec fn username_failures(name: Seq<char>) -> Seq<Seq<char>> {
    let length = if 3 <= name.len() <= 16 {
        Seq::<Seq<char>>::empty()
    } else {
        seq!["length"@]
    };
    let pattern = if name.len() > 0 && forall|i: int|
        0 <= i < name.len() ==> is_word_ascii(#[trigger] name[i]) {
        Seq::<Seq<char>>::empty()
    } else {
        seq!["regex"@]
    };
    length + pattern
}

/// The pattern that a user name must match.
pub const USERNAME_PATTERN: &'static str = "^[0-9A-Za-z_]+$";

impl UserAuth {
    /// Checks the user name: `Ok` where no check fails, else the codes of the failed
    /// checks (see `username_failures`).
    pub fn validate(&self) -> (r: Result<(), Vec<&'static str>>)
        ensures
            match r {
                Ok(()) => username_failures(self.username@).len() == 0,
                Err(codes) => codes@.len() > 0 && codes@.map_values(|c: &str| c@)
                    == username_failures(self.username@),
            },
    {
        let mut codes: Vec<&'static str> = Vec::new();
        let n = char_count(self.username.as_str());
        if n < 3 || n > 16 {
            codes.push("length");
        }
        let matched = regex_is_match(USERNAME_PATTERN, self.username.as_str());
        if matched != Some(true) {
            codes.push("regex");
        }
        assert(codes@.map_values(|c: &str| c@) =~= username_failures(self.username@));
        if codes.len() == 0 {
            Ok(())
        } else {
            Err(codes)
        }
    }
}

/// The query that finds a user's identifier by user name.
pub const SELECT_USER_ID_BY_USERNAME: &'static str = "select user_id from \"user\" where username = $1";

/// The outcome of checking credentials once their user name has been looked up: the
/// user's identifier, or the refusal `invalid username or password` where no user has
/// that name.
pub fn verified_user(found: Option<u128>) -> (r: Result<u128, String>)
    ensures
        match found {
            Some(id) => r == Ok::<u128, String>(id),
            None => r matches Err(m) && m@ == "invalid username or password"@,
        },
{
    match found {
        Some(id) => Ok(id),
        None => Err(owned("invalid username or password")),
    }
}

} // verus!
